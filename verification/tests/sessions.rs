use pasteboard::context::OSXClipboardContext;
use pasteboard::error::ClipboardError;
use pasteboard::read::{ReadAction, ReadEvent, ReadState};
use pasteboard::write::{WriteAction, WriteEvent, WriteState};

/// A pasteboard in memory that answers as the system's does, and counts
/// the text objects and buffers it has handed out and got back.
struct Board {
    text: Option<String>,
    image: bool,
    accepts: bool,
    texts_out: u64,
    texts_back: u64,
    requests: Vec<&'static str>,
}

fn board() -> Board {
    Board { text: None, image: false, accepts: true, texts_out: 0, texts_back: 0, requests: Vec::new() }
}

fn context() -> OSXClipboardContext<u32> {
    OSXClipboardContext::new(true, Some(1)).unwrap()
}

fn read(context: &mut OSXClipboardContext<u32>, board: &mut Board) -> Result<String, ClipboardError> {
    let mut state = ReadState::Start;
    let mut event = ReadEvent::Started;
    loop {
        let (next, action) = context.get_contents(state, event).unwrap();
        state = next;
        event = match action {
            ReadAction::QueryText => {
                board.requests.push("text");
                if board.text.is_some() {
                    board.texts_out += 1;
                }
                ReadEvent::TextQueried { present: board.text.is_some() }
            }
            ReadAction::QueryLength => {
                board.requests.push("length");
                ReadEvent::LengthQueried { len: board.text.as_ref().unwrap().len() }
            }
            ReadAction::FillBuffer { capacity } => {
                board.requests.push("fill");
                let bytes = board.text.as_ref().unwrap().as_bytes();
                let mut buffer = vec![0xAAu8; capacity];
                let ok = bytes.len() < capacity;
                if ok {
                    buffer[..bytes.len()].copy_from_slice(bytes);
                    buffer[bytes.len()] = 0;
                }
                ReadEvent::BufferFilled { ok, buffer }
            }
            ReadAction::Finish { release_text, result } => {
                assert_eq!(state, ReadState::Done);
                if release_text {
                    board.texts_back += 1;
                }
                return result;
            }
        };
    }
}

fn write(
    context: &mut OSXClipboardContext<u32>,
    board: &mut Board,
    data: &str,
) -> Result<(), ClipboardError> {
    let mut state = WriteState::Start { data: String::from(data) };
    let mut event = WriteEvent::Started;
    loop {
        let (next, action) = context.set_contents(state, event).unwrap();
        state = next;
        event = match action {
            WriteAction::ClearContents => {
                board.requests.push("clear");
                board.text = None;
                board.image = false;
                WriteEvent::Cleared
            }
            WriteAction::WriteObjects { text } => {
                board.requests.push("write");
                if board.accepts {
                    board.text = Some(text);
                }
                WriteEvent::Written { accepted: board.accepts }
            }
            WriteAction::Finish { result } => {
                assert_eq!(state, WriteState::Done);
                return result;
            }
        };
    }
}

#[test]
fn written_text_is_read_back() {
    let mut context = context();
    let mut board = board();
    for text in ["héllo 🌍", "", "x", "plain", "line\nbreak\ttab", "日本語のテキスト"] {
        assert_eq!(write(&mut context, &mut board, text), Ok(()));
        assert_eq!(read(&mut context, &mut board), Ok(String::from(text)));
    }
}

#[test]
fn text_of_boundary_lengths_is_read_back_whole() {
    let mut context = context();
    let mut board = board();
    for n in [0usize, 1, 2, 4095, 4096, 4097, 65536] {
        let text = "z".repeat(n);
        assert_eq!(write(&mut context, &mut board, &text), Ok(()));
        let back = read(&mut context, &mut board).unwrap();
        assert_eq!(back.len(), n);
        assert_eq!(back, text);
    }
}

#[test]
fn text_is_cut_at_an_embedded_nul() {
    let mut context = context();
    let mut board = board();
    assert_eq!(write(&mut context, &mut board, "a\0b"), Ok(()));
    assert_eq!(read(&mut context, &mut board), Ok(String::from("a")));
}

#[test]
fn two_reads_in_a_row_agree() {
    let mut context = context();
    let mut board = board();
    write(&mut context, &mut board, "same").unwrap();
    let first = read(&mut context, &mut board);
    let second = read(&mut context, &mut board);
    assert_eq!(first, Ok(String::from("same")));
    assert_eq!(second, first);
    assert_eq!(board.text.as_deref(), Some("same"));
}

#[test]
fn a_write_replaces_everything() {
    let mut context = context();
    let mut board = board();
    board.image = true;
    board.text = Some(String::from("old"));
    assert_eq!(write(&mut context, &mut board, "new"), Ok(()));
    assert!(!board.image);
    assert_eq!(read(&mut context, &mut board), Ok(String::from("new")));
}

#[test]
fn the_last_write_wins() {
    let mut context = context();
    let mut board = board();
    write(&mut context, &mut board, "first, and longer").unwrap();
    write(&mut context, &mut board, "second").unwrap();
    assert_eq!(read(&mut context, &mut board), Ok(String::from("second")));
}

#[test]
fn an_empty_pasteboard_has_no_text() {
    let mut context = context();
    let mut board = board();
    assert_eq!(read(&mut context, &mut board), Err(ClipboardError::NoTextContent));
    assert_eq!(board.requests, vec!["text"]);
}

#[test]
fn an_image_is_no_text() {
    let mut context = context();
    let mut board = board();
    board.image = true;
    assert_eq!(read(&mut context, &mut board), Err(ClipboardError::NoTextContent));
}

#[test]
fn a_declined_write_leaves_the_pasteboard_cleared() {
    let mut context = context();
    let mut board = board();
    board.text = Some(String::from("old"));
    board.image = true;
    board.accepts = false;
    assert_eq!(write(&mut context, &mut board, "new"), Err(ClipboardError::WriteRejected));
    assert_eq!(board.text, None);
    assert!(!board.image);
    assert_eq!(read(&mut context, &mut board), Err(ClipboardError::NoTextContent));
}

#[test]
fn the_clear_comes_before_the_write() {
    let mut context = context();
    let mut board = board();
    write(&mut context, &mut board, "text").unwrap();
    assert_eq!(board.requests, vec!["clear", "write"]);
}

#[test]
fn a_read_asks_for_text_length_and_fill_in_turn() {
    let mut context = context();
    let mut board = board();
    board.text = Some(String::from("text"));
    read(&mut context, &mut board).unwrap();
    assert_eq!(board.requests, vec!["text", "length", "fill"]);
}

#[test]
fn ten_thousand_rounds_release_every_text_object() {
    let mut context = context();
    let mut board = board();
    for round in 0..10_000u32 {
        let text = format!("round {round} ✓");
        assert_eq!(write(&mut context, &mut board, &text), Ok(()));
        assert_eq!(read(&mut context, &mut board), Ok(text));
        board.requests.clear();
    }
    assert_eq!(board.texts_out, 10_000);
    assert_eq!(board.texts_back, 10_000);
}

#[test]
fn reads_without_text_release_nothing() {
    let mut context = context();
    let mut board = board();
    for _ in 0..100 {
        assert_eq!(read(&mut context, &mut board), Err(ClipboardError::NoTextContent));
    }
    assert_eq!(board.texts_out, 0);
    assert_eq!(board.texts_back, 0);
}
