//! The pasteboard as the binding takes it to behave, and what a read and a
//! write come to when every request is answered that way.
//!
//! Nothing here runs. [`Pasteboard`] says what the service holds,
//! [`answer_read`] and [`answer_write`] what it answers, and the proofs
//! state what the binding promises of a service that answers so.
use vstd::prelude::*;
use vstd::utf8::*;
use crate::error::ClipboardError;
use crate::read::{read_step, ReadAction, ReadEvent, ReadState};
use crate::transcode::{
    before_nul, capacity_for, has_no_nul, holds_c_string, lemma_before_nul, lemma_c_string_cut,
    lemma_c_string_round_trip, payload,
};
use crate::write::{write_step, WriteAction, WriteEvent, WriteState};

verus! {

/// What the pasteboard holds.
pub struct Pasteboard {
    /// Its content of the plain-text type, if it has any.
    pub text: Option<Seq<char>>,
    /// Whether it holds content of another type: an image, a file.
    pub other_content: bool,
}

/// The pasteboard with nothing on it.
pub open spec fn empty_pasteboard() -> Pasteboard {
    Pasteboard { text: None, other_content: false }
}

/// The UTF-8 bytes of the pasteboard's text; none where it holds no text.
pub open spec fn text_bytes(board: Pasteboard) -> Seq<u8> {
    match board.text {
        Some(text) => encode_utf8(text),
        None => Seq::empty(),
    }
}

/// A buffer of `capacity` zero bytes after `bytes` were written to its
/// start, as far as they fit.
pub open spec fn written_buffer(bytes: Seq<u8>, capacity: usize) -> Seq<u8> {
    Seq::new(
        capacity as nat,
        |i: int|
            if i < bytes.len() {
                bytes[i]
            } else {
                0u8
            },
    )
}

/// The service's answer to a request of a read. No such request changes
/// what the pasteboard holds. A fill succeeds where the buffer has room for
/// the text's bytes and the terminator. `Finish` asks nothing of the
/// service: the answer given for it is never looked at.
pub open spec fn answer_read(board: Pasteboard, action: ReadAction<Seq<char>>) -> (
    Pasteboard,
    ReadEvent<Seq<u8>>,
) {
    let event = match action {
        ReadAction::QueryText => ReadEvent::TextQueried { present: board.text is Some },
        ReadAction::QueryLength => ReadEvent::LengthQueried {
            len: text_bytes(board).len() as usize,
        },
        ReadAction::FillBuffer { capacity } => ReadEvent::BufferFilled {
            ok: text_bytes(board).len() < capacity,
            buffer: written_buffer(text_bytes(board), capacity),
        },
        ReadAction::Finish { .. } => ReadEvent::Started,
    };
    (board, event)
}

/// The service's answer to a request of a write. A clear removes content
/// of every type. A write of one text object sets the text where the
/// service accepts it, and changes nothing where it declines. `Finish` asks
/// nothing of the service.
pub open spec fn answer_write(
    board: Pasteboard,
    action: WriteAction<Seq<char>>,
    accepts: bool,
) -> (Pasteboard, WriteEvent) {
    match action {
        WriteAction::ClearContents => (empty_pasteboard(), WriteEvent::Cleared),
        WriteAction::WriteObjects { text } => if accepts {
            (
                Pasteboard { text: Some(text), other_content: board.other_content },
                WriteEvent::Written { accepted: true },
            )
        } else {
            (board, WriteEvent::Written { accepted: false })
        },
        WriteAction::Finish { .. } => (board, WriteEvent::Started),
    }
}

/// Runs a read from `state` on, at most `fuel` steps: the pasteboard after
/// it and its result, or `None` where it did not finish.
pub open spec fn run_read(
    board: Pasteboard,
    state: ReadState,
    event: ReadEvent<Seq<u8>>,
    fuel: nat,
) -> Option<(Pasteboard, Result<Seq<char>, ClipboardError>)>
    decreases fuel,
{
    if fuel == 0 {
        None
    } else {
        match read_step(state, event) {
            None => None,
            Some((next, action)) => match action {
                ReadAction::Finish { release_text, result } => Some((board, result)),
                _ => {
                    let (after, reply) = answer_read(board, action);
                    run_read(after, next, reply, (fuel - 1) as nat)
                },
            },
        }
    }
}

/// Runs a write from `state` on, at most `fuel` steps, against a service
/// that accepts new content or declines it as `accepts` says.
pub open spec fn run_write(
    board: Pasteboard,
    state: WriteState<Seq<char>>,
    event: WriteEvent,
    accepts: bool,
    fuel: nat,
) -> Option<(Pasteboard, Result<(), ClipboardError>)>
    decreases fuel,
{
    if fuel == 0 {
        None
    } else {
        match write_step(state, event) {
            None => None,
            Some((next, action)) => match action {
                WriteAction::Finish { result } => Some((board, result)),
                _ => {
                    let (after, reply) = answer_write(board, action, accepts);
                    run_write(after, next, reply, accepts, (fuel - 1) as nat)
                },
            },
        }
    }
}

/// A whole read: four steps at most.
pub open spec fn read_text(board: Pasteboard) -> Option<
    (Pasteboard, Result<Seq<char>, ClipboardError>),
> {
    run_read(board, ReadState::Start, ReadEvent::Started, 4)
}

/// A whole write of `text`: three steps.
pub open spec fn write_text(board: Pasteboard, text: Seq<char>, accepts: bool) -> Option<
    (Pasteboard, Result<(), ClipboardError>),
> {
    run_write(board, WriteState::Start { data: text }, WriteEvent::Started, accepts, 3)
}

/// The binding asks for a buffer of one byte more than the text's bytes.
/// A buffer of that size, or a larger one, is well filled: it starts with
/// all of the text's bytes and the terminator follows them, so that a text
/// without U+0000 is taken from it whole. A smaller buffer is not.
pub proof fn lemma_buffer_sizing(text: Seq<char>, capacity: usize)
    requires
        encode_utf8(text).len() < usize::MAX,
    ensures
        capacity_for(encode_utf8(text).len() as usize) == Some(
            (encode_utf8(text).len() + 1) as usize,
        ),
        written_buffer(encode_utf8(text), capacity).len() == capacity,
        capacity > encode_utf8(text).len() <==> holds_c_string(
            written_buffer(encode_utf8(text), capacity),
            text,
        ),
        capacity > encode_utf8(text).len() && has_no_nul(text) ==> payload(
            written_buffer(encode_utf8(text), capacity),
        ) == encode_utf8(text),
{
    let bytes = encode_utf8(text);
    let n = bytes.len() as int;
    let buffer = written_buffer(bytes, capacity);
    if capacity > n {
        assert(buffer.subrange(0, n) =~= bytes);
        if has_no_nul(text) {
            lemma_c_string_round_trip(text, buffer);
        }
    }
}

/// Every read finishes, and leaves the pasteboard as it found it.
pub proof fn lemma_read_finishes(board: Pasteboard)
    ensures
        read_text(board) is Some,
        read_text(board)->Some_0.0 == board,
{
    reveal_with_fuel(run_read, 5);
}

/// A read of a pasteboard without text ends with `NoTextContent`, whether
/// the pasteboard holds nothing or content of another type: no empty text
/// is made up.
pub proof fn lemma_read_without_text(board: Pasteboard)
    requires
        board.text is None,
    ensures
        read_text(board) == Some(
            (board, Err::<Seq<char>, ClipboardError>(ClipboardError::NoTextContent)),
        ),
{
    reveal_with_fuel(run_read, 5);
}

/// Once the pasteboard is cleared, whatever it held, and nothing is
/// written, a read ends with `NoTextContent`.
pub proof fn lemma_read_after_clear(board: Pasteboard, accepts: bool)
    ensures
        answer_write(board, WriteAction::ClearContents, accepts).0 == empty_pasteboard(),
        read_text(empty_pasteboard()) == Some(
            (empty_pasteboard(), Err::<Seq<char>, ClipboardError>(ClipboardError::NoTextContent)),
        ),
{
    lemma_read_without_text(empty_pasteboard());
}

/// A read of a pasteboard that holds a text returns it up to its first
/// U+0000: all of it where it holds none.
pub proof fn lemma_read_returns_text(board: Pasteboard, text: Seq<char>)
    requires
        board.text == Some(text),
        encode_utf8(text).len() < usize::MAX,
    ensures
        read_text(board) == Some((board, Ok::<Seq<char>, ClipboardError>(before_nul(text)))),
        has_no_nul(text) ==> read_text(board) == Some(
            (board, Ok::<Seq<char>, ClipboardError>(text)),
        ),
{
    reveal_with_fuel(run_read, 5);
    let n = encode_utf8(text).len();
    let capacity = (n + 1) as usize;
    lemma_buffer_sizing(text, capacity);
    let filled = answer_read(board, ReadAction::FillBuffer { capacity }).1;
    let buffer = written_buffer(encode_utf8(text), capacity);
    assert(filled == ReadEvent::BufferFilled { ok: true, buffer });
    lemma_c_string_cut(text, buffer);
    lemma_before_nul(text);
}

/// Two reads in a row, with nothing written between them, return the same.
pub proof fn lemma_read_twice(board: Pasteboard)
    ensures
        read_text(board) matches Some((after, first)) && read_text(after) == Some((after, first)),
{
    lemma_read_finishes(board);
}

/// A write replaces the whole content: whatever the pasteboard held, text
/// or not, it then holds the new text and nothing else.
pub proof fn lemma_write_replaces(board: Pasteboard, text: Seq<char>)
    ensures
        write_text(board, text, true) == Some(
            (Pasteboard { text: Some(text), other_content: false }, Ok::<(), ClipboardError>(())),
        ),
{
    reveal_with_fuel(run_write, 4);
}

/// A write that the service declines ends with `WriteRejected` and leaves
/// the pasteboard cleared: what it held before is gone, and a read finds no
/// text.
pub proof fn lemma_declined_write_clears(board: Pasteboard, text: Seq<char>)
    ensures
        write_text(board, text, false) == Some(
            (empty_pasteboard(), Err::<(), ClipboardError>(ClipboardError::WriteRejected)),
        ),
        read_text(empty_pasteboard()) == Some(
            (empty_pasteboard(), Err::<Seq<char>, ClipboardError>(ClipboardError::NoTextContent)),
        ),
{
    reveal_with_fuel(run_write, 4);
    lemma_read_without_text(empty_pasteboard());
}

/// A text without U+0000 that is written is read back unchanged, whatever
/// was on the pasteboard before.
pub proof fn lemma_write_then_read(board: Pasteboard, text: Seq<char>)
    requires
        has_no_nul(text),
        encode_utf8(text).len() < usize::MAX,
    ensures
        write_text(board, text, true) matches Some((written, done)) && done is Ok && read_text(
            written,
        ) == Some((written, Ok::<Seq<char>, ClipboardError>(text))),
{
    lemma_write_replaces(board, text);
    lemma_read_returns_text(Pasteboard { text: Some(text), other_content: false }, text);
}

/// Of two writes in a row only the second is left to read.
pub proof fn lemma_last_write_wins(board: Pasteboard, earlier: Seq<char>, text: Seq<char>)
    requires
        has_no_nul(text),
        encode_utf8(text).len() < usize::MAX,
    ensures
        write_text(board, earlier, true) matches Some((between, _)) && write_text(
            between,
            text,
            true,
        ) matches Some((written, _)) && written == (Pasteboard {
            text: Some(text),
            other_content: false,
        }) && read_text(written) == Some((written, Ok::<Seq<char>, ClipboardError>(text))),
{
    lemma_write_replaces(board, earlier);
    let between = Pasteboard { text: Some(earlier), other_content: false };
    lemma_write_then_read(between, text);
    lemma_write_replaces(between, text);
}

} // verus!
