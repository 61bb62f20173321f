//! Reading text: the requests the binding puts to the pasteboard, one at a
//! time, and what it makes of each reply.
//!
//! A read asks for the pasteboard's plain-text object, then for its length
//! in UTF-8 bytes, then has it fill a buffer of that length plus one, and
//! decodes the buffer. The caller performs each [`ReadAction`] and hands the
//! reply back as a [`ReadEvent`].
use vstd::prelude::*;
use crate::error::ClipboardError;
use crate::transcode::{capacity_for, transcoded};

verus! {

/// The identifier of UTF-8 among the string encodings of Foundation. The
/// text object's length is asked for, and the buffer filled, in this
/// encoding and in no other.
pub const NS_UTF8_STRING_ENCODING: usize = 4;

/// How far a read has come.
#[derive(Clone, Copy, Debug, PartialEq, Eq, Structural)]
pub enum ReadState {
    /// Nothing was asked yet.
    Start,
    /// The text object was asked for.
    AwaitText,
    /// The text object is held; its UTF-8 length was asked for.
    AwaitLength,
    /// The text object is held; it was asked to fill the buffer.
    AwaitFill,
    /// The read is over.
    Done,
}

/// What the pasteboard service answered. `B` is the filled buffer: `Vec<u8>`
/// in running code, `Seq<u8>` in contracts.
#[derive(Debug, PartialEq, Eq)]
pub enum ReadEvent<B> {
    /// The read begins.
    Started,
    /// The pasteboard was asked for its plain-text object; `present` is
    /// false where it answered with null.
    TextQueried { present: bool },
    /// The text object takes `len` bytes in UTF-8, terminator not counted.
    LengthQueried { len: usize },
    /// The text object was asked to write itself into `buffer`; `ok` is
    /// what it reported.
    BufferFilled { ok: bool, buffer: B },
}

/// What the caller is to do next. `T` is the text read: `String` in running
/// code, `Seq<char>` in contracts.
#[derive(Debug, PartialEq, Eq)]
pub enum ReadAction<T> {
    /// Ask the pasteboard for its content of the plain-text type.
    QueryText,
    /// Ask the text object for its length in bytes in the encoding
    /// [`NS_UTF8_STRING_ENCODING`].
    QueryLength,
    /// Have the text object write itself, in that encoding and with a NUL
    /// terminator, into a buffer of `capacity` bytes.
    FillBuffer { capacity: usize },
    /// Release the text object where `release_text` says so, then return
    /// `result`. The buffer needs no release: it was given up with the
    /// event that carried it.
    Finish { release_text: bool, result: Result<T, ClipboardError> },
}

impl<B: View> View for ReadEvent<B> {
    type V = ReadEvent<B::V>;

    open spec fn view(&self) -> ReadEvent<B::V> {
        match *self {
            ReadEvent::Started => ReadEvent::Started,
            ReadEvent::TextQueried { present } => ReadEvent::TextQueried { present },
            ReadEvent::LengthQueried { len } => ReadEvent::LengthQueried { len },
            ReadEvent::BufferFilled { ok, buffer } => ReadEvent::BufferFilled { ok, buffer: buffer@ },
        }
    }
}

impl<T: View> View for ReadAction<T> {
    type V = ReadAction<T::V>;

    open spec fn view(&self) -> ReadAction<T::V> {
        match *self {
            ReadAction::QueryText => ReadAction::QueryText,
            ReadAction::QueryLength => ReadAction::QueryLength,
            ReadAction::FillBuffer { capacity } => ReadAction::FillBuffer { capacity },
            ReadAction::Finish { release_text, result } => ReadAction::Finish {
                release_text,
                result: match result {
                    Ok(text) => Ok(text@),
                    Err(e) => Err(e),
                },
            },
        }
    }
}

/// One step of a read: the state after `event` and the action it calls for,
/// or `None` where `event` is no answer to what was asked in `state`.
///
/// - The pasteboard holds no text: the read ends with `NoTextContent`, and
///   there is no text object to release.
/// - The length does not leave room for a terminator, or the fill reports
///   failure: the read ends with `EncodingConversionFailed`.
/// - Once a text object is held, every end of the read releases it.
pub open spec fn read_step(state: ReadState, event: ReadEvent<Seq<u8>>) -> Option<
    (ReadState, ReadAction<Seq<char>>),
> {
    match (state, event) {
        (ReadState::Start, ReadEvent::Started) => Some((ReadState::AwaitText, ReadAction::QueryText)),
        (ReadState::AwaitText, ReadEvent::TextQueried { present }) => if present {
            Some((ReadState::AwaitLength, ReadAction::QueryLength))
        } else {
            Some(
                (
                    ReadState::Done,
                    ReadAction::Finish {
                        release_text: false,
                        result: Err(ClipboardError::NoTextContent),
                    },
                ),
            )
        },
        (ReadState::AwaitLength, ReadEvent::LengthQueried { len }) => match capacity_for(len) {
            Some(capacity) => Some((ReadState::AwaitFill, ReadAction::FillBuffer { capacity })),
            None => Some(
                (
                    ReadState::Done,
                    ReadAction::Finish {
                        release_text: true,
                        result: Err(ClipboardError::EncodingConversionFailed),
                    },
                ),
            ),
        },
        (ReadState::AwaitFill, ReadEvent::BufferFilled { ok, buffer }) => Some(
            (
                ReadState::Done,
                ReadAction::Finish { release_text: true, result: transcoded(ok, buffer) },
            ),
        ),
        _ => None,
    }
}

/// A step of running code as the contracts see it.
pub open spec fn read_step_view(step: Option<(ReadState, ReadAction<String>)>) -> Option<
    (ReadState, ReadAction<Seq<char>>),
> {
    match step {
        Some((state, action)) => Some((state, action@)),
        None => None,
    }
}

/// True in the states in which the binding holds a text object that it
/// has yet to release.
pub open spec fn holds_text(state: ReadState) -> bool {
    state == ReadState::AwaitLength || state == ReadState::AwaitFill
}

/// A text object is held from the reply that brought it to the end of the
/// read, and is released there: a read that ends releases the text object
/// exactly when it holds one, whatever was answered on the way. A read
/// that is over takes no further step.
pub proof fn lemma_read_releases_text(state: ReadState, event: ReadEvent<Seq<u8>>)
    ensures
        state == ReadState::Done ==> read_step(state, event) is None,
        read_step(state, event) matches Some((next, action)) ==> match action {
            ReadAction::Finish { release_text, result } => next == ReadState::Done && release_text
                == holds_text(state),
            _ => next != ReadState::Done && holds_text(next) == (holds_text(state) || event
                == ReadEvent::<Seq<u8>>::TextQueried { present: true }),
        },
{
}

} // verus!
