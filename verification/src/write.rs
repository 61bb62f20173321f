//! Writing text: clear the pasteboard, then hand it the new text.
//!
//! The pasteboard replaces its whole content on a write, whatever kind of
//! content it held: the binding first has it cleared and only then writes a
//! collection of one text object.
use vstd::prelude::*;
use crate::error::ClipboardError;

verus! {

/// How far a write has come. `T` is the text: `String` in running code,
/// `Seq<char>` in contracts. The state holds the text until it has
/// been handed over.
#[derive(Debug, PartialEq, Eq)]
pub enum WriteState<T> {
    /// Nothing was asked yet; `data` is the text to write.
    Start { data: T },
    /// The pasteboard was asked to clear its content.
    AwaitClear { data: T },
    /// The pasteboard was handed the text.
    AwaitWrite,
    /// The write is over.
    Done,
}

/// What the pasteboard service answered.
#[derive(Clone, Copy, Debug, PartialEq, Eq, Structural)]
pub enum WriteEvent {
    /// The write begins.
    Started,
    /// The pasteboard has cleared its content.
    Cleared,
    /// The pasteboard was handed the new content; `accepted` is what it
    /// reported.
    Written { accepted: bool },
}

/// What the caller is to do next.
#[derive(Debug, PartialEq, Eq)]
pub enum WriteAction<T> {
    /// Have the pasteboard clear all of its content.
    ClearContents,
    /// Make a text object of `text` and write the collection that holds it,
    /// and nothing else, as the pasteboard's new content.
    WriteObjects { text: T },
    /// Return `result`.
    Finish { result: Result<(), ClipboardError> },
}

impl<T: View> View for WriteState<T> {
    type V = WriteState<T::V>;

    open spec fn view(&self) -> WriteState<T::V> {
        match *self {
            WriteState::Start { data } => WriteState::Start { data: data@ },
            WriteState::AwaitClear { data } => WriteState::AwaitClear { data: data@ },
            WriteState::AwaitWrite => WriteState::AwaitWrite,
            WriteState::Done => WriteState::Done,
        }
    }
}

impl<T: View> View for WriteAction<T> {
    type V = WriteAction<T::V>;

    open spec fn view(&self) -> WriteAction<T::V> {
        match *self {
            WriteAction::ClearContents => WriteAction::ClearContents,
            WriteAction::WriteObjects { text } => WriteAction::WriteObjects { text: text@ },
            WriteAction::Finish { result } => WriteAction::Finish { result },
        }
    }
}

/// One step of a write: the state after `event` and the action it calls
/// for, or `None` where `event` is no answer to what was asked in `state`.
///
/// The text is handed over only in answer to `Cleared`, so the clear comes
/// before the write. A write that the pasteboard declines ends with
/// `WriteRejected`; the content stays cleared.
pub open spec fn write_step(state: WriteState<Seq<char>>, event: WriteEvent) -> Option<
    (WriteState<Seq<char>>, WriteAction<Seq<char>>),
> {
    match (state, event) {
        (WriteState::Start { data }, WriteEvent::Started) => Some(
            (WriteState::AwaitClear { data }, WriteAction::ClearContents),
        ),
        (WriteState::AwaitClear { data }, WriteEvent::Cleared) => Some(
            (WriteState::AwaitWrite, WriteAction::WriteObjects { text: data }),
        ),
        (WriteState::AwaitWrite, WriteEvent::Written { accepted }) => Some(
            (
                WriteState::Done,
                WriteAction::Finish {
                    result: if accepted {
                        Ok(())
                    } else {
                        Err(ClipboardError::WriteRejected)
                    },
                },
            ),
        ),
        _ => None,
    }
}

/// A step of running code as the contracts see it.
pub open spec fn write_step_view(step: Option<(WriteState<String>, WriteAction<String>)>) -> Option<
    (WriteState<Seq<char>>, WriteAction<Seq<char>>),
> {
    match step {
        Some((state, action)) => Some((state@, action@)),
        None => None,
    }
}

/// The clear comes before the write. The text is handed over in answer to
/// `Cleared` and to nothing else, it is the text the write began with, and
/// the state that waits for `Cleared` is entered only by asking for the
/// clear. A write that is over takes no further step.
pub proof fn lemma_clear_precedes_write(state: WriteState<Seq<char>>, event: WriteEvent)
    ensures
        state is Done ==> write_step(state, event) is None,
        write_step(state, event) matches Some((next, action)) ==> {
            &&& next is AwaitClear <==> action is ClearContents
            &&& action is WriteObjects <==> event == WriteEvent::Cleared
            &&& action matches WriteAction::WriteObjects { text } ==> state
                == WriteState::AwaitClear { data: text }
            &&& action is Finish <==> next is Done
        },
{
}

} // verus!
