//! The binding's context: the handle of the general pasteboard, and the
//! steps of a read and of a write.
use vstd::prelude::*;
use crate::error::ClipboardError;
use crate::read::{read_step, read_step_view, ReadAction, ReadEvent, ReadState};
use crate::transcode::nsstring_to_rust_string;
use crate::write::{write_step, write_step_view, WriteAction, WriteEvent, WriteState};

verus! {

/// The binding to the general pasteboard. It owns the one handle it was
/// made with, and gives it up when it is dropped. `H` is the handle's type:
/// the library keeps it and never looks inside.
pub struct OSXClipboardContext<H> {
    pasteboard: H,
}

/// What the two lookups of a construction come to: the handle, or the
/// error of the first lookup that found nothing.
pub open spec fn resolved<H>(class_resolved: bool, handle: Option<H>) -> Result<H, ClipboardError> {
    if !class_resolved {
        Err(ClipboardError::PlatformUnsupported)
    } else {
        match handle {
            Some(h) => Ok(h),
            None => Err(ClipboardError::ServiceUnavailable),
        }
    }
}

impl<H> OSXClipboardContext<H> {
    /// The handle that the context owns.
    pub closed spec fn handle(&self) -> H {
        self.pasteboard
    }

    /// Makes the context from what the two lookups gave: whether the
    /// runtime knows the pasteboard class, and the handle of the general
    /// pasteboard, which is asked for only where the class is known.
    pub fn new(class_resolved: bool, handle: Option<H>) -> (context: Result<Self, ClipboardError>)
        ensures
            match resolved(class_resolved, handle) {
                Ok(h) => context is Ok && context->Ok_0.handle() == h,
                Err(e) => context is Err && context->Err_0 == e,
            },
    {
        if !class_resolved {
            return Err(ClipboardError::PlatformUnsupported);
        }
        match handle {
            Some(pasteboard) => Ok(OSXClipboardContext { pasteboard }),
            None => Err(ClipboardError::ServiceUnavailable),
        }
    }

    /// The handle, for the requests that a read or a write calls for.
    pub fn pasteboard(&self) -> (handle: &H)
        ensures
            *handle == self.handle(),
    {
        &self.pasteboard
    }

    /// Takes a read one step on: see [`read_step`]. The context is borrowed
    /// for the step alone, and the handle stays as it is.
    pub fn get_contents(&mut self, state: ReadState, event: ReadEvent<Vec<u8>>) -> (step: Option<
        (ReadState, ReadAction<String>),
    >)
        ensures
            read_step_view(step) == read_step(state, event@),
            final(self).handle() == old(self).handle(),
    {
        match (state, event) {
            (ReadState::Start, ReadEvent::Started) => Some(
                (ReadState::AwaitText, ReadAction::QueryText),
            ),
            (ReadState::AwaitText, ReadEvent::TextQueried { present }) => {
                if present {
                    Some((ReadState::AwaitLength, ReadAction::QueryLength))
                } else {
                    Some(
                        (
                            ReadState::Done,
                            ReadAction::Finish {
                                release_text: false,
                                result: Err(ClipboardError::NoTextContent),
                            },
                        ),
                    )
                }
            },
            (ReadState::AwaitLength, ReadEvent::LengthQueried { len }) => {
                match len.checked_add(1) {
                    Some(capacity) => Some(
                        (ReadState::AwaitFill, ReadAction::FillBuffer { capacity }),
                    ),
                    None => Some(
                        (
                            ReadState::Done,
                            ReadAction::Finish {
                                release_text: true,
                                result: Err(ClipboardError::EncodingConversionFailed),
                            },
                        ),
                    ),
                }
            },
            (ReadState::AwaitFill, ReadEvent::BufferFilled { ok, buffer }) => {
                let result = nsstring_to_rust_string(ok, buffer.as_slice());
                Some((ReadState::Done, ReadAction::Finish { release_text: true, result }))
            },
            _ => None,
        }
    }

    /// Takes a write one step on: see [`write_step`]. The context is
    /// borrowed for the step alone, and the handle stays as it is.
    pub fn set_contents(&mut self, state: WriteState<String>, event: WriteEvent) -> (step: Option<
        (WriteState<String>, WriteAction<String>),
    >)
        ensures
            write_step_view(step) == write_step(state@, event),
            final(self).handle() == old(self).handle(),
    {
        match (state, event) {
            (WriteState::Start { data }, WriteEvent::Started) => Some(
                (WriteState::AwaitClear { data }, WriteAction::ClearContents),
            ),
            (WriteState::AwaitClear { data }, WriteEvent::Cleared) => Some(
                (WriteState::AwaitWrite, WriteAction::WriteObjects { text: data }),
            ),
            (WriteState::AwaitWrite, WriteEvent::Written { accepted }) => {
                let result = if accepted {
                    Ok(())
                } else {
                    Err(ClipboardError::WriteRejected)
                };
                Some((WriteState::Done, WriteAction::Finish { result }))
            },
            _ => None,
        }
    }
}

} // verus!
