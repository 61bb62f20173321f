//! The ways in which an operation on the pasteboard fails.
use vstd::prelude::*;

verus! {

/// Why the binding could not be set up, or a read or a write did not succeed.
#[derive(Clone, Copy, Debug, PartialEq, Eq, Structural)]
pub enum ClipboardError {
    /// The pasteboard class is not known to the Objective-C runtime.
    PlatformUnsupported,
    /// The runtime knows the class but handed out no general pasteboard.
    ServiceUnavailable,
    /// The pasteboard holds nothing of the plain-text type. This is an
    /// ordinary outcome: the pasteboard is empty, or holds an image.
    NoTextContent,
    /// The text object could not be written out as UTF-8.
    EncodingConversionFailed,
    /// The pasteboard declined the new content.
    WriteRejected,
}

impl ClipboardError {
    /// What [`ClipboardError::message`] returns.
    pub open spec fn message_text(self) -> Seq<char> {
        match self {
            ClipboardError::PlatformUnsupported => "Class::get(\"NSPasteboard\")"@,
            ClipboardError::ServiceUnavailable => "NSPasteboard#generalPasteboard returned null"@,
            ClipboardError::NoTextContent => "pasteboard#stringForType returned null"@,
            ClipboardError::EncodingConversionFailed => "Casting from NSString to Rust string has failed"@,
            ClipboardError::WriteRejected => "NSPasteboard#writeObjects: returned false"@,
        }
    }

    /// A line that names the request that failed.
    pub fn message(&self) -> (text: String)
        ensures
            text@ == self.message_text(),
    {
        match self {
            ClipboardError::PlatformUnsupported => "Class::get(\"NSPasteboard\")".to_owned(),
            ClipboardError::ServiceUnavailable => "NSPasteboard#generalPasteboard returned null".to_owned(),
            ClipboardError::NoTextContent => "pasteboard#stringForType returned null".to_owned(),
            ClipboardError::EncodingConversionFailed => "Casting from NSString to Rust string has failed".to_owned(),
            ClipboardError::WriteRejected => "NSPasteboard#writeObjects: returned false".to_owned(),
        }
    }
}

} // verus!
