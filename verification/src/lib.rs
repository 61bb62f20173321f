//! Text access to the macOS general pasteboard, with the binding's decisions
//! stated and proved.
//!
//! The pasteboard is an operating-system service: it is reached by message
//! sends that only the program around this library can make. The library
//! holds everything the binding decides between two such sends: which
//! request comes next, how large the transcoding buffer is, where the text
//! in a filled buffer ends, which text the bytes stand for, and which error
//! a refusal becomes. The caller performs each request and hands the reply
//! back.
pub mod error;
pub mod transcode;
pub mod read;
pub mod write;
pub mod context;
pub mod model;
