use vstd::prelude::*;

verus! {

/// Every way the engine boundary can fail.
///
/// The integer payloads carry the engine's own status codes through unchanged.
#[derive(Clone, Copy, Debug, PartialEq, Eq, Structural)]
pub enum SentencePieceError {
    /// The model file could not be opened.
    File,
    /// The model file could not be read.
    IO,
    /// The engine could not allocate a processor object.
    New,
    /// The model bytes failed to deserialize; carries the engine status.
    Proto(i32),
    /// A piece or decoded text was not valid UTF-8.
    Utf8,
    /// A decode call reported a non-zero status or a null buffer.
    Decode(i32),
    /// An encode call reported a null buffer.
    Encode,
}

} // verus!
