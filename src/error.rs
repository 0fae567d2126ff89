use vstd::prelude::*;

verus! {

/// Why an operation on an audio file failed.
///
/// Each error ends only the operation that returned it: a file that is
/// already open stays usable.
#[derive(Debug, Clone, Copy, PartialEq, Eq, Structural)]
pub enum FileError {
    /// The file is an invalid or an unrecognized audio container.
    InvalidFile,
    /// The file name cannot be handed to the native library.
    InvalidFileName,
    /// No meta-data is available.
    NoAvailableTag,
    /// No audio properties are available.
    NoAvailableAudioProperties,
}

} // verus!
