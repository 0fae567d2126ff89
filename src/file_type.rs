use vstd::prelude::*;

verus! {

/// The container or codec family of an audio file, for files whose name
/// does not tell the native library what they hold.
#[derive(Debug, Clone, Copy, PartialEq, Eq, Structural)]
pub enum FileType {
    /// MPEG file
    MPEG,
    /// Ogg/Vorbis file
    OggVorbis,
    /// FLAC file
    FLAC,
    /// MPC file
    MPC,
    /// Ogg/FLAC file
    OggFlac,
    /// WavPack file
    WavPack,
    /// Ogg/Speex file
    Speex,
    /// TrueAudio file
    TrueAudio,
    /// MP4 file
    MP4,
    /// ASF file
    ASF,
}

/// The number by which the native library's C interface names each family.
pub open spec fn native_code(t: FileType) -> u32 {
    match t {
        FileType::MPEG => 0,
        FileType::OggVorbis => 1,
        FileType::FLAC => 2,
        FileType::MPC => 3,
        FileType::OggFlac => 4,
        FileType::WavPack => 5,
        FileType::Speex => 6,
        FileType::TrueAudio => 7,
        FileType::MP4 => 8,
        FileType::ASF => 9,
    }
}

impl FileType {
    /// The selector handed to the native library to open a file as this type.
    pub fn code(self) -> (r: u32)
        ensures
            r == native_code(self),
            r < 10,
    {
        match self {
            FileType::MPEG => 0,
            FileType::OggVorbis => 1,
            FileType::FLAC => 2,
            FileType::MPC => 3,
            FileType::OggFlac => 4,
            FileType::WavPack => 5,
            FileType::Speex => 6,
            FileType::TrueAudio => 7,
            FileType::MP4 => 8,
            FileType::ASF => 9,
        }
    }
}

/// Distinct families get distinct selectors, so a selector names one family.
pub proof fn lemma_native_code_injective(a: FileType, b: FileType)
    ensures
        native_code(a) == native_code(b) <==> a == b,
{
}

} // verus!
