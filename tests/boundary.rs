use taglib::{
    c_str_to_str, c_string, file_name, native_bool, open_with, opened, properties_view,
    property_value, tag_view, u32_to_option, FileError, FileType,
};

#[test]
fn numeric_zero_reads_as_absent() {
    assert_eq!(u32_to_option(0), None);
}

#[test]
fn numeric_nonzero_reads_as_itself() {
    assert_eq!(u32_to_option(2015), Some(2015));
    assert_eq!(u32_to_option(1), Some(1));
    assert_eq!(u32_to_option(u32::MAX), Some(u32::MAX));
}

#[test]
fn null_text_reads_as_absent() {
    assert_eq!(c_str_to_str(None), None);
}

#[test]
fn empty_text_reads_as_absent() {
    assert_eq!(c_str_to_str(Some(b"")), None);
}

#[test]
fn artist_text_reads_back() {
    assert_eq!(c_str_to_str(Some(b"Artist")), Some("Artist".to_string()));
}

#[test]
fn non_ascii_text_is_decoded() {
    let bytes = "Sigur Rós".as_bytes();
    assert_eq!(c_str_to_str(Some(bytes)), Some("Sigur Rós".to_string()));
}

#[test]
fn invalid_utf8_is_replaced() {
    let bytes: &[u8] = &[b'A', 0xff, b'B'];
    assert_eq!(c_str_to_str(Some(bytes)), Some("A\u{FFFD}B".to_string()));
    let lone: &[u8] = &[0xc3];
    assert_eq!(c_str_to_str(Some(lone)), Some("\u{FFFD}".to_string()));
}

#[test]
fn c_string_appends_terminator() {
    assert_eq!(c_string("Not Artist"), Some(b"Not Artist\0".to_vec()));
    assert_eq!(c_string(""), Some(vec![0u8]));
}

#[test]
fn c_string_refuses_interior_nul() {
    assert_eq!(c_string("Not\0Artist"), None);
    assert_eq!(c_string("\0"), None);
}

#[test]
fn written_text_reads_back() {
    let written = c_string("Not Artist").unwrap();
    let before_terminator = &written[..written.len() - 1];
    assert_eq!(c_str_to_str(Some(before_terminator)), Some("Not Artist".to_string()));
}

#[test]
fn written_empty_text_reads_as_absent() {
    let written = c_string("").unwrap();
    let before_terminator = &written[..written.len() - 1];
    assert_eq!(c_str_to_str(Some(before_terminator)), None);
}

#[test]
fn file_name_of_text_path() {
    assert_eq!(file_name(Some("fixtures/test.mp3")), Ok(b"fixtures/test.mp3\0".to_vec()));
}

#[test]
fn file_name_with_nul_is_invalid() {
    assert_eq!(file_name(Some("fixtures/te\0st.mp3")), Err(FileError::InvalidFileName));
}

#[test]
fn file_name_not_text_is_invalid() {
    assert_eq!(file_name(None), Err(FileError::InvalidFileName));
}

#[test]
fn open_with_nul_makes_no_native_call() {
    let r: Result<u32, FileError> = open_with(Some("a\0b.mp3"), |_name: Vec<u8>| -> Option<u32> {
        panic!("the native library must not be reached")
    });
    assert_eq!(r, Err(FileError::InvalidFileName));
}

#[test]
fn open_with_path_not_text_makes_no_native_call() {
    let r: Result<u32, FileError> = open_with(None, |_name: Vec<u8>| -> Option<u32> {
        panic!("the native library must not be reached")
    });
    assert_eq!(r, Err(FileError::InvalidFileName));
}

#[test]
fn open_with_null_handle_is_invalid_file() {
    let r: Result<u32, FileError> = open_with(Some("notes.txt"), |_name: Vec<u8>| None);
    assert_eq!(r, Err(FileError::InvalidFile));
}

#[test]
fn open_with_hands_over_c_string_and_handle() {
    let r = open_with(Some("fixtures/test.mp3"), |name: Vec<u8>| {
        assert_eq!(name, b"fixtures/test.mp3\0".to_vec());
        Some(42u64)
    });
    assert_eq!(r, Ok(42u64));
}

#[test]
fn opened_maps_null_to_invalid_file() {
    assert_eq!(opened::<u8>(None), Err(FileError::InvalidFile));
    assert_eq!(opened(Some(5u8)), Ok(5u8));
}

#[test]
fn missing_tag_is_no_available_tag() {
    assert_eq!(tag_view::<u32>(None), Err(FileError::NoAvailableTag));
    assert_eq!(tag_view(Some(3u32)), Ok(3u32));
}

#[test]
fn missing_properties_is_no_available_audio_properties() {
    assert_eq!(properties_view::<u32>(None), Err(FileError::NoAvailableAudioProperties));
    assert_eq!(properties_view(Some(9u32)), Ok(9u32));
}

#[test]
fn native_bool_is_nonzero() {
    assert!(!native_bool(0));
    assert!(native_bool(1));
    assert!(native_bool(-1));
    assert!(native_bool(7));
}

#[test]
fn property_value_reads_unsigned() {
    assert_eq!(property_value(0), 0);
    assert_eq!(property_value(128), 128);
    assert_eq!(property_value(44100), 44100);
    assert_eq!(property_value(-1), u32::MAX);
}

#[test]
fn file_type_codes() {
    assert_eq!(FileType::MPEG.code(), 0);
    assert_eq!(FileType::OggVorbis.code(), 1);
    assert_eq!(FileType::FLAC.code(), 2);
    assert_eq!(FileType::MPC.code(), 3);
    assert_eq!(FileType::OggFlac.code(), 4);
    assert_eq!(FileType::WavPack.code(), 5);
    assert_eq!(FileType::Speex.code(), 6);
    assert_eq!(FileType::TrueAudio.code(), 7);
    assert_eq!(FileType::MP4.code(), 8);
    assert_eq!(FileType::ASF.code(), 9);
}
