use opusfile_safe::OggOpusFile;
use opusfile_safe::OpusFileError;

fn open_handle(addr: usize) -> OggOpusFile {
    OggOpusFile::open_outcome(addr, 0).expect("a non-null handle with a success status must open")
}

#[test]
fn opening_needs_a_handle_and_a_success_status() {
    let opened = OggOpusFile::open_outcome(0x1000, 0).unwrap();
    assert_eq!(opened.raw_addr(), 0x1000);
    assert!(matches!(
        OggOpusFile::open_outcome(0x1000, -132),
        Err(OpusFileError::InvalidFormat)
    ));
    assert!(matches!(
        OggOpusFile::open_outcome(0, -133),
        Err(OpusFileError::BadHeader)
    ));
    // A null reference beside a status that claims success is not trusted.
    assert!(matches!(
        OggOpusFile::open_outcome(0, 0),
        Err(OpusFileError::Unknown)
    ));
}

#[test]
fn promoting_keeps_the_same_native_reference() {
    let tested = open_handle(0x2000);
    let promoted = tested.test_open_outcome(0).unwrap();
    assert_eq!(promoted.raw_addr(), 0x2000);
}

#[test]
fn promoting_surfaces_the_mapped_error() {
    let tested = open_handle(0x2000);
    assert!(matches!(
        tested.test_open_outcome(-131),
        Err(OpusFileError::InvalidParameters)
    ));
}

#[test]
fn zero_decoded_frames_is_end_of_stream_not_an_error() {
    let handle = open_handle(0x3000);
    assert_eq!(handle.read_outcome(0), Ok(0));
    assert_eq!(handle.read_outcome(960), Ok(960));
    assert_eq!(handle.read_outcome(-136), Err(OpusFileError::BadPacket));
    assert_eq!(handle.read_outcome(-3), Err(OpusFileError::Hole));
}

#[test]
fn oversized_buffers_are_refused_never_truncated() {
    assert_eq!(OggOpusFile::native_buffer_len(0), Some(0));
    assert_eq!(OggOpusFile::native_buffer_len(11520), Some(11520));
    assert_eq!(
        OggOpusFile::native_buffer_len(i32::MAX as usize),
        Some(i32::MAX)
    );
    assert_eq!(OggOpusFile::native_buffer_len(i32::MAX as usize + 1), None);
    assert_eq!(OggOpusFile::native_buffer_len(usize::MAX), None);
}

#[test]
fn seeking_an_unseekable_stream_maps_to_unable_to_seek() {
    let handle = open_handle(0x4000);
    assert!(!handle.seekable_outcome(0));
    assert!(handle.seekable_outcome(1));
    assert_eq!(handle.seek_outcome(-138), Err(OpusFileError::UnableToSeek));
    assert_eq!(handle.seek_outcome(0), Ok(()));
}

#[test]
fn totals_and_positions_distinguish_values_from_failures() {
    let handle = open_handle(0x5000);
    assert_eq!(handle.total_outcome(48000), Ok(48000));
    assert_eq!(handle.total_outcome(0), Ok(0));
    assert_eq!(handle.total_outcome(-131), Err(OpusFileError::InvalidParameters));
    assert_eq!(handle.tell_outcome(1234), Ok(1234));
    assert_eq!(handle.tell_outcome(-138), Err(OpusFileError::UnableToSeek));
    assert_eq!(handle.query_outcome(96000), Ok(96000));
    assert_eq!(handle.query_outcome(-1), Err(OpusFileError::False));
    assert_eq!(handle.count_outcome(2), 2);
}

#[test]
fn metadata_references_must_be_non_null() {
    let handle = open_handle(0x6000);
    let head = handle.head_outcome(0x7000).unwrap();
    assert_eq!(head.raw_addr(), 0x7000);
    assert!(matches!(handle.head_outcome(0), Err(OpusFileError::Unknown)));
    let tags = handle.tags_outcome(0x8000).unwrap();
    assert_eq!(tags.raw_addr(), 0x8000);
    assert!(matches!(handle.tags_outcome(0), Err(OpusFileError::Unknown)));
}
