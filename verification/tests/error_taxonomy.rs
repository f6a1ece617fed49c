use opusfile_safe::OpusFileError;
use opusfile_safe::error::kind_from_status_i32;
use opusfile_safe::error::kind_from_status_i64;

fn documented_codes() -> Vec<(i32, OpusFileError)> {
    vec![
        (-1, OpusFileError::False),
        (-2, OpusFileError::Eof),
        (-3, OpusFileError::Hole),
        (-128, OpusFileError::Read),
        (-129, OpusFileError::Fault),
        (-130, OpusFileError::NotImplemented),
        (-131, OpusFileError::InvalidParameters),
        (-132, OpusFileError::InvalidFormat),
        (-133, OpusFileError::BadHeader),
        (-134, OpusFileError::UnrecognizedVersion),
        (-135, OpusFileError::NotAudio),
        (-136, OpusFileError::BadPacket),
        (-137, OpusFileError::BadLink),
        (-138, OpusFileError::UnableToSeek),
        (-139, OpusFileError::BadTimestamp),
    ]
}

#[test]
fn every_documented_code_maps_to_its_kind() {
    for (code, kind) in documented_codes() {
        assert_eq!(kind_from_status_i32(code), kind);
    }
}

#[test]
fn wide_status_codes_map_like_narrow_ones() {
    for (code, kind) in documented_codes() {
        assert_eq!(kind_from_status_i64(code as i64), kind);
    }
}

#[test]
fn undocumented_codes_fall_back_to_unknown() {
    for code in [0, 1, 42, i32::MAX, -4, -5, -127, -140, -1000, i32::MIN] {
        assert_eq!(kind_from_status_i32(code), OpusFileError::Unknown);
    }
    for code in [i64::MIN, -140, -4, 0, i64::MAX] {
        assert_eq!(kind_from_status_i64(code), OpusFileError::Unknown);
    }
}

#[test]
fn status_code_round_trips_on_documented_codes() {
    for (code, kind) in documented_codes() {
        assert_eq!(kind.status_code(), code);
        assert_eq!(kind_from_status_i32(kind.status_code()), kind);
    }
}

#[test]
fn distinct_documented_codes_never_collide() {
    let codes = documented_codes();
    for (code_a, kind_a) in &codes {
        for (code_b, kind_b) in &codes {
            if code_a != code_b {
                assert_ne!(kind_a, kind_b);
            }
        }
        assert_ne!(*kind_a, OpusFileError::Unknown);
    }
}

#[test]
fn descriptions_are_fixed_and_descriptive() {
    assert_eq!(OpusFileError::Unknown.description(), "Unknown error.");
    assert_eq!(OpusFileError::False.description(), "A request did not succeed.");
    assert_eq!(OpusFileError::Eof.description(), "End of file.");
    assert_eq!(
        OpusFileError::Hole.description(),
        "There was a hole in the page sequence numbers (e.g., a page was corrupt or missing)."
    );
    assert_eq!(
        OpusFileError::Read.description(),
        "An underlying read, seek, or tell operation failed when it should have succeeded."
    );
    assert_eq!(
        OpusFileError::Fault.description(),
        "A NULL pointer was passed where one was unexpected, or an internal memory allocation failed, or an internal library error was encountered."
    );
    assert_eq!(
        OpusFileError::NotImplemented.description(),
        "The stream used a feature that is not implemented, such as an unsupported channel family."
    );
    assert_eq!(
        OpusFileError::InvalidParameters.description(),
        "One or more parameters to a function were invalid."
    );
    assert_eq!(
        OpusFileError::InvalidFormat.description(),
        "A purported Ogg Opus stream did not begin with an Ogg page, a purported header packet did not start with one of the required strings, \"OpusHead\" or \"OpusTags\", or a link in a chained file was encountered that did not contain any logical Opus streams."
    );
    assert_eq!(
        OpusFileError::BadHeader.description(),
        "A required header packet was not properly formatted, contained illegal values, or was missing altogether."
    );
    assert_eq!(
        OpusFileError::UnrecognizedVersion.description(),
        "The ID header contained an unrecognized version number."
    );
    assert_eq!(OpusFileError::NotAudio.description(), "Not audio.");
    assert_eq!(
        OpusFileError::BadPacket.description(),
        "An audio packet failed to decode properly."
    );
    assert_eq!(
        OpusFileError::BadLink.description(),
        "We failed to find data we had seen before, or the bitstream structure was sufficiently malformed that seeking to the target destination was impossible."
    );
    assert_eq!(
        OpusFileError::UnableToSeek.description(),
        "An operation that requires seeking was requested on an unseekable stream."
    );
    assert_eq!(
        OpusFileError::BadTimestamp.description(),
        "The first or last granule position of a link failed basic validity checks."
    );
}

#[test]
fn distinct_kinds_have_distinct_descriptions() {
    let kinds = documented_codes();
    for (code_a, kind_a) in &kinds {
        for (code_b, kind_b) in &kinds {
            if code_a != code_b {
                assert_ne!(kind_a.description(), kind_b.description());
            }
        }
        assert_ne!(kind_a.description(), OpusFileError::Unknown.description());
    }
}
