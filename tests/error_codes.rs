use vorbis::{
    check_errors, is_reportable_status, VorbisError, OV_EBADHEADER, OV_EFAULT, OV_EIMPL,
    OV_EINVAL, OV_ENOTVORBIS, OV_EREAD, OV_EVERSION, OV_HOLE,
};

#[test]
fn status_codes_match_native_headers() {
    assert_eq!(OV_HOLE, vorbis_sys::OV_HOLE);
    assert_eq!(OV_EREAD, vorbis_sys::OV_EREAD);
    assert_eq!(OV_EFAULT, vorbis_sys::OV_EFAULT);
    assert_eq!(OV_EIMPL, vorbis_sys::OV_EIMPL);
    assert_eq!(OV_EINVAL, vorbis_sys::OV_EINVAL);
    assert_eq!(OV_ENOTVORBIS, vorbis_sys::OV_ENOTVORBIS);
    assert_eq!(OV_EBADHEADER, vorbis_sys::OV_EBADHEADER);
    assert_eq!(OV_EVERSION, vorbis_sys::OV_EVERSION);
}

#[test]
fn zero_status_is_success() {
    assert!(check_errors(0).is_ok());
}

#[test]
fn not_vorbis_status_maps_to_not_vorbis() {
    assert!(matches!(check_errors(-132), Err(VorbisError::NotVorbis)));
}

#[test]
fn each_table_code_maps_to_its_error() {
    assert!(matches!(check_errors(OV_EVERSION), Err(VorbisError::VersionMismatch)));
    assert!(matches!(check_errors(OV_EBADHEADER), Err(VorbisError::BadHeader)));
    assert!(matches!(check_errors(OV_EINVAL), Err(VorbisError::InvalidSetup)));
    assert!(matches!(check_errors(OV_HOLE), Err(VorbisError::Hole)));
    assert!(matches!(check_errors(OV_EIMPL), Err(VorbisError::Unimplemented)));
}

#[test]
fn time_seek_out_of_range_status_is_invalid_setup() {
    // The native time seek answers an out-of-range target with OV_EINVAL.
    assert!(matches!(check_errors(-131), Err(VorbisError::InvalidSetup)));
}

#[test]
fn reportable_statuses_are_the_table() {
    for code in [0, -132, -134, -133, -131, -3, -130] {
        assert!(is_reportable_status(code), "code {}", code);
    }
    for code in [OV_EREAD, OV_EFAULT, -1, -2, -135, -136, -137, -138, 1, 7, i32::MIN] {
        assert!(!is_reportable_status(code), "code {}", code);
    }
}

#[test]
fn descriptions_name_each_error() {
    let io = std::io::Error::new(std::io::ErrorKind::Other, "disk");
    assert_eq!(
        VorbisError::ReadError(io).description(),
        "A read from media returned an error"
    );
    assert_eq!(
        VorbisError::NotVorbis.description(),
        "Bitstream does not contain any Vorbis data"
    );
    assert_eq!(VorbisError::VersionMismatch.description(), "Vorbis version mismatch");
    assert_eq!(VorbisError::BadHeader.description(), "Invalid Vorbis bitstream header");
    assert_eq!(
        VorbisError::InvalidSetup.description(),
        "Invalid setup request, eg, out of range argument or initial file headers are corrupt"
    );
    assert_eq!(VorbisError::Hole.description(), "Interruption of data");
    assert_eq!(
        VorbisError::Unimplemented.description(),
        "Unimplemented mode; unable to comply with quality level request."
    );
}

#[test]
fn only_read_errors_have_a_source() {
    let io = std::io::Error::new(std::io::ErrorKind::UnexpectedEof, "short read");
    let err = VorbisError::ReadError(io);
    let source = err.source().expect("a read error has a source");
    assert_eq!(source.kind(), std::io::ErrorKind::UnexpectedEof);
    assert_eq!(source.to_string(), "short read");
    assert!(VorbisError::Hole.source().is_none());
    assert!(VorbisError::NotVorbis.source().is_none());
}

#[test]
fn io_errors_convert_to_read_errors() {
    let io = std::io::Error::new(std::io::ErrorKind::PermissionDenied, "denied");
    let err: VorbisError = VorbisError::from(io);
    match err {
        VorbisError::ReadError(e) => assert_eq!(e.kind(), std::io::ErrorKind::PermissionDenied),
        other => panic!("expected a read error, got {:?}", other),
    }
}

#[test]
fn failure_codes_map_to_error_values() {
    assert!(matches!(vorbis::error_for_status(-134), VorbisError::VersionMismatch));
    assert!(matches!(vorbis::error_for_status(-133), VorbisError::BadHeader));
    assert!(matches!(vorbis::error_for_status(-130), VorbisError::Unimplemented));
}
