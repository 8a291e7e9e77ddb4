use vorbis::{EncoderSession, EncoderStage, VorbisError, OV_EFAULT, OV_EIMPL, OV_EINVAL};

struct Engine(u32);

fn open_fresh() -> (Engine, EncoderSession) {
    let opened = EncoderSession::open::<Engine>(Ok(Engine(7)));
    match opened {
        Ok(pair) => pair,
        Err(err) => panic!("setup failed: {:?}", err),
    }
}

#[test]
fn successful_setup_opens_a_fresh_session() {
    let (engine, session) = open_fresh();
    assert_eq!(engine.0, 7);
    assert_eq!(session.stage(), EncoderStage::Fresh);
}

#[test]
fn rejected_setup_maps_to_its_error() {
    let invalid = EncoderSession::open::<Engine>(Err(OV_EINVAL));
    assert!(matches!(invalid, Err(VorbisError::InvalidSetup)));
    let unimplemented = EncoderSession::open::<Engine>(Err(OV_EIMPL));
    assert!(matches!(unimplemented, Err(VorbisError::Unimplemented)));
}

#[test]
fn encoded_bytes_pass_through_unchanged() {
    let (_engine, mut session) = open_fresh();
    let pages = vec![b'O', b'g', b'g', b'S', 0, 2];
    let out = session.after_encode(Ok(pages.clone())).expect("bytes");
    assert_eq!(out, pages);
    assert_eq!(session.stage(), EncoderStage::Active);
}

#[test]
fn encode_status_maps_to_its_error() {
    let (_engine, mut session) = open_fresh();
    let out = session.after_encode(Err(-131));
    assert!(matches!(out, Err(VorbisError::InvalidSetup)));
    assert_eq!(session.stage(), EncoderStage::Active);
}

#[test]
fn flush_after_encode_ends_the_session() {
    let (_engine, mut session) = open_fresh();
    session.after_encode(Ok(vec![1, 2, 3])).expect("bytes");
    let tail = session.after_flush(Ok(vec![4, 5])).expect("bytes");
    assert_eq!(tail, vec![4, 5]);
    assert_eq!(session.stage(), EncoderStage::Flushed);
}

#[test]
fn flush_without_encode_is_accepted() {
    let (_engine, mut session) = open_fresh();
    let tail = session.after_flush(Ok(vec![9; 58])).expect("bytes");
    assert_eq!(tail.len(), 58);
    assert_eq!(session.stage(), EncoderStage::Flushed);
}

#[test]
fn flush_status_maps_to_its_error() {
    let (_engine, mut session) = open_fresh();
    assert!(matches!(session.after_flush(Err(-3)), Err(VorbisError::Hole)));
    assert_eq!(session.stage(), EncoderStage::Flushed);
}

#[test]
fn internal_fault_is_not_a_failure_status() {
    assert!(!vorbis::is_reportable_status(OV_EFAULT));
}
