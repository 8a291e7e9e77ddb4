use vorbis::VorbisQuality;

#[test]
fn quality_targets_follow_the_table() {
    assert_eq!(VorbisQuality::VeryHighPerformance.target_tenths(), -1);
    assert_eq!(VorbisQuality::HighPerforamnce.target_tenths(), 1);
    assert_eq!(VorbisQuality::Performance.target_tenths(), 3);
    assert_eq!(VorbisQuality::Midium.target_tenths(), 5);
    assert_eq!(VorbisQuality::Quality.target_tenths(), 7);
    assert_eq!(VorbisQuality::HighQuality.target_tenths(), 9);
    assert_eq!(VorbisQuality::VeryHighQuality.target_tenths(), 10);
}

#[test]
fn quality_targets_rise_with_fidelity() {
    let levels = [
        VorbisQuality::VeryHighPerformance,
        VorbisQuality::HighPerforamnce,
        VorbisQuality::Performance,
        VorbisQuality::Midium,
        VorbisQuality::Quality,
        VorbisQuality::HighQuality,
        VorbisQuality::VeryHighQuality,
    ];
    for pair in levels.windows(2) {
        assert!(pair[0].target_tenths() < pair[1].target_tenths());
    }
    for q in levels {
        let t = q.target_tenths();
        assert!((-1..=10).contains(&t));
    }
}
