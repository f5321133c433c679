use sponsorblock::{
    check_status, decode_segments, normalize, normalize_all, select_bucket, ActionType,
    ActionableSegment, BadRange, RawHashMatch, RawSegment, Seconds, Segment, SegmentResponse,
    SponsorBlockError, TimePoint, TimeSection, ValueKind,
};

fn secs(v: f32) -> Seconds {
    Seconds::from_bits(v.to_bits())
}

fn raw(category: &str, action: &str, start: f32, end: f32, uuid: &str) -> RawSegment {
    RawSegment {
        category: category.to_string(),
        action_type: action.to_string(),
        start: secs(start),
        end: secs(end),
        uuid: uuid.to_string(),
        locked: 0,
        votes: 3,
        video_duration_upon_submission: secs(600.0),
    }
}

fn section(start: f32, end: f32) -> TimeSection {
    TimeSection { start: secs(start), end: secs(end) }
}

fn bucket(video_id: &str, segments: Vec<RawSegment>) -> RawHashMatch {
    RawHashMatch { video_id: video_id.to_string(), hash: "abcd".to_string(), segments }
}

#[test]
fn seconds_compare_like_f32() {
    assert!(secs(1.0).less_than(&secs(2.0)));
    assert!(!secs(2.0).less_than(&secs(1.0)));
    assert!(secs(-2.0).less_than(&secs(-1.0)));
    assert!(secs(-1.0).less_than(&secs(0.0)));
    assert!(!secs(-0.0).less_than(&secs(0.0)));
    assert!(!secs(0.0).less_than(&secs(-0.0)));
    assert!(secs(5.0).less_than(&secs(f32::INFINITY)));
    assert!(!secs(f32::NAN).less_than(&secs(1.0)));
    assert!(!secs(1.0).less_than(&secs(f32::NAN)));
    assert!(secs(-0.5).is_negative());
    assert!(!secs(-0.0).is_negative());
    assert!(!secs(0.0).is_negative());
    assert!(!secs(f32::NAN).is_negative());
    assert!(secs(f32::NAN).is_nan_value());
    assert_eq!(secs(1.5).to_bits(), 1.5f32.to_bits());
}

#[test]
fn status_classes() {
    assert_eq!(check_status(200), Ok(()));
    assert_eq!(check_status(204), Ok(()));
    assert_eq!(check_status(404), Err(SponsorBlockError::HttpClient(404)));
    assert_eq!(check_status(503), Err(SponsorBlockError::HttpServer(503)));
    assert_eq!(check_status(302), Err(SponsorBlockError::HttpUnknown(302)));
}

#[test]
fn sponsor_keeps_its_section() {
    let s = normalize(&raw("sponsor", "skip", 10.5, 20.25, "u1")).unwrap();
    assert_eq!(s.segment, ActionableSegment::Sponsor(section(10.5, 20.25)));
    assert_eq!(s.action_type, ActionType::Skip);
    assert_eq!(s.uuid, "u1");
    assert!(!s.locked);
    assert_eq!(s.votes, 3);
    assert_eq!(s.video_duration_upon_submission, secs(600.0));
}

#[test]
fn highlight_becomes_a_point_at_its_start() {
    let s = normalize(&raw("poi_highlight", "poi", 42.0, 99.0, "h")).unwrap();
    assert_eq!(s.segment, ActionableSegment::Highlight(TimePoint { point: secs(42.0) }));
    assert_eq!(s.action_type, ActionType::Poi);
}

#[test]
fn every_category_maps_to_its_kind() {
    let cases = [
        ("selfpromo", ActionableSegment::UnpaidSelfPromotion(section(1.0, 2.0))),
        ("interaction", ActionableSegment::InteractionReminder(section(1.0, 2.0))),
        ("intro", ActionableSegment::IntermissionIntroAnimation(section(1.0, 2.0))),
        ("outro", ActionableSegment::EndcardsCredits(section(1.0, 2.0))),
        ("preview", ActionableSegment::PreviewRecap(section(1.0, 2.0))),
        ("music_offtopic", ActionableSegment::NonMusic(section(1.0, 2.0))),
    ];
    for (category, expected) in cases {
        let s = normalize(&raw(category, "mute", 1.0, 2.0, "x")).unwrap();
        assert_eq!(s.segment, expected);
        assert_eq!(s.action_type, ActionType::Mute);
    }
    let full = normalize(&raw("sponsor", "full", 0.0, 0.0, "x")).unwrap();
    assert_eq!(full.action_type, ActionType::Full);
}

#[test]
fn start_after_end_is_bad_data() {
    let r = normalize(&raw("sponsor", "skip", 5.0, 4.0, "x"));
    assert_eq!(
        r,
        Err(SponsorBlockError::BadData(BadRange::StartAfterEnd { start: secs(5.0), end: secs(4.0) }))
    );
}

#[test]
fn negative_times_are_bad_data() {
    let r = normalize(&raw("sponsor", "skip", -1.0, 4.0, "x"));
    assert_eq!(r, Err(SponsorBlockError::BadData(BadRange::NegativeStart { start: secs(-1.0) })));
    let r = normalize(&raw("sponsor", "skip", -3.0, -1.0, "x"));
    assert_eq!(r, Err(SponsorBlockError::BadData(BadRange::NegativeStart { start: secs(-3.0) })));
    let r = normalize(&raw("sponsor", "skip", -0.0, 0.0, "x"));
    assert!(r.is_ok());
}

#[test]
fn unknown_strings_are_reported() {
    let r = normalize(&raw("chapter", "skip", 1.0, 2.0, "x"));
    assert_eq!(
        r,
        Err(SponsorBlockError::UnknownValue { kind: ValueKind::Category, value: "chapter".to_string() })
    );
    let r = normalize(&raw("sponsor", "jump", 1.0, 2.0, "x"));
    assert_eq!(
        r,
        Err(SponsorBlockError::UnknownValue { kind: ValueKind::ActionType, value: "jump".to_string() })
    );
    let r = normalize(&raw("Sponsor", "skip", 1.0, 2.0, "x"));
    assert!(matches!(r, Err(SponsorBlockError::UnknownValue { kind: ValueKind::Category, .. })));
}

#[test]
fn locked_is_any_nonzero_value() {
    let mut r = raw("sponsor", "skip", 1.0, 2.0, "x");
    assert!(!normalize(&r).unwrap().locked);
    r.locked = 1;
    assert!(normalize(&r).unwrap().locked);
    r.locked = 7;
    assert!(normalize(&r).unwrap().locked);
}

#[test]
fn batch_keeps_one_segment_per_record_in_order() {
    let raws = vec![
        raw("sponsor", "skip", 1.0, 2.0, "a"),
        raw("intro", "skip", 0.0, 5.0, "b"),
        raw("poi_highlight", "poi", 7.0, 7.0, "c"),
    ];
    let out = normalize_all(&raws).unwrap();
    let uuids: Vec<&str> = out.iter().map(|s: &Segment| s.uuid.as_str()).collect();
    assert_eq!(uuids, vec!["a", "b", "c"]);
    assert_eq!(normalize_all(&Vec::new()), Ok(Vec::new()));
}

#[test]
fn one_bad_record_fails_the_batch() {
    let raws = vec![
        raw("sponsor", "skip", 1.0, 2.0, "a"),
        raw("sponsor", "skip", 9.0, 3.0, "b"),
        raw("nonsense", "skip", 1.0, 2.0, "c"),
    ];
    assert_eq!(
        normalize_all(&raws),
        Err(SponsorBlockError::BadData(BadRange::StartAfterEnd { start: secs(9.0), end: secs(3.0) }))
    );
}

#[test]
fn the_matching_bucket_is_chosen() {
    let buckets = vec![
        bucket("other1", vec![raw("sponsor", "skip", 1.0, 2.0, "x1")]),
        bucket("wanted", vec![raw("intro", "skip", 3.0, 4.0, "w1"), raw("sponsor", "mute", 5.0, 6.0, "w2")]),
        bucket("other2", vec![raw("bogus", "skip", 9.0, 1.0, "x2")]),
    ];
    let picked = select_bucket(buckets.clone(), "wanted").unwrap();
    assert_eq!(picked.len(), 2);
    assert_eq!(picked[0].uuid, "w1");
    let out = decode_segments("wanted", SegmentResponse::Private(buckets)).unwrap();
    assert_eq!(out.len(), 2);
    assert_eq!(out[0].segment, ActionableSegment::IntermissionIntroAnimation(section(3.0, 4.0)));
    assert_eq!(out[1].uuid, "w2");
}

#[test]
fn no_matching_bucket_is_an_error() {
    let buckets = vec![
        bucket("other1", vec![raw("sponsor", "skip", 1.0, 2.0, "x1")]),
        bucket("Wanted", vec![raw("sponsor", "skip", 1.0, 2.0, "x2")]),
    ];
    assert_eq!(
        decode_segments("wanted", SegmentResponse::Private(buckets)),
        Err(SponsorBlockError::NoMatchingVideoHash)
    );
    assert_eq!(
        decode_segments("wanted", SegmentResponse::Private(Vec::new())),
        Err(SponsorBlockError::NoMatchingVideoHash)
    );
}

#[test]
fn a_matching_empty_bucket_is_an_empty_result() {
    let buckets = vec![bucket("wanted", Vec::new()), bucket("wanted", vec![raw("sponsor", "skip", 1.0, 2.0, "late")])];
    assert_eq!(decode_segments("wanted", SegmentResponse::Private(buckets)), Ok(Vec::new()));
}

#[test]
fn plain_responses_decode_every_record() {
    let raws = vec![raw("sponsor", "skip", 1.0, 2.0, "a"), raw("outro", "skip", 50.0, 60.0, "b")];
    let out = decode_segments("vid", SegmentResponse::Plain(raws)).unwrap();
    assert_eq!(out.len(), 2);
    assert_eq!(out[1].segment, ActionableSegment::EndcardsCredits(section(50.0, 60.0)));
}

#[test]
fn decoding_twice_gives_equal_lists() {
    let buckets = vec![
        bucket("a", vec![raw("sponsor", "skip", 1.0, 2.0, "a1")]),
        bucket("b", vec![raw("preview", "skip", 3.0, 4.0, "b1"), raw("poi_highlight", "poi", 8.0, 8.0, "b2")]),
    ];
    let first = decode_segments("b", SegmentResponse::Private(buckets.clone()));
    let second = decode_segments("b", SegmentResponse::Private(buckets));
    assert_eq!(first, second);
    assert_eq!(format!("{:?}", first), format!("{:?}", second));
}
