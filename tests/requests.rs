use sponsorblock::{
    bytes_to_hex_string, convert_action_type, convert_segment_kind, str_equals, to_url_array,
    video_hash_prefix, AcceptedCategories, ActionType, ActionableSegmentKind, Client, LookupMode,
    SponsorBlockError, ValueKind,
};

fn pairs(query: &[(String, String)]) -> Vec<(&str, &str)> {
    query.iter().map(|(k, v)| (k.as_str(), v.as_str())).collect()
}

#[test]
fn url_arrays_are_json_string_lists() {
    assert_eq!(to_url_array(&[]), "[]");
    assert_eq!(to_url_array(&["a".to_string()]), "[\"a\"]");
    assert_eq!(to_url_array(&["a".to_string(), "bc".to_string()]), "[\"a\",\"bc\"]");
}

#[test]
fn all_categories_url_value() {
    assert_eq!(
        AcceptedCategories::all().gen_url_value(),
        "[\"sponsor\",\"selfpromo\",\"interaction\",\"poi_highlight\",\"intro\",\"outro\",\"preview\",\"music_offtopic\"]"
    );
    assert_eq!(AcceptedCategories::new(Vec::new()).gen_url_value(), "[]");
}

#[test]
fn lookups_by_name() {
    assert_eq!(convert_segment_kind(&"outro".to_string()), Ok(ActionableSegmentKind::EndcardsCredits));
    assert_eq!(
        convert_segment_kind(&"".to_string()),
        Err(SponsorBlockError::UnknownValue { kind: ValueKind::Category, value: String::new() })
    );
    assert_eq!(convert_action_type(&"skip".to_string()), Ok(ActionType::Skip));
    assert_eq!(
        convert_action_type(&"skipp".to_string()),
        Err(SponsorBlockError::UnknownValue { kind: ValueKind::ActionType, value: "skipp".to_string() })
    );
    assert!(str_equals("héllo", "héllo"));
    assert!(!str_equals("hello", "hell"));
}

#[test]
fn hex_encoding() {
    assert_eq!(bytes_to_hex_string(&[]), "");
    assert_eq!(bytes_to_hex_string(&[0x00, 0x0f, 0xa5, 0xff]), "000fa5ff");
}

#[test]
fn hash_prefix_of_known_digest() {
    assert_eq!(video_hash_prefix("abc", 8), "ba7816bf");
    assert_eq!(video_hash_prefix("abc", 0), "");
    assert_eq!(
        video_hash_prefix("abc", 64),
        "ba7816bf8f01cfea414140de5dae2223b00361a396177a9cb410ff61f20015ad"
    );
}

#[test]
fn plain_request_without_required_segments() {
    let client = Client::new("https://sponsor.ajay.app/api".to_string(), "YouTube".to_string());
    let cats = AcceptedCategories::new(vec![ActionableSegmentKind::Sponsor]);
    let req = client.segments_request("dQw4w9WgXcQ", &cats, &[]);
    assert_eq!(req.url, "https://sponsor.ajay.app/api/skipSegments");
    assert_eq!(
        pairs(&req.query),
        vec![("videoID", "dQw4w9WgXcQ"), ("categories", "[\"sponsor\"]"), ("service", "YouTube")]
    );
}

#[test]
fn plain_request_with_required_segments() {
    let client = Client::new("http://h".to_string(), "YouTube".to_string());
    let cats = AcceptedCategories::new(vec![ActionableSegmentKind::Sponsor, ActionableSegmentKind::Highlight]);
    let req = client.segments_request("v", &cats, &["u1".to_string(), "u2".to_string()]);
    assert_eq!(
        pairs(&req.query),
        vec![
            ("videoID", "v"),
            ("categories", "[\"sponsor\",\"poi_highlight\"]"),
            ("service", "YouTube"),
            ("requiredSegments", "[\"u1\",\"u2\"]"),
        ]
    );
}

#[test]
fn private_request_sends_only_the_hash_prefix() {
    let client = Client::new_private("http://h".to_string(), "YouTube".to_string(), 4).unwrap();
    assert_eq!(client.mode, LookupMode::Private { hash_prefix_length: 4 });
    let cats = AcceptedCategories::new(vec![ActionableSegmentKind::Sponsor]);
    let req = client.segments_request("abc", &cats, &[]);
    assert_eq!(req.url, "http://h/skipSegments/ba78");
    assert_eq!(pairs(&req.query), vec![("categories", "[\"sponsor\"]"), ("service", "YouTube")]);
    assert!(req.query.iter().all(|(_, v)| !v.contains("abc")));
}

#[test]
fn private_prefix_longer_than_a_digest_is_refused() {
    assert!(Client::new_private("http://h".to_string(), "s".to_string(), 65).is_none());
    assert!(Client::new_private("http://h".to_string(), "s".to_string(), 64).is_some());
}

#[test]
fn building_a_request_twice_gives_the_same_request() {
    let client = Client::new("http://h".to_string(), "YouTube".to_string());
    let cats = AcceptedCategories::all();
    let a = client.segments_request("v", &cats, &["u".to_string()]);
    let b = client.segments_request("v", &cats, &["u".to_string()]);
    assert_eq!(a.url, b.url);
    assert_eq!(a.query, b.query);
}
