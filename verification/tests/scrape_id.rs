use feedwatch::scrape::{parse_channel_playlist_id, PlaylistIdError};

fn page_uri() -> String {
    String::from("https://www.youtube.com/@someone/search")
}

#[test]
fn extracts_upload_list_id_from_page() {
    let body = br#"<html>stuff channel_id="UCabcdefghij0123456789AB" more</html>"#;
    let id = parse_channel_playlist_id(body, page_uri()).unwrap();
    // The channel prefix UC is rewritten to the upload-list prefix UU.
    assert_eq!(id, "UUabcdefghij0123456789AB");
}

#[test]
fn first_marker_occurrence_wins() {
    let body = br#"channel_id="UCabcdefghij0123456789AB" channel_id="UCzzzzzzzzzz0123456789ZZ""#;
    let id = parse_channel_playlist_id(body, page_uri()).unwrap();
    assert_eq!(id, "UUabcdefghij0123456789AB");
}

#[test]
fn page_without_marker_is_unparsable() {
    let body = b"<html>nothing to see here</html>";
    match parse_channel_playlist_id(body, page_uri()) {
        Err(PlaylistIdError::BodyParse(uri)) => assert_eq!(uri, page_uri()),
        _ => panic!("expected a body-parse error"),
    }
}

#[test]
fn wrong_length_id_is_unparsable() {
    let body = br#"channel_id="UCshort""#;
    assert!(matches!(
        parse_channel_playlist_id(body, page_uri()),
        Err(PlaylistIdError::BodyParse(_))
    ));
}

#[test]
fn id_not_starting_uc_is_unparsable() {
    // 24 characters, but the second stays X rather than becoming U.
    let body = br#"channel_id="UXabcdefghij0123456789AB""#;
    assert!(matches!(
        parse_channel_playlist_id(body, page_uri()),
        Err(PlaylistIdError::BodyParse(_))
    ));
}

#[test]
fn quote_straight_after_marker_is_passed_over() {
    let body = br#"channel_id=""UCabcdefghij0123456789AB""#;
    let id = parse_channel_playlist_id(body, page_uri()).unwrap();
    assert_eq!(id, "UUabcdefghij0123456789AB");
}
