use click_analytics::analytic::event::{
    decode, event_from_members, ClickEvent, DecodeError, Member,
};

#[test]
fn decodes_event_with_origin() {
    assert_eq!(
        decode(br#"{"i":"203.0.113.5","l":"abc123"}"#),
        Ok(ClickEvent { ip: Some("203.0.113.5".to_string()), short_code: "abc123".to_string() })
    );
}

#[test]
fn decodes_event_without_origin() {
    let expected = ClickEvent { ip: None, short_code: "abc123".to_string() };
    assert_eq!(decode(br#"{"l":"abc123"}"#).as_ref(), Ok(&expected));
    assert_eq!(decode(br#"{"i":null,"l":"abc123"}"#).as_ref(), Ok(&expected));
    assert_eq!(decode(br#" { "l" : "abc123", "x": [1, 2] } "#).as_ref(), Ok(&expected));
}

#[test]
fn rejects_what_is_no_json_object() {
    assert_eq!(decode(b"not json"), Err(DecodeError::Malformed));
    assert_eq!(decode(b""), Err(DecodeError::Malformed));
    assert_eq!(decode(br#"{"l":"abc123""#), Err(DecodeError::Malformed));
    assert_eq!(decode(br#"["203.0.113.5","abc123"]"#), Err(DecodeError::Malformed));
    assert_eq!(decode(b"null"), Err(DecodeError::Malformed));
    assert_eq!(decode(br#"{"l":"abc123"} trailing"#), Err(DecodeError::Malformed));
}

#[test]
fn rejects_missing_short_code() {
    assert_eq!(decode(br#"{"i":"203.0.113.5"}"#), Err(DecodeError::MissingShortCode));
    assert_eq!(decode(b"{}"), Err(DecodeError::MissingShortCode));
    assert_eq!(decode(br#"{"i":7}"#), Err(DecodeError::MissingShortCode));
}

#[test]
fn rejects_fields_of_the_wrong_kind() {
    assert_eq!(decode(br#"{"l":7}"#), Err(DecodeError::InvalidField));
    assert_eq!(decode(br#"{"l":null}"#), Err(DecodeError::InvalidField));
    assert_eq!(decode(br#"{"i":7,"l":"abc123"}"#), Err(DecodeError::InvalidField));
    assert_eq!(decode(br#"{"i":["a"],"l":"abc123"}"#), Err(DecodeError::InvalidField));
}

#[test]
fn bytes_that_are_no_utf8_are_replaced() {
    let payload: Vec<u8> = [&br#"{"l":"a"#[..], &[0xff][..], &br#"b"}"#[..]].concat();
    assert_eq!(decode(&payload), Ok(ClickEvent { ip: None, short_code: "a\u{fffd}b".to_string() }));
}

#[test]
fn escapes_are_resolved() {
    assert_eq!(
        decode(br#"{"l":"aA\n","i":"\"x\""}"#),
        Ok(ClickEvent { ip: Some("\"x\"".to_string()), short_code: "aA\n".to_string() })
    );
}

#[test]
fn members_make_events() {
    let text = |s: &str| Some(Member::Text(s.to_string()));
    assert_eq!(
        event_from_members(text("1.2.3.4"), text("abc")),
        Ok(ClickEvent { ip: Some("1.2.3.4".to_string()), short_code: "abc".to_string() })
    );
    assert_eq!(
        event_from_members(Some(Member::Absent), text("abc")),
        Ok(ClickEvent { ip: None, short_code: "abc".to_string() })
    );
    assert_eq!(
        event_from_members(Some(Member::Null), text("abc")),
        Ok(ClickEvent { ip: None, short_code: "abc".to_string() })
    );
    assert_eq!(event_from_members(None, text("abc")), Err(DecodeError::Malformed));
    assert_eq!(event_from_members(text("1.2.3.4"), None), Err(DecodeError::Malformed));
    assert_eq!(
        event_from_members(Some(Member::Other), Some(Member::Absent)),
        Err(DecodeError::MissingShortCode)
    );
    assert_eq!(event_from_members(Some(Member::Other), text("abc")), Err(DecodeError::InvalidField));
    assert_eq!(
        event_from_members(Some(Member::Absent), Some(Member::Null)),
        Err(DecodeError::InvalidField)
    );
    assert_eq!(
        event_from_members(Some(Member::Absent), Some(Member::Other)),
        Err(DecodeError::InvalidField)
    );
}
