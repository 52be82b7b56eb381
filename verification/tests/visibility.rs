use weibo_privacy::{parse_visibility, ClientError, Visibility};

#[test]
fn levels_have_their_wire_codes() {
    assert_eq!(Visibility::Public.code(), 0);
    assert_eq!(Visibility::Private.code(), 1);
    assert_eq!(Visibility::FriendsOnly.code(), 2);
    assert_eq!(Visibility::FansOnly.code(), 10);
}

#[test]
fn codes_lead_back_to_their_levels() {
    let all = [
        Visibility::Public,
        Visibility::Private,
        Visibility::FriendsOnly,
        Visibility::FansOnly,
    ];
    for level in all {
        assert_eq!(Visibility::from_code(level.code()), Some(level));
    }
    for code in 0..=300u32 {
        match Visibility::from_code(code) {
            Some(level) => assert_eq!(level.code(), code),
            None => assert!(code != 0 && code != 1 && code != 2 && code != 10),
        }
    }
    assert_eq!(Visibility::from_code(u32::MAX), None);
}

#[test]
fn levels_have_their_labels() {
    assert_eq!(Visibility::Public.as_str(), "公开");
    assert_eq!(Visibility::FriendsOnly.as_str(), "仅好友可见");
    assert_eq!(Visibility::Private.as_str(), "仅自己可见");
    assert_eq!(Visibility::FansOnly.as_str(), "仅粉丝可见");
}

#[test]
fn keywords_name_levels() {
    assert_eq!(parse_visibility("public"), Ok(Visibility::Public));
    assert_eq!(parse_visibility("公开"), Ok(Visibility::Public));
    assert_eq!(parse_visibility("friends"), Ok(Visibility::FriendsOnly));
    assert_eq!(parse_visibility("好友"), Ok(Visibility::FriendsOnly));
    assert_eq!(parse_visibility("仅好友"), Ok(Visibility::FriendsOnly));
    assert_eq!(parse_visibility("private"), Ok(Visibility::Private));
    assert_eq!(parse_visibility("私密"), Ok(Visibility::Private));
    assert_eq!(parse_visibility("仅自己"), Ok(Visibility::Private));
    assert_eq!(parse_visibility("fans"), Ok(Visibility::FansOnly));
    assert_eq!(parse_visibility("粉丝"), Ok(Visibility::FansOnly));
    assert_eq!(parse_visibility("仅粉丝"), Ok(Visibility::FansOnly));
}

#[test]
fn keywords_are_read_in_any_letter_case() {
    assert_eq!(parse_visibility("Public"), Ok(Visibility::Public));
    assert_eq!(parse_visibility("FRIENDS"), Ok(Visibility::FriendsOnly));
    assert_eq!(parse_visibility("pRiVaTe"), Ok(Visibility::Private));
    assert_eq!(parse_visibility("Fans"), Ok(Visibility::FansOnly));
}

#[test]
fn lower_case_keywords_alone_are_known_without_folding() {
    assert_eq!(Visibility::from_keyword("public"), Some(Visibility::Public));
    assert_eq!(Visibility::from_keyword("Public"), None);
    assert_eq!(Visibility::from_keyword(""), None);
}

#[test]
fn other_words_name_no_level() {
    assert_eq!(
        parse_visibility("everyone"),
        Err(ClientError::InvalidVisibility { value: "everyone".to_string() })
    );
    assert_eq!(
        parse_visibility("Everyone"),
        Err(ClientError::InvalidVisibility { value: "Everyone".to_string() })
    );
    assert_eq!(
        parse_visibility(" public"),
        Err(ClientError::InvalidVisibility { value: " public".to_string() })
    );
    assert_eq!(parse_visibility(""), Err(ClientError::InvalidVisibility { value: String::new() }));
}
