use weibo_privacy::envelope::{decode_page, decode_result, PageEnvelope, ResultEnvelope};
use weibo_privacy::WeiboInfo;

fn bare_item(id: &str) -> WeiboInfo {
    WeiboInfo { id: id.to_string(), text: None, created_at: None }
}

#[test]
fn page_with_items_is_decoded_in_order() {
    let body = r#"{"ok":1,"data":{"list":[
        {"id":"5001","text":"first","created_at":"Mon Jan 01"},
        {"id":5002,"text":null},
        {"id":"5003","extra":[1,2,3]}
    ],"total":3},"more":true}"#;
    let page = decode_page(body).unwrap();
    assert_eq!(page.ok, 1);
    assert_eq!(
        page.list,
        vec![
            WeiboInfo {
                id: "5001".to_string(),
                text: Some("first".to_string()),
                created_at: Some("Mon Jan 01".to_string()),
            },
            bare_item("5002"),
            bare_item("5003"),
        ]
    );
}

#[test]
fn numeric_and_textual_ids_agree() {
    let as_number = decode_page(r#"{"ok":1,"data":{"list":[{"id":123456789012345678}]}}"#).unwrap();
    let as_text = decode_page(r#"{"ok":1,"data":{"list":[{"id":"123456789012345678"}]}}"#).unwrap();
    assert_eq!(as_number.list[0].id, "123456789012345678");
    assert_eq!(as_number.list[0].id, as_text.list[0].id);
    assert_eq!(as_number, as_text);
}

#[test]
fn ids_beyond_the_range_of_exact_floats_keep_every_digit() {
    let page = decode_page(
        r#"{"ok":1,"data":{"list":[{"id":9007199254740993},{"id":18446744073709551615},{"id":0},{"id":-9223372036854775808},{"id":-7}]}}"#,
    )
    .unwrap();
    let ids: Vec<&str> = page.list.iter().map(|item| item.id.as_str()).collect();
    assert_eq!(ids, vec!["9007199254740993", "18446744073709551615", "0", "-9223372036854775808", "-7"]);
}

#[test]
fn textual_ids_are_kept_as_they_are() {
    let page = decode_page(r#"{"ok":1,"data":{"list":[{"id":"007"},{"id":""},{"id":"Nx9"}]}}"#).unwrap();
    let ids: Vec<&str> = page.list.iter().map(|item| item.id.as_str()).collect();
    assert_eq!(ids, vec!["007", "", "Nx9"]);
}

#[test]
fn ids_of_other_types_are_refused() {
    assert_eq!(decode_page(r#"{"ok":1,"data":{"list":[{"id":1.5}]}}"#), None);
    assert_eq!(decode_page(r#"{"ok":1,"data":{"list":[{"id":1e3}]}}"#), None);
    assert_eq!(decode_page(r#"{"ok":1,"data":{"list":[{"id":18446744073709551616}]}}"#), None);
    assert_eq!(decode_page(r#"{"ok":1,"data":{"list":[{"id":true}]}}"#), None);
    assert_eq!(decode_page(r#"{"ok":1,"data":{"list":[{"id":null}]}}"#), None);
    assert_eq!(decode_page(r#"{"ok":1,"data":{"list":[{"id":["1"]}]}}"#), None);
    assert_eq!(decode_page(r#"{"ok":1,"data":{"list":[{"text":"no id"}]}}"#), None);
}

#[test]
fn one_bad_item_spoils_the_page() {
    assert_eq!(decode_page(r#"{"ok":1,"data":{"list":[{"id":"1"},7,{"id":"3"}]}}"#), None);
    assert_eq!(decode_page(r#"{"ok":1,"data":{"list":[{"id":"1"},{"id":"2","text":5}]}}"#), None);
    assert_eq!(decode_page(r#"{"ok":1,"data":{"list":[{"id":"1","created_at":{}}]}}"#), None);
}

#[test]
fn empty_page_is_decoded() {
    assert_eq!(
        decode_page(r#"{"ok":1,"data":{"list":[]}}"#),
        Some(PageEnvelope { ok: 1, list: vec![] })
    );
}

#[test]
fn status_flag_of_a_page_is_kept() {
    assert_eq!(decode_page(r#"{"ok":0,"data":{"list":[]}}"#), Some(PageEnvelope { ok: 0, list: vec![] }));
    assert_eq!(
        decode_page(r#"{"ok":-100,"data":{"list":[]}}"#),
        Some(PageEnvelope { ok: -100, list: vec![] })
    );
    assert_eq!(
        decode_page(r#"{"ok":2147483647,"data":{"list":[]}}"#),
        Some(PageEnvelope { ok: i32::MAX, list: vec![] })
    );
    assert_eq!(
        decode_page(r#"{"ok":-2147483648,"data":{"list":[]}}"#),
        Some(PageEnvelope { ok: i32::MIN, list: vec![] })
    );
}

#[test]
fn bodies_of_another_shape_are_no_page() {
    assert_eq!(decode_page(""), None);
    assert_eq!(decode_page("<html>login</html>"), None);
    assert_eq!(decode_page(r#"{"ok":1,"data":{"list":[]}} trailing"#), None);
    assert_eq!(decode_page("[]"), None);
    assert_eq!(decode_page("1"), None);
    assert_eq!(decode_page("null"), None);
    assert_eq!(decode_page(r#"{"data":{"list":[]}}"#), None);
    assert_eq!(decode_page(r#"{"ok":1}"#), None);
    assert_eq!(decode_page(r#"{"ok":1,"data":{}}"#), None);
    assert_eq!(decode_page(r#"{"ok":1,"data":[]}"#), None);
    assert_eq!(decode_page(r#"{"ok":1,"data":{"list":{}}}"#), None);
    assert_eq!(decode_page(r#"{"ok":1,"data":{"list":null}}"#), None);
    assert_eq!(decode_page(r#"{"ok":"1","data":{"list":[]}}"#), None);
    assert_eq!(decode_page(r#"{"ok":null,"data":{"list":[]}}"#), None);
    assert_eq!(decode_page(r#"{"ok":1.0,"data":{"list":[]}}"#), None);
    assert_eq!(decode_page(r#"{"ok":2147483648,"data":{"list":[]}}"#), None);
    assert_eq!(decode_page(r#"{"ok":-2147483649,"data":{"list":[]}}"#), None);
    assert_eq!(decode_page(r#"{"ok":-100,"url":"https://weibo.com/login"}"#), None);
}

#[test]
fn result_envelope_is_decoded() {
    assert_eq!(
        decode_result(r#"{"ok":0,"msg":"rate limited"}"#),
        Some(ResultEnvelope { ok: Some(0), msg: Some("rate limited".to_string()) })
    );
    assert_eq!(decode_result(r#"{"ok":1}"#), Some(ResultEnvelope { ok: Some(1), msg: None }));
    assert_eq!(decode_result("{}"), Some(ResultEnvelope { ok: None, msg: None }));
    assert_eq!(
        decode_result(r#"{"ok":null,"msg":null,"other":7}"#),
        Some(ResultEnvelope { ok: None, msg: None })
    );
    assert_eq!(
        decode_result(r#"{"msg":"done"}"#),
        Some(ResultEnvelope { ok: None, msg: Some("done".to_string()) })
    );
}

#[test]
fn bodies_of_another_shape_are_no_result_envelope() {
    assert_eq!(decode_result(""), None);
    assert_eq!(decode_result("OK"), None);
    assert_eq!(decode_result("[]"), None);
    assert_eq!(decode_result("null"), None);
    assert_eq!(decode_result(r#""ok""#), None);
    assert_eq!(decode_result(r#"{"ok":"0"}"#), None);
    assert_eq!(decode_result(r#"{"ok":0.5}"#), None);
    assert_eq!(decode_result(r#"{"ok":4294967296}"#), None);
    assert_eq!(decode_result(r#"{"ok":0,"msg":5}"#), None);
    assert_eq!(decode_result(r#"{"ok":0,"msg":["a"]}"#), None);
}
