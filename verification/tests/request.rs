use weibo_privacy::request::{
    list_request, visibility_request, Method, REQUEST_TIMEOUT_SECS, USER_AGENT,
};
use weibo_privacy::Visibility;

fn owned_pairs(pairs: &[(&str, &str)]) -> Vec<(String, String)> {
    pairs.iter().map(|(name, value)| (name.to_string(), value.to_string())).collect()
}

#[test]
fn list_request_is_built_as_the_interface_asks() {
    let r = list_request("SUB=a; XSRF-TOKEN=t", "t", "1234567890", 7);
    assert_eq!(r.method, Method::Get);
    assert_eq!(r.url, "https://weibo.com/ajax/statuses/mymblog?uid=1234567890&page=7&feature=0");
    assert_eq!(
        r.headers,
        owned_pairs(&[
            ("Accept", "application/json, text/plain, */*"),
            ("Accept-Language", "zh-CN,zh;q=0.9"),
            ("Referer", "https://weibo.com/u/1234567890"),
            ("X-Requested-With", "XMLHttpRequest"),
            ("Cookie", "SUB=a; XSRF-TOKEN=t"),
            ("X-Xsrf-Token", "t"),
            ("Accept-Encoding", "gzip, deflate, br, zstd"),
            ("Client-Version", "v2.47.139"),
            ("Sec-Fetch-Dest", "empty"),
            ("Sec-Fetch-Mode", "cors"),
            ("Sec-Fetch-Site", "same-origin"),
        ])
    );
    assert!(r.form.is_empty());
}

#[test]
fn list_request_numbers_its_page_in_decimal() {
    assert!(list_request("c", "t", "u", 1).url.ends_with("uid=u&page=1&feature=0"));
    assert!(list_request("c", "t", "u", 10).url.ends_with("uid=u&page=10&feature=0"));
    assert!(list_request("c", "t", "u", u32::MAX).url.ends_with("uid=u&page=4294967295&feature=0"));
}

#[test]
fn visibility_request_is_built_as_the_interface_asks() {
    let r = visibility_request("SUB=a; XSRF-TOKEN=t", "t", "5001", Visibility::FriendsOnly);
    assert_eq!(r.method, Method::Post);
    assert_eq!(r.url, "https://weibo.com/ajax/statuses/modifyVisible");
    assert_eq!(
        r.headers,
        owned_pairs(&[
            ("Accept", "application/json, text/plain, */*"),
            ("Accept-Language", "zh-CN,zh;q=0.9,en;q=0.8"),
            ("Content-Type", "application/x-www-form-urlencoded"),
            ("Cookie", "SUB=a; XSRF-TOKEN=t"),
            ("X-Xsrf-Token", "t"),
            ("X-Requested-With", "XMLHttpRequest"),
            ("Referer", "https://weibo.com"),
            ("Origin", "https://weibo.com"),
            ("Client-Version", "3.0.0"),
            ("Sec-Fetch-Dest", "empty"),
            ("Sec-Fetch-Mode", "cors"),
            ("Sec-Fetch-Site", "same-origin"),
        ])
    );
    assert_eq!(r.form, owned_pairs(&[("ids", "5001"), ("visible", "2")]));
}

#[test]
fn visibility_request_carries_the_wire_code_of_each_level() {
    let code = |level: Visibility| visibility_request("c", "t", "1", level).form[1].1.clone();
    assert_eq!(code(Visibility::Public), "0");
    assert_eq!(code(Visibility::Private), "1");
    assert_eq!(code(Visibility::FriendsOnly), "2");
    assert_eq!(code(Visibility::FansOnly), "10");
}

#[test]
fn every_attempt_has_thirty_seconds() {
    assert_eq!(REQUEST_TIMEOUT_SECS, 30);
    assert!(USER_AGENT.starts_with("Mozilla/5.0"));
}
