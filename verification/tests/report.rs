use weibo_privacy::report::{export, export_record, preview, select, summary_line, Tally};
use weibo_privacy::{ClientError, WeiboInfo};

fn numbered(n: usize) -> Vec<WeiboInfo> {
    (1..=n).map(|i| WeiboInfo { id: i.to_string(), text: None, created_at: None }).collect()
}

fn ids(items: &[WeiboInfo]) -> Vec<&str> {
    items.iter().map(|item| item.id.as_str()).collect()
}

#[test]
fn selection_skips_then_limits() {
    assert_eq!(ids(&select(numbered(5), 0, None)), vec!["1", "2", "3", "4", "5"]);
    assert_eq!(ids(&select(numbered(5), 2, None)), vec!["3", "4", "5"]);
    assert_eq!(ids(&select(numbered(5), 2, Some(2))), vec!["3", "4"]);
    assert_eq!(ids(&select(numbered(5), 0, Some(3))), vec!["1", "2", "3"]);
    assert_eq!(ids(&select(numbered(5), 4, Some(3))), vec!["5"]);
    assert_eq!(ids(&select(numbered(5), 1, Some(4))), vec!["2", "3", "4", "5"]);
}

#[test]
fn selection_may_be_empty() {
    assert!(select(numbered(5), 5, None).is_empty());
    assert!(select(numbered(5), 6, None).is_empty());
    assert!(select(numbered(5), usize::MAX, Some(1)).is_empty());
    assert!(select(numbered(5), 0, Some(0)).is_empty());
    assert!(select(numbered(0), 0, None).is_empty());
}

#[test]
fn preview_shows_the_first_characters() {
    assert_eq!(preview(&Some("hello world".to_string()), 5), "hello");
    assert_eq!(preview(&Some("hello".to_string()), 5), "hello");
    assert_eq!(preview(&Some("hi".to_string()), 5), "hi");
    assert_eq!(preview(&Some(String::new()), 5), "");
    assert_eq!(preview(&Some("hello".to_string()), 0), "");
}

#[test]
fn preview_counts_characters_not_bytes() {
    assert_eq!(preview(&Some("今天天气很好".to_string()), 4), "今天天气");
}

#[test]
fn preview_of_a_post_without_text_is_a_placeholder() {
    assert_eq!(preview(&None, 30), "无内容");
    assert_eq!(preview(&None, 0), "无内容");
}

#[test]
fn summary_line_shows_number_id_and_preview() {
    let item = WeiboInfo {
        id: "5001".to_string(),
        text: Some("a long text that goes on".to_string()),
        created_at: None,
    };
    assert_eq!(summary_line(12, &item, 6), "12. ID: 5001 - a long...");
    let bare = WeiboInfo { id: "5002".to_string(), text: None, created_at: None };
    assert_eq!(summary_line(1, &bare, 50), "1. ID: 5002 - 无内容...");
}

#[test]
fn export_record_holds_what_the_post_has() {
    let full = WeiboInfo {
        id: "5001".to_string(),
        text: Some("hello".to_string()),
        created_at: Some("Mon Jan 01".to_string()),
    };
    assert_eq!(export_record(3, &full), "3. ID: 5001\n   内容: hello\n   时间: Mon Jan 01\n\n");
    let bare = WeiboInfo { id: "5002".to_string(), text: None, created_at: None };
    assert_eq!(export_record(10, &bare), "10. ID: 5002\n\n");
    let dated =
        WeiboInfo { id: "5003".to_string(), text: None, created_at: Some("Tue".to_string()) };
    assert_eq!(export_record(1, &dated), "1. ID: 5003\n   时间: Tue\n\n");
}

#[test]
fn export_numbers_the_posts_from_one() {
    let items = vec![
        WeiboInfo { id: "a".to_string(), text: Some("x".to_string()), created_at: None },
        WeiboInfo { id: "b".to_string(), text: None, created_at: None },
    ];
    assert_eq!(export(&items), "1. ID: a\n   内容: x\n\n2. ID: b\n\n");
    assert_eq!(export(&Vec::new()), "");
}

#[test]
fn tally_keeps_failures_and_goes_on() {
    let mut tally = Tally::new();
    assert!(tally.succeeded.is_empty() && tally.failed.is_empty());
    tally.record("1", &Ok(()));
    tally.record("2", &Err(ClientError::Mutation { message: "rate limited".to_string() }));
    tally.record("3", &Ok(()));
    tally.record("4", &Err(ClientError::Http { status: 500, body: "oops".to_string() }));
    assert_eq!(tally.succeeded, vec!["1".to_string(), "3".to_string()]);
    assert_eq!(
        tally.failed,
        vec![
            ("2".to_string(), "设置失败: rate limited".to_string()),
            ("4".to_string(), "HTTP error 500: oops".to_string()),
        ]
    );
}
