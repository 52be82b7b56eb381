use weibo_privacy::text::{
    chars_of, decimal_string, find_char, is_space_char, range_is, same_text,
    signed_decimal_string, trim_range,
};
use weibo_privacy::ClientError;

#[test]
fn white_space_is_what_the_standard_library_calls_so() {
    for code in 0..=0x11_0000u32 {
        if let Some(c) = char::from_u32(code) {
            assert_eq!(is_space_char(c), c.is_whitespace(), "U+{:04X}", code);
        }
    }
}

#[test]
fn decimal_numerals_are_exact() {
    assert_eq!(decimal_string(0), "0");
    assert_eq!(decimal_string(7), "7");
    assert_eq!(decimal_string(10), "10");
    assert_eq!(decimal_string(1905), "1905");
    assert_eq!(decimal_string(123456789012345678), "123456789012345678");
    assert_eq!(decimal_string(u64::MAX), "18446744073709551615");
}

#[test]
fn signed_decimal_numerals_are_exact() {
    assert_eq!(signed_decimal_string(0), "0");
    assert_eq!(signed_decimal_string(-1), "-1");
    assert_eq!(signed_decimal_string(42), "42");
    assert_eq!(signed_decimal_string(i64::MAX), "9223372036854775807");
    assert_eq!(signed_decimal_string(i64::MIN), "-9223372036854775808");
    assert_eq!(signed_decimal_string(-100), "-100");
}

#[test]
fn characters_are_read_in_order() {
    assert_eq!(chars_of("a微b"), vec!['a', '微', 'b']);
    assert!(chars_of("").is_empty());
}

#[test]
fn trimming_gives_the_bounds_of_the_core() {
    let chars = chars_of("..  ab c \t..");
    assert_eq!(trim_range(&chars, 2, 10), (4, 8));
    assert_eq!(trim_range(&chars, 4, 8), (4, 8));
    assert_eq!(trim_range(&chars, 2, 4), (4, 4));
    assert_eq!(trim_range(&chars, 0, 12), (0, 12));
    assert_eq!(trim_range(&chars, 5, 5), (5, 5));
    let blank = chars_of(" \u{3000}\n");
    assert_eq!(trim_range(&blank, 0, 3), (3, 3));
}

#[test]
fn trimming_agrees_with_the_standard_library() {
    for s in ["", " ", "a", " a", "a ", "  a b  ", "\u{00A0}x\u{2003}", "\t\n x \r\n"] {
        let chars = chars_of(s);
        let (from, to) = trim_range(&chars, 0, chars.len());
        let core: String = chars[from..to].iter().collect();
        assert_eq!(core, s.trim(), "{:?}", s);
    }
}

#[test]
fn first_occurrence_is_found() {
    let chars = chars_of("a=b=c;d");
    assert_eq!(find_char(&chars, 0, 7, '='), 1);
    assert_eq!(find_char(&chars, 2, 7, '='), 3);
    assert_eq!(find_char(&chars, 4, 7, '='), 7);
    assert_eq!(find_char(&chars, 0, 1, '='), 1);
    assert_eq!(find_char(&chars, 0, 7, ';'), 5);
    assert_eq!(find_char(&chars, 3, 3, '='), 3);
}

#[test]
fn ranges_are_compared_with_words() {
    let chars = chars_of("xxTOKENxx");
    let word = chars_of("TOKEN");
    assert!(range_is(&chars, 2, 7, &word));
    assert!(!range_is(&chars, 2, 6, &word));
    assert!(!range_is(&chars, 1, 6, &word));
    assert!(!range_is(&chars, 3, 8, &word));
    assert!(range_is(&chars, 4, 4, &Vec::new()));
}

#[test]
fn texts_are_compared_by_their_characters() {
    assert!(same_text("公开", "公开"));
    assert!(same_text("", ""));
    assert!(!same_text("public", "Public"));
    assert!(!same_text("a", "ab"));
}

#[test]
fn errors_are_put_in_words() {
    assert_eq!(ClientError::Auth.message(), "无法从 Cookie 中提取 XSRF-TOKEN，请确保 Cookie 完整");
    assert_eq!(
        ClientError::Transport { detail: "timed out".to_string() }.message(),
        "Failed to request: timed out"
    );
    assert_eq!(
        ClientError::Http { status: 404, body: "not found".to_string() }.message(),
        "HTTP error 404: not found"
    );
    assert_eq!(ClientError::Parse { page: 12 }.message(), "Failed to parse JSON response at page 12");
    assert_eq!(ClientError::Api { ok: -100 }.message(), "API 返回错误: ok=-100");
    assert_eq!(ClientError::Api { ok: 0 }.message(), "API 返回错误: ok=0");
    assert_eq!(
        ClientError::Mutation { message: "rate limited".to_string() }.message(),
        "设置失败: rate limited"
    );
    assert_eq!(
        ClientError::InvalidVisibility { value: "x".to_string() }.message(),
        "无效的隐私级别: x，可选值: public, friends, private, fans"
    );
}
