//! The two requests of the remote interface, as plain values.
//!
//! Nothing here touches the network: a request is built, handed to whoever sends it,
//! and answered with an [`AttemptOutcome`](crate::retry::AttemptOutcome).
use crate::text::{decimal, decimal_string};
use crate::visibility::Visibility;
use vstd::prelude::*;
use vstd::string::*;

verus! {

/// The user agent under which every request is sent.
pub const USER_AGENT: &'static str =
    "Mozilla/5.0 (Windows NT 10.0; Win64; x64) AppleWebKit/537.36 (KHTML, like Gecko) Chrome/120.0.0.0 Safari/537.36";

/// The time, in seconds, that one attempt may take.
pub const REQUEST_TIMEOUT_SECS: u64 = 30;

/// The method of a request.
#[derive(Debug, Clone, Copy, PartialEq, Eq, Structural)]
pub enum Method {
    Get,
    Post,
}

/// A request: where it goes, its headers in order, and the fields of its
/// form-encoded body, in order (none for a request without a body).
#[derive(Debug, Clone, PartialEq, Eq)]
pub struct HttpRequest {
    pub method: Method,
    pub url: String,
    pub headers: Vec<(String, String)>,
    pub form: Vec<(String, String)>,
}

/// An [`HttpRequest`] with its strings as character sequences.
pub struct RequestView {
    pub method: Method,
    pub url: Seq<char>,
    pub headers: Seq<(Seq<char>, Seq<char>)>,
    pub form: Seq<(Seq<char>, Seq<char>)>,
}

/// The views of a list of name and value pairs, in order.
pub open spec fn pairs_view(pairs: Seq<(String, String)>) -> Seq<(Seq<char>, Seq<char>)> {
    pairs.map_values(|p: (String, String)| (p.0@, p.1@))
}

impl View for HttpRequest {
    type V = RequestView;

    open spec fn view(&self) -> RequestView {
        RequestView {
            method: self.method,
            url: self.url@,
            headers: pairs_view(self.headers@),
            form: pairs_view(self.form@),
        }
    }
}

/// The address of one page of a user's posts.
pub open spec fn list_url(user_id: Seq<char>, page: nat) -> Seq<char> {
    "https://weibo.com/ajax/statuses/mymblog?uid="@ + user_id + "&page="@ + decimal(page)
        + "&feature=0"@
}

/// The request for one page of a user's posts. The credential string is replayed
/// whole in `Cookie`, the token in `X-Xsrf-Token`.
pub open spec fn list_request_view(
    cookie: Seq<char>,
    token: Seq<char>,
    user_id: Seq<char>,
    page: nat,
) -> RequestView {
    RequestView {
        method: Method::Get,
        url: list_url(user_id, page),
        headers: seq![
            ("Accept"@, "application/json, text/plain, */*"@),
            ("Accept-Language"@, "zh-CN,zh;q=0.9"@),
            ("Referer"@, "https://weibo.com/u/"@ + user_id),
            ("X-Requested-With"@, "XMLHttpRequest"@),
            ("Cookie"@, cookie),
            ("X-Xsrf-Token"@, token),
            ("Accept-Encoding"@, "gzip, deflate, br, zstd"@),
            ("Client-Version"@, "v2.47.139"@),
            ("Sec-Fetch-Dest"@, "empty"@),
            ("Sec-Fetch-Mode"@, "cors"@),
            ("Sec-Fetch-Site"@, "same-origin"@),
        ],
        form: Seq::empty(),
    }
}

/// The request that sets the visibility of one post. The body names the post under
/// `ids` and the level, by its wire code, under `visible`.
pub open spec fn visibility_request_view(
    cookie: Seq<char>,
    token: Seq<char>,
    weibo_id: Seq<char>,
    level: Visibility,
) -> RequestView {
    RequestView {
        method: Method::Post,
        url: "https://weibo.com/ajax/statuses/modifyVisible"@,
        headers: seq![
            ("Accept"@, "application/json, text/plain, */*"@),
            ("Accept-Language"@, "zh-CN,zh;q=0.9,en;q=0.8"@),
            ("Content-Type"@, "application/x-www-form-urlencoded"@),
            ("Cookie"@, cookie),
            ("X-Xsrf-Token"@, token),
            ("X-Requested-With"@, "XMLHttpRequest"@),
            ("Referer"@, "https://weibo.com"@),
            ("Origin"@, "https://weibo.com"@),
            ("Client-Version"@, "3.0.0"@),
            ("Sec-Fetch-Dest"@, "empty"@),
            ("Sec-Fetch-Mode"@, "cors"@),
            ("Sec-Fetch-Site"@, "same-origin"@),
        ],
        form: seq![("ids"@, weibo_id), ("visible"@, decimal(level.wire_code() as nat))],
    }
}

fn pair(name: &str, value: &str) -> (r: (String, String))
    ensures
        r.0@ == name@,
        r.1@ == value@,
{
    (name.to_owned(), value.to_owned())
}

/// Builds the request for page `page` of the posts of `user_id`.
pub fn list_request(cookie: &str, token: &str, user_id: &str, page: u32) -> (r: HttpRequest)
    ensures
        r@ == list_request_view(cookie@, token@, user_id@, page as nat),
{
    let mut url: String = "https://weibo.com/ajax/statuses/mymblog?uid=".to_owned();
    url.append(user_id);
    url.append("&page=");
    let number = decimal_string(page as u64);
    url.append(number.as_str());
    url.append("&feature=0");
    let mut referer: String = "https://weibo.com/u/".to_owned();
    referer.append(user_id);
    let mut headers: Vec<(String, String)> = Vec::new();
    headers.push(pair("Accept", "application/json, text/plain, */*"));
    headers.push(pair("Accept-Language", "zh-CN,zh;q=0.9"));
    headers.push(pair("Referer", referer.as_str()));
    headers.push(pair("X-Requested-With", "XMLHttpRequest"));
    headers.push(pair("Cookie", cookie));
    headers.push(pair("X-Xsrf-Token", token));
    headers.push(pair("Accept-Encoding", "gzip, deflate, br, zstd"));
    headers.push(pair("Client-Version", "v2.47.139"));
    headers.push(pair("Sec-Fetch-Dest", "empty"));
    headers.push(pair("Sec-Fetch-Mode", "cors"));
    headers.push(pair("Sec-Fetch-Site", "same-origin"));
    let r = HttpRequest { method: Method::Get, url, headers, form: Vec::new() };
    proof {
        let want = list_request_view(cookie@, token@, user_id@, page as nat);
        assert(r@.headers =~= want.headers);
        assert(r@.form =~= want.form);
    }
    r
}

/// Builds the request that sets the visibility of post `weibo_id` to `level`.
pub fn visibility_request(cookie: &str, token: &str, weibo_id: &str, level: Visibility) -> (r:
    HttpRequest)
    ensures
        r@ == visibility_request_view(cookie@, token@, weibo_id@, level),
{
    let code = decimal_string(level.code() as u64);
    let mut headers: Vec<(String, String)> = Vec::new();
    headers.push(pair("Accept", "application/json, text/plain, */*"));
    headers.push(pair("Accept-Language", "zh-CN,zh;q=0.9,en;q=0.8"));
    headers.push(pair("Content-Type", "application/x-www-form-urlencoded"));
    headers.push(pair("Cookie", cookie));
    headers.push(pair("X-Xsrf-Token", token));
    headers.push(pair("X-Requested-With", "XMLHttpRequest"));
    headers.push(pair("Referer", "https://weibo.com"));
    headers.push(pair("Origin", "https://weibo.com"));
    headers.push(pair("Client-Version", "3.0.0"));
    headers.push(pair("Sec-Fetch-Dest", "empty"));
    headers.push(pair("Sec-Fetch-Mode", "cors"));
    headers.push(pair("Sec-Fetch-Site", "same-origin"));
    let mut form: Vec<(String, String)> = Vec::new();
    form.push(pair("ids", weibo_id));
    form.push(pair("visible", code.as_str()));
    let r = HttpRequest {
        method: Method::Post,
        url: "https://weibo.com/ajax/statuses/modifyVisible".to_owned(),
        headers,
        form,
    };
    proof {
        let want = visibility_request_view(cookie@, token@, weibo_id@, level);
        assert(r@.headers =~= want.headers);
        assert(r@.form =~= want.form);
    }
    r
}

} // verus!
