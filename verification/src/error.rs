//! The ways in which the client fails.
use crate::text::{decimal, decimal_string, signed_decimal, signed_decimal_string};
use vstd::prelude::*;
use vstd::string::*;

verus! {

/// A failure of the client.
#[derive(Debug, Clone, PartialEq, Eq)]
pub enum ClientError {
    /// The credential string holds no usable anti-forgery token.
    Auth,
    /// The last attempt of an operation did not reach the server.
    Transport { detail: String },
    /// The last attempt of an operation was answered with a status outside 2xx.
    Http { status: u16, body: String },
    /// The body of a page is not a page envelope.
    Parse { page: u32 },
    /// A page envelope whose status flag is not the success value.
    Api { ok: i32 },
    /// A result envelope whose status flag is not the success value.
    Mutation { message: String },
    /// A word that names no visibility level.
    InvalidVisibility { value: String },
}

/// A [`ClientError`] with its strings as character sequences.
pub enum ErrorView {
    Auth,
    Transport { detail: Seq<char> },
    Http { status: u16, body: Seq<char> },
    Parse { page: nat },
    Api { ok: i32 },
    Mutation { message: Seq<char> },
    InvalidVisibility { value: Seq<char> },
}

impl View for ClientError {
    type V = ErrorView;

    open spec fn view(&self) -> ErrorView {
        match self {
            ClientError::Auth => ErrorView::Auth,
            ClientError::Transport { detail } => ErrorView::Transport { detail: detail@ },
            ClientError::Http { status, body } => ErrorView::Http { status: *status, body: body@ },
            ClientError::Parse { page } => ErrorView::Parse { page: *page as nat },
            ClientError::Api { ok } => ErrorView::Api { ok: *ok },
            ClientError::Mutation { message } => ErrorView::Mutation { message: message@ },
            ClientError::InvalidVisibility { value } => ErrorView::InvalidVisibility {
                value: value@,
            },
        }
    }
}

impl ErrorView {
    /// The error in words.
    pub open spec fn text(self) -> Seq<char> {
        match self {
            ErrorView::Auth => "无法从 Cookie 中提取 XSRF-TOKEN，请确保 Cookie 完整"@,
            ErrorView::Transport { detail } => "Failed to request: "@ + detail,
            ErrorView::Http { status, body } => "HTTP error "@ + decimal(status as nat) + ": "@
                + body,
            ErrorView::Parse { page } => "Failed to parse JSON response at page "@ + decimal(page),
            ErrorView::Api { ok } => "API 返回错误: ok="@ + signed_decimal(ok as int),
            ErrorView::Mutation { message } => "设置失败: "@ + message,
            ErrorView::InvalidVisibility { value } => "无效的隐私级别: "@ + value
                + "，可选值: public, friends, private, fans"@,
        }
    }
}

impl ClientError {
    /// The error in words, for the operator.
    pub fn message(&self) -> (r: String)
        ensures
            r@ == self@.text(),
    {
        match self {
            ClientError::Auth => "无法从 Cookie 中提取 XSRF-TOKEN，请确保 Cookie 完整".to_owned(),
            ClientError::Transport { detail } => {
                let mut r: String = "Failed to request: ".to_owned();
                r.append(detail.as_str());
                r
            },
            ClientError::Http { status, body } => {
                let mut r: String = "HTTP error ".to_owned();
                let code = decimal_string(*status as u64);
                r.append(code.as_str());
                r.append(": ");
                r.append(body.as_str());
                r
            },
            ClientError::Parse { page } => {
                let mut r: String = "Failed to parse JSON response at page ".to_owned();
                let number = decimal_string(*page as u64);
                r.append(number.as_str());
                r
            },
            ClientError::Api { ok } => {
                let mut r: String = "API 返回错误: ok=".to_owned();
                let flag = signed_decimal_string(*ok as i64);
                r.append(flag.as_str());
                r
            },
            ClientError::Mutation { message } => {
                let mut r: String = "设置失败: ".to_owned();
                r.append(message.as_str());
                r
            },
            ClientError::InvalidVisibility { value } => {
                let mut r: String = "无效的隐私级别: ".to_owned();
                r.append(value.as_str());
                r.append("，可选值: public, friends, private, fans");
                r
            },
        }
    }
}

} // verus!
