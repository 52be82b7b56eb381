//! The client: a credential string and the anti-forgery token found in it.
use crate::error::{ClientError, ErrorView};
use crate::lister::{after_wake as list_after_wake, first_run as first_list_run, ListRun, ListStep};
use crate::mutator::{
    after_wake as mutation_after_wake, first_run as first_mutation_run, MutationRun, MutationStep,
};
use crate::session::{extract_xsrf_token, token_in, token_is_not_empty};
use crate::text::is_space;
use crate::visibility::Visibility;
use vstd::prelude::*;

verus! {

/// A session with the platform. It is made once, from the credential string, and
/// never changes: the credential string is replayed whole with every request, the
/// token in a header of its own.
#[derive(Debug)]
pub struct WeiboPrivacyClient {
    cookie: String,
    xsrf_token: String,
}

/// A [`WeiboPrivacyClient`] as a mathematical value.
pub struct SessionView {
    pub cookie: Seq<char>,
    pub token: Seq<char>,
}

impl View for WeiboPrivacyClient {
    type V = SessionView;

    closed spec fn view(&self) -> SessionView {
        SessionView { cookie: self.cookie@, token: self.xsrf_token@ }
    }
}

impl WeiboPrivacyClient {
    /// The token is the one that the credential string holds.
    #[verifier::type_invariant]
    spec fn holds_its_token(self) -> bool {
        token_in(self.cookie@) == Some(self.xsrf_token@)
    }

    /// Makes a client from a credential string. It succeeds exactly where the string
    /// holds a token, and fails with [`ClientError::Auth`] otherwise.
    pub fn new(cookie: String) -> (r: Result<Self, ClientError>)
        ensures
            match token_in(cookie@) {
                Some(token) => r is Ok && r.unwrap()@ == (SessionView { cookie: cookie@, token }),
                None => r is Err && r.unwrap_err()@ == ErrorView::Auth,
            },
    {
        match extract_xsrf_token(cookie.as_str()) {
            Some(xsrf_token) => Ok(WeiboPrivacyClient { cookie, xsrf_token }),
            None => Err(ClientError::Auth),
        }
    }

    /// The credential string, as it was given.
    pub fn cookie(&self) -> (r: &str)
        ensures
            r@ == self@.cookie,
    {
        self.cookie.as_str()
    }

    /// The anti-forgery token. It is never empty, it is trimmed, and it is the token
    /// of the credential string.
    pub fn xsrf_token(&self) -> (r: &str)
        ensures
            r@ == self@.token,
            r@.len() > 0,
            !is_space(r@[0]) && !is_space(r@.last()),
            token_in(self@.cookie) == Some(r@),
    {
        proof {
            use_type_invariant(self);
            token_is_not_empty(self.cookie@);
        }
        self.xsrf_token.as_str()
    }

    /// Starts listing the posts of `user_id`, over at most `max_pages` pages where a
    /// ceiling is given. The caller carries out the steps.
    pub fn get_all_weibo_ids(&self, user_id: &str, max_pages: Option<u32>) -> (r: ListStep)
        ensures
            r@ == list_after_wake(
                first_list_run(self@.cookie, self@.token, user_id@, max_pages),
            ),
    {
        ListRun::begin(self.cookie.as_str(), self.xsrf_token.as_str(), user_id, max_pages)
    }

    /// Starts setting the visibility of the post `weibo_id`. The caller carries out
    /// the steps.
    pub fn set_weibo_privacy(&self, weibo_id: &str, visibility: Visibility) -> (r: MutationStep)
        ensures
            r@ == mutation_after_wake(
                first_mutation_run(self@.cookie, self@.token, weibo_id@, visibility),
            ),
    {
        MutationRun::begin(self.cookie.as_str(), self.xsrf_token.as_str(), weibo_id, visibility)
    }
}

} // verus!
