//! The pages that the dashboard renders, as the values the templates show.
use vstd::prelude::*;
use crate::pds::{opt_view, UserProfile};

verus! {

/// What the sign-up page shows, as mathematical values.
pub struct SignupPageView {
    pub email: Seq<char>,
    pub handle: Seq<char>,
    pub err: Option<Seq<char>>,
    pub success: Option<Seq<char>>,
}

/// The sign-up form, with the values to fill in and an error or success
/// notice.
pub struct SignupPage {
    pub email: String,
    pub handle: String,
    pub err: Option<String>,
    pub success: Option<String>,
}

impl View for SignupPage {
    type V = SignupPageView;

    open spec fn view(&self) -> SignupPageView {
        SignupPageView {
            email: self.email@,
            handle: self.handle@,
            err: opt_view(self.err),
            success: opt_view(self.success),
        }
    }
}

/// The sign-up page with the given values and the error `err`.
pub open spec fn error_page(email: Seq<char>, handle: Seq<char>, err: Seq<char>) -> SignupPageView {
    SignupPageView { email, handle, err: Some(err), success: None }
}

impl SignupPage {
    /// The empty sign-up form.
    pub fn blank() -> (p: Self)
        ensures
            p@ == (SignupPageView { email: seq![], handle: seq![], err: None, success: None }),
    {
        SignupPage { email: String::new(), handle: String::new(), err: None, success: None }
    }

    /// The sign-up form filled with `email` and `handle`, showing `err`.
    pub fn with_error(email: String, handle: String, err: String) -> (p: Self)
        ensures
            p@ == error_page(email@, handle@, err@),
    {
        SignupPage { email, handle, err: Some(err), success: None }
    }
}

/// The front page: the PDS's version and its users.
pub struct IndexPage {
    pub user_count: usize,
    pub version: String,
    pub users: Vec<UserProfile>,
}

/// The front page for what the PDS answered: the version, or `0` when it
/// could not be read, and the users, or none when they could not be listed.
pub fn index_page(version: Option<String>, users: Option<Vec<UserProfile>>) -> (p: IndexPage)
    ensures
        p.version@ == (match version {
            Some(v) => v@,
            None => "0"@,
        }),
        p.users@ == (match users {
            Some(u) => u@,
            None => Seq::<UserProfile>::empty(),
        }),
        p.user_count == p.users@.len(),
{
    let version = match version {
        Some(v) => v,
        None => "0".to_owned(),
    };
    let users = match users {
        Some(u) => u,
        None => Vec::new(),
    };
    IndexPage { user_count: users.len(), version, users }
}

/// The page shown once an account is created.
pub struct SuccessPage {
    pub handle: String,
}

/// The success page for the handle given in its query, or an empty handle.
pub fn success_page(handle: Option<String>) -> (p: SuccessPage)
    ensures
        p.handle@ == (match handle {
            Some(h) => h@,
            None => Seq::<char>::empty(),
        }),
{
    match handle {
        Some(h) => SuccessPage { handle: h },
        None => SuccessPage { handle: String::new() },
    }
}

} // verus!
