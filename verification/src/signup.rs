//! The sign-up flow: checking the form, sending the user to the PDS's
//! captcha gate with a fresh state token, and taking the user back when the
//! captcha calls back with that token.
use vstd::prelude::*;
use crate::bindings::{elapsed_nanos, new_state_token, urlencode_pairs};
use crate::encoding::{form_query, lower_hex_digit, pair_views};
use crate::pages::{error_page, SignupPage, SignupPageView};
use crate::pds::{opt_view, resolve_handle, resolved_handle, PDS_URL};
use crate::sessions::{
    age_at, ages_at_instant, pending_view, saved, taken, PendingSignup, PendingSignupView, SessionMap,
    SignupSessions, SESSION_TTL_NANOS,
};
use crate::text::{joined, strip_trailing, trim, trim_end_char, trimmed};

verus! {

/// The fields of the sign-up form as submitted.
pub struct SignupForm {
    pub email: String,
    pub handle: String,
    pub password: String,
}

/// What a sign-up form holds once checked, as mathematical values.
pub struct SignupRequestView {
    pub email: Seq<char>,
    pub handle: Seq<char>,
    pub password: Seq<char>,
    pub resolved_handle: Seq<char>,
}

/// A checked sign-up form: the e-mail address and handle trimmed, and the
/// handle that the account will have.
pub struct SignupRequest {
    pub email: String,
    pub handle: String,
    pub password: String,
    pub resolved_handle: String,
}

impl View for SignupRequest {
    type V = SignupRequestView;

    open spec fn view(&self) -> SignupRequestView {
        SignupRequestView {
            email: self.email@,
            handle: self.handle@,
            password: self.password@,
            resolved_handle: self.resolved_handle@,
        }
    }
}

/// What checking a sign-up form comes to: the request, or the form shown
/// again with an error when a field is empty (after trimming the e-mail
/// address and the handle; the password is taken as it is).
pub open spec fn form_check(email: Seq<char>, handle: Seq<char>, password: Seq<char>) -> Result<SignupRequestView, SignupPageView> {
    let e = trimmed(email);
    let h = trimmed(handle);
    if e.len() == 0 || h.len() == 0 || password.len() == 0 {
        Err(error_page(e, h, "All fields are required."@))
    } else {
        Ok(SignupRequestView { email: e, handle: h, password, resolved_handle: resolved_handle(h) })
    }
}

/// Checks a submitted sign-up form.
pub fn check_signup_form(form: SignupForm) -> (r: Result<SignupRequest, SignupPage>)
    ensures
        match r {
            Ok(req) => form_check(form.email@, form.handle@, form.password@) == Ok::<SignupRequestView, SignupPageView>(req@),
            Err(p) => form_check(form.email@, form.handle@, form.password@) == Err::<SignupRequestView, SignupPageView>(p@),
        },
{
    let email = trim(form.email.as_str());
    let handle = trim(form.handle.as_str());
    let password = form.password;
    if email.as_str().is_empty() || handle.as_str().is_empty() || password.as_str().is_empty() {
        return Err(SignupPage::with_error(email, handle, "All fields are required.".to_owned()));
    }
    let resolved = resolve_handle(handle.as_str());
    Ok(SignupRequest { email, handle, password, resolved_handle: resolved })
}

/// Where the captcha gate sends the user back to: the dashboard's address
/// without trailing slashes, followed by `/signup/callback`.
pub open spec fn callback_url_of(app_base_url: Seq<char>) -> Seq<char> {
    strip_trailing(app_base_url, '/') + "/signup/callback"@
}

/// The address of the PDS's captcha gate for a sign-up: the handle asked
/// for, the state token, and the address to come back to, form-urlencoded.
pub open spec fn gate_url_of(handle: Seq<char>, state: Seq<char>, callback: Seq<char>) -> Seq<char> {
    PDS_URL@ + "/gate/signup?"@ + form_query(
        seq![("handle"@, handle), ("state"@, state), ("redirect_url"@, callback)],
    )
}

/// The pending sign-up that a request with the invite code `invite_code`
/// leaves in the store, made at the instant `created_at`.
pub open spec fn signup_pending(req: SignupRequestView, invite_code: Seq<char>, created_at: std::time::Instant) -> PendingSignupView {
    PendingSignupView {
        handle: req.resolved_handle,
        email: req.email,
        password: req.password,
        invite_code,
        created_at,
    }
}

/// What a submitted and checked form leads to.
pub enum SignupStart {
    /// The form, shown again with an error.
    Show(SignupPage),
    /// A redirect to this address of the captcha gate.
    Redirect(String),
}

/// Starts a sign-up under the state token `token`, once the invite code has
/// been asked for: with a code, the sign-up is made now, saved (the expired
/// ones are dropped, by the clock) and the user is sent to the captcha gate;
/// without one, the form is shown again and the store is left alone.
pub fn start_signup_with_token(
    sessions: &mut SignupSessions,
    request: SignupRequest,
    invite: Result<String, String>,
    app_base_url: &str,
    token: String,
) -> (r: SignupStart)
    ensures
        match invite {
            Ok(code) => {
                &&& exists|created_at: std::time::Instant, now: std::time::Instant| final(sessions)@
                    == saved(
                    old(sessions)@,
                    token@,
                    signup_pending(request@, code@, created_at),
                    ages_at_instant(old(sessions)@, now),
                )
                &&& r matches SignupStart::Redirect(url) && url@ == gate_url_of(
                    request.resolved_handle@,
                    token@,
                    callback_url_of(app_base_url@),
                )
            },
            Err(e) => {
                &&& final(sessions)@ == old(sessions)@
                &&& r matches SignupStart::Show(p) && p@ == error_page(
                    request.email@,
                    request.handle@,
                    "Failed to create invite code: "@ + e@,
                )
            },
        },
{
    match invite {
        Err(e) => {
            let err = joined("Failed to create invite code: ", e.as_str());
            SignupStart::Show(SignupPage::with_error(request.email, request.handle, err))
        },
        Ok(code) => {
            let resolved = request.resolved_handle;
            let pending = PendingSignup::new(resolved.clone(), request.email, request.password, code);
            let ghost made = pending@;
            sessions.save(token.clone(), pending);
            proof {
                assert(made == signup_pending(request@, code@, made.created_at));
            }
            let base = trim_end_char(app_base_url, '/');
            let callback = joined(base.as_str(), "/signup/callback");
            let mut pairs: Vec<(String, String)> = Vec::new();
            pairs.push(("handle".to_owned(), resolved));
            pairs.push(("state".to_owned(), token));
            pairs.push(("redirect_url".to_owned(), callback));
            proof {
                assert(pair_views(pairs@) =~= seq![
                    ("handle"@, request.resolved_handle@),
                    ("state"@, token@),
                    ("redirect_url"@, callback_url_of(app_base_url@)),
                ]);
            }
            let query = urlencode_pairs(&pairs);
            let head = joined(PDS_URL, "/gate/signup?");
            SignupStart::Redirect(joined(head.as_str(), query.as_str()))
        },
    }
}

/// Whether `t` has the form of a state token: a version 4 UUID written as
/// 32 lower-case hexadecimal digits.
pub open spec fn token_form(t: Seq<char>) -> bool {
    &&& t.len() == 32
    &&& forall|i: int| 0 <= i < 32 ==> lower_hex_digit(#[trigger] t[i])
    &&& t[12] == '4'
    &&& (t[16] == '8' || t[16] == '9' || t[16] == 'a' || t[16] == 'b')
}

/// Starts a sign-up under a fresh random state token (see
/// `start_signup_with_token`).
pub fn start_signup(
    sessions: &mut SignupSessions,
    request: SignupRequest,
    invite: Result<String, String>,
    app_base_url: &str,
) -> (r: SignupStart)
    ensures
        match invite {
            Ok(code) => exists|token: Seq<char>, created_at: std::time::Instant, now: std::time::Instant| {
                &&& token_form(token)
                &&& final(sessions)@ == saved(
                    old(sessions)@,
                    token,
                    signup_pending(request@, code@, created_at),
                    ages_at_instant(old(sessions)@, now),
                )
                &&& r matches SignupStart::Redirect(url) && url@ == gate_url_of(
                    request.resolved_handle@,
                    token,
                    callback_url_of(app_base_url@),
                )
            },
            Err(e) => {
                &&& final(sessions)@ == old(sessions)@
                &&& r matches SignupStart::Show(p) && p@ == error_page(
                    request.email@,
                    request.handle@,
                    "Failed to create invite code: "@ + e@,
                )
            },
        },
{
    match invite {
        Err(e) => start_signup_with_token(sessions, request, Err(e), app_base_url, String::new()),
        Ok(code) => {
            let token = new_state_token();
            let ghost t = token@;
            let r = start_signup_with_token(sessions, request, Ok(code), app_base_url, token);
            proof {
                assert(token_form(t));
            }
            r
        },
    }
}

/// The query of the captcha gate's callback, as mathematical values.
pub struct CallbackParamsView {
    pub code: Option<Seq<char>>,
    pub state: Option<Seq<char>>,
    pub error: Option<Seq<char>>,
}

/// The query with which the captcha gate calls back.
pub struct CallbackParams {
    pub code: Option<String>,
    pub state: Option<String>,
    pub error: Option<String>,
}

impl View for CallbackParams {
    type V = CallbackParamsView;

    open spec fn view(&self) -> CallbackParamsView {
        CallbackParamsView { code: opt_view(self.code), state: opt_view(self.state), error: opt_view(self.error) }
    }
}

/// What a callback of the captcha gate leads to, as mathematical values.
pub enum CallbackStepView {
    Show(SignupPageView),
    CreateAccount { pending: PendingSignupView, code: Seq<char> },
}

/// What a callback of the captcha gate leads to.
pub enum CallbackStep {
    /// The sign-up page, with an error.
    Show(SignupPage),
    /// Creating the account of `pending` with the captcha's verification code.
    CreateAccount { pending: PendingSignup, code: String },
}

impl View for CallbackStep {
    type V = CallbackStepView;

    open spec fn view(&self) -> CallbackStepView {
        match self {
            CallbackStep::Show(p) => CallbackStepView::Show(p@),
            CallbackStep::CreateAccount { pending, code } => CallbackStepView::CreateAccount {
                pending: pending@,
                code: code@,
            },
        }
    }
}

/// The sign-up page with nothing filled in and the error `err`.
pub open spec fn notice(err: Seq<char>) -> SignupPageView {
    error_page(seq![], seq![], err)
}

/// The store after a callback and what the callback leads to, when the
/// state's sign-up has the age `age`: an error of the captcha comes first,
/// then a missing code or state, then a state whose sign-up is gone or has
/// expired.
pub open spec fn callback_outcome(m: SessionMap, p: CallbackParamsView, age: u128) -> (SessionMap, CallbackStepView) {
    match p.error {
        Some(e) => (m, CallbackStepView::Show(notice("Captcha failed: "@ + e))),
        None => match (p.code, p.state) {
            (Some(code), Some(state)) => match taken(m, state, age) {
                Some(pending) => (m.remove(state), CallbackStepView::CreateAccount { pending, code }),
                None => (m.remove(state), CallbackStepView::Show(notice("Your signup session expired. Please start over."@))),
            },
            _ => (m, CallbackStepView::Show(notice("Missing captcha response."@))),
        },
    }
}

/// The store after a callback at the instant `now` and what the callback
/// leads to: `callback_outcome` with the age at `now` of the state's sign-up.
pub open spec fn callback_outcome_at(m: SessionMap, p: CallbackParamsView, now: std::time::Instant) -> (SessionMap, CallbackStepView) {
    let age = match p.state {
        Some(state) => age_at(m, state, now),
        None => 0,
    };
    callback_outcome(m, p, age)
}

/// Handles a callback of the captcha gate; whether the sign-up has expired
/// is read from the clock.
pub fn callback_step(sessions: &mut SignupSessions, params: CallbackParams) -> (r: CallbackStep)
    ensures
        exists|now: std::time::Instant| (final(sessions)@, r@) == callback_outcome_at(old(sessions)@, params@, now),
{
    let ghost any: std::time::Instant = vstd::pervasive::arbitrary();
    let ghost p = params@;
    if let Some(err) = params.error {
        let msg = joined("Captcha failed: ", err.as_str());
        let r = CallbackStep::Show(SignupPage::with_error(String::new(), String::new(), msg));
        proof {
            assert((final(sessions)@, r@) == callback_outcome_at(old(sessions)@, p, any));
        }
        return r;
    }
    let (code, state) = match (params.code, params.state) {
        (Some(code), Some(state)) => (code, state),
        _ => {
            let r = CallbackStep::Show(
                SignupPage::with_error(String::new(), String::new(), "Missing captcha response.".to_owned()),
            );
            proof {
                assert((final(sessions)@, r@) == callback_outcome_at(old(sessions)@, p, any));
            }
            return r;
        },
    };
    let got = sessions.take(state.as_str());
    let ghost now = choose|now: std::time::Instant| pending_view(got) == taken(
        old(sessions)@,
        state@,
        age_at(old(sessions)@, state@, now),
    );
    let r = match got {
        Some(pending) => CallbackStep::CreateAccount { pending, code },
        None => CallbackStep::Show(
            SignupPage::with_error(
                String::new(),
                String::new(),
                "Your signup session expired. Please start over.".to_owned(),
            ),
        ),
    };
    proof {
        assert((final(sessions)@, r@) == callback_outcome_at(old(sessions)@, p, now));
    }
    r
}

/// Where the user goes once the account is created: the success page, with
/// the handle in its query.
pub open spec fn success_location(handle: Seq<char>) -> Seq<char> {
    "/signup/success?"@ + form_query(seq![("handle"@, handle)])
}

/// What the end of a sign-up leads to.
pub enum SignupFinish {
    /// A redirect to this address.
    Redirect(String),
    /// The sign-up page, filled in, with an error.
    Show(SignupPage),
}

/// The end of a sign-up, once the PDS has answered the account creation:
/// the success page, or the form filled with the sign-up's values and the
/// PDS's message.
pub fn finish_signup(pending: PendingSignup, result: Result<(), String>) -> (r: SignupFinish)
    ensures
        match result {
            Ok(_) => r matches SignupFinish::Redirect(loc) && loc@ == success_location(pending.handle@),
            Err(msg) => r matches SignupFinish::Show(p) && p@ == error_page(pending.email@, pending.handle@, msg@),
        },
{
    match result {
        Ok(()) => {
            let mut pairs: Vec<(String, String)> = Vec::new();
            pairs.push(("handle".to_owned(), pending.handle));
            proof {
                assert(pair_views(pairs@) =~= seq![("handle"@, pending.handle@)]);
            }
            let query = urlencode_pairs(&pairs);
            SignupFinish::Redirect(joined("/signup/success?", query.as_str()))
        },
        Err(msg) => SignupFinish::Show(SignupPage::with_error(pending.email, pending.handle, msg)),
    }
}

/// The callback query that a captcha gate sends back after a solved
/// captcha.
pub open spec fn solved(code: Seq<char>, state: Seq<char>) -> CallbackParamsView {
    CallbackParamsView { code: Some(code), state: Some(state), error: None }
}

/// A sign-up made at `created_at` and saved under the token `token` is handed
/// over for account creation, with everything the form held, when the
/// captcha calls back with that token less than ten minutes after the
/// sign-up was made; the token is then used up.
pub proof fn law_callback_finds_started_sign_up(
    m: SessionMap,
    req: SignupRequestView,
    invite_code: Seq<char>,
    token: Seq<char>,
    created_at: std::time::Instant,
    saved_at: std::time::Instant,
    now: std::time::Instant,
    code: Seq<char>,
)
    requires
        elapsed_nanos(created_at, now) < SESSION_TTL_NANOS,
    ensures
        ({
            let started = saved(m, token, signup_pending(req, invite_code, created_at), ages_at_instant(m, saved_at));
            callback_outcome_at(started, solved(code, token), now) == (
                started.remove(token),
                CallbackStepView::CreateAccount { pending: signup_pending(req, invite_code, created_at), code },
            )
        }),
{
}

/// A callback ten minutes or more after the sign-up was made is refused as
/// expired.
pub proof fn law_late_callback_refused(
    m: SessionMap,
    req: SignupRequestView,
    invite_code: Seq<char>,
    token: Seq<char>,
    created_at: std::time::Instant,
    saved_at: std::time::Instant,
    now: std::time::Instant,
    code: Seq<char>,
)
    requires
        elapsed_nanos(created_at, now) >= SESSION_TTL_NANOS,
    ensures
        callback_outcome_at(
            saved(m, token, signup_pending(req, invite_code, created_at), ages_at_instant(m, saved_at)),
            solved(code, token),
            now,
        ).1 == CallbackStepView::Show(notice("Your signup session expired. Please start over."@)),
{
}

/// A callback can be used once: replaying it, at any later instant, is
/// refused as expired.
pub proof fn law_callback_replay_refused(
    m: SessionMap,
    code: Seq<char>,
    state: Seq<char>,
    now: std::time::Instant,
    later: std::time::Instant,
)
    ensures
        ({
            let after = callback_outcome_at(m, solved(code, state), now).0;
            callback_outcome_at(after, solved(code, state), later) == (
                after,
                CallbackStepView::Show(notice("Your signup session expired. Please start over."@)),
            )
        }),
{
    let after = callback_outcome_at(m, solved(code, state), now).0;
    assert(after == m.remove(state));
    assert(after.remove(state) =~= after);
}

/// A callback that reports a captcha error leaves the store as it was,
/// whatever code or state it carries, at any instant.
pub proof fn law_captcha_error_keeps_store(m: SessionMap, p: CallbackParamsView, now: std::time::Instant)
    requires
        p.error is Some,
    ensures
        callback_outcome_at(m, p, now).0 == m,
        callback_outcome_at(m, p, now).1 == CallbackStepView::Show(notice("Captcha failed: "@ + p.error->0)),
{
}

} // verus!
