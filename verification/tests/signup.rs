use pds_dash::pages::{index_page, success_page, SignupPage};
use pds_dash::pds::UserProfile;
use std::time::{Duration, Instant};

use pds_dash::sessions::{PendingSignup, SignupSessions};
use pds_dash::signup::{
    callback_step, check_signup_form, finish_signup, start_signup, start_signup_with_token,
    CallbackParams, CallbackStep, SignupFinish, SignupForm, SignupRequest, SignupStart,
};

fn form(email: &str, handle: &str, password: &str) -> SignupForm {
    SignupForm { email: email.into(), handle: handle.into(), password: password.into() }
}

fn request() -> SignupRequest {
    check_signup_form(form("alice@example.com", "alice", "pw")).ok().unwrap()
}

fn params(code: Option<&str>, state: Option<&str>, error: Option<&str>) -> CallbackParams {
    CallbackParams {
        code: code.map(String::from),
        state: state.map(String::from),
        error: error.map(String::from),
    }
}

fn shown(step: CallbackStep) -> SignupPage {
    match step {
        CallbackStep::Show(p) => p,
        CallbackStep::CreateAccount { .. } => panic!("expected a page"),
    }
}

const TOKEN: &str = "0123456789abcdef0123456789abcdef";

#[test]
fn blank_signup_page() {
    let p = SignupPage::blank();
    assert_eq!(p.email, "");
    assert_eq!(p.handle, "");
    assert_eq!(p.err, None);
    assert_eq!(p.success, None);
}

#[test]
fn form_is_trimmed_and_resolved() {
    let r = check_signup_form(form("  alice@example.com ", " alice\t", " pw ")).ok().unwrap();
    assert_eq!(r.email, "alice@example.com");
    assert_eq!(r.handle, "alice");
    assert_eq!(r.password, " pw ");
    assert_eq!(r.resolved_handle, "alice.tgirl.beauty");
    let r = check_signup_form(form("a@b.c", "bob.bsky.social", "x")).ok().unwrap();
    assert_eq!(r.resolved_handle, "bob.bsky.social");
}

#[test]
fn blank_fields_are_refused() {
    for f in [form("  ", "alice", "pw"), form("a@b.c", " \n", "pw"), form("a@b.c", "alice", "")] {
        let page = check_signup_form(f).err().unwrap();
        assert_eq!(page.err.as_deref(), Some("All fields are required."));
        assert_eq!(page.success, None);
    }
    let page = check_signup_form(form(" a@b.c ", "  ", "pw")).err().unwrap();
    assert_eq!(page.email, "a@b.c");
    assert_eq!(page.handle, "");
}

#[test]
fn start_saves_and_redirects_to_the_gate() {
    let mut s = SignupSessions::new();
    let r = start_signup_with_token(&mut s, request(), Ok("invite-9".into()), "http://localhost:3000/", TOKEN.into());
    match r {
        SignupStart::Redirect(url) => assert_eq!(
            url,
            "https://pds.tgirl.cloud/gate/signup?handle=alice.tgirl.beauty&state=0123456789abcdef0123456789abcdef&redirect_url=http%3A%2F%2Flocalhost%3A3000%2Fsignup%2Fcallback"
        ),
        SignupStart::Show(_) => panic!("expected a redirect"),
    }
    let p = s.take(TOKEN).unwrap();
    assert_eq!(p.handle, "alice.tgirl.beauty");
    assert_eq!(p.email, "alice@example.com");
    assert_eq!(p.password, "pw");
    assert_eq!(p.invite_code, "invite-9");
}

#[test]
fn gate_url_is_form_urlencoded() {
    let mut s = SignupSessions::new();
    let req = check_signup_form(form("a@b.c", "a b&c/é*-._~", "pw")).ok().unwrap();
    match start_signup_with_token(&mut s, req, Ok("i".into()), "https://dash.example", "t".into()) {
        SignupStart::Redirect(url) => assert_eq!(
            url,
            "https://pds.tgirl.cloud/gate/signup?handle=a+b%26c%2F%C3%A9*-._%7E&state=t&redirect_url=https%3A%2F%2Fdash.example%2Fsignup%2Fcallback"
        ),
        SignupStart::Show(_) => panic!("expected a redirect"),
    }
}

#[test]
fn invite_failure_shows_the_form_again() {
    let mut s = SignupSessions::new();
    let r = start_signup_with_token(&mut s, request(), Err("boom".into()), "http://x", TOKEN.into());
    match r {
        SignupStart::Show(p) => {
            assert_eq!(p.email, "alice@example.com");
            assert_eq!(p.handle, "alice");
            assert_eq!(p.err.as_deref(), Some("Failed to create invite code: boom"));
        },
        SignupStart::Redirect(_) => panic!("expected the form"),
    }
    assert!(!s.contains(TOKEN));
}

#[test]
fn start_with_a_fresh_token() {
    let mut s = SignupSessions::new();
    let url = match start_signup(&mut s, request(), Ok("i".into()), "http://localhost:3000") {
        SignupStart::Redirect(url) => url,
        SignupStart::Show(_) => panic!("expected a redirect"),
    };
    let state = url.split("&state=").nth(1).unwrap().split('&').next().unwrap().to_string();
    assert_eq!(state.len(), 32);
    assert_eq!(&state[12..13], "4");
    assert!(["8", "9", "a", "b"].contains(&&state[16..17]));
    assert!(state.chars().all(|c| c.is_ascii_hexdigit() && !c.is_ascii_uppercase()));
    assert!(s.contains(&state));
}

#[test]
fn callback_with_captcha_error() {
    let mut s = SignupSessions::new();
    let _ = start_signup_with_token(&mut s, request(), Ok("i".into()), "http://x", TOKEN.into());
    let p = shown(callback_step(&mut s, params(Some("c"), Some(TOKEN), Some("denied"))));
    assert_eq!(p.err.as_deref(), Some("Captcha failed: denied"));
    assert_eq!(p.email, "");
    assert!(s.contains(TOKEN));
}

#[test]
fn callback_missing_code_or_state() {
    let mut s = SignupSessions::new();
    for prm in [params(None, Some(TOKEN), None), params(Some("c"), None, None), params(None, None, None)] {
        let p = shown(callback_step(&mut s, prm));
        assert_eq!(p.err.as_deref(), Some("Missing captcha response."));
    }
}

#[test]
fn callback_hands_over_the_sign_up_once() {
    let mut s = SignupSessions::new();
    let _ = start_signup_with_token(&mut s, request(), Ok("i".into()), "http://x", TOKEN.into());
    match callback_step(&mut s, params(Some("captcha-code"), Some(TOKEN), None)) {
        CallbackStep::CreateAccount { pending, code } => {
            assert_eq!(code, "captcha-code");
            assert_eq!(pending.handle, "alice.tgirl.beauty");
        },
        CallbackStep::Show(_) => panic!("expected account creation"),
    }
    let p = shown(callback_step(&mut s, params(Some("captcha-code"), Some(TOKEN), None)));
    assert_eq!(p.err.as_deref(), Some("Your signup session expired. Please start over."));
}

#[test]
fn late_callback_is_expired() {
    let mut s = SignupSessions::new();
    let created_at = Instant::now()
        .checked_sub(Duration::from_secs(601))
        .expect("the monotonic clock has run long enough");
    let old = PendingSignup {
        handle: "alice.tgirl.beauty".into(),
        email: "a@b.c".into(),
        password: "pw".into(),
        invite_code: "i".into(),
        created_at,
    };
    s.save(TOKEN.into(), old);
    let p = shown(callback_step(&mut s, params(Some("c"), Some(TOKEN), None)));
    assert_eq!(p.err.as_deref(), Some("Your signup session expired. Please start over."));
    assert!(!s.contains(TOKEN));
}

#[test]
fn callback_with_the_clock() {
    let mut s = SignupSessions::new();
    s.save("tok".into(), PendingSignup::new("h.x".into(), "e".into(), "p".into(), "c".into()));
    assert!(matches!(callback_step(&mut s, params(Some("c"), Some("tok"), None)), CallbackStep::CreateAccount { .. }));
}

#[test]
fn finish_redirects_to_success_or_shows_error() {
    let p = PendingSignup::new("alice.tgirl.beauty".into(), "a@b.c".into(), "pw".into(), "i".into());
    match finish_signup(p.clone(), Ok(())) {
        SignupFinish::Redirect(loc) => assert_eq!(loc, "/signup/success?handle=alice.tgirl.beauty"),
        SignupFinish::Show(_) => panic!("expected a redirect"),
    }
    match finish_signup(p, Err("InvalidHandle: taken".into())) {
        SignupFinish::Show(page) => {
            assert_eq!(page.email, "a@b.c");
            assert_eq!(page.handle, "alice.tgirl.beauty");
            assert_eq!(page.err.as_deref(), Some("InvalidHandle: taken"));
        },
        SignupFinish::Redirect(_) => panic!("expected the form"),
    }
    let odd = PendingSignup::new("a b+c".into(), "e".into(), "p".into(), "i".into());
    match finish_signup(odd, Ok(())) {
        SignupFinish::Redirect(loc) => assert_eq!(loc, "/signup/success?handle=a+b%2Bc"),
        SignupFinish::Show(_) => panic!("expected a redirect"),
    }
}

#[test]
fn index_page_falls_back() {
    let p = index_page(None, None);
    assert_eq!(p.version, "0");
    assert_eq!(p.user_count, 0);
    let users = vec![
        UserProfile { handle: "a".into(), display_name: None, avatar: None },
        UserProfile { handle: "b".into(), display_name: None, avatar: None },
    ];
    let p = index_page(Some("0.4.1".into()), Some(users));
    assert_eq!(p.version, "0.4.1");
    assert_eq!(p.user_count, 2);
    assert_eq!(p.users[1].handle, "b");
}

#[test]
fn success_page_handle() {
    assert_eq!(success_page(Some("alice.x".into())).handle, "alice.x");
    assert_eq!(success_page(None).handle, "");
}
