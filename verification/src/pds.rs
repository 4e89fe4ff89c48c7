//! What the dashboard makes of the PDS's answers, and what it sends it.
//!
//! The requests themselves go over the network outside the library; here
//! are the handle that an account is created with, the administrator's
//! authorisation, the user profiles built from the PDS's records, the paging
//! through the PDS's repositories, and the messages shown when the PDS
//! refuses a request.
use vstd::prelude::*;
use crate::bindings::{
    atproto_handle, atproto_identifier_valid, base64_encode, check_handle, is_at_identifier, utf8_text,
};
use crate::encoding::{base64_standard, lemma_base64_visible, visible_ascii};
use crate::text::{joined, contains_char};

verus! {

/// The PDS that the dashboard serves.
pub const PDS_URL: &'static str = "https://pds.tgirl.cloud";

/// The domain under which a handle without a dot is registered.
pub const HANDLE_SUFFIX: &'static str = ".tgirl.beauty";

/// The handle that a sign-up asks for: the handle itself if it holds a dot,
/// else the handle under the dashboard's domain.
pub open spec fn resolved_handle(handle: Seq<char>) -> Seq<char> {
    if handle.contains('.') {
        handle
    } else {
        handle + HANDLE_SUFFIX@
    }
}

/// The handle that a sign-up asks for (`handle` if it holds a dot, else
/// `handle` followed by `.tgirl.beauty`).
pub fn resolve_handle(handle: &str) -> (r: String)
    ensures
        r@ == resolved_handle(handle@),
{
    if contains_char(handle, '.') {
        handle.to_owned()
    } else {
        joined(handle, HANDLE_SUFFIX)
    }
}

/// Resolving a handle that was already resolved changes nothing.
pub proof fn law_resolve_handle_idempotent(handle: Seq<char>)
    ensures
        resolved_handle(resolved_handle(handle)) == resolved_handle(handle),
        resolved_handle(handle).contains('.'),
{
    reveal_strlit(".tgirl.beauty");
    if !handle.contains('.') {
        let r = handle + HANDLE_SUFFIX@;
        assert(r[handle.len() as int] == '.');
    }
}

/// The value of the `Authorization` header for the PDS administrator:
/// `Basic` and the Base64 of `admin:` followed by the password.
pub open spec fn admin_authorization_value(admin_password: Seq<char>) -> Seq<char> {
    "Basic "@ + base64_standard(vstd::utf8::encode_utf8("admin:"@ + admin_password))
}

/// The `Authorization` header value with which invite codes are created.
pub fn admin_authorization(admin_password: &str) -> (r: String)
    ensures
        r@ == admin_authorization_value(admin_password@),
        forall|i: int| 0 <= i < r@.len() ==> visible_ascii(#[trigger] r@[i]),
{
    let credentials = joined("admin:", admin_password);
    let encoded = base64_encode(credentials.as_str());
    let r = joined("Basic ", encoded.as_str());
    proof {
        reveal_strlit("Basic ");
        lemma_base64_visible(vstd::utf8::encode_utf8(credentials@));
        assert forall|i: int| 0 <= i < r@.len() implies visible_ascii(#[trigger] r@[i]) by {
            if i >= 6 {
                assert(r@[i] == encoded@[i - 6]);
            }
        }
    }
    r
}

/// What an invite-code request came to.
pub enum InviteResponse {
    /// The PDS issued this code.
    Issued(String),
    /// The request did not get an answer; the text says why.
    RequestFailed(String),
    /// The answer could not be read; the text says why.
    DecodeFailed(String),
}

/// The code of an invite-code request, or the message of its failure.
pub fn invite_code_result(response: InviteResponse) -> (r: Result<String, String>)
    ensures
        match response {
            InviteResponse::Issued(code) => r matches Ok(c) && c@ == code@,
            InviteResponse::RequestFailed(why) => r matches Err(m) && m@ == "createInviteCode request failed: "@ + why@,
            InviteResponse::DecodeFailed(why) => r matches Err(m) && m@ == "createInviteCode decode failed: "@ + why@,
        },
{
    match response {
        InviteResponse::Issued(code) => Ok(code),
        InviteResponse::RequestFailed(why) => Err(joined("createInviteCode request failed: ", why.as_str())),
        InviteResponse::DecodeFailed(why) => Err(joined("createInviteCode decode failed: ", why.as_str())),
    }
}

/// What a user profile shows, as mathematical values.
pub struct UserProfileView {
    pub handle: Seq<char>,
    pub display_name: Option<Seq<char>>,
    pub avatar: Option<Seq<char>>,
}

/// The views of an optional string.
pub open spec fn opt_view(s: Option<String>) -> Option<Seq<char>> {
    match s {
        Some(s) => Some(s@),
        None => None,
    }
}

/// A user of the PDS as the dashboard lists it.
#[derive(Debug, Clone)]
pub struct UserProfile {
    pub handle: String,
    pub display_name: Option<String>,
    pub avatar: Option<String>,
}

impl View for UserProfile {
    type V = UserProfileView;

    open spec fn view(&self) -> UserProfileView {
        UserProfileView {
            handle: self.handle@,
            display_name: opt_view(self.display_name),
            avatar: opt_view(self.avatar),
        }
    }
}

/// The address of the thumbnail of an avatar blob `cid` of the account `did`.
pub open spec fn avatar_url_of(did: Seq<char>, cid: Seq<char>) -> Seq<char> {
    "https://cdn.bsky.app/img/feed_thumbnail/plain/"@ + did + "/"@ + cid
}

/// The address of the thumbnail of an avatar blob on Bluesky's image CDN.
pub fn avatar_url(did: &str, cid: &str) -> (r: String)
    ensures
        r@ == avatar_url_of(did@, cid@),
{
    let base = joined("https://cdn.bsky.app/img/feed_thumbnail/plain/", did);
    let with_slash = joined(base.as_str(), "/");
    joined(with_slash.as_str(), cid)
}

/// What the lookup of an account's `app.bsky.actor.profile/self` record came
/// to.
pub enum ProfileRecord {
    /// The record could not be fetched, or its answer could not be read.
    Unavailable,
    /// The record was fetched but is not a profile.
    Malformed,
    /// The profile's display name and the CID of its avatar blob.
    Found { display_name: Option<String>, avatar_cid: Option<String> },
}

/// The profile that the dashboard lists for the account `did` whose
/// repository names `handle`: without a display name or avatar when the
/// profile record is unavailable, and none at all when the record is not a
/// profile.
pub fn user_profile(did: &str, handle: String, record: ProfileRecord) -> (r: Option<UserProfile>)
    ensures
        match record {
            ProfileRecord::Unavailable => r matches Some(p) && p@ == (UserProfileView {
                handle: handle@,
                display_name: None,
                avatar: None,
            }),
            ProfileRecord::Malformed => r is None,
            ProfileRecord::Found { display_name, avatar_cid } => r matches Some(p) && p@ == (UserProfileView {
                handle: handle@,
                display_name: opt_view(display_name),
                avatar: match avatar_cid {
                    Some(cid) => Some(avatar_url_of(did@, cid@)),
                    None => None,
                },
            }),
        },
{
    match record {
        ProfileRecord::Unavailable => Some(UserProfile { handle, display_name: None, avatar: None }),
        ProfileRecord::Malformed => None,
        ProfileRecord::Found { display_name, avatar_cid } => {
            let avatar = match avatar_cid {
                Some(cid) => Some(avatar_url(did, cid.as_str())),
                None => None,
            };
            Some(UserProfile { handle, display_name, avatar })
        },
    }
}

/// The profiles that loaded, in the order of the accounts.
pub open spec fn loaded_profiles(results: Seq<Option<UserProfile>>) -> Seq<UserProfile>
    decreases results.len(),
{
    if results.len() == 0 {
        seq![]
    } else {
        match results.last() {
            Some(p) => loaded_profiles(results.drop_last()).push(p),
            None => loaded_profiles(results.drop_last()),
        }
    }
}

/// The profiles that loaded, in the order of the accounts; the accounts
/// whose profile failed to load are left out.
pub fn keep_loaded_profiles(results: Vec<Option<UserProfile>>) -> (r: Vec<UserProfile>)
    ensures
        r@ == loaded_profiles(results@),
{
    let mut r: Vec<UserProfile> = Vec::new();
    let mut results = results;
    let ghost all = results@;
    let mut taken: Vec<Option<UserProfile>> = Vec::new();
    // Reverse once so that the profiles can be moved out in order.
    while results.len() > 0
        invariant
            all == results@ + taken@.reverse(),
        decreases results.len(),
    {
        let ghost before = results@;
        let item = results.pop().unwrap();
        let ghost taken_before = taken@;
        taken.push(item);
        proof {
            assert(taken@.reverse() =~= seq![item] + taken_before.reverse());
            assert(before =~= results@.push(item));
            assert(all =~= results@ + taken@.reverse());
        }
    }
    while taken.len() > 0
        invariant
            taken@.reverse() == all.subrange(all.len() - taken@.len(), all.len() as int),
            taken@.len() <= all.len(),
            r@ == loaded_profiles(all.subrange(0, all.len() - taken@.len())),
        decreases taken.len(),
    {
        let ghost before = taken@;
        let ghost k: int = all.len() - before.len();
        let item = taken.pop().unwrap();
        proof {
            assert(before.reverse()[0] == item);
            assert(all[k] == before.reverse()[0]);
            assert(taken@.reverse() =~= before.reverse().drop_first());
            assert(all.subrange(0, k + 1).drop_last() =~= all.subrange(0, k));
            assert(all.subrange(0, k + 1).last() == item);
        }
        match item {
            Some(p) => r.push(p),
            None => {},
        }
    }
    proof {
        assert(all.subrange(0, all.len() as int) =~= all);
    }
    r
}

/// The views of a list of strings.
pub open spec fn string_views(v: Seq<String>) -> Seq<Seq<char>> {
    v.map_values(|s: String| s@)
}

/// Paging through the repositories of the PDS (`com.atproto.sync.listRepos`):
/// the DIDs gathered so far and the cursor of the next page.
pub struct RepoListing {
    dids: Vec<String>,
    cursor: Option<String>,
    finished: bool,
}

/// What a repository listing holds, as mathematical values.
pub struct RepoListingView {
    pub dids: Seq<Seq<char>>,
    pub cursor: Option<Seq<char>>,
    pub finished: bool,
}

impl View for RepoListing {
    type V = RepoListingView;

    closed spec fn view(&self) -> RepoListingView {
        RepoListingView { dids: string_views(self.dids@), cursor: opt_view(self.cursor), finished: self.finished }
    }
}

impl RepoListing {
    /// A listing that has fetched nothing yet: its first page is asked for
    /// without a cursor.
    pub fn new() -> (r: Self)
        ensures
            r@ == (RepoListingView { dids: seq![], cursor: None, finished: false }),
    {
        let r = RepoListing { dids: Vec::new(), cursor: None, finished: false };
        proof {
            assert(string_views(r.dids@) =~= seq![]);
        }
        r
    }

    /// Whether the last page has been taken in.
    pub fn is_finished(&self) -> (b: bool)
        ensures
            b == self@.finished,
    {
        self.finished
    }

    /// The cursor to send with the request for the next page.
    pub fn next_cursor(&self) -> (c: Option<String>)
        ensures
            opt_view(c) == self@.cursor,
    {
        match &self.cursor {
            Some(c) => Some(c.clone()),
            None => None,
        }
    }

    /// Takes in a page of the listing: its DIDs follow those gathered so far,
    /// and the listing is finished when the page comes without a cursor.
    pub fn add_page(&mut self, page: Vec<String>, cursor: Option<String>)
        requires
            !old(self)@.finished,
        ensures
            final(self)@ == (RepoListingView {
                dids: old(self)@.dids + string_views(page@),
                cursor: opt_view(cursor),
                finished: cursor is None,
            }),
    {
        let ghost before = self.dids@;
        let mut page = page;
        let ghost added = page@;
        self.dids.append(&mut page);
        proof {
            assert(self.dids@ == before + added);
            assert(string_views(before + added) =~= string_views(before) + string_views(added));
        }
        self.finished = cursor.is_none();
        self.cursor = cursor;
    }

    /// The DIDs gathered, in the order of the pages.
    pub fn into_dids(self) -> (r: Vec<String>)
        ensures
            string_views(r@) == self@.dids,
    {
        self.dids
    }
}

/// What the sign-up form hands over for creating an account.
pub struct CreateAccountInput<'a> {
    pub handle: &'a str,
    pub email: &'a str,
    pub password: &'a str,
    pub invite_code: &'a str,
    pub verification_code: &'a str,
}

/// The handle an account is created with, from what the AT Protocol handle
/// check made of the resolved handle: the normalised handle, or the message
/// of its rejection.
pub open spec fn handle_outcome(check: Result<Seq<char>, Seq<char>>) -> Result<Seq<char>, Seq<char>> {
    match check {
        Ok(h) => Ok(h),
        Err(e) => Err("invalid handle: "@ + e),
    }
}

/// The handle an account is created with: the resolved handle as the
/// AT Protocol handle check normalises it, or the message of its rejection.
pub open spec fn account_handle_of(handle: Seq<char>) -> Result<Seq<char>, Seq<char>> {
    handle_outcome(atproto_handle(resolved_handle(handle)))
}

/// The handle an account is created with, given what the handle check
/// (`Handle::new_owned`) gave back: the handle, or its error prefixed with
/// `invalid handle: `.
pub fn handle_check_result(check: Result<String, String>) -> (r: Result<String, String>)
    ensures
        match check {
            Ok(h) => r matches Ok(x) && x@ == h@,
            Err(e) => r matches Err(m) && m@ == "invalid handle: "@ + e@,
        },
{
    match check {
        Ok(h) => Ok(h),
        Err(e) => Err(joined("invalid handle: ", e.as_str())),
    }
}

/// The handle that `create_account` asks the PDS for: `input.handle`
/// resolved under the dashboard's domain and checked as an AT Protocol
/// handle.
pub fn account_handle(input: &CreateAccountInput) -> (r: Result<String, String>)
    ensures
        match r {
            Ok(h) => account_handle_of(input.handle@) == Ok::<Seq<char>, Seq<char>>(h@),
            Err(m) => account_handle_of(input.handle@) == Err::<Seq<char>, Seq<char>>(m@),
        },
{
    let resolved = resolve_handle(input.handle);
    handle_check_result(check_handle(resolved.as_str()))
}

/// The body of a PDS answer as text: its UTF-8 decoding, or a placeholder
/// when it is not UTF-8.
pub open spec fn body_text_of(body: Seq<u8>) -> Seq<char> {
    if vstd::utf8::valid_utf8(body) {
        vstd::utf8::decode_utf8(body)
    } else {
        "<non-utf8 body>"@
    }
}

/// The body of a PDS answer as text.
pub fn body_text(body: &[u8]) -> (r: String)
    ensures
        r@ == body_text_of(body@),
{
    match utf8_text(body) {
        Some(t) => t,
        None => "<non-utf8 body>".to_owned(),
    }
}

/// The `error` and `message` fields of an XRPC error answer.
pub struct PdsErrorBody {
    pub error: Option<String>,
    pub message: Option<String>,
}

/// The message shown when the PDS refuses to create an account: its error
/// code and message when the answer names them, else the status and body.
pub open spec fn refusal_message(status: Seq<char>, body: Seq<u8>, parsed: Option<PdsErrorBody>) -> Seq<char> {
    match parsed {
        Some(PdsErrorBody { error: Some(code), message: Some(msg) }) => code@ + ": "@ + msg@,
        Some(PdsErrorBody { error: Some(code), message: None }) => code@,
        Some(PdsErrorBody { error: None, message: Some(msg) }) => msg@,
        _ => "PDS returned "@ + status + ": "@ + body_text_of(body),
    }
}

/// The message shown when the PDS answers an account creation with the
/// failure `status` (as it is displayed, such as `400 Bad Request`), the
/// body `body`, and `parsed` when the body is an XRPC error object.
pub fn refusal_message_for(status: &str, body: &[u8], parsed: Option<PdsErrorBody>) -> (r: String)
    ensures
        r@ == refusal_message(status@, body@, parsed),
{
    match parsed {
        Some(PdsErrorBody { error: Some(code), message: Some(msg) }) => {
            let head = joined(code.as_str(), ": ");
            joined(head.as_str(), msg.as_str())
        },
        Some(PdsErrorBody { error: Some(code), message: None }) => code,
        Some(PdsErrorBody { error: None, message: Some(msg) }) => msg,
        _ => {
            let text = body_text(body);
            let head = joined("PDS returned ", status);
            let head = joined(head.as_str(), ": ");
            joined(head.as_str(), text.as_str())
        },
    }
}

/// Whether an HTTP status code is a success (200 to 299).
pub open spec fn success_status(code: u16) -> bool {
    200 <= code && code <= 299
}

/// What an account-creation request came to.
pub enum AccountResponse {
    /// The request did not get an answer; the text says why.
    TransportFailed(String),
    /// The PDS answered with the status `status_code`, displayed as `status`
    /// (such as `400 Bad Request`), and this body; `parsed` holds the body's
    /// XRPC error fields when it is one.
    Answered { status_code: u16, status: String, body: Vec<u8>, parsed: Option<PdsErrorBody> },
}

/// The outcome of `create_account` for what its request came to: success
/// for a success status, else the message shown to the user.
pub fn account_result(response: AccountResponse) -> (r: Result<(), String>)
    ensures
        match response {
            AccountResponse::TransportFailed(why) => r matches Err(m) && m@ == "createAccount transport error: "@ + why@,
            AccountResponse::Answered { status_code, status, body, parsed } => if success_status(status_code) {
                r is Ok
            } else {
                r matches Err(m) && m@ == refusal_message(status@, body@, parsed)
            },
        },
{
    match response {
        AccountResponse::TransportFailed(why) => Err(joined("createAccount transport error: ", why.as_str())),
        AccountResponse::Answered { status_code, status, body, parsed } => {
            if 200 <= status_code && status_code <= 299 {
                Ok(())
            } else {
                Err(refusal_message_for(status.as_str(), body.as_slice(), parsed))
            }
        },
    }
}

/// The message that a profile lookup fails with when the account's DID is
/// not an AT Protocol identifier, else nothing.
pub fn did_check_result(valid: bool) -> (r: Result<(), String>)
    ensures
        valid ==> r is Ok,
        !valid ==> (r matches Err(m) && m@ == "invalid DID for describeRepo"@),
{
    if valid {
        Ok(())
    } else {
        Err("invalid DID for describeRepo".to_owned())
    }
}

/// Whether the profile of the account `did` can be looked up: its DID must
/// be an AT Protocol identifier (a DID or a handle), else the lookup fails
/// before any request with `invalid DID for describeRepo`.
pub fn check_profile_did(did: &str) -> (r: Result<(), String>)
    ensures
        r is Ok <==> atproto_identifier_valid(did@),
        r matches Err(m) ==> m@ == "invalid DID for describeRepo"@,
{
    did_check_result(is_at_identifier(did))
}

/// The context of a failed health request of the PDS.
pub const HEALTH_REQUEST_FAILED: &'static str = "failed to call _health";

/// The context of a health answer that is not the expected JSON.
pub const HEALTH_NOT_JSON: &'static str = "health response was not JSON";

/// How an XRPC call failed.
pub enum XrpcFailure {
    /// The request did not get an answer; the text says why.
    Request(String),
    /// The answer could not be read; the text says why.
    Decode(String),
}

/// The message of a failed XRPC call of `method` (such as `listRepos` or
/// `describeRepo`).
pub fn xrpc_failure_message(method: &str, failure: XrpcFailure) -> (r: String)
    ensures
        match failure {
            XrpcFailure::Request(why) => r@ == method@ + " failed: "@ + why@,
            XrpcFailure::Decode(why) => r@ == method@ + " decode failed: "@ + why@,
        },
{
    match failure {
        XrpcFailure::Request(why) => {
            let head = joined(method, " failed: ");
            joined(head.as_str(), why.as_str())
        },
        XrpcFailure::Decode(why) => {
            let head = joined(method, " decode failed: ");
            joined(head.as_str(), why.as_str())
        },
    }
}

} // verus!
