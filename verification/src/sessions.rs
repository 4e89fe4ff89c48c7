//! The store of sign-ups that wait for their captcha callback.
//!
//! A pending sign-up lives for ten minutes from the instant it was made, on
//! the monotonic clock. Saving a sign-up first drops every expired one; taking
//! a sign-up removes it, and gives it back only while it has not expired.
//! Which sign-ups have expired is decided by their ages, read from the clock
//! at the time of each operation.
use vstd::prelude::*;
use crate::bindings::{age_nanos, clock_now, elapsed_nanos};

verus! {

/// How long a pending sign-up stays valid, in nanoseconds (ten minutes).
pub const SESSION_TTL_NANOS: u128 = 600000000000;

/// Whether a sign-up of age `age` (in nanoseconds) is still valid.
pub open spec fn within_lifetime(age: u128) -> bool {
    age < SESSION_TTL_NANOS
}

/// Whether a sign-up of age `age` (in nanoseconds) is still valid: it
/// expires once ten minutes have passed since it was made.
pub fn is_within_lifetime(age: u128) -> (b: bool)
    ensures
        b == within_lifetime(age),
{
    age < SESSION_TTL_NANOS
}

/// What a pending sign-up holds, as mathematical values.
pub struct PendingSignupView {
    pub handle: Seq<char>,
    pub email: Seq<char>,
    pub password: Seq<char>,
    pub invite_code: Seq<char>,
    pub created_at: std::time::Instant,
}

/// A sign-up that waits for the captcha callback.
#[derive(Clone)]
pub struct PendingSignup {
    pub handle: String,
    pub email: String,
    pub password: String,
    pub invite_code: String,
    /// The instant at which the sign-up was made; it expires ten minutes
    /// later.
    pub created_at: std::time::Instant,
}

impl View for PendingSignup {
    type V = PendingSignupView;

    open spec fn view(&self) -> PendingSignupView {
        PendingSignupView {
            handle: self.handle@,
            email: self.email@,
            password: self.password@,
            invite_code: self.invite_code@,
            created_at: self.created_at,
        }
    }
}

/// The views of an optional pending sign-up.
pub open spec fn pending_view(p: Option<PendingSignup>) -> Option<PendingSignupView> {
    match p {
        Some(p) => Some(p@),
        None => None,
    }
}

impl PendingSignup {
    /// A pending sign-up made now, on the monotonic clock.
    pub fn new(handle: String, email: String, password: String, invite_code: String) -> (p: Self)
        ensures
            p.handle@ == handle@,
            p.email@ == email@,
            p.password@ == password@,
            p.invite_code@ == invite_code@,
    {
        PendingSignup { handle, email, password, invite_code, created_at: clock_now() }
    }
}

/// The pending sign-ups of a store, keyed by their state token.
pub type SessionMap = Map<Seq<char>, PendingSignupView>;

/// The ages of the sign-ups of a store at one reading of the clock, keyed
/// by their state token, in nanoseconds.
pub type Ages = Map<Seq<char>, u128>;

/// The entries of `m` whose age in `ages` is within the lifetime.
pub open spec fn live_by(m: SessionMap, ages: Ages) -> SessionMap {
    Map::new(
        |k: Seq<char>| m.contains_key(k) && ages.contains_key(k) && within_lifetime(ages[k]),
        |k: Seq<char>| m[k],
    )
}

/// The store after saving `p` under `state` when the other sign-ups have the
/// ages `ages`: the expired entries are gone and `state` maps to `p`.
pub open spec fn saved(m: SessionMap, state: Seq<char>, p: PendingSignupView, ages: Ages) -> SessionMap {
    live_by(m, ages).insert(state, p)
}

/// What taking `state` gives when its sign-up has the age `age`: the entry,
/// if there is one and it has not expired.
pub open spec fn taken(m: SessionMap, state: Seq<char>, age: u128) -> Option<PendingSignupView> {
    if m.contains_key(state) && within_lifetime(age) {
        Some(m[state])
    } else {
        None
    }
}

/// The ages of the sign-ups of `m` at the instant `now`: the time since each
/// was made.
pub open spec fn ages_at_instant(m: SessionMap, now: std::time::Instant) -> Ages {
    Map::new(|k: Seq<char>| m.contains_key(k), |k: Seq<char>| elapsed_nanos(m[k].created_at, now))
}

/// The age at the instant `now` of the sign-up saved under `state`.
pub open spec fn age_at(m: SessionMap, state: Seq<char>, now: std::time::Instant) -> u128 {
    elapsed_nanos(m[state].created_at, now)
}

/// The ages listed in `v`, keyed by state; a later pair for the same state
/// wins.
pub open spec fn ages_of(v: Seq<(String, u128)>) -> Ages
    decreases v.len(),
{
    if v.len() == 0 {
        Map::empty()
    } else {
        ages_of(v.drop_last()).insert(v.last().0@, v.last().1)
    }
}

/// The age of `state` in the list `ages`, if it has one.
pub fn age_of(ages: &Vec<(String, u128)>, state: &String) -> (r: Option<u128>)
    ensures
        r == (if ages_of(ages@).contains_key(state@) {
            Some(ages_of(ages@)[state@])
        } else {
            None
        }),
{
    let mut i: usize = ages.len();
    proof {
        assert(ages@.take(i as int) =~= ages@);
    }
    while i > 0
        invariant
            i <= ages@.len(),
            ages_of(ages@.take(i as int)).contains_key(state@) == ages_of(ages@).contains_key(state@),
            ages_of(ages@).contains_key(state@) ==> ages_of(ages@.take(i as int))[state@] == ages_of(
                ages@,
            )[state@],
        decreases i,
    {
        proof {
            assert(ages@.take(i as int).drop_last() =~= ages@.take(i - 1));
            assert(ages@.take(i as int).last() == ages@[i - 1]);
        }
        if ages[i - 1].0 == *state {
            return Some(ages[i - 1].1);
        }
        i = i - 1;
    }
    proof {
        assert(ages@.take(0) =~= Seq::<(String, u128)>::empty());
    }
    None
}

/// A sign-up of age `age` if it has not expired, else nothing.
pub fn live_or_none(p: PendingSignup, age: u128) -> (r: Option<PendingSignup>)
    ensures
        pending_view(r) == (if within_lifetime(age) {
            Some(p@)
        } else {
            None
        }),
{
    if is_within_lifetime(age) {
        Some(p)
    } else {
        None
    }
}

struct SessionEntry {
    state: String,
    pending: PendingSignup,
}

/// No two entries share a state token.
spec fn unique_states(s: Seq<SessionEntry>) -> bool {
    forall|i: int, j: int| 0 <= i < j < s.len() ==> #[trigger] s[i].state@ != #[trigger] s[j].state@
}

/// The map that a sequence of entries stands for.
spec fn entries_view(s: Seq<SessionEntry>) -> SessionMap
    decreases s.len(),
{
    if s.len() == 0 {
        Map::empty()
    } else {
        entries_view(s.drop_last()).insert(s.last().state@, s.last().pending@)
    }
}

proof fn lemma_entries_view(s: Seq<SessionEntry>)
    requires
        unique_states(s),
    ensures
        forall|i: int| 0 <= i < s.len() ==> #[trigger] entries_view(s).contains_key(s[i].state@)
            && entries_view(s)[s[i].state@] == s[i].pending@,
        forall|k: Seq<char>| #[trigger] entries_view(s).contains_key(k) ==> exists|i: int|
            0 <= i < s.len() && s[i].state@ == k,
        entries_view(s).dom().finite(),
    decreases s.len(),
{
    if s.len() > 0 {
        let t = s.drop_last();
        let n = s.len() - 1;
        let last = s[n];
        assert(entries_view(s) == entries_view(t).insert(last.state@, last.pending@));
        lemma_unique_prefix(s, n);
        assert(t =~= s.subrange(0, n));
        lemma_entries_view(t);
        assert forall|i: int| 0 <= i < s.len() implies #[trigger] entries_view(s).contains_key(
            s[i].state@,
        ) && entries_view(s)[s[i].state@] == s[i].pending@ by {
            if i < n {
                assert(t[i] == s[i]);
                assert(entries_view(t).contains_key(t[i].state@));
                assert(s[i].state@ != s[n].state@);
            }
        }
        assert forall|k: Seq<char>| #[trigger] entries_view(s).contains_key(k) implies exists|i: int|
            0 <= i < s.len() && s[i].state@ == k by {
            if k != last.state@ {
                assert(entries_view(t).contains_key(k));
                let i = choose|i: int| 0 <= i < t.len() && t[i].state@ == k;
                assert(s[i] == t[i]);
            } else {
                assert(s[n].state@ == k);
            }
        }
    }
}

proof fn lemma_unique_prefix(s: Seq<SessionEntry>, n: int)
    requires
        unique_states(s),
        0 <= n <= s.len(),
    ensures
        unique_states(s.subrange(0, n)),
{
    let t = s.subrange(0, n);
    assert forall|i: int, j: int| 0 <= i < j < t.len() implies #[trigger] t[i].state@
        != #[trigger] t[j].state@ by {
        assert(t[i] == s[i] && t[j] == s[j]);
    }
}

proof fn lemma_push_new_state(s: Seq<SessionEntry>, e: SessionEntry)
    requires
        unique_states(s),
        !entries_view(s).contains_key(e.state@),
    ensures
        unique_states(s.push(e)),
        entries_view(s.push(e)) == entries_view(s).insert(e.state@, e.pending@),
{
    let t = s.push(e);
    assert(t.drop_last() =~= s);
    lemma_entries_view(s);
    assert forall|i: int, j: int| 0 <= i < j < t.len() implies #[trigger] t[i].state@
        != #[trigger] t[j].state@ by {
        assert(t[i] == s[i]);
        if j == t.len() - 1 {
            assert(entries_view(s).contains_key(s[i].state@));
        } else {
            assert(t[j] == s[j]);
        }
    }
}

/// Every store holds finitely many sign-ups.
pub proof fn law_store_is_finite(store: SignupSessions)
    ensures
        store@.dom().finite(),
{
    lemma_entries_view_finite(store.entries@);
}

proof fn lemma_entries_view_finite(s: Seq<SessionEntry>)
    ensures
        entries_view(s).dom().finite(),
    decreases s.len(),
{
    if s.len() > 0 {
        lemma_entries_view_finite(s.drop_last());
    }
}

/// The pending sign-ups, keyed by the state token that the captcha callback
/// brings back.
pub struct SignupSessions {
    entries: Vec<SessionEntry>,
}

impl View for SignupSessions {
    type V = SessionMap;

    closed spec fn view(&self) -> SessionMap {
        entries_view(self.entries@)
    }
}

impl SignupSessions {
    #[verifier::type_invariant]
    spec fn no_shared_states(self) -> bool {
        unique_states(self.entries@)
    }

    /// An empty store.
    pub fn new() -> (r: Self)
        ensures
            r@ == SessionMap::empty(),
            r@.dom().finite(),
    {
        SignupSessions { entries: Vec::new() }
    }

    /// Drops every sign-up that has expired by its age in `ages`, or that has
    /// no age there, and the sign-up saved under `leave_out`; keeps every
    /// other one as it was.
    pub fn prune_expired(&mut self, ages: &Vec<(String, u128)>, leave_out: &str)
        ensures
            final(self)@ == live_by(old(self)@, ages_of(ages@)).remove(leave_out@),
            final(self)@.dom().finite(),
    {
        proof {
            use_type_invariant(&*self);
        }
        let state = leave_out.to_owned();
        let ghost ages_map = ages_of(ages@);
        let mut rest: Vec<SessionEntry> = Vec::new();
        std::mem::swap(&mut rest, &mut self.entries);
        let ghost s0 = rest@;
        let ghost m0 = entries_view(s0);
        proof {
            lemma_entries_view(s0);
        }
        let mut kept: Vec<SessionEntry> = Vec::new();
        while rest.len() > 0
            invariant
                unique_states(rest@),
                unique_states(kept@),
                rest@ == s0.subrange(0, rest@.len() as int),
                rest@.len() <= s0.len(),
                unique_states(s0),
                m0 == entries_view(s0),
                forall|i: int| 0 <= i < s0.len() ==> #[trigger] m0.contains_key(s0[i].state@)
                    && m0[s0[i].state@] == s0[i].pending@,
                forall|k: Seq<char>| #[trigger] m0.contains_key(k) ==> exists|i: int|
                    0 <= i < s0.len() && s0[i].state@ == k,
                forall|k: Seq<char>| #[trigger] entries_view(kept@).contains_key(k) <==> (
                    m0.contains_key(k) && ages_map.contains_key(k) && within_lifetime(ages_map[k])
                    && k != state@ && !entries_view(rest@).contains_key(k)),
                ages_map == ages_of(ages@),
                forall|k: Seq<char>| #[trigger] entries_view(kept@).contains_key(k) ==> entries_view(
                    kept@,
                )[k] == m0[k],
                forall|k: Seq<char>| #[trigger] entries_view(rest@).contains_key(k) <==> exists|i: int|
                    0 <= i < rest@.len() && s0[i].state@ == k,
            decreases rest.len(),
        {
            let ghost before = rest@;
            let ghost kept_before = kept@;
            let entry = rest.pop().unwrap();
            proof {
                let n = before.len() - 1;
                assert(entry == s0[n]);
                assert(rest@ =~= s0.subrange(0, n));
                assert(before.drop_last() =~= rest@);
                lemma_unique_prefix(s0, n);
                lemma_entries_view(rest@);
                lemma_entries_view(before);
                lemma_entries_view(kept_before);
                assert(before[n] == entry);
                assert(entries_view(before).contains_key(entry.state@));
                assert(m0.contains_key(s0[n].state@));
                assert(m0[entry.state@] == entry.pending@);
                assert forall|k: Seq<char>| #[trigger] entries_view(rest@).contains_key(k) <==> exists|i: int|
                    0 <= i < rest@.len() && s0[i].state@ == k by {
                    if exists|i: int| 0 <= i < rest@.len() && s0[i].state@ == k {
                        let i = choose|i: int| 0 <= i < rest@.len() && s0[i].state@ == k;
                        assert(rest@[i] == s0[i]);
                    }
                    if entries_view(rest@).contains_key(k) {
                        let i = choose|i: int| 0 <= i < rest@.len() && rest@[i].state@ == k;
                        assert(rest@[i] == s0[i]);
                    }
                }
                assert(!entries_view(rest@).contains_key(entry.state@)) by {
                    if entries_view(rest@).contains_key(entry.state@) {
                        let i = choose|i: int| 0 <= i < rest@.len() && s0[i].state@ == entry.state@;
                        assert(s0[i].state@ != s0[n].state@);
                    }
                }
                assert forall|k: Seq<char>| k != entry.state@ implies (#[trigger] entries_view(rest@).contains_key(k)
                    <==> entries_view(before).contains_key(k)) by {
                    if entries_view(before).contains_key(k) {
                        let i = choose|i: int| 0 <= i < before.len() && before[i].state@ == k;
                        assert(i != n);
                        assert(before[i] == s0[i]);
                    }
                }
                assert(!entries_view(kept_before).contains_key(entry.state@));
            }
            let live = match age_of(ages, &entry.state) {
                Some(age) => is_within_lifetime(age),
                None => false,
            };
            if live && !(entry.state == state) {
                proof {
                    lemma_push_new_state(kept_before, entry);
                }
                kept.push(entry);
            }
        }
        proof {
            assert(rest@.len() == 0);
            lemma_entries_view(kept@);
            assert(entries_view(kept@) =~= live_by(m0, ages_map).remove(state@));
        }
        self.entries = kept;
        proof {
            assert(m0 == old(self)@);
        }
    }

    /// Puts `pending` under `state`, which holds nothing yet.
    fn insert_new(&mut self, state: String, pending: PendingSignup)
        requires
            !old(self)@.contains_key(state@),
        ensures
            final(self)@ == old(self)@.insert(state@, pending@),
            final(self)@.dom().finite(),
    {
        proof {
            use_type_invariant(&*self);
        }
        let mut kept: Vec<SessionEntry> = Vec::new();
        std::mem::swap(&mut kept, &mut self.entries);
        let ghost kept_before = kept@;
        proof {
            lemma_entries_view(kept_before);
        }
        let entry = SessionEntry { state, pending };
        proof {
            lemma_push_new_state(kept_before, entry);
        }
        kept.push(entry);
        proof {
            lemma_entries_view(kept@);
        }
        self.entries = kept;
    }

    /// The age of every saved sign-up at the instant `now`, keyed by its
    /// state. The ages themselves are the clock's.
    pub fn ages_at(&self, now: &std::time::Instant) -> (r: Vec<(String, u128)>)
        ensures
            ages_of(r@) == ages_at_instant(self@, *now),
    {
        proof {
            use_type_invariant(self);
            lemma_entries_view(self.entries@);
        }
        let mut r: Vec<(String, u128)> = Vec::new();
        let mut i: usize = 0;
        while i < self.entries.len()
            invariant
                0 <= i <= self.entries@.len(),
                forall|k: Seq<char>| #[trigger] ages_of(r@).contains_key(k) <==> exists|j: int|
                    0 <= j < i && self.entries@[j].state@ == k,
                forall|k: Seq<char>| #[trigger] ages_of(r@).contains_key(k) ==> ages_of(r@)[k]
                    == elapsed_nanos(self@[k].created_at, *now),
                forall|j: int| 0 <= j < self.entries@.len() ==> #[trigger] self@.contains_key(
                    self.entries@[j].state@,
                ) && self@[self.entries@[j].state@] == self.entries@[j].pending@,
            decreases self.entries@.len() - i,
        {
            let ghost before = r@;
            let age = age_nanos(&self.entries[i].pending.created_at, now);
            let state = self.entries[i].state.clone();
            r.push((state, age));
            proof {
                assert(r@.drop_last() =~= before);
                assert forall|k: Seq<char>| #[trigger] ages_of(r@).contains_key(k) <==> exists|j: int|
                    0 <= j < i + 1 && self.entries@[j].state@ == k by {
                    if ages_of(before).contains_key(k) {
                        let j = choose|j: int| 0 <= j < i && self.entries@[j].state@ == k;
                        assert(0 <= j < i + 1);
                    }
                    if k == self.entries@[i as int].state@ {
                        assert(0 <= i < i + 1);
                    }
                }
                assert(self@.contains_key(self.entries@[i as int].state@));
                assert forall|k: Seq<char>| #[trigger] ages_of(r@).contains_key(k) implies ages_of(r@)[k]
                    == elapsed_nanos(self@[k].created_at, *now) by {
                    if k == self.entries@[i as int].state@ {
                        assert(ages_of(r@)[k] == age);
                        assert(self@[k] == self.entries@[i as int].pending@);
                    } else {
                        assert(ages_of(before).contains_key(k));
                    }
                }
            }
            i = i + 1;
        }
        proof {
            assert forall|k: Seq<char>| #[trigger] ages_of(r@).dom().contains(k) <==> self@.dom().contains(k) by {
                if self@.contains_key(k) {
                    let j = choose|j: int| 0 <= j < self.entries@.len() && self.entries@[j].state@ == k;
                }
            }
            assert(ages_of(r@).dom() =~= self@.dom());
            assert(ages_of(r@) =~= ages_at_instant(self@, *now));
        }
        r
    }

    /// Saves `pending` under `state`, after dropping every sign-up that has
    /// expired by the clock's current reading (`ages_at` and
    /// `prune_expired`). A sign-up saved earlier under the same state is
    /// replaced.
    pub fn save(&mut self, state: String, pending: PendingSignup)
        ensures
            exists|now: std::time::Instant| final(self)@ == saved(
                old(self)@,
                state@,
                pending@,
                ages_at_instant(old(self)@, now),
            ),
            final(self)@.dom().finite(),
    {
        let now = clock_now();
        let ages = self.ages_at(&now);
        let ghost ages_map = ages_of(ages@);
        self.prune_expired(&ages, state.as_str());
        self.insert_new(state, pending);
        proof {
            assert(self@ =~= saved(old(self)@, state@, pending@, ages_map));
        }
    }

    /// Removes the sign-up saved under `state`, expired or not, and gives it
    /// back.
    pub fn remove(&mut self, state: &str) -> (r: Option<PendingSignup>)
        ensures
            final(self)@ == old(self)@.remove(state@),
            final(self)@.dom().finite(),
            pending_view(r) == (if old(self)@.contains_key(state@) {
                Some(old(self)@[state@])
            } else {
                None
            }),
    {
        proof {
            use_type_invariant(&*self);
        }
        let key = state.to_owned();
        let mut entries: Vec<SessionEntry> = Vec::new();
        std::mem::swap(&mut entries, &mut self.entries);
        let ghost s0 = entries@;
        proof {
            lemma_entries_view(s0);
        }
        match position_of(&entries, &key) {
            Some(i) => {
                let entry = entries.remove(i);
                proof {
                    assert(unique_states(entries@)) by {
                        assert forall|a: int, b: int| 0 <= a < b < entries@.len() implies #[trigger] entries@[a].state@
                            != #[trigger] entries@[b].state@ by {
                            let a0 = if a < i { a } else { a + 1 };
                            let b0 = if b < i { b } else { b + 1 };
                            assert(entries@[a] == s0[a0] && entries@[b] == s0[b0]);
                        }
                    }
                    lemma_entries_view(entries@);
                    assert(entries_view(entries@) =~= entries_view(s0).remove(key@)) by {
                        assert forall|k: Seq<char>| #[trigger] entries_view(entries@).contains_key(k) implies
                            entries_view(s0).remove(key@).contains_key(k) && entries_view(entries@)[k]
                            == entries_view(s0)[k] by {
                            let a = choose|a: int| 0 <= a < entries@.len() && entries@[a].state@ == k;
                            let a0 = if a < i { a } else { a + 1 };
                            assert(entries@[a] == s0[a0]);
                            assert(entries_view(s0).contains_key(s0[a0].state@));
                        }
                        assert forall|k: Seq<char>| #[trigger] entries_view(s0).remove(key@).contains_key(k)
                            implies entries_view(entries@).contains_key(k) by {
                            let a0 = choose|a0: int| 0 <= a0 < s0.len() && s0[a0].state@ == k;
                            assert(a0 != i);
                            let a = if a0 < i { a0 } else { a0 - 1 };
                            assert(entries@[a] == s0[a0]);
                        }
                    }
                    assert(entries_view(s0).contains_key(s0[i as int].state@));
                }
                self.entries = entries;
                Some(entry.pending)
            },
            None => {
                proof {
                    assert(!entries_view(s0).contains_key(key@));
                    assert(entries_view(s0).remove(key@) =~= entries_view(s0));
                }
                proof {
                    lemma_entries_view(entries@);
                }
                self.entries = entries;
                None
            },
        }
    }

    /// Removes the sign-up saved under `state` and gives it back if it has not
    /// expired by the clock's current reading, taken after the removal.
    /// Whatever it gives back, the state is gone from the store afterwards.
    pub fn take(&mut self, state: &str) -> (r: Option<PendingSignup>)
        ensures
            final(self)@ == old(self)@.remove(state@),
            final(self)@.dom().finite(),
            exists|now: std::time::Instant| pending_view(r) == taken(
                old(self)@,
                state@,
                age_at(old(self)@, state@, now),
            ),
    {
        match self.remove(state) {
            Some(p) => {
                let now = clock_now();
                let age = age_nanos(&p.created_at, &now);
                let r = live_or_none(p, age);
                proof {
                    assert(pending_view(r) == taken(old(self)@, state@, age_at(old(self)@, state@, now)));
                }
                r
            },
            None => {
                proof {
                    let any: std::time::Instant = vstd::pervasive::arbitrary();
                    assert(pending_view(None) == taken(old(self)@, state@, age_at(old(self)@, state@, any)));
                }
                None
            },
        }
    }

    /// Whether a sign-up, expired or not, is saved under `state`.
    pub fn contains(&self, state: &str) -> (b: bool)
        ensures
            b == self@.contains_key(state@),
    {
        proof {
            use_type_invariant(self);
            lemma_entries_view(self.entries@);
        }
        let key = state.to_owned();
        match position_of(&self.entries, &key) {
            Some(i) => {
                proof {
                    assert(entries_view(self.entries@).contains_key(self.entries@[i as int].state@));
                }
                true
            },
            None => false,
        }
    }
}

impl Default for SignupSessions {
    fn default() -> (r: Self)
        ensures
            r@ == SessionMap::empty(),
            r@.dom().finite(),
    {
        SignupSessions::new()
    }
}

/// The index of the entry saved under `key`, if there is one.
fn position_of(entries: &Vec<SessionEntry>, key: &String) -> (r: Option<usize>)
    ensures
        match r {
            Some(i) => i < entries@.len() && entries@[i as int].state@ == key@,
            None => forall|k: int| 0 <= k < entries@.len() ==> #[trigger] entries@[k].state@ != key@,
        },
{
    let mut i: usize = 0;
    while i < entries.len()
        invariant
            0 <= i <= entries@.len(),
            forall|k: int| 0 <= k < i ==> #[trigger] entries@[k].state@ != key@,
        decreases entries@.len() - i,
    {
        if entries[i].state == *key {
            return Some(i);
        }
        i = i + 1;
    }
    None
}

/// A sign-up saved under `state` is given back by a take of `state` exactly
/// while it is less than ten minutes old, whatever the ages of the other
/// sign-ups were when it was saved.
pub proof fn law_take_returns_saved(m: SessionMap, state: Seq<char>, p: PendingSignupView, ages: Ages, age: u128)
    ensures
        taken(saved(m, state, p, ages), state, age) == (if age < SESSION_TTL_NANOS {
            Some(p)
        } else {
            None
        }),
{
}

/// A state can be taken once: after a take, taking the same state again
/// gives nothing, whatever the age.
pub proof fn law_take_is_single_use(m: SessionMap, state: Seq<char>, age: u128)
    ensures
        taken(m.remove(state), state, age) is None,
{
}

/// What a take gives back is the entry saved under the state, and it is less
/// than ten minutes old.
pub proof fn law_taken_is_live(m: SessionMap, state: Seq<char>, age: u128)
    ensures
        taken(m, state, age) matches Some(v) ==> m.contains_key(state) && m[state] == v && age
            < SESSION_TTL_NANOS,
{
}

/// Saving at the instant `now` drops exactly the other sign-ups made ten
/// minutes or more before `now`, and keeps every younger one as it was.
pub proof fn law_save_drops_only_expired(m: SessionMap, state: Seq<char>, p: PendingSignupView, now: std::time::Instant, other: Seq<char>)
    requires
        other != state,
    ensures
        saved(m, state, p, ages_at_instant(m, now)).contains_key(other) <==> (m.contains_key(other)
            && elapsed_nanos(m[other].created_at, now) < SESSION_TTL_NANOS),
        saved(m, state, p, ages_at_instant(m, now)).contains_key(other) ==> saved(
            m,
            state,
            p,
            ages_at_instant(m, now),
        )[other] == m[other],
{
}

/// A sign-up made at `p.created_at` and saved under `state`, whenever the
/// save happens, is given back by a take at the instant `now` exactly while
/// less than ten minutes have passed from its making to `now`.
pub proof fn law_sign_up_lives_ten_minutes(m: SessionMap, state: Seq<char>, p: PendingSignupView, saved_at: std::time::Instant, now: std::time::Instant)
    ensures
        ({
            let after = saved(m, state, p, ages_at_instant(m, saved_at));
            taken(after, state, age_at(after, state, now)) == (if elapsed_nanos(p.created_at, now)
                < SESSION_TTL_NANOS {
                Some(p)
            } else {
                None
            })
        }),
{
}

/// A store that has finitely many sign-ups still has finitely many after a
/// save, and no more than one more than before.
pub proof fn law_save_grows_by_at_most_one(m: SessionMap, state: Seq<char>, p: PendingSignupView, ages: Ages)
    requires
        m.dom().finite(),
    ensures
        saved(m, state, p, ages).dom().finite(),
        saved(m, state, p, ages).dom().len() <= m.dom().len() + 1,
{
    let live = live_by(m, ages);
    assert(live.dom() =~= m.dom().filter(|k: Seq<char>| ages.contains_key(k) && within_lifetime(ages[k])));
    vstd::set_lib::lemma_len_subset(live.dom(), m.dom());
}

/// Taking one state leaves every other state's sign-up as it was.
pub proof fn law_take_leaves_others(m: SessionMap, state: Seq<char>, other: Seq<char>)
    requires
        other != state,
    ensures
        m.remove(state).contains_key(other) == m.contains_key(other),
        m.contains_key(other) ==> m.remove(state)[other] == m[other],
{
}

} // verus!
