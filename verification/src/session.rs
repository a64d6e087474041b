//! Session keys, the in-memory key-value store, and the order in which a
//! session id is looked for: the cached one, the fixed one, the provider's,
//! then the stored one under the standard key and under each legacy key.

use vstd::prelude::*;

use crate::headers::{header_get, header_insert, lemma_insert_then_get, lemma_remove_named_get, pairs_view, remove_named};
use crate::text::{owned, str_eq};

verus! {

/// The storage key of the session id.
pub const PUBFLOW_SESSION_ID: &'static str = "pubflow_session_id";

/// The storage key of the signed-in user's data.
pub const PUBFLOW_USER_DATA: &'static str = "pubflow_user_data";

/// The storage keys a session id is looked up under, in order: the standard
/// key, then the legacy `flowfull_session_id`, `session_id` and `sessionId`.
pub open spec fn session_keys() -> Seq<Seq<char>> {
    seq!["pubflow_session_id"@, "flowfull_session_id"@, "session_id"@, "sessionId"@]
}

/// The storage key of lookup step `step` (1 to 4).
fn session_key(step: usize) -> (k: String)
    requires
        1 <= step <= 4,
    ensures
        k@ == session_keys()[step - 1],
{
    if step == 1 {
        owned("pubflow_session_id")
    } else if step == 2 {
        owned("flowfull_session_id")
    } else if step == 3 {
        owned("session_id")
    } else {
        owned("sessionId")
    }
}

/// A map from string keys to string values kept in memory, with the
/// semantics of `HashMap<String, String>`: the keys in the order they were
/// first stored, each with its value, no key twice. It is a list rather
/// than a `HashMap` because vstd's specification of `HashMap` gives no
/// contents to reason about with `String` keys.
#[derive(Debug)]
pub struct MemoryStore {
    data: Vec<(String, String)>,
}

/// Whether no key occurs twice.
pub open spec fn distinct_keys(s: Seq<(Seq<char>, Seq<char>)>) -> bool {
    forall|i: int, j: int| 0 <= i < j < s.len() ==> s[i].0 != s[j].0
}

/// What removing `name` leaves: pairs of `s`, none named `name`; no key
/// twice where `s` had none twice.
proof fn lemma_remove_named_distinct(s: Seq<(Seq<char>, Seq<char>)>, name: Seq<char>)
    ensures
        forall|i: int| 0 <= i < remove_named(s, name).len() ==> #[trigger] remove_named(s, name)[i].0 != name
            && s.contains(remove_named(s, name)[i]),
        distinct_keys(s) ==> distinct_keys(remove_named(s, name)),
    decreases s.len(),
{
    if s.len() > 0 {
        let t = s.drop_first();
        lemma_remove_named_distinct(t, name);
        let rt = remove_named(t, name);
        assert forall|i: int| 0 <= i < rt.len() implies #[trigger] s.contains(rt[i]) by {
            let k = choose|k: int| 0 <= k < t.len() && t[k] == rt[i];
            assert(s[k + 1] == rt[i]);
        }
        if s[0].0 != name {
            let r = seq![s[0]] + rt;
            assert forall|i: int| 0 <= i < r.len() implies #[trigger] r[i].0 != name && s.contains(r[i]) by {
                if i == 0 {
                    assert(s[0] == r[0]);
                } else {
                    assert(r[i] == rt[i - 1]);
                }
            }
            if distinct_keys(s) {
                assert(distinct_keys(t)) by {
                    assert forall|i: int, j: int| 0 <= i < j < t.len() implies t[i].0 != t[j].0 by {
                        assert(t[i] == s[i + 1] && t[j] == s[j + 1]);
                    }
                }
                assert forall|i: int, j: int| 0 <= i < j < r.len() implies r[i].0 != r[j].0 by {
                    if i == 0 {
                        assert(r[j] == rt[j - 1]);
                        let k = choose|k: int| 0 <= k < s.len() && s[k] == rt[j - 1];
                        assert(k != 0) by {
                            let m = choose|m: int| 0 <= m < t.len() && t[m] == rt[j - 1];
                            assert(s[m + 1] == rt[j - 1]);
                        }
                    } else {
                        assert(r[i] == rt[i - 1] && r[j] == rt[j - 1]);
                    }
                }
            }
            assert(remove_named(s, name) == r);
        } else {
            if distinct_keys(s) {
                assert forall|i: int, j: int| 0 <= i < j < t.len() implies t[i].0 != t[j].0 by {
                    assert(t[i] == s[i + 1] && t[j] == s[j + 1]);
                }
            }
        }
    }
}

/// What setting `name` leaves: `(name, value)` and pairs of `s` named
/// otherwise; no key twice where `s` had none twice.
proof fn lemma_header_insert_distinct(s: Seq<(Seq<char>, Seq<char>)>, name: Seq<char>, value: Seq<char>)
    ensures
        forall|i: int| 0 <= i < header_insert(s, name, value).len() ==> {
            let e = #[trigger] header_insert(s, name, value)[i];
            e == (name, value) || (e.0 != name && s.contains(e))
        },
        distinct_keys(s) ==> distinct_keys(header_insert(s, name, value)),
    decreases s.len(),
{
    if s.len() == 0 {
        assert(header_insert(s, name, value) == seq![(name, value)]);
    } else {
        let t = s.drop_first();
        if distinct_keys(s) {
            assert forall|i: int, j: int| 0 <= i < j < t.len() implies t[i].0 != t[j].0 by {
                assert(t[i] == s[i + 1] && t[j] == s[j + 1]);
            }
        }
        if s[0].0 == name {
            lemma_remove_named_distinct(t, name);
            let rt = remove_named(t, name);
            let r = seq![(name, value)] + rt;
            assert(header_insert(s, name, value) == r);
            assert forall|i: int| 0 <= i < r.len() implies {
                let e = #[trigger] r[i];
                e == (name, value) || (e.0 != name && s.contains(e))
            } by {
                if i > 0 {
                    assert(r[i] == rt[i - 1]);
                    let m = choose|m: int| 0 <= m < t.len() && t[m] == rt[i - 1];
                    assert(s[m + 1] == rt[i - 1]);
                }
            }
            if distinct_keys(s) {
                assert forall|i: int, j: int| 0 <= i < j < r.len() implies r[i].0 != r[j].0 by {
                    if i == 0 {
                        assert(r[j] == rt[j - 1]);
                    } else {
                        assert(r[i] == rt[i - 1] && r[j] == rt[j - 1]);
                    }
                }
            }
        } else {
            lemma_header_insert_distinct(t, name, value);
            let it = header_insert(t, name, value);
            let r = seq![s[0]] + it;
            assert(header_insert(s, name, value) == r);
            assert forall|i: int| 0 <= i < r.len() implies {
                let e = #[trigger] r[i];
                e == (name, value) || (e.0 != name && s.contains(e))
            } by {
                if i == 0 {
                    assert(r[0] == s[0]);
                } else {
                    assert(r[i] == it[i - 1]);
                    if it[i - 1] != (name, value) {
                        let m = choose|m: int| 0 <= m < t.len() && t[m] == it[i - 1];
                        assert(s[m + 1] == it[i - 1]);
                    }
                }
            }
            if distinct_keys(s) {
                assert forall|i: int, j: int| 0 <= i < j < r.len() implies r[i].0 != r[j].0 by {
                    if i == 0 {
                        assert(r[j] == it[j - 1]);
                        if it[j - 1] != (name, value) {
                            let m = choose|m: int| 0 <= m < t.len() && t[m] == it[j - 1];
                            assert(s[m + 1] == it[j - 1]);
                        }
                    } else {
                        assert(r[i] == it[i - 1] && r[j] == it[j - 1]);
                    }
                }
            }
        }
    }
}

impl View for MemoryStore {
    type V = Seq<(Seq<char>, Seq<char>)>;

    closed spec fn view(&self) -> Seq<(Seq<char>, Seq<char>)> {
        pairs_view(self.data@)
    }
}

/// The value stored under `key`.
pub open spec fn stored(s: Seq<(Seq<char>, Seq<char>)>, key: Seq<char>) -> Option<Seq<char>> {
    header_get(s, key)
}

proof fn lemma_set_step(s: Seq<(Seq<char>, Seq<char>)>, j: int, name: Seq<char>, value: Seq<char>)
    requires
        0 <= j < s.len(),
        s[j].0 != name,
    ensures
        header_insert(s.skip(j), name, value) == seq![s[j]] + header_insert(s.skip(j + 1), name, value),
        remove_named(s.skip(j), name) == seq![s[j]] + remove_named(s.skip(j + 1), name),
{
    assert(s.skip(j).drop_first() == s.skip(j + 1));
}

impl MemoryStore {
    /// No key is stored twice.
    #[verifier::type_invariant]
    closed spec fn keys_distinct(self) -> bool {
        distinct_keys(pairs_view(self.data@))
    }

    pub fn new() -> (m: MemoryStore)
        ensures
            m@ == Seq::<(Seq<char>, Seq<char>)>::empty(),
    {
        MemoryStore { data: Vec::new() }
    }

    /// The value under `key`.
    pub fn get_item(&self, key: &str) -> (r: Option<String>)
        ensures
            match r {
                Some(v) => stored(self@, key@) == Some(v@),
                None => stored(self@, key@).is_none(),
            },
    {
        let name = key;
        let ghost s = self@;
        let mut j: usize = 0;
        assert(s.skip(0) == s);
        while j < self.data.len()
            invariant
                j <= self.data.len(),
                s == pairs_view(self.data@),
                s == self@,
                name == key,
                s.len() == self.data.len(),
                header_get(s, name@) == header_get(s.skip(j as int), name@),
            decreases self.data.len() - j,
        {
            proof {
                assert(s.skip(j as int).drop_first() == s.skip(j + 1));
                assert(s.skip(j as int)[0] == s[j as int]);
            }
            if str_eq(self.data[j].0.as_str(), name) {
                let v = self.data[j].1.clone();
                proof {
                    assert(s[j as int] == (self.data@[j as int].0@, self.data@[j as int].1@));
                    assert(s.skip(j as int)[0] == s[j as int]);
                }
                return Some(v);
            }
            j = j + 1;
        }
        None
    }

    /// Stores `value` under `key`, replacing what was there.
    pub fn set_item(&mut self, key: &str, value: &str)
        ensures
            final(self)@ == header_insert(old(self)@, key@, value@),
            distinct_keys(final(self)@),
    {
        proof {
            use_type_invariant(&*self);
            lemma_header_insert_distinct(self@, key@, value@);
        }
        let name = owned(key);
        let value = owned(value);
        let ghost s = self@;
        let mut out: Vec<(String, String)> = Vec::new();
        let mut found = false;
        let mut j: usize = 0;
        assert(s.skip(0) == s);
        while j < self.data.len()
            invariant
                j <= self.data.len(),
                s == pairs_view(self.data@),
                s.len() == self.data.len(),
                !found ==> header_insert(s, name@, value@) == pairs_view(out@) + header_insert(s.skip(j as int), name@, value@),
                found ==> header_insert(s, name@, value@) == pairs_view(out@) + remove_named(s.skip(j as int), name@),
            decreases self.data.len() - j,
        {
            let same = str_eq(self.data[j].0.as_str(), name.as_str());
            proof {
                assert(s[j as int] == (self.data@[j as int].0@, self.data@[j as int].1@));
            }
            if same {
                proof {
                    assert(s.skip(j as int).drop_first() == s.skip(j + 1));
                }
                if !found {
                    let ghost before = out@;
                    out.push((name.clone(), value.clone()));
                    found = true;
                    proof {
                        assert(pairs_view(out@) =~= pairs_view(before) + seq![(name@, value@)]);
                    }
                }
            } else {
                proof {
                    lemma_set_step(s, j as int, name@, value@);
                }
                let ghost before = out@;
                let e = (self.data[j].0.clone(), self.data[j].1.clone());
                out.push(e);
                proof {
                    assert(pairs_view(out@) =~= pairs_view(before) + seq![s[j as int]]);
                }
            }
            j = j + 1;
        }
        if !found {
            let ghost before = out@;
            out.push((name, value));
            proof {
                assert(pairs_view(out@) =~= pairs_view(before) + seq![(name@, value@)]);
            }
        }
        proof {
            assert(s.skip(s.len() as int) =~= Seq::<(Seq<char>, Seq<char>)>::empty());
        }
        self.data = out;
    }

    /// Drops `key`.
    pub fn remove_item(&mut self, key: &str)
        ensures
            final(self)@ == remove_named(old(self)@, key@),
            distinct_keys(final(self)@),
    {
        proof {
            use_type_invariant(&*self);
            lemma_remove_named_distinct(self@, key@);
        }
        let name = key;
        let ghost s = self@;
        let mut out: Vec<(String, String)> = Vec::new();
        let mut j: usize = 0;
        assert(s.skip(0) == s);
        while j < self.data.len()
            invariant
                j <= self.data.len(),
                s == pairs_view(self.data@),
                s.len() == self.data.len(),
                remove_named(s, name@) == pairs_view(out@) + remove_named(s.skip(j as int), name@),
            decreases self.data.len() - j,
        {
            proof {
                assert(s[j as int] == (self.data@[j as int].0@, self.data@[j as int].1@));
                assert(s.skip(j as int).drop_first() == s.skip(j + 1));
            }
            if !str_eq(self.data[j].0.as_str(), name) {
                let ghost before = out@;
                let e = (self.data[j].0.clone(), self.data[j].1.clone());
                out.push(e);
                proof {
                    assert(pairs_view(out@) =~= pairs_view(before) + seq![s[j as int]]);
                }
            }
            j = j + 1;
        }
        proof {
            assert(s.skip(s.len() as int) =~= Seq::<(Seq<char>, Seq<char>)>::empty());
            assert(pairs_view(out@) + Seq::<(Seq<char>, Seq<char>)>::empty() =~= pairs_view(out@));
        }
        self.data = out;
    }

    /// Drops every key.
    pub fn clear(&mut self)
        ensures
            final(self)@ == Seq::<(Seq<char>, Seq<char>)>::empty(),
    {
        self.data = Vec::new();
        assert(self@ =~= Seq::<(Seq<char>, Seq<char>)>::empty());
    }
}

/// A value read back after it was stored is the value stored; storing
/// under one key leaves the others as they were.
pub proof fn lemma_store_read_after_write(s: Seq<(Seq<char>, Seq<char>)>, key: Seq<char>, value: Seq<char>, other: Seq<char>)
    ensures
        stored(header_insert(s, key, value), key) == Some(value),
        other != key ==> stored(header_insert(s, key, value), other) == stored(s, other),
{
    lemma_insert_then_get(s, key, value, other);
}

/// A removed key reads back as absent; removing one key leaves the others
/// as they were.
pub proof fn lemma_store_read_after_remove(s: Seq<(Seq<char>, Seq<char>)>, key: Seq<char>, other: Seq<char>)
    ensures
        stored(remove_named(s, key), key).is_none(),
        other != key ==> stored(remove_named(s, key), other) == stored(s, other),
{
    lemma_remove_named_get(s, key, other);
}

/// Whether a looked-up value counts as a session: present and not empty.
pub open spec fn usable(v: Option<Seq<char>>) -> bool {
    v matches Some(s) && s.len() > 0
}

/// Whether lookup step `step` is taken: step 0 asks the provider, steps 1
/// to 4 read the storage keys in order.
pub open spec fn step_taken(has_provider: bool, has_storage: bool, step: nat) -> bool {
    if step == 0 {
        has_provider
    } else {
        1 <= step <= 4 && has_storage
    }
}

/// The first step from `from` on that is taken.
pub open spec fn next_step(has_provider: bool, has_storage: bool, from: nat) -> Option<nat>
    decreases 5 - from,
{
    if from > 4 {
        None
    } else if step_taken(has_provider, has_storage, from) {
        Some(from)
    } else {
        next_step(has_provider, has_storage, from + 1)
    }
}

/// What lookup step `step` reads: the provider's answer, or the value
/// stored under the step's key.
pub open spec fn step_answer(provider: Option<Seq<char>>, storage: Seq<(Seq<char>, Seq<char>)>, step: nat) -> Option<Seq<char>> {
    if step == 0 {
        provider
    } else {
        stored(storage, session_keys()[step - 1])
    }
}

/// The session found from step `from` on: the first usable answer of a
/// step that is taken.
pub open spec fn found_from(
    has_provider: bool,
    has_storage: bool,
    provider: Option<Seq<char>>,
    storage: Seq<(Seq<char>, Seq<char>)>,
    from: nat,
) -> Option<Seq<char>>
    decreases 5 - from,
{
    if from > 4 {
        None
    } else if step_taken(has_provider, has_storage, from) && usable(step_answer(provider, storage, from)) {
        step_answer(provider, storage, from)
    } else {
        found_from(has_provider, has_storage, provider, storage, from + 1)
    }
}

/// The session id a lookup gives: the cached one; else the fixed one; else
/// a non-empty id from the provider; else the first non-empty id stored
/// under the standard key or one of the legacy keys, in that order.
pub open spec fn session_priority(
    cached: Option<Seq<char>>,
    fixed: Option<Seq<char>>,
    has_provider: bool,
    provider: Option<Seq<char>>,
    has_storage: bool,
    storage: Seq<(Seq<char>, Seq<char>)>,
) -> Option<Seq<char>> {
    if cached.is_some() {
        cached
    } else if fixed.is_some() {
        fixed
    } else if has_provider && usable(provider) {
        provider
    } else if has_storage && usable(stored(storage, "pubflow_session_id"@)) {
        stored(storage, "pubflow_session_id"@)
    } else if has_storage && usable(stored(storage, "flowfull_session_id"@)) {
        stored(storage, "flowfull_session_id"@)
    } else if has_storage && usable(stored(storage, "session_id"@)) {
        stored(storage, "session_id"@)
    } else if has_storage && usable(stored(storage, "sessionId"@)) {
        stored(storage, "sessionId"@)
    } else {
        None
    }
}

/// What the session manager does next in a lookup.
#[derive(Debug, Clone, PartialEq, Eq)]
pub enum LookupAction {
    /// Ask the session provider.
    CallProvider,
    /// Read the storage under this key.
    ReadStorage(String),
    /// The session is this id; cache it.
    Found(String),
    /// There is no session.
    NotFound,
}

/// A session lookup in progress: the step whose answer is awaited.
#[derive(Debug, Clone)]
pub struct SessionLookup {
    step: usize,
    has_provider: bool,
    has_storage: bool,
}

/// The action of lookup step `step`.
pub open spec fn step_action(step: nat, action: LookupAction) -> bool {
    if step == 0 {
        action == LookupAction::CallProvider
    } else {
        action matches LookupAction::ReadStorage(k) && k@ == session_keys()[step - 1]
    }
}

impl SessionLookup {
    /// The step whose answer is awaited.
    pub closed spec fn step(self) -> nat {
        self.step as nat
    }

    pub closed spec fn has_provider(self) -> bool {
        self.has_provider
    }

    pub closed spec fn has_storage(self) -> bool {
        self.has_storage
    }

    fn go_to(has_provider: bool, has_storage: bool, from: usize) -> (r: (SessionLookup, LookupAction))
        requires
            from <= 5,
        ensures
            r.0.has_provider() == has_provider,
            r.0.has_storage() == has_storage,
            match next_step(has_provider, has_storage, from as nat) {
                None => r.1 == LookupAction::NotFound,
                Some(s) => r.0.step() == s && step_action(s, r.1),
            },
        decreases 5 - from,
    {
        if from > 4 {
            (SessionLookup { step: from, has_provider, has_storage }, LookupAction::NotFound)
        } else if (from == 0 && has_provider) || (from >= 1 && has_storage) {
            let action = if from == 0 {
                LookupAction::CallProvider
            } else {
                LookupAction::ReadStorage(session_key(from))
            };
            (SessionLookup { step: from, has_provider, has_storage }, action)
        } else {
            SessionLookup::go_to(has_provider, has_storage, from + 1)
        }
    }

    /// Starts a lookup: the cached id, else the fixed id, is the session at
    /// once; otherwise the first step that is taken.
    pub fn begin(cached: Option<&String>, fixed: Option<&String>, has_provider: bool, has_storage: bool) -> (r: (SessionLookup, LookupAction))
        ensures
            r.0.has_provider() == has_provider,
            r.0.has_storage() == has_storage,
            match cached {
                Some(c) => r.1 matches LookupAction::Found(s) && s@ == c@,
                None => match fixed {
                    Some(f) => r.1 matches LookupAction::Found(s) && s@ == f@,
                    None => match next_step(has_provider, has_storage, 0) {
                        None => r.1 == LookupAction::NotFound,
                        Some(s) => r.0.step() == s && step_action(s, r.1),
                    },
                },
            },
    {
        match cached {
            Some(c) => (SessionLookup { step: 5, has_provider, has_storage }, LookupAction::Found(c.clone())),
            None => match fixed {
                Some(f) => (SessionLookup { step: 5, has_provider, has_storage }, LookupAction::Found(f.clone())),
                None => SessionLookup::go_to(has_provider, has_storage, 0),
            },
        }
    }

    /// Takes the answer of the awaited step: a non-empty id is the session;
    /// otherwise the next step that is taken. A lookup that is over has no
    /// step left.
    pub fn on_value(self, value: Option<String>) -> (r: (SessionLookup, LookupAction))
        ensures
            r.0.has_provider() == self.has_provider(),
            r.0.has_storage() == self.has_storage(),
            self.step() > 4 ==> r.1 == LookupAction::NotFound,
            self.step() <= 4 ==> match value {
                Some(v) if v@.len() > 0 => r.1 == LookupAction::Found(v),
                _ => match next_step(self.has_provider(), self.has_storage(), self.step() + 1) {
                    None => r.1 == LookupAction::NotFound,
                    Some(s) => r.0.step() == s && step_action(s, r.1),
                },
            },
    {
        if self.step > 4 {
            return (self, LookupAction::NotFound);
        }
        match value {
            Some(v) => {
                if v.as_str().is_empty() {
                    SessionLookup::go_to(self.has_provider, self.has_storage, self.step + 1)
                } else {
                    (self, LookupAction::Found(v))
                }
            },
            None => SessionLookup::go_to(self.has_provider, self.has_storage, self.step + 1),
        }
    }
}

/// The lookup machine computes `found_from`: from any step on, the session
/// found is that of the next step taken when its answer is usable, and
/// otherwise what is found after that step; with no step left there is none.
pub proof fn lemma_machine_computes_found(
    has_provider: bool,
    has_storage: bool,
    provider: Option<Seq<char>>,
    storage: Seq<(Seq<char>, Seq<char>)>,
    from: nat,
)
    ensures
        found_from(has_provider, has_storage, provider, storage, from) == match next_step(has_provider, has_storage, from) {
            None => None,
            Some(s) => if usable(step_answer(provider, storage, s)) {
                step_answer(provider, storage, s)
            } else {
                found_from(has_provider, has_storage, provider, storage, s + 1)
            },
        },
    decreases 5 - from,
{
    if from <= 4 && !step_taken(has_provider, has_storage, from) {
        lemma_machine_computes_found(has_provider, has_storage, provider, storage, from + 1);
    }
}

/// Following the lookup steps in order gives the session of the priority
/// rule: the cached id, the fixed id, a non-empty id from the provider, then
/// the first non-empty stored id under the standard key and the legacy keys.
pub proof fn lemma_lookup_follows_priority(
    cached: Option<Seq<char>>,
    fixed: Option<Seq<char>>,
    has_provider: bool,
    provider: Option<Seq<char>>,
    has_storage: bool,
    storage: Seq<(Seq<char>, Seq<char>)>,
)
    requires
        cached.is_none(),
        fixed.is_none(),
    ensures
        found_from(has_provider, has_storage, provider, storage, 0)
            == session_priority(cached, fixed, has_provider, provider, has_storage, storage),
{
    reveal_with_fuel(found_from, 6);
    reveal_with_fuel(next_step, 6);
    assert(session_keys()[0] == "pubflow_session_id"@);
    assert(session_keys()[1] == "flowfull_session_id"@);
    assert(session_keys()[2] == "session_id"@);
    assert(session_keys()[3] == "sessionId"@);
}

/// A non-empty session stored under the standard key is what a lookup
/// finds when there is no cached or fixed session and the provider, if
/// any, gives none.
pub proof fn lemma_stored_session_is_found(
    storage: Seq<(Seq<char>, Seq<char>)>,
    id: Seq<char>,
    has_provider: bool,
    provider: Option<Seq<char>>,
)
    requires
        id.len() > 0,
        has_provider ==> !usable(provider),
    ensures
        session_priority(None, None, has_provider, provider, true, header_insert(storage, "pubflow_session_id"@, id))
            == Some(id),
{
    lemma_store_read_after_write(storage, "pubflow_session_id"@, id, "pubflow_session_id"@);
}

/// A session set with `set_session_id` is cached, and a lookup that finds
/// it cached answers with it at once.
pub proof fn lemma_cached_session_wins(
    cached: Seq<char>,
    fixed: Option<Seq<char>>,
    has_provider: bool,
    provider: Option<Seq<char>>,
    has_storage: bool,
    storage: Seq<(Seq<char>, Seq<char>)>,
)
    ensures
        session_priority(Some(cached), fixed, has_provider, provider, has_storage, storage) == Some(cached),
{
}

/// The session id a session manager keeps between lookups: the one set
/// with `set_session_id` or found by the last lookup, until cleared.
#[derive(Debug, Clone)]
pub struct SessionCache {
    id: Option<String>,
}

impl View for SessionCache {
    type V = Option<Seq<char>>;

    closed spec fn view(&self) -> Option<Seq<char>> {
        match self.id {
            Some(s) => Some(s@),
            None => None,
        }
    }
}

/// What the cache holds after a lookup step: the session found, or what it
/// held before.
pub open spec fn cache_after(cache: Option<Seq<char>>, action: LookupAction) -> Option<Seq<char>> {
    match action {
        LookupAction::Found(id) => Some(id@),
        _ => cache,
    }
}

impl SessionCache {
    pub fn new() -> (c: SessionCache)
        ensures
            c@.is_none(),
    {
        SessionCache { id: None }
    }

    /// Keeps `id` (`set_session_id`).
    pub fn set(&mut self, id: &str)
        ensures
            final(self)@ == Some(id@),
    {
        self.id = Some(owned(id));
    }

    /// Forgets the session (`clear_session`).
    pub fn clear(&mut self)
        ensures
            final(self)@.is_none(),
    {
        self.id = None;
    }

    /// Keeps the session a lookup step found, if it found one.
    pub fn remember(&mut self, action: &LookupAction)
        ensures
            final(self)@ == cache_after(old(self)@, *action),
    {
        if let LookupAction::Found(id) = action {
            self.id = Some(id.clone());
        }
    }

    /// Starts a lookup from this cache (see `SessionLookup::begin`): a
    /// cached session is the answer at once, and neither the provider nor
    /// the storage is asked.
    pub fn begin(&self, fixed: Option<&String>, has_provider: bool, has_storage: bool) -> (r: (SessionLookup, LookupAction))
        ensures
            r.0.has_provider() == has_provider,
            r.0.has_storage() == has_storage,
            match self@ {
                Some(c) => r.1 matches LookupAction::Found(s) && s@ == c,
                None => match fixed {
                    Some(f) => r.1 matches LookupAction::Found(s) && s@ == f@,
                    None => match next_step(has_provider, has_storage, 0) {
                        None => r.1 == LookupAction::NotFound,
                        Some(s) => r.0.step() == s && step_action(s, r.1),
                    },
                },
            },
    {
        SessionLookup::begin(self.id.as_ref(), fixed, has_provider, has_storage)
    }
}

/// A session found by a lookup, or set, is what the next lookup answers,
/// whatever the fixed session, the provider and the storage say then: the
/// cache keeps it, and a lookup from a cache that holds a session answers
/// with it at once.
pub proof fn lemma_session_answered_again(
    before: Option<Seq<char>>,
    found: LookupAction,
    fixed: Option<Seq<char>>,
    has_provider: bool,
    provider: Option<Seq<char>>,
    has_storage: bool,
    storage: Seq<(Seq<char>, Seq<char>)>,
)
    requires
        found is Found,
    ensures
        cache_after(before, found) == Some(found->Found_0@),
        session_priority(cache_after(before, found), fixed, has_provider, provider, has_storage, storage)
            == Some(found->Found_0@),
{
}

} // verus!
