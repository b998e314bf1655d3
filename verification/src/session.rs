//! Sessions of the HTTP transport: creation up to a limit, lookup with
//! activity tracking, removal and expiry.

use vstd::prelude::*;
use vstd::string::StringExecFns;
use crate::http_error::HttpServerError;

verus! {

/// State of one session. Times are seconds on a clock chosen by the caller.
pub struct SessionState {
    pub session_id: String,
    pub created_at: u64,
    pub last_activity: u64,
    pub initialized: bool,
    /// Number of events sent on the session's streams so far.
    pub event_counter: u64,
}

impl SessionState {
    /// A copy of this state.
    pub fn duplicate(&self) -> (s: SessionState)
        ensures
            s == *self,
    {
        SessionState {
            session_id: self.session_id.clone(),
            created_at: self.created_at,
            last_activity: self.last_activity,
            initialized: self.initialized,
            event_counter: self.event_counter,
        }
    }
}

/// Limits for sessions.
pub struct SessionConfig {
    /// Largest number of sessions held at once.
    pub max_sessions: usize,
    /// Seconds without activity after which a session expires.
    pub session_timeout: u64,
}

impl SessionConfig {
    /// The default limits: 1000 sessions, one hour of inactivity.
    pub open spec fn default_spec() -> SessionConfig {
        SessionConfig { max_sessions: 1000, session_timeout: 3600 }
    }
}

impl Default for SessionConfig {
    fn default() -> (c: SessionConfig)
        ensures
            c == SessionConfig::default_spec(),
    {
        SessionConfig { max_sessions: 1000, session_timeout: 3600 }
    }
}

impl SessionConfig {
    /// A copy of this configuration.
    pub fn duplicate(&self) -> (c: SessionConfig)
        ensures
            c == *self,
    {
        SessionConfig { max_sessions: self.max_sessions, session_timeout: self.session_timeout }
    }
}

/// No two sessions share an id.
pub open spec fn distinct_ids(s: Seq<SessionState>) -> bool {
    forall|i: int, j: int|
        0 <= i < s.len() && 0 <= j < s.len() && i != j ==> s[i].session_id@ != s[j].session_id@
}

/// Position of the session with id `id`, if any.
pub open spec fn has_session(s: Seq<SessionState>, id: Seq<char>) -> bool {
    exists|i: int| 0 <= i < s.len() && #[trigger] s[i].session_id@ == id
}

/// `s` without the session with id `id`.
pub open spec fn without_id(s: Seq<SessionState>, id: Seq<char>) -> Seq<SessionState> {
    s.filter(id_differs(id))
}

/// Sessions whose id is not `id`.
pub open spec fn id_differs(id: Seq<char>) -> spec_fn(SessionState) -> bool {
    |x: SessionState| x.session_id@ != id
}

/// `after` is `before` with the session `id` marked active at `now`; `s`
/// is that session afterwards.
pub open spec fn touched_in(before: Seq<SessionState>, after: Seq<SessionState>, s: SessionState, id: Seq<char>, now: u64) -> bool {
    exists|i: int| 0 <= i < before.len() && #[trigger] before[i].session_id@ == id && s == (SessionState {
        last_activity: now,
        ..before[i]
    }) && after == before.update(i, s)
}

/// `s` is a session just created with id `id` at time `now`.
pub open spec fn fresh_session(s: SessionState, id: Seq<char>, now: u64) -> bool {
    &&& s.session_id@ == id
    &&& s.created_at == now
    &&& s.last_activity == now
    &&& !s.initialized
    &&& s.event_counter == 0
}

/// A session is expired at `now` when it has been idle longer than `timeout`.
pub open spec fn is_expired(x: SessionState, now: u64, timeout: u64) -> bool {
    now >= x.last_activity && now - x.last_activity > timeout
}

/// The sessions held by the transport.
pub struct SessionManager {
    config: SessionConfig,
    sessions: Vec<SessionState>,
}

impl SessionManager {
    /// The sessions, in creation order.
    pub closed spec fn sessions(&self) -> Seq<SessionState> {
        self.sessions@
    }

    /// The limits this manager enforces.
    pub closed spec fn limits(&self) -> SessionConfig {
        self.config
    }

    /// The limits this manager enforces.
    pub fn config(&self) -> (c: &SessionConfig)
        ensures
            *c == self.limits(),
    {
        &self.config
    }

    #[verifier::type_invariant]
    spec fn well_formed(&self) -> bool {
        &&& distinct_ids(self.sessions@)
        &&& self.sessions@.len() <= self.config.max_sessions
    }

    /// A manager with no session.
    pub fn new(config: SessionConfig) -> (m: SessionManager)
        ensures
            m.sessions().len() == 0,
            m.sessions().len() <= m.limits().max_sessions,
            m.limits() == config,
    {
        SessionManager { config, sessions: Vec::new() }
    }

    /// Number of sessions.
    pub fn session_count(&self) -> (n: usize)
        ensures
            n == self.sessions().len(),
    {
        self.sessions.len()
    }

    fn find(&self, id: &str) -> (r: Option<usize>)
        ensures
            match r {
                Some(i) => i < self.sessions().len() && self.sessions()[i as int].session_id@ == id@,
                None => !has_session(self.sessions(), id@),
            },
    {
        let key = String::from_str(id);
        let mut i: usize = 0;
        while i < self.sessions.len()
            invariant
                i <= self.sessions@.len(),
                key@ == id@,
                forall|j: int| 0 <= j < i ==> self.sessions@[j].session_id@ != id@,
            decreases self.sessions.len() - i,
        {
            if self.sessions[i].session_id == key {
                return Some(i);
            }
            i = i + 1;
        }
        None
    }

    /// Creates a session with the given id at time `now`, unless the limit
    /// is reached. A session with the same id is replaced.
    pub fn create_session(&mut self, id: String, now: u64) -> (r: Result<SessionState, HttpServerError>)
        ensures
            final(self).limits() == old(self).limits(),
            final(self).sessions().len() <= final(self).limits().max_sessions,
            old(self).sessions().len() >= old(self).limits().max_sessions ==> (r matches Err(
                HttpServerError::SessionLimitReached { max },
            ) && max == old(self).limits().max_sessions && final(self).sessions() == old(self).sessions()),
            old(self).sessions().len() < old(self).limits().max_sessions ==> (r matches Ok(s) && s.session_id@
                == id@ && s.created_at == now && s.last_activity == now && !s.initialized && s.event_counter
                == 0 && final(self).sessions() == without_id(old(self).sessions(), id@).push(s)),
    {
        proof {
            use_type_invariant(&*self);
        }
        if self.sessions.len() >= self.config.max_sessions {
            return Err(HttpServerError::SessionLimitReached { max: self.config.max_sessions });
        }
        let ghost pre = self.sessions@;
        let _ = self.remove_session(id.as_str());
        proof {
            use_type_invariant(&*self);
        }
        let s = SessionState {
            session_id: id,
            created_at: now,
            last_activity: now,
            initialized: false,
            event_counter: 0,
        };
        let copy = s.duplicate();
        let ghost old_s = self.sessions@;
        let mut v: Vec<SessionState> = Vec::new();
        std::mem::swap(&mut v, &mut self.sessions);
        v.push(copy);
        proof {
            assert forall|i: int| 0 <= i < old_s.len() implies #[trigger] old_s[i].session_id@ != s.session_id@ by {
                lemma_without_id_excludes(pre, s.session_id@, i);
            }
            assert(distinct_ids(v@)) by {
                assert forall|a: int, b: int| 0 <= a < v@.len() && 0 <= b < v@.len() && a != b implies v@[a].session_id@ != v@[b].session_id@ by {
                    if a < old_s.len() && b < old_s.len() {
                        assert(v@[a] == old_s[a] && v@[b] == old_s[b]);
                    } else if a < old_s.len() {
                        assert(v@[a] == old_s[a]);
                    } else {
                        assert(v@[b] == old_s[b]);
                    }
                }
            }
        }
        self.sessions = v;
        Ok(s)
    }

    /// The session with id `id`, its last activity set to `now`.
    pub fn touch_session(&mut self, id: &str, now: u64) -> (r: Option<SessionState>)
        ensures
            final(self).limits() == old(self).limits(),
            final(self).sessions().len() <= final(self).limits().max_sessions,
            final(self).sessions().len() == old(self).sessions().len(),
            match r {
                Some(s) => has_session(old(self).sessions(), id@) && s.session_id@ == id@
                    && s.last_activity == now && exists|i: int| 0 <= i < old(self).sessions().len()
                    && #[trigger] old(self).sessions()[i].session_id@ == id@ && s == (SessionState {
                    last_activity: now,
                    ..old(self).sessions()[i]
                }) && final(self).sessions() == old(self).sessions().update(i, s),
                None => !has_session(old(self).sessions(), id@) && final(self).sessions() == old(self).sessions(),
            },
    {
        proof {
            use_type_invariant(&*self);
        }
        match self.find(id) {
            Some(i) => {
                let ghost old_s = self.sessions@;
                let mut v: Vec<SessionState> = Vec::new();
                std::mem::swap(&mut v, &mut self.sessions);
                let mut s = v.remove(i);
                s.last_activity = now;
                let copy = s.duplicate();
                v.insert(i, s);
                proof {
                    assert(v@ =~= old_s.update(i as int, copy));
                    assert(distinct_ids(v@)) by {
                        assert forall|a: int, b: int| 0 <= a < v@.len() && 0 <= b < v@.len() && a != b implies v@[a].session_id@ != v@[b].session_id@ by {
                            assert(old_s[a].session_id@ != old_s[b].session_id@);
                        }
                    }
                }
                self.sessions = v;
                Some(copy)
            },
            None => None,
        }
    }

    /// Removes the session with id `id`, giving it back if there was one.
    pub fn remove_session(&mut self, id: &str) -> (r: Option<SessionState>)
        ensures
            final(self).limits() == old(self).limits(),
            final(self).sessions().len() <= final(self).limits().max_sessions,
            final(self).sessions() == without_id(old(self).sessions(), id@),
            match r {
                Some(s) => has_session(old(self).sessions(), id@) && s.session_id@ == id@
                    && old(self).sessions().contains(s)
                    && final(self).sessions().len() == old(self).sessions().len() - 1,
                None => !has_session(old(self).sessions(), id@) && final(self).sessions() == old(self).sessions(),
            },
    {
        proof {
            use_type_invariant(&*self);
        }
        let ghost old_s = self.sessions@;
        match self.find(id) {
            Some(i) => {
                let mut v: Vec<SessionState> = Vec::new();
                std::mem::swap(&mut v, &mut self.sessions);
                let s = v.remove(i);
                proof {
                    lemma_without_id_remove(old_s, id@, i as int);
                    assert(old_s[i as int] == s);
                    assert(distinct_ids(v@)) by {
                        assert forall|a: int, b: int| 0 <= a < v@.len() && 0 <= b < v@.len() && a != b implies v@[a].session_id@ != v@[b].session_id@ by {
                            let a2 = if a < i { a } else { a + 1 };
                            let b2 = if b < i { b } else { b + 1 };
                            assert(v@[a] == old_s[a2] && v@[b] == old_s[b2]);
                        }
                    }
                }
                self.sessions = v;
                Some(s)
            },
            None => {
                proof {
                    lemma_without_absent(old_s, id@);
                }
                None
            },
        }
    }

    /// Removes the sessions idle for longer than the timeout at `now`; tells how many.
    pub fn cleanup_expired(&mut self, now: u64) -> (n: usize)
        ensures
            final(self).limits() == old(self).limits(),
            final(self).sessions().len() <= final(self).limits().max_sessions,
            final(self).sessions() == old(self).sessions().filter(
                |x: SessionState| !is_expired(x, now, old(self).limits().session_timeout),
            ),
            n == old(self).sessions().len() - final(self).sessions().len(),
    {
        proof {
            use_type_invariant(&*self);
        }
        let timeout = self.config.session_timeout;
        let ghost pred = |x: SessionState| !is_expired(x, now, timeout);
        let ghost orig = self.sessions@;
        let mut v: Vec<SessionState> = Vec::new();
        std::mem::swap(&mut v, &mut self.sessions);
        let old_len = v.len();
        let mut kept: Vec<SessionState> = Vec::new();
        let ghost mut taken: int = 0;
        proof {
            assert(orig.take(0) =~= Seq::<SessionState>::empty());
            reveal_with_fuel(Seq::<_>::filter, 1);
            assert(orig.skip(0) == orig);
        }
        while v.len() > 0
            invariant
                0 <= taken <= orig.len(),
                v@ == orig.skip(taken),
                pred == (|x: SessionState| !is_expired(x, now, timeout)),
                kept@ == orig.take(taken).filter(pred),
            decreases v.len(),
        {
            let x = v.remove(0);
            let ghost xv = x;
            assert(xv == orig[taken]);
            let expired = now >= x.last_activity && now - x.last_activity > timeout;
            if !expired {
                kept.push(x);
            }
            proof {
                let t1 = orig.take(taken + 1);
                assert(t1.drop_last() == orig.take(taken));
                assert(t1.last() == xv);
                reveal_with_fuel(Seq::<_>::filter, 1);
                assert(orig.skip(taken).drop_first() == orig.skip(taken + 1));
                taken = taken + 1;
            }
        }
        proof {
            assert(orig.take(orig.len() as int) == orig);
            orig.lemma_filter_len(pred);
            lemma_filter_keeps_distinct(orig, pred);
        }
        let n = old_len - kept.len();
        self.sessions = kept;
        n
    }
}

proof fn lemma_without_id_excludes(s: Seq<SessionState>, id: Seq<char>, i: int)
    requires
        0 <= i < without_id(s, id).len(),
    ensures
        without_id(s, id)[i].session_id@ != id,
{
    s.lemma_filter_pred(id_differs(id), i);
}

/// After removing `id`, no session has that id.
pub proof fn lemma_without_id_lacks(s: Seq<SessionState>, id: Seq<char>)
    ensures
        !has_session(without_id(s, id), id),
{
    if has_session(without_id(s, id), id) {
        let j = choose|j: int| 0 <= j < without_id(s, id).len() && #[trigger] without_id(s, id)[j].session_id@ == id;
        lemma_without_id_excludes(s, id, j);
    }
}

proof fn lemma_without_absent(s: Seq<SessionState>, id: Seq<char>)
    requires
        !has_session(s, id),
    ensures
        without_id(s, id) == s,
    decreases s.len(),
{
    reveal_with_fuel(Seq::<_>::filter, 1);
    if s.len() > 0 {
        assert(!has_session(s.drop_last(), id)) by {
            if has_session(s.drop_last(), id) {
                let j = choose|j: int| 0 <= j < s.drop_last().len() && #[trigger] s.drop_last()[j].session_id@ == id;
                assert(s[j].session_id@ == id);
            }
        }
        lemma_without_absent(s.drop_last(), id);
        assert(s.last().session_id@ != id) by {
            if s.last().session_id@ == id {
                assert(s[s.len() - 1].session_id@ == id);
            }
        }
        assert(s.drop_last().push(s.last()) == s);
    }
}

proof fn lemma_without_id_remove(s: Seq<SessionState>, id: Seq<char>, i: int)
    requires
        distinct_ids(s),
        0 <= i < s.len(),
        s[i].session_id@ == id,
    ensures
        without_id(s, id) == s.remove(i),
    decreases s.len(),
{
    reveal_with_fuel(Seq::<_>::filter, 1);
    if i == s.len() - 1 {
        assert(!has_session(s.drop_last(), id)) by {
            if has_session(s.drop_last(), id) {
                let j = choose|j: int| 0 <= j < s.drop_last().len() && #[trigger] s.drop_last()[j].session_id@ == id;
                assert(s[j].session_id@ == id);
            }
        }
        lemma_without_absent(s.drop_last(), id);
        assert(s.remove(i) =~= s.drop_last());
    } else {
        let t = s.drop_last();
        assert(distinct_ids(t)) by {
            assert forall|a: int, b: int| 0 <= a < t.len() && 0 <= b < t.len() && a != b implies t[a].session_id@ != t[b].session_id@ by {
                assert(s[a].session_id@ != s[b].session_id@);
            }
        }
        assert(t[i] == s[i]);
        lemma_without_id_remove(t, id, i);
        assert(s.last().session_id@ != id) by {
            assert(s[s.len() - 1].session_id@ != s[i].session_id@);
        }
        assert(s.remove(i) =~= t.remove(i).push(s.last()));
    }
}

proof fn lemma_filter_keeps_distinct(s: Seq<SessionState>, pred: spec_fn(SessionState) -> bool)
    requires
        distinct_ids(s),
    ensures
        distinct_ids(s.filter(pred)),
    decreases s.len(),
{
    reveal_with_fuel(Seq::<_>::filter, 1);
    if s.len() > 0 {
        let t = s.drop_last();
        assert(distinct_ids(t)) by {
            assert forall|a: int, b: int| 0 <= a < t.len() && 0 <= b < t.len() && a != b implies t[a].session_id@ != t[b].session_id@ by {
                assert(s[a].session_id@ != s[b].session_id@);
            }
        }
        lemma_filter_keeps_distinct(t, pred);
        if pred(s.last()) {
            let f = t.filter(pred);
            let g = f.push(s.last());
            assert forall|a: int| 0 <= a < f.len() implies #[trigger] f[a].session_id@ != s.last().session_id@ by {
                t.lemma_filter_contains_rev(pred, f[a]);
                assert(t.contains(f[a]));
                let j = choose|j: int| 0 <= j < t.len() && t[j] == f[a];
                assert(s[j].session_id@ != s[s.len() - 1].session_id@);
            }
            assert(distinct_ids(g)) by {
                assert forall|a: int, b: int| 0 <= a < g.len() && 0 <= b < g.len() && a != b implies g[a].session_id@ != g[b].session_id@ by {
                    if a < f.len() && b < f.len() {
                        assert(g[a] == f[a] && g[b] == f[b]);
                    } else if a < f.len() {
                        assert(g[a] == f[a]);
                    } else {
                        assert(g[b] == f[b]);
                    }
                }
            }
        }
    }
}

/// A session that was just created is held under its id, and it is the
/// only one with that id.
pub proof fn law_created_session_is_held(s: Seq<SessionState>, x: SessionState)
    ensures
        has_session(without_id(s, x.session_id@).push(x), x.session_id@),
        forall|j: int| 0 <= j < without_id(s, x.session_id@).len()
            ==> (#[trigger] without_id(s, x.session_id@)[j]).session_id@ != x.session_id@,
{
    let t = without_id(s, x.session_id@).push(x);
    assert(t[t.len() - 1].session_id@ == x.session_id@);
    assert forall|j: int| 0 <= j < without_id(s, x.session_id@).len()
        implies (#[trigger] without_id(s, x.session_id@)[j]).session_id@ != x.session_id@ by {
        lemma_without_id_excludes(s, x.session_id@, j);
    }
}

/// After a session is removed it is no longer held, and every other
/// session is held exactly when it was before.
pub proof fn law_removed_session_is_gone(s: Seq<SessionState>, id: Seq<char>, other: Seq<char>)
    ensures
        !has_session(without_id(s, id), id),
        other != id ==> (has_session(without_id(s, id), other) <==> has_session(s, other)),
{
    lemma_without_id_lacks(s, id);
    if other != id {
        let w = without_id(s, id);
        if has_session(s, other) {
            let i = choose|i: int| 0 <= i < s.len() && #[trigger] s[i].session_id@ == other;
            s.lemma_filter_contains(id_differs(id), i);
            let j = choose|j: int| 0 <= j < w.len() && w[j] == s[i];
            assert(w[j].session_id@ == other);
        }
        if has_session(w, other) {
            let j = choose|j: int| 0 <= j < w.len() && #[trigger] w[j].session_id@ == other;
            assert(w.contains(w[j]));
            s.lemma_filter_contains_rev(id_differs(id), w[j]);
            let i = choose|i: int| 0 <= i < s.len() && s[i] == w[j];
            assert(s[i].session_id@ == other);
        }
    }
}

/// Clean-up keeps exactly the sessions that have not expired, in order.
pub proof fn law_cleanup_keeps_live_sessions(s: Seq<SessionState>, now: u64, timeout: u64, x: SessionState)
    ensures
        s.filter(|y: SessionState| !is_expired(y, now, timeout)).contains(x) <==> (s.contains(x) && !is_expired(
            x,
            now,
            timeout,
        )),
{
    let pred = |y: SessionState| !is_expired(y, now, timeout);
    let f = s.filter(pred);
    if f.contains(x) {
        s.lemma_filter_contains_rev(pred, x);
        let j = choose|j: int| 0 <= j < f.len() && f[j] == x;
        s.lemma_filter_pred(pred, j);
    }
    if s.contains(x) && !is_expired(x, now, timeout) {
        let i = choose|i: int| 0 <= i < s.len() && s[i] == x;
        s.lemma_filter_contains(pred, i);
    }
}

} // verus!
