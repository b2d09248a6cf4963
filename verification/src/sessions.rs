//! The session registry: named cookie jars with idle time-to-live. Two
//! requests naming the same session observe the same jar; distinct sessions
//! never share one (the registry maps each name to exactly one entry).

use vstd::prelude::*;
use crate::chars::blank_str;
use crate::cookies::CookieJar;
use crate::errors::{BridgeError, ErrorKind};
use crate::table::{fresh_at, KeyedTable, Stamped};
use crate::util::pair_views;

verus! {

/// Sessions idle longer than this many milliseconds may be evicted.
pub const SESSION_TTL_MS: u64 = 300000;

/// One session: its cookie jar and when it was last touched.
#[derive(Debug)]
pub struct SessionEntry {
    pub jar: CookieJar,
    pub last_used_ms: u64,
}

impl Stamped for SessionEntry {
    open spec fn spec_stamp(&self) -> u64 {
        self.last_used_ms
    }

    fn stamp(&self) -> (r: u64)
        ensures
            r == self.spec_stamp(),
    {
        self.last_used_ms
    }
}

/// The registry of named sessions.
pub struct SessionRegistry {
    table: KeyedTable<String, SessionEntry>,
}

impl SessionRegistry {
    pub closed spec fn wf(&self) -> bool {
        self.table.wf()
    }

    pub closed spec fn view(&self) -> Map<Seq<char>, SessionEntry> {
        self.table@
    }

    pub fn new() -> (r: Self)
        ensures
            r.wf(),
            r@ == Map::<Seq<char>, SessionEntry>::empty(),
    {
        SessionRegistry { table: KeyedTable::new() }
    }

    /// Register a fresh session under this id, replacing any previous entry,
    /// and hand the id back.
    pub fn create_session(&mut self, session_id: String, now_ms: u64) -> (r: Result<
        String,
        BridgeError,
    >)
        requires
            old(self).wf(),
        ensures
            final(self).wf(),
            r matches Ok(id) && id@ == session_id@,
            final(self)@.contains_key(session_id@),
            final(self)@[session_id@].jar@ == Seq::<(Seq<char>, Seq<char>)>::empty(),
            final(self)@[session_id@].last_used_ms == now_ms,
            forall|k: Seq<char>|
                k != session_id@ ==> (#[trigger] final(self)@.contains_key(k) <==> old(
                    self,
                )@.contains_key(k)),
            forall|k: Seq<char>|
                k != session_id@ && old(self)@.contains_key(k) ==> #[trigger] final(self)@[k]
                    == old(self)@[k],
    {
        let entry = SessionEntry { jar: CookieJar::default(), last_used_ms: now_ms };
        let id_copy = session_id.clone();
        self.table.insert(session_id, entry);
        Ok(id_copy)
    }

    /// Get or create the session's jar entry, bumping its idle stamp. An
    /// existing jar is kept as it is; a missing session gets an empty one.
    pub fn jar_for(&mut self, session_id: &String, now_ms: u64)
        requires
            old(self).wf(),
        ensures
            final(self).wf(),
            final(self)@.contains_key(session_id@),
            old(self)@.contains_key(session_id@) ==> final(self)@[session_id@].jar@ == old(
                self,
            )@[session_id@].jar@,
            !old(self)@.contains_key(session_id@) ==> final(self)@[session_id@].jar@ == Seq::<
                (Seq<char>, Seq<char>),
            >::empty(),
            final(self)@[session_id@].last_used_ms == now_ms,
            forall|k: Seq<char>|
                k != session_id@ ==> (#[trigger] final(self)@.contains_key(k) <==> old(
                    self,
                )@.contains_key(k)),
            forall|k: Seq<char>|
                k != session_id@ && old(self)@.contains_key(k) ==> #[trigger] final(self)@[k]
                    == old(self)@[k],
    {
        let entry = match self.table.take(session_id) {
            Some(mut e) => {
                e.last_used_ms = now_ms;
                e
            },
            None => SessionEntry { jar: CookieJar::default(), last_used_ms: now_ms },
        };
        self.table.insert(session_id.clone(), entry);
    }

    /// Absorb Set-Cookie pairs observed by a response into the session's
    /// jar, in order, bumping its idle stamp.
    pub fn absorb_cookies(&mut self, session_id: &String, pairs: &Vec<(String, String)>, now_ms: u64)
        requires
            old(self).wf(),
            old(self)@.contains_key(session_id@),
        ensures
            final(self).wf(),
            final(self)@.contains_key(session_id@),
            final(self)@[session_id@].jar@ == old(self)@[session_id@].jar@ + pair_views(pairs@),
            final(self)@[session_id@].last_used_ms == now_ms,
            forall|k: Seq<char>|
                k != session_id@ ==> (#[trigger] final(self)@.contains_key(k) <==> old(
                    self,
                )@.contains_key(k)),
            forall|k: Seq<char>|
                k != session_id@ && old(self)@.contains_key(k) ==> #[trigger] final(self)@[k]
                    == old(self)@[k],
    {
        let mut entry = match self.table.take(session_id) {
            Some(e) => e,
            None => SessionEntry { jar: CookieJar::default(), last_used_ms: now_ms },
        };
        entry.jar.absorb(pairs);
        entry.last_used_ms = now_ms;
        self.table.insert(session_id.clone(), entry);
    }

    /// The cookies the session's jar currently supplies, or `None` for an
    /// unknown session.
    pub fn cookies_for(&self, session_id: &String) -> (r: Option<Vec<(String, String)>>)
        requires
            self.wf(),
        ensures
            r is Some <==> self@.contains_key(session_id@),
            r matches Some(pairs) ==> pair_views(pairs@) == self@[session_id@].jar@,
    {
        match self.table.get(session_id) {
            Some(entry) => Some(entry.jar.snapshot()),
            None => None,
        }
    }

    /// Empty a session's jar, keeping the entry. Unknown sessions are an
    /// error.
    pub fn clear_session(&mut self, session_id: &String, now_ms: u64) -> (r: Result<
        (),
        BridgeError,
    >)
        requires
            old(self).wf(),
        ensures
            final(self).wf(),
            r is Ok <==> old(self)@.contains_key(session_id@),
            r matches Err(e) ==> e.kind == ErrorKind::SessionNotFound && final(self)@ == old(
                self,
            )@,
            r is Ok ==> final(self)@.contains_key(session_id@) && final(self)@[session_id@].jar@
                == Seq::<(Seq<char>, Seq<char>)>::empty() && final(self)@[session_id@].last_used_ms
                == now_ms,
            forall|k: Seq<char>|
                k != session_id@ ==> (#[trigger] final(self)@.contains_key(k) <==> old(
                    self,
                )@.contains_key(k)),
            forall|k: Seq<char>|
                k != session_id@ && old(self)@.contains_key(k) ==> #[trigger] final(self)@[k]
                    == old(self)@[k],
    {
        match self.table.take(session_id) {
            Some(mut entry) => {
                entry.jar.clear();
                entry.last_used_ms = now_ms;
                self.table.insert(session_id.clone(), entry);
                Ok(())
            },
            None => Err(
                BridgeError::new(ErrorKind::SessionNotFound, String::from_str("session not found")),
            ),
        }
    }

    /// Invalidate a session entirely. Unknown sessions are a no-op.
    pub fn drop_session(&mut self, session_id: &String)
        requires
            old(self).wf(),
        ensures
            final(self).wf(),
            final(self)@ == old(self)@.remove(session_id@),
    {
        self.table.remove(session_id);
    }

    /// Evict sessions idle past the time-to-live; fresher ones survive
    /// untouched.
    pub fn evict_idle(&mut self, now_ms: u64)
        requires
            old(self).wf(),
        ensures
            final(self).wf(),
            forall|k: Seq<char>|
                #[trigger] final(self)@.contains_key(k) <==> old(self)@.contains_key(k) && fresh_at(
                    old(self)@[k].last_used_ms,
                    now_ms,
                    SESSION_TTL_MS,
                ),
            forall|k: Seq<char>|
                #[trigger] final(self)@.contains_key(k) ==> final(self)@[k] == old(self)@[k],
    {
        self.table.evict_idle(now_ms, SESSION_TTL_MS);
    }
}

/// Register a fresh session in the registry, replacing any previous entry
/// under the same id.
pub fn create_managed_session(reg: &mut SessionRegistry, session_id: String, now_ms: u64) -> (r:
    Result<String, BridgeError>)
    requires
        old(reg).wf(),
    ensures
        final(reg).wf(),
        r matches Ok(id) && id@ == session_id@,
        final(reg)@.contains_key(session_id@),
        final(reg)@[session_id@].jar@ == Seq::<(Seq<char>, Seq<char>)>::empty(),
{
    reg.create_session(session_id, now_ms)
}

/// Empty a session's jar; an unknown session is a `SessionNotFound` error.
pub fn clear_managed_session(reg: &mut SessionRegistry, session_id: &String, now_ms: u64) -> (r:
    Result<(), BridgeError>)
    requires
        old(reg).wf(),
    ensures
        final(reg).wf(),
        r is Ok <==> old(reg)@.contains_key(session_id@),
        r matches Err(e) ==> e.kind == ErrorKind::SessionNotFound,
        r is Ok ==> final(reg)@.contains_key(session_id@) && final(reg)@[session_id@].jar@ == Seq::<
            (Seq<char>, Seq<char>),
        >::empty(),
{
    reg.clear_session(session_id, now_ms)
}

/// Drop a session entirely; an unknown session is a no-op.
pub fn drop_managed_session(reg: &mut SessionRegistry, session_id: &String)
    requires
        old(reg).wf(),
    ensures
        final(reg).wf(),
        final(reg)@ == old(reg)@.remove(session_id@),
{
    reg.drop_session(session_id);
}

/// Relies on `uuid::Uuid::new_v4` and its hyphenated rendering: a random
/// version-4 UUID prints as 36 characters. Nothing further is promised of
/// the value, which is random.
#[verifier::external_body]
pub(crate) fn uuid_v4_string() -> (r: String)
    ensures
        r@.len() == 36,
{
    uuid::Uuid::new_v4().to_string()
}

/// A fresh identifier for a session (or transport): a version-4 UUID in
/// its 36-character hyphenated form.
pub fn generate_session_id() -> (r: String)
    ensures
        r@.len() == 36,
{
    uuid_v4_string()
}

/// The session id a request runs under: a provided, non-blank id is kept;
/// a missing or whitespace-only one is replaced by a generated UUID.
pub fn normalize_session_id(provided: Option<String>) -> (r: String)
    ensures
        provided matches Some(s) ==> (if crate::chars::is_blank(s@) {
            r@.len() == 36
        } else {
            r@ == s@
        }),
        provided is None ==> r@.len() == 36,
{
    match provided {
        Some(s) => {
            if blank_str(s.as_str()) {
                generate_session_id()
            } else {
                s
            }
        },
        None => generate_session_id(),
    }
}

/// Cookies set by one request's response are visible to the session's next
/// request. `before` and `after` are registry states around the response:
/// `absorb_cookies` ensures the session's jar in `after` is the jar in
/// `before` followed by the absorbed pairs, and `cookies_for` hands that
/// jar back verbatim — so every absorbed pair is supplied, after the pairs
/// already present, in order.
pub proof fn lemma_set_cookies_visible(
    before: Map<Seq<char>, SessionEntry>,
    after: Map<Seq<char>, SessionEntry>,
    session_id: Seq<char>,
    absorbed: Seq<(Seq<char>, Seq<char>)>,
    i: int,
)
    requires
        before.contains_key(session_id),
        after.contains_key(session_id),
        after[session_id].jar@ == before[session_id].jar@ + absorbed,
        0 <= i < absorbed.len(),
    ensures
        after[session_id].jar@.contains(absorbed[i]),
        after[session_id].jar@.subrange(
            before[session_id].jar@.len() as int,
            after[session_id].jar@.len() as int,
        ) == absorbed,
{
    let jar = before[session_id].jar@;
    assert(after[session_id].jar@[jar.len() + i] == absorbed[i]);
    assert(after[session_id].jar@.subrange(jar.len() as int, after[session_id].jar@.len() as int)
        =~= absorbed);
}

} // verus!
