//! The ephemeral client cache: one-off clients cached under the structural
//! configuration key, with idle time-to-live and no cookie persistence.
//! The client itself is held outside this crate under the numeric client
//! id the cache allocates; cache entries are never reachable from any
//! session lookup, so no cookies can leak between ephemeral requests.

use vstd::prelude::*;
use crate::errors::{BridgeError, ErrorKind};
use crate::options::{BuildOutcome, SessionConfig};
use crate::table::{fresh_at, KeyedTable, Stamped, ViewKey};

verus! {

/// Ephemeral clients idle longer than this many milliseconds may be
/// evicted.
pub const EPHEMERAL_TTL_MS: u64 = 300000;

impl ViewKey for SessionConfig {
    fn key_eq(&self, other: &Self) -> (r: bool)
        ensures
            r == (self@ == other@),
    {
        let proxies_eq = match (&self.proxy, &other.proxy) {
            (Some(a), Some(b)) => *a == *b,
            (None, None) => true,
            _ => false,
        };
        proof {
            assert(proxies_eq == (self.proxy.deep_view() == other.proxy.deep_view()));
        }
        let r = self.emulation == other.emulation && self.emulation_os == other.emulation_os
            && proxies_eq && self.insecure == other.insecure;
        proof {
            if r {
                assert(self@ == other@);
            }
            if self@ == other@ {
                assert(self.emulation@ == other.emulation@);
                assert(self.emulation_os@ == other.emulation_os@);
                assert(self.proxy.deep_view() == other.proxy.deep_view());
                assert(self.insecure == other.insecure);
            }
        }
        r
    }

    fn key_dup(&self) -> (r: Self)
        ensures
            r@ == self@,
    {
        self.duplicate()
    }
}

/// One cached ephemeral client: its id and when it was last handed out.
#[derive(Debug)]
pub struct EphemeralEntry {
    pub client: u64,
    pub last_used_ms: u64,
}

impl Stamped for EphemeralEntry {
    open spec fn spec_stamp(&self) -> u64 {
        self.last_used_ms
    }

    fn stamp(&self) -> (r: u64)
        ensures
            r == self.spec_stamp(),
    {
        self.last_used_ms
    }
}

/// Whether the entry cached under `c` survives an eviction pass at `now`.
pub open spec fn survives_eviction(
    m: Map<<SessionConfig as View>::V, EphemeralEntry>,
    c: <SessionConfig as View>::V,
    now: u64,
) -> bool {
    m.contains_key(c) && fresh_at(m[c].last_used_ms, now, EPHEMERAL_TTL_MS)
}

/// The cache of ephemeral clients, keyed structurally by configuration.
pub struct EphemeralClientCache {
    table: KeyedTable<SessionConfig, EphemeralEntry>,
    next_client: u64,
}

impl EphemeralClientCache {
    pub closed spec fn wf(&self) -> bool {
        self.table.wf()
    }

    pub closed spec fn view(&self) -> Map<<SessionConfig as View>::V, EphemeralEntry> {
        self.table@
    }

    /// The client id the next cache miss allocates.
    pub closed spec fn spec_next_client(&self) -> u64 {
        self.next_client
    }

    pub fn new() -> (r: Self)
        ensures
            r.wf(),
            r@ == Map::<<SessionConfig as View>::V, EphemeralEntry>::empty(),
            r.spec_next_client() == 1u64,
    {
        EphemeralClientCache { table: KeyedTable::new(), next_client: 1 }
    }

    /// Get or build the client for a configuration. A cache hit returns
    /// the stored client and bumps its idle stamp; a miss consults the
    /// build outcome: success caches a fresh client id, failure caches
    /// nothing and surfaces a `ClientBuild` error.
    pub fn client_for(&mut self, config: &SessionConfig, built: &BuildOutcome, now_ms: u64) -> (r:
        Result<u64, BridgeError>)
        requires
            old(self).wf(),
            old(self).spec_next_client() < u64::MAX,
        ensures
            final(self).wf(),
            old(self)@.contains_key(config@) ==> (r matches Ok(id)
                && id == old(self)@[config@].client
                && final(self)@.contains_key(config@)
                && final(self)@[config@].client == id
                && final(self)@[config@].last_used_ms == now_ms
                && final(self).spec_next_client() == old(self).spec_next_client()),
            !old(self)@.contains_key(config@) && built is Built ==> (r matches Ok(id)
                && id == old(self).spec_next_client()
                && final(self)@ == old(self)@.insert(
                    config@,
                    (EphemeralEntry { client: id, last_used_ms: now_ms }),
                )
                && final(self).spec_next_client() == old(self).spec_next_client() + 1),
            built matches BuildOutcome::BuildFailed(m) ==> (!old(self)@.contains_key(config@)
                ==> ((r matches Err(e) && e.kind == ErrorKind::ClientBuild && e.detail@ == m@)
                && final(self)@ == old(self)@
                && final(self).spec_next_client() == old(self).spec_next_client())),
            forall|k: <SessionConfig as View>::V|
                k != config@ ==> (#[trigger] final(self)@.contains_key(k)
                    <==> old(self)@.contains_key(k)),
            forall|k: <SessionConfig as View>::V|
                k != config@ && old(self)@.contains_key(k)
                    ==> #[trigger] final(self)@[k] == old(self)@[k],
    {
        match self.table.take(config) {
            Some(entry) => {
                let id = entry.client;
                self.table.insert(
                    config.duplicate(),
                    EphemeralEntry { client: id, last_used_ms: now_ms },
                );
                Ok(id)
            },
            None => {
                match built {
                    BuildOutcome::Built => {
                        let id = self.next_client;
                        self.next_client = self.next_client + 1;
                        self.table.insert(
                            config.duplicate(),
                            EphemeralEntry { client: id, last_used_ms: now_ms },
                        );
                        Ok(id)
                    },
                    BuildOutcome::BuildFailed(m) => {
                        proof {
                            assert(self@ =~= old(self)@.remove(config@));
                            assert(self@ =~= old(self)@);
                        }
                        Err(BridgeError::new(ErrorKind::ClientBuild, m.clone()))
                    },
                }
            },
        }
    }

    /// Evict entries idle past the time-to-live; fresher ones survive
    /// untouched.
    pub fn evict_idle(&mut self, now_ms: u64)
        requires
            old(self).wf(),
        ensures
            final(self).wf(),
            forall|k: <SessionConfig as View>::V|
                #[trigger] final(self)@.contains_key(k) <==> survives_eviction(old(self)@, k, now_ms),
            forall|k: <SessionConfig as View>::V|
                #[trigger] final(self)@.contains_key(k) ==> final(self)@[k] == old(self)@[k],
    {
        self.table.evict_idle(now_ms, EPHEMERAL_TTL_MS);
    }
}

/// Two `client_for` calls with the same configuration within the idle
/// time-to-live return the same client: an entry handed out at `t1`
/// survives any eviction pass at or before `t1 + EPHEMERAL_TTL_MS`, and a
/// later hit returns the stored client id unchanged.
pub proof fn lemma_ephemeral_client_reused(
    m: Map<<SessionConfig as View>::V, EphemeralEntry>,
    c: <SessionConfig as View>::V,
    t1: u64,
    t2: u64,
)
    requires
        m.contains_key(c),
        m[c].last_used_ms == t1,
        fresh_at(t1, t2, EPHEMERAL_TTL_MS),
    ensures
        survives_eviction(m, c, t2),
{
}

} // verus!
