//! Cancellation bookkeeping: a single-shot token per request id. The
//! caller races the request's send against its token; this module decides
//! registration, removal and how the raced outcome settles.

use vstd::prelude::*;
use crate::errors::{BridgeError, ErrorKind};
use crate::pipeline::Response;
use crate::table::IdTable;

verus! {

/// `tokio_util::sync::CancellationToken`, declared so values of it can be
/// held and passed around; this crate never looks inside one.
#[verifier::external_type_specification]
#[verifier::external_body]
pub struct ExCancellationToken(tokio_util::sync::CancellationToken);

/// Relies on `tokio_util::sync::CancellationToken::new`: a fresh,
/// uncancelled token.
#[verifier::external_body]
fn token_new() -> tokio_util::sync::CancellationToken {
    tokio_util::sync::CancellationToken::new()
}

/// Relies on `CancellationToken::clone`: the clone observes and triggers
/// the same cancellation state as the original.
#[verifier::external_body]
fn token_clone(t: &tokio_util::sync::CancellationToken) -> tokio_util::sync::CancellationToken {
    t.clone()
}

/// Relies on `CancellationToken::cancel`: cancels the token and all its
/// clones, waking whoever awaits them.
#[verifier::external_body]
fn token_cancel(t: &tokio_util::sync::CancellationToken) {
    t.cancel()
}

/// The registry of in-flight cancellable requests, keyed by the
/// host-supplied request id.
pub struct CancellationRegistry {
    table: IdTable<tokio_util::sync::CancellationToken>,
}

impl CancellationRegistry {
    pub closed spec fn wf(&self) -> bool {
        self.table.wf()
    }

    /// The ids with a registered in-flight request.
    pub closed spec fn ids(&self) -> Set<u64> {
        self.table@.dom()
    }

    pub fn new() -> (r: Self)
        ensures
            r.wf(),
            r.ids() == Set::<u64>::empty(),
    {
        let r = CancellationRegistry { table: IdTable::new() };
        proof {
            assert(r.ids() =~= Set::<u64>::empty());
        }
        r
    }

    /// Register a request id, replacing any previous token under it, and
    /// hand back the token to race the send against.
    pub fn register(&mut self, request_id: u64) -> (t: tokio_util::sync::CancellationToken)
        requires
            old(self).wf(),
        ensures
            final(self).wf(),
            final(self).ids() == old(self).ids().insert(request_id),
    {
        let t = token_new();
        let stored = token_clone(&t);
        self.table.insert(request_id, stored);
        proof {
            assert(self.ids() =~= old(self).ids().insert(request_id));
        }
        t
    }

    /// Cancel the request registered under an id, if any: the token is
    /// removed and cancelled in one step, so a second cancel for the same
    /// id finds nothing. Returns whether a request was there to cancel.
    pub fn cancel_request(&mut self, request_id: u64) -> (r: bool)
        requires
            old(self).wf(),
        ensures
            final(self).wf(),
            r == old(self).ids().contains(request_id),
            final(self).ids() == old(self).ids().remove(request_id),
    {
        let taken = self.table.take(request_id);
        proof {
            assert(self.ids() =~= old(self).ids().remove(request_id));
        }
        match taken {
            Some(t) => {
                token_cancel(&t);
                true
            },
            None => false,
        }
    }

    /// Forget a request that settled on its own; its token can no longer
    /// abort anything.
    pub fn complete(&mut self, request_id: u64)
        requires
            old(self).wf(),
        ensures
            final(self).wf(),
            final(self).ids() == old(self).ids().remove(request_id),
    {
        self.table.remove(request_id);
        proof {
            assert(self.ids() =~= old(self).ids().remove(request_id));
        }
    }
}

/// How the race between a request's send and its cancellation token came
/// out: the cancellation won, or the request finished with its result.
pub enum RaceOutcome {
    Cancelled,
    Finished(Result<Response, BridgeError>),
}

/// Settle a raced request. Once a cancellation has returned, the request
/// settles in exactly one of two ways: it had already finished, and its
/// own result stands, or the cancellation won and it rejects with
/// `RequestAborted` — never anything else.
pub fn settle_raced(outcome: RaceOutcome) -> (r: Result<Response, BridgeError>)
    ensures
        outcome is Cancelled ==> (r matches Err(e) && e.kind == ErrorKind::RequestAborted),
        outcome matches RaceOutcome::Finished(res) ==> r == res,
{
    match outcome {
        RaceOutcome::Cancelled => Err(
            BridgeError::new(ErrorKind::RequestAborted, String::from_str("request aborted")),
        ),
        RaceOutcome::Finished(res) => res,
    }
}

/// A cancellation is single-shot: once an id's token has been taken, a
/// second cancel for the same id finds no registered request.
pub proof fn lemma_cancel_single_shot(ids: Set<u64>, request_id: u64)
    ensures
        !ids.remove(request_id).contains(request_id),
{
}

} // verus!
