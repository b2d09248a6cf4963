//! The transport registry: explicitly created, long-lived clients under
//! fresh UUID names. No time-to-live; transports live until dropped. The
//! client itself is held outside this crate under the numeric client id the
//! registry allocates.

use vstd::prelude::*;
use crate::errors::{BridgeError, ErrorKind};
use crate::options::BuildOutcome;
use crate::sessions::uuid_v4_string;
use crate::table::KeyedTable;

verus! {

/// The registry of named transports: transport id to client id.
pub struct TransportRegistry {
    table: KeyedTable<String, u64>,
    next_client: u64,
}

impl TransportRegistry {
    pub closed spec fn wf(&self) -> bool {
        self.table.wf()
    }

    pub closed spec fn view(&self) -> Map<Seq<char>, u64> {
        self.table@
    }

    /// The client id the next created transport receives.
    pub closed spec fn spec_next_client(&self) -> u64 {
        self.next_client
    }

    pub fn new() -> (r: Self)
        ensures
            r.wf(),
            r@ == Map::<Seq<char>, u64>::empty(),
            r.spec_next_client() == 1u64,
    {
        TransportRegistry { table: KeyedTable::new(), next_client: 1 }
    }

    /// Register a newly built client under a fresh UUID name. A failed
    /// build registers nothing and surfaces a `ClientBuild` error.
    pub fn create_transport(&mut self, built: BuildOutcome) -> (r: Result<String, BridgeError>)
        requires
            old(self).wf(),
            old(self).spec_next_client() < u64::MAX,
        ensures
            final(self).wf(),
            built matches BuildOutcome::BuildFailed(m) ==> (r matches Err(e) && e.kind
                == ErrorKind::ClientBuild && e.detail@ == m@) && final(self)@ == old(self)@
                && final(self).spec_next_client() == old(self).spec_next_client(),
            built is Built ==> (r matches Ok(id) && id@.len() == 36 && final(self)@ == old(
                self,
            )@.insert(id@, old(self).spec_next_client()) && final(self).spec_next_client() == old(
                self,
            ).spec_next_client() + 1),
    {
        match built {
            BuildOutcome::Built => {
                let id = uuid_v4_string();
                let cid = self.next_client;
                self.next_client = self.next_client + 1;
                let id_copy = id.clone();
                self.table.insert(id, cid);
                Ok(id_copy)
            },
            BuildOutcome::BuildFailed(m) => Err(BridgeError::new(ErrorKind::ClientBuild, m)),
        }
    }

    /// Look a transport up by its id; an unknown id is a
    /// `TransportNotFound` error.
    pub fn get_transport(&self, transport_id: &String) -> (r: Result<u64, BridgeError>)
        requires
            self.wf(),
        ensures
            r is Ok <==> self@.contains_key(transport_id@),
            r matches Ok(cid) ==> cid == self@[transport_id@],
            r matches Err(e) ==> e.kind == ErrorKind::TransportNotFound,
    {
        match self.table.get(transport_id) {
            Some(cid) => Ok(*cid),
            None => Err(
                BridgeError::new(
                    ErrorKind::TransportNotFound,
                    String::from_str("transport not found"),
                ),
            ),
        }
    }

    /// Drop a transport from the registry. Clients already resolved from it
    /// stay usable by their holders; unknown ids are a no-op.
    pub fn drop_transport(&mut self, transport_id: &String)
        requires
            old(self).wf(),
        ensures
            final(self).wf(),
            final(self)@ == old(self)@.remove(transport_id@),
            final(self).spec_next_client() == old(self).spec_next_client(),
    {
        self.table.remove(transport_id);
    }
}

/// Register a newly built client as a named transport.
pub fn create_managed_transport(reg: &mut TransportRegistry, built: BuildOutcome) -> (r: Result<
    String,
    BridgeError,
>)
    requires
        old(reg).wf(),
        old(reg).spec_next_client() < u64::MAX,
    ensures
        final(reg).wf(),
        built matches BuildOutcome::BuildFailed(m) ==> (r matches Err(e) && e.kind
            == ErrorKind::ClientBuild && e.detail@ == m@) && final(reg)@ == old(reg)@,
        built is Built ==> (r matches Ok(id) && id@.len() == 36 && final(reg)@ == old(
            reg,
        )@.insert(id@, old(reg).spec_next_client())),
{
    reg.create_transport(built)
}

/// Drop a named transport; unknown ids are a no-op.
pub fn drop_managed_transport(reg: &mut TransportRegistry, transport_id: &String)
    requires
        old(reg).wf(),
    ensures
        final(reg).wf(),
        final(reg)@ == old(reg)@.remove(transport_id@),
{
    reg.drop_transport(transport_id);
}

} // verus!
