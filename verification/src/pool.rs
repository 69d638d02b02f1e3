//! The backend pool: the mailbox of each worker, found by the port of its backend.

use crate::config::ConfigView;
use std::collections::BTreeMap;
use vstd::prelude::*;

verus! {

/// The directory of the mailboxes. `M` is the sending end of a mailbox.
pub struct Pool<M> {
    boxes: BTreeMap<u16, M>,
}

impl<M> View for Pool<M> {
    type V = Map<u16, M>;

    closed spec fn view(&self) -> Map<u16, M> {
        self.boxes@
    }
}

impl<M> Pool<M> {
    /// Every port that the configuration uses has a mailbox.
    pub open spec fn covers(&self, cfg: ConfigView) -> bool {
        forall|port: u16| cfg.all_ports.contains(port) ==> #[trigger] self@.contains_key(port)
    }

    /// The pool without a mailbox.
    pub fn new() -> (r: Pool<M>)
        ensures
            r@ == Map::<u16, M>::empty(),
    {
        Pool { boxes: BTreeMap::new() }
    }

    /// Enters the mailbox of the worker of a port. An earlier one for that port is
    /// handed back.
    pub fn add(&mut self, port: u16, mailbox: M) -> (r: Option<M>)
        ensures
            final(self)@ == old(self)@.insert(port, mailbox),
            r == if old(self)@.contains_key(port) {
                Some(old(self)@[port])
            } else {
                None
            },
    {
        broadcast use {vstd::std_specs::btree::group_btree_axioms, vstd::laws_cmp::group_laws_cmp};

        self.boxes.insert(port, mailbox)
    }

    /// The mailbox of the worker of a port, if the pool has one.
    pub fn mailbox(&self, port: u16) -> (r: Option<&M>)
        ensures
            match r {
                Some(m) => self@.contains_key(port) && *m == self@[port],
                None => !self@.contains_key(port),
            },
    {
        broadcast use {vstd::std_specs::btree::group_btree_axioms, vstd::laws_cmp::group_laws_cmp};

        self.boxes.get(&port)
    }

    /// The number of mailboxes.
    pub fn len(&self) -> (n: usize)
        ensures
            n == self@.len(),
    {
        broadcast use {vstd::std_specs::btree::group_btree_axioms, vstd::laws_cmp::group_laws_cmp};

        self.boxes.len()
    }
}

/// A request that is routed always finds a mailbox in a pool that covers the
/// configuration: the port that a consistent configuration routes to is one of its
/// ports.
pub proof fn law_routed_port_has_mailbox<M>(pool: Pool<M>, cfg: ConfigView, host: Option<Seq<char>>)
    requires
        cfg.consistent(),
        pool.covers(cfg),
    ensures
        cfg.route(host) matches Some(port) ==> pool@.contains_key(port),
{
}

/// Entering a mailbox for each port of the configuration, in any order, makes a pool
/// that covers it; a mailbox that is in stays in.
pub proof fn law_pool_grows_to_cover<M>(pool: Map<u16, M>, port: u16, mailbox: M, other: u16)
    ensures
        pool.insert(port, mailbox).contains_key(port),
        pool.contains_key(other) ==> pool.insert(port, mailbox).contains_key(other),
{
}

} // verus!
