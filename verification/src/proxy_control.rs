//! The registry of live client connections: each gets a fresh id and a
//! cancel signal that a controller can fire.
use std::collections::HashMap;
use std::sync::Arc;
use vstd::prelude::*;
use vstd::std_specs::iter::IteratorSpec;

use crate::address::SocketAddr;
use crate::tokio_handles::{new_notify, share};
use tokio::net::TcpStream;
use tokio::sync::oneshot;
use tokio::sync::{Mutex, Notify};

verus! {

broadcast use vstd::std_specs::hash::group_hash_axioms;

/// A registered client connection.
#[derive(Clone)]
#[verifier::reject_recursive_types(S)]
pub struct Connection<S = TcpStream> {
    pub id: usize,
    pub addr: SocketAddr,
    pub stream: Arc<Mutex<S>>,
    pub cancel_signal: Arc<Notify>,
}

/// The live connections of the proxy, and its run state.
#[verifier::reject_recursive_types(S)]
pub struct ProxyControl<S = TcpStream> {
    connections: HashMap<usize, Connection<S>>,
    next_id: usize,
    pub state: bool,
    pub stop_signal_sender: Option<oneshot::Sender<()>>,
}

impl<S> ProxyControl<S> {
    /// The registered connections, by id.
    pub closed spec fn connections(&self) -> Map<usize, Connection<S>> {
        self.connections@
    }

    /// The id that the next registered connection gets.
    pub closed spec fn next_id(&self) -> usize {
        self.next_id
    }

    /// Whether the proxy is marked running (the public `state` field).
    pub closed spec fn running(&self) -> bool {
        self.state
    }

    /// The stop signal of the running proxy (the public
    /// `stop_signal_sender` field).
    pub closed spec fn stop_sender(&self) -> Option<oneshot::Sender<()>> {
        self.stop_signal_sender
    }

    /// Every connection is registered under its own id, and every id in use
    /// is below the next one to hand out.
    pub closed spec fn wf(&self) -> bool {
        forall|id: usize| #[trigger]
            self.connections@.contains_key(id) ==> id < self.next_id && self.connections@[id].id
                == id
    }

    /// An empty registry, stopped, whose first id is 0.
    pub fn new() -> (r: ProxyControl<S>)
        ensures
            r.wf(),
            r.connections() == Map::<usize, Connection<S>>::empty(),
            r.next_id() == 0,
            !r.running(),
            r.stop_sender() is None,
    {
        ProxyControl {
            connections: HashMap::new(),
            next_id: 0,
            state: false,
            stop_signal_sender: None,
        }
    }

    /// Marks the proxy stopped, ready to start again, and gives back the
    /// cancel signal of every registered connection, for the caller to
    /// fire. The connections stay registered: each is removed when its
    /// session ends.
    pub fn reset(&mut self) -> (signals: Vec<(usize, Arc<Notify>)>)
        requires
            old(self).wf(),
        ensures
            final(self).wf(),
            final(self).connections() == old(self).connections(),
            final(self).next_id() == old(self).next_id(),
            !final(self).running(),
            final(self).stop_sender() is None,
            are_all_signals(old(self).connections(), signals@),
    {
        let signals = self.cancel_all_connections();
        self.state = false;
        self.stop_signal_sender = None;
        signals
    }

    /// Registers a connection from `addr` under a fresh id and gives back
    /// that id with the connection's new cancel signal.
    pub fn add_connection(&mut self, addr: SocketAddr, stream: Arc<Mutex<S>>) -> (r: (
        usize,
        Arc<Notify>,
    ))
        requires
            old(self).wf(),
            old(self).next_id() < usize::MAX,
        ensures
            final(self).wf(),
            r.0 == old(self).next_id(),
            !old(self).connections().contains_key(r.0),
            final(self).next_id() == old(self).next_id() + 1,
            final(self).connections() == old(self).connections().insert(
                r.0,
                Connection { id: r.0, addr, stream, cancel_signal: r.1 },
            ),
            final(self).running() == old(self).running(),
            final(self).stop_sender() == old(self).stop_sender(),
    {
        let id = self.next_id;
        self.next_id = self.next_id + 1;
        let cancel_signal = Arc::new(new_notify());
        let connection = Connection { id, stream, addr, cancel_signal: share(&cancel_signal) };
        self.connections.insert(id, connection);
        (id, cancel_signal)
    }

    /// Whether every id has been handed out, so that no connection can be
    /// added any more.
    pub fn ids_exhausted(&self) -> (r: bool)
        ensures
            r == (self.next_id() == usize::MAX),
    {
        self.next_id == usize::MAX
    }

    /// The cancel signal of connection `id`, for the caller to fire;
    /// nothing when it is not registered.
    pub fn cancel_connection(&self, id: usize) -> (signal: Option<Arc<Notify>>)
        ensures
            match signal {
                Some(sig) => self.connections().contains_key(id) && sig == self.connections()[
                    id
                ].cancel_signal,
                None => !self.connections().contains_key(id),
            },
    {
        match self.connections.get(&id) {
            Some(connection) => Some(share(&connection.cancel_signal)),
            None => None,
        }
    }

    /// Takes connection `id` out of the registry and hands it back, so that
    /// its stream can be shut down; nothing when it is not registered.
    pub fn remove_connection(&mut self, id: usize) -> (r: Option<Connection<S>>)
        requires
            old(self).wf(),
        ensures
            final(self).wf(),
            final(self).connections() == old(self).connections().remove(id),
            final(self).next_id() == old(self).next_id(),
            final(self).running() == old(self).running(),
            final(self).stop_sender() == old(self).stop_sender(),
            match r {
                Some(c) => old(self).connections().contains_key(id) && c == old(
                    self,
                ).connections()[id],
                None => !old(self).connections().contains_key(id),
            },
    {
        self.connections.remove(&id)
    }

    /// The cancel signal of every registered connection, each once with
    /// its id, in the order the registry walked them, for the caller to
    /// fire. The registry is left as it was.
    pub fn cancel_all_connections(&mut self) -> (signals: Vec<(usize, Arc<Notify>)>)
        requires
            old(self).wf(),
        ensures
            *final(self) == *old(self),
            are_all_signals(old(self).connections(), signals@),
    {
        let mut ids: Vec<usize> = Vec::new();
        let ghost keys = vstd::std_specs::hash::spec_keys_iter(&self.connections).remaining();
        for id in it: self.connections.keys()
            invariant
                it.seq() == keys,
                ids@.len() == it.index(),
                forall|j: int| 0 <= j < it.index() ==> ids@[j] == *keys[j],
        {
            ids.push(*id);
        }
        assert(ids@ =~= keys.unref());
        let ghost m = self.connections@;
        let mut signals: Vec<(usize, Arc<Notify>)> = Vec::new();
        let mut i: usize = 0;
        while i < ids.len()
            invariant
                0 <= i <= ids@.len(),
                *self == *old(self),
                m == self.connections@,
                ids@.to_set() == m.dom(),
                signals@.len() == i,
                forall|j: int|
                    0 <= j < i ==> #[trigger] signals@[j].0 == ids@[j] && m.contains_key(
                        ids@[j],
                    ) && signals@[j].1 == m[ids@[j]].cancel_signal,
            decreases ids@.len() - i,
        {
            let id = ids[i];
            assert(ids@.to_set().contains(id)) by {
                assert(ids@.contains(id));
            }
            match self.cancel_connection(id) {
                Some(signal) => {
                    signals.push((id, signal));
                },
                None => {},
            }
            i = i + 1;
        }
        assert(ids_of(signals@) =~= ids@);
        signals
    }
}

/// The ids of a list of (id, signal) pairs.
pub open spec fn ids_of(r: Seq<(usize, Arc<Notify>)>) -> Seq<usize> {
    r.map_values(|p: (usize, Arc<Notify>)| p.0)
}

/// `r` lists every connection of `m` exactly once, each with its own cancel
/// signal.
pub open spec fn are_all_signals<S>(m: Map<usize, Connection<S>>, r: Seq<(usize, Arc<Notify>)>) -> bool {
    &&& ids_of(r).to_set() == m.dom()
    &&& ids_of(r).no_duplicates()
    &&& forall|i: int|
        0 <= i < r.len() ==> m.contains_key(#[trigger] r[i].0) && r[i].1 == m[r[i].0].cancel_signal
}

/// Every registered connection sits under its own id, and that id is below
/// the next one to hand out: so a new connection never takes an id in use.
pub proof fn registered_ids_are_below_next<S>(p: &ProxyControl<S>, id: usize)
    requires
        p.wf(),
    ensures
        p.connections().contains_key(id) ==> id < p.next_id() && p.connections()[id].id == id,
        !p.connections().contains_key(p.next_id()),
{
}

/// Removing the connection that was just registered gives back the registry
/// as it was before.
pub proof fn remove_undoes_add<S>(m: Map<usize, Connection<S>>, id: usize, c: Connection<S>)
    requires
        !m.contains_key(id),
    ensures
        m.insert(id, c).remove(id) == m,
{
    assert(m.insert(id, c).remove(id) =~= m);
}

} // verus!
