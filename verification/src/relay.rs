//! The relay broadcast hub: the single latest known snapshot, the registry of
//! connected sessions, and the fan-out decisions.  Loop suppression is
//! entirely the clients' responsibility, so an update is published to every
//! session, including the one that ingested it.

use vstd::prelude::*;

use crate::snapshot::{empty_view, ClipboardData, SnapView};

verus! {

/// Kind of an envelope exchanged over a session or the push endpoint.
#[derive(Clone, Copy, Debug, PartialEq, Eq, Structural)]
pub enum MessageKind {
    /// The relay fanning an accepted snapshot out to a session.
    ClipboardUpdate,
    /// A session reporting a new snapshot to the relay.
    ClipboardSet,
}

/// The relay's state: the current snapshot (the sole source of truth), the
/// registered session ids, and the next id to hand out.
pub struct RelayState {
    pub current_snapshot: Option<ClipboardData>,
    pub sessions: Vec<u64>,
    pub next_session_id: u64,
}

/// Successor state after an accepted update: the snapshot is replaced
/// wholesale, the registry untouched.
pub open spec fn spec_set_clipboard(st: RelayState, data: ClipboardData) -> RelayState {
    RelayState { current_snapshot: Some(data), ..st }
}

/// The welcome message a session connecting in state `st` receives: the
/// current snapshot when one is set, nothing otherwise.
pub open spec fn spec_welcome(st: RelayState) -> Option<ClipboardData> {
    st.current_snapshot
}

/// What the read endpoint answers in state `st`: the current snapshot, or
/// the empty default before any update was ever stored.
pub open spec fn spec_read_view(st: RelayState) -> SnapView {
    if st.current_snapshot is Some {
        st.current_snapshot->0@
    } else {
        empty_view()
    }
}

impl RelayState {
    /// Well-formedness: session ids are unique, all below the next id to
    /// assign, and a stored snapshot is well formed.
    pub open spec fn wf(&self) -> bool {
        &&& forall|i: int, j: int|
            0 <= i < j < self.sessions@.len() ==> self.sessions@[i] != self.sessions@[j]
        &&& forall|i: int| 0 <= i < self.sessions@.len() ==> self.sessions@[i] < self.next_session_id
        &&& (self.current_snapshot is Some ==> self.current_snapshot->0.wf())
    }

    /// Whether a session id is registered.
    pub open spec fn has_session(&self, id: u64) -> bool {
        self.sessions@.contains(id)
    }

    /// A fresh relay: no snapshot, no sessions.
    pub fn new() -> (r: RelayState)
        ensures
            r.wf(),
            r.current_snapshot is None,
            r.sessions@ == Seq::<u64>::empty(),
    {
        RelayState { current_snapshot: None, sessions: Vec::new(), next_session_id: 0 }
    }

    /// On connect: assigns a fresh session id, registers it, and returns the
    /// welcome message — exactly the current snapshot when one is set, so
    /// that a late joiner converges without waiting for the next change.
    pub fn register_session(&mut self) -> (r: (u64, Option<ClipboardData>))
        requires
            old(self).wf(),
            old(self).next_session_id < u64::MAX,
        ensures
            final(self).wf(),
            !old(self).has_session(r.0),
            final(self).sessions@ == old(self).sessions@.push(r.0),
            final(self).current_snapshot == old(self).current_snapshot,
            r.1 == spec_welcome(*old(self)),
    {
        let id = self.next_session_id;
        self.next_session_id = self.next_session_id + 1;
        proof {
            assert(!old(self).sessions@.contains(id)) by {
                if old(self).sessions@.contains(id) {
                    let k = choose|k: int|
                        0 <= k < old(self).sessions@.len() && old(self).sessions@[k] == id;
                    assert(old(self).sessions@[k] < id);
                }
            }
        }
        self.sessions.push(id);
        let welcome = match &self.current_snapshot {
            Some(d) => Some(d.clone()),
            None => None,
        };
        (id, welcome)
    }

    /// On disconnect or error: removes the session from the registry; every
    /// other session stays registered.
    pub fn unregister_session(&mut self, id: u64)
        requires
            old(self).wf(),
        ensures
            final(self).wf(),
            final(self).current_snapshot == old(self).current_snapshot,
            final(self).next_session_id == old(self).next_session_id,
            !final(self).has_session(id),
            forall|x: u64| x != id ==> final(self).has_session(x) == old(self).has_session(x),
            old(self).has_session(id) ==> final(self).sessions@.len() == old(
                self,
            ).sessions@.len() - 1,
            !old(self).has_session(id) ==> final(self).sessions@ == old(self).sessions@,
    {
        let n = self.sessions.len();
        let mut i: usize = 0;
        while i < n
            invariant
                old(self).wf(),
                n == self.sessions@.len(),
                i <= n,
                *self == *old(self),
                forall|j: int| 0 <= j < i ==> self.sessions@[j] != id,
            decreases n - i,
        {
            if self.sessions[i] == id {
                self.sessions.remove(i);
                proof {
                    let olds = old(self).sessions@;
                    let news = self.sessions@;
                    olds.remove_ensures(i as int);
                    assert(olds[i as int] == id);
                    assert(olds.contains(id));
                    assert(news.len() == olds.len() - 1);
                    assert forall|k: int| 0 <= k < news.len() implies news[k] == (if k < i {
                        olds[k]
                    } else {
                        olds[k + 1]
                    }) by {
                        assert(news[k] == olds.remove(i as int)[k]);
                    }
                    assert forall|x: u64| x != id implies (news.contains(x) == olds.contains(
                        x,
                    )) by {
                        if olds.contains(x) {
                            let k = choose|k: int| 0 <= k < olds.len() && olds[k] == x;
                            if k < i {
                                assert(news[k] == x);
                            } else {
                                assert(news[k - 1] == olds[k]);
                            }
                            assert(news.contains(x));
                        }
                        if news.contains(x) {
                            let k = choose|k: int| 0 <= k < news.len() && news[k] == x;
                            if k < i {
                                assert(olds[k] == x);
                            } else {
                                assert(olds[k + 1] == x);
                            }
                            assert(olds.contains(x));
                        }
                    }
                    assert forall|p: int, q: int| 0 <= p < q < news.len() implies news[p]
                        != news[q] by {
                        let p1: int = if p < i { p } else { p + 1 };
                        let q1: int = if q < i { q } else { q + 1 };
                        assert(news[p] == olds.remove(i as int)[p]);
                        assert(news[q] == olds.remove(i as int)[q]);
                        assert(news[p] == olds[p1]);
                        assert(news[q] == olds[q1]);
                        assert(olds[p1] != olds[q1]);
                    }
                    assert forall|p: int| 0 <= p < news.len() implies news[p] < old(
                        self,
                    ).next_session_id by {
                        let p1: int = if p < i { p } else { p + 1 };
                        assert(news[p] == olds.remove(i as int)[p]);
                        assert(news[p] == olds[p1]);
                        assert(olds[p1] < old(self).next_session_id);
                    }
                    assert(!news.contains(id)) by {
                        if news.contains(id) {
                            let k = choose|k: int| 0 <= k < news.len() && news[k] == id;
                            if k < i {
                                assert(olds[k] == id && olds[i as int] == id);
                            } else {
                                assert(olds[k + 1] == id && olds[i as int] == id);
                            }
                        }
                    }
                }
                return;
            }
            i += 1;
        }
        proof {
            assert(!old(self).sessions@.contains(id)) by {
                if old(self).sessions@.contains(id) {
                    let k = choose|k: int|
                        0 <= k < old(self).sessions@.len() && old(self).sessions@[k] == id;
                }
            }
        }
    }

    /// Ingress on either path — the push endpoint or a session-reported
    /// update: replaces the current snapshot wholesale and returns the ids of
    /// every connected session the update is published to, the ingesting one
    /// included.
    pub fn set_clipboard(&mut self, data: ClipboardData) -> (recipients: Vec<u64>)
        requires
            old(self).wf(),
            data.wf(),
        ensures
            final(self).wf(),
            *final(self) == spec_set_clipboard(*old(self), data),
            recipients@ == final(self).sessions@,
    {
        self.current_snapshot = Some(data);
        let n = self.sessions.len();
        let mut recipients: Vec<u64> = Vec::new();
        let mut i: usize = 0;
        while i < n
            invariant
                n == self.sessions@.len(),
                i <= n,
                self.sessions@ == old(self).sessions@,
                self.next_session_id == old(self).next_session_id,
                self.current_snapshot == Some(data),
                recipients@ == self.sessions@.subrange(0, i as int),
            decreases n - i,
        {
            recipients.push(self.sessions[i]);
            i += 1;
            proof {
                assert(self.sessions@.subrange(0, i as int) =~= self.sessions@.subrange(
                    0,
                    i as int - 1,
                ).push(self.sessions@[i as int - 1]));
            }
        }
        proof {
            assert(self.sessions@.subrange(0, n as int) =~= self.sessions@);
        }
        recipients
    }

    /// What the read endpoint returns: the current snapshot, or the empty
    /// default if none has ever been set.
    pub fn get_clipboard(&self) -> (r: ClipboardData)
        requires
            self.wf(),
        ensures
            r.wf(),
            r@ == spec_read_view(*self),
            self.current_snapshot is Some ==> r == self.current_snapshot->0,
    {
        match &self.current_snapshot {
            Some(d) => d.clone(),
            None => ClipboardData::default(),
        }
    }

    /// An inbound session message: a `ClipboardSet` replaces the snapshot and
    /// names the sessions to fan it out to; any other kind leaves the relay
    /// unchanged.
    pub fn handle_session_message(&mut self, kind: MessageKind, data: ClipboardData) -> (r: Option<
        Vec<u64>,
    >)
        requires
            old(self).wf(),
            data.wf(),
        ensures
            final(self).wf(),
            kind == MessageKind::ClipboardSet ==> *final(self) == spec_set_clipboard(
                *old(self),
                data,
            ) && r is Some && r->0@ == final(self).sessions@,
            kind != MessageKind::ClipboardSet ==> *final(self) == *old(self) && r is None,
    {
        if kind == MessageKind::ClipboardSet {
            Some(self.set_clipboard(data))
        } else {
            None
        }
    }
}

/// Law: storing a snapshot and then reading the endpoint returns it
/// unchanged.
pub proof fn lemma_store_then_read(st: RelayState, data: ClipboardData)
    ensures
        spec_read_view(spec_set_clipboard(st, data)) == data@,
{
}

/// Law: a session connecting after a snapshot has been stored is welcomed
/// with exactly that snapshot.
pub proof fn lemma_late_joiner_welcome(st: RelayState, data: ClipboardData)
    ensures
        spec_welcome(spec_set_clipboard(st, data)) == Some(data),
{
}

} // verus!
