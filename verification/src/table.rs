//! The session table: the set of live sessions, keyed by session identifier,
//! each with its peer address.
//!
//! Entries live in an arena of slots so that a session keeps a stable index
//! for its whole life; the event loop associates each index with the opaque
//! transport session it owns. A lookup tries the packet's own identifier
//! first and the deterministically derived identifier second. Entries leave
//! the table only through garbage collection, once the transport session
//! behind them reports closed.

use vstd::prelude::*;
use crate::codec::bytes_eq;
use crate::session::{spec_activate, spec_demux, Action, ProtoKind, Session, TransportEvent};
use crate::token::PeerAddr;

verus! {

/// One live session: its table key, its peer, and its sub-protocol state.
pub struct TableEntry {
    pub id: Vec<u8>,
    pub peer: PeerAddr,
    pub session: Session,
}

/// True when the slot holds an entry keyed by `id`.
pub open spec fn slot_has_id(slot: Option<TableEntry>, id: Seq<u8>) -> bool {
    match slot {
        Some(e) => e.id@ == id,
        None => false,
    }
}

/// True when some slot holds an entry keyed by `id`.
pub open spec fn table_contains(slots: Seq<Option<TableEntry>>, id: Seq<u8>) -> bool {
    exists|i: int| 0 <= i < slots.len() && slot_has_id(slots[i], id)
}

/// Occupied slots carry pairwise distinct identifiers and well-formed
/// sessions.
pub open spec fn table_wf(slots: Seq<Option<TableEntry>>) -> bool {
    &&& forall|i: int, j: int|
        0 <= i < j < slots.len() && slots[i] is Some && slots[j] is Some
            ==> slots[i].unwrap().id@ != slots[j].unwrap().id@
    &&& forall|i: int| 0 <= i < slots.len() && slots[i] is Some ==> slots[i].unwrap().session.wf()
}

/// The sweep: every slot whose transport reported closed is emptied; every
/// other slot is untouched.
pub open spec fn spec_gc(slots: Seq<Option<TableEntry>>, closed: Seq<bool>) -> Seq<
    Option<TableEntry>,
>
    recommends
        closed.len() == slots.len(),
{
    Seq::new(slots.len(), |i: int| if closed[i] { None } else { slots[i] })
}

/// Adding a fresh identifier to a well-formed table, into a free slot or one
/// past the end, keeps it well formed.
proof fn lemma_insert_keeps_wf(
    pre: Seq<Option<TableEntry>>,
    post: Seq<Option<TableEntry>>,
    i: int,
    e: TableEntry,
)
    requires
        table_wf(pre),
        !table_contains(pre, e.id@),
        e.session.wf(),
        0 <= i <= pre.len(),
        post.len() == if i < pre.len() {
            pre.len() as int
        } else {
            pre.len() + 1 as int
        },
        post[i] == Some(e),
        forall|j: int| 0 <= j < pre.len() && j != i ==> post[j] == pre[j],
    ensures
        table_wf(post),
{
    assert forall|x: int, y: int|
        0 <= x < y < post.len() && post[x] is Some && post[y] is Some implies post[x].unwrap().id@
        != post[y].unwrap().id@ by {
        if x != i && y != i {
            assert(post[x] == pre[x] && post[y] == pre[y]);
        } else if x == i {
            assert(post[y] == pre[y]);
            assert(!slot_has_id(pre[y], e.id@));
        } else {
            assert(post[x] == pre[x]);
            assert(!slot_has_id(pre[x], e.id@));
        }
    }
}

/// The set of live sessions, keyed by identifier.
pub struct SessionTable {
    pub slots: Vec<Option<TableEntry>>,
}

impl SessionTable {
    /// Identifiers are unique and sessions well formed.
    pub open spec fn wf(&self) -> bool {
        table_wf(self.slots@)
    }

    /// An empty table.
    pub fn new() -> (t: SessionTable)
        ensures
            t.wf(),
            t.slots@.len() == 0,
    {
        SessionTable { slots: Vec::new() }
    }

    /// Number of slots (live and free) in the arena.
    pub fn slot_count(&self) -> (n: usize)
        ensures
            n == self.slots@.len(),
    {
        self.slots.len()
    }

    /// True when slot `i` holds a live session.
    pub fn is_occupied(&self, i: usize) -> (r: bool)
        requires
            i < self.slots@.len(),
        ensures
            r == (self.slots@[i as int] is Some),
    {
        match &self.slots[i] {
            Some(_) => true,
            None => false,
        }
    }

    /// The peer address of the session in slot `i`.
    pub fn peer_of(&self, i: usize) -> (p: PeerAddr)
        requires
            i < self.slots@.len(),
            (self.slots@[i as int] is Some),
        ensures
            p == self.slots@[i as int].unwrap().peer,
    {
        match &self.slots[i] {
            Some(e) => e.peer,
            None => {
                proof {
                    assert(false);
                }
                PeerAddr::V4([0, 0, 0, 0])
            },
        }
    }

    /// The slot keyed by exactly `id`, when one exists.
    fn find_id(&self, id: &[u8]) -> (r: Option<usize>)
        ensures
            match r {
                Some(i) => i < self.slots@.len() && slot_has_id(self.slots@[i as int], id@),
                None => !table_contains(self.slots@, id@),
            },
    {
        let mut i: usize = 0;
        while i < self.slots.len()
            invariant
                0 <= i <= self.slots@.len(),
                forall|j: int| 0 <= j < i ==> !slot_has_id(self.slots@[j], id@),
            decreases self.slots@.len() - i,
        {
            match &self.slots[i] {
                Some(e) => {
                    if bytes_eq(e.id.as_slice(), id) {
                        return Some(i);
                    }
                },
                None => {},
            }
            i = i + 1;
        }
        None
    }

    /// Looks a packet up: by its own identifier first, by the derived
    /// identifier second; nothing when both are unknown.
    pub fn find(&self, raw: &[u8], derived: &[u8]) -> (r: Option<usize>)
        ensures
            r is Some <==> table_contains(self.slots@, raw@) || table_contains(
                self.slots@,
                derived@,
            ),
            r matches Some(i) ==> i < self.slots@.len() && (self.slots@[i as int] is Some),
            r matches Some(i) ==> (if table_contains(self.slots@, raw@) {
                slot_has_id(self.slots@[i as int], raw@)
            } else {
                slot_has_id(self.slots@[i as int], derived@)
            }),
    {
        match self.find_id(raw) {
            Some(i) => {
                proof {
                    assert(table_contains(self.slots@, raw@));
                }
                Some(i)
            },
            None => {
                match self.find_id(derived) {
                    Some(i) => {
                        proof {
                            assert(table_contains(self.slots@, derived@));
                        }
                        Some(i)
                    },
                    None => None,
                }
            },
        }
    }

    /// Admits a session: stores it under `id` in the first free slot (or a
    /// new one) and returns that slot's index, which stays stable for the
    /// session's life.
    pub fn insert(&mut self, id: Vec<u8>, peer: PeerAddr, session: Session) -> (idx: usize)
        requires
            old(self).wf(),
            !table_contains(old(self).slots@, id@),
            session.wf(),
        ensures
            final(self).wf(),
            old(self).slots@.len() <= final(self).slots@.len() <= old(self).slots@.len() + 1,
            idx < final(self).slots@.len(),
            idx < old(self).slots@.len() ==> old(self).slots@[idx as int] is None
                && final(self).slots@.len() == old(self).slots@.len(),
            final(self).slots@[idx as int] matches Some(e) && e.id == id && e.peer == peer
                && e.session == session,
            forall|j: int|
                0 <= j < old(self).slots@.len() && j != idx ==> final(self).slots@[j] == old(
                    self,
                ).slots@[j],
            table_contains(final(self).slots@, id@),
    {
        let mut i: usize = 0;
        while i < self.slots.len()
            invariant
                0 <= i <= self.slots@.len(),
                forall|j: int| 0 <= j < i ==> self.slots@[j] is Some,
                self == old(self),
                table_wf(old(self).slots@),
                !table_contains(old(self).slots@, id@),
                session.wf(),
            decreases self.slots@.len() - i,
        {
            let free = match &self.slots[i] {
                Some(_) => false,
                None => true,
            };
            if free {
                let entry = TableEntry { id, peer, session };
                let ghost ge = entry;
                let ghost pre = self.slots@;
                self.slots.remove(i);
                self.slots.insert(i, Some(entry));
                proof {
                    assert(self.slots@ =~= pre.update(i as int, Some(ge)));
                    lemma_insert_keeps_wf(pre, self.slots@, i as int, ge);
                }
                return i;
            }
            i = i + 1;
        }
        let entry = TableEntry { id, peer, session };
        let ghost ge = entry;
        let ghost pre = self.slots@;
        self.slots.push(Some(entry));
        proof {
            assert(self.slots@ =~= pre.push(Some(ge)));
            assert(self.slots@[pre.len() as int] == Some(ge));
            lemma_insert_keeps_wf(pre, self.slots@, pre.len() as int, ge);
        }
        i
    }

    /// Hands one transport event to the session in slot `i` and returns the
    /// action to perform; the slot's key and peer do not change.
    pub fn session_event(&mut self, i: usize, ev: TransportEvent) -> (a: Action)
        requires
            old(self).wf(),
            i < old(self).slots@.len(),
            (old(self).slots@[i as int] is Some),
        ensures
            final(self).wf(),
            final(self).slots@.len() == old(self).slots@.len(),
            forall|j: int|
                0 <= j < old(self).slots@.len() && j != i ==> final(self).slots@[j] == old(
                    self,
                ).slots@[j],
            final(self).slots@[i as int] matches Some(e) && e.id == old(self).slots@[
                i as int
            ].unwrap().id && e.peer == old(self).slots@[i as int].unwrap().peer && e.session@
                == spec_demux(old(self).slots@[i as int].unwrap().session@, ev).0,
            a@ == spec_demux(old(self).slots@[i as int].unwrap().session@, ev).1,
    {
        let ghost pre = self.slots@;
        let mut slot = self.slots.remove(i);
        let a = match &mut slot {
            Some(e) => e.session.handle_event(ev),
            None => {
                proof {
                    assert(false);
                }
                Action::Ignore
            },
        };
        self.slots.insert(i, slot);
        proof {
            assert(self.slots@ =~= pre.update(i as int, self.slots@[i as int]));
        }
        a
    }

    /// Reports the transport's handshake far enough along for slot `i`: the
    /// session fixes the configured sub-protocol the first time and ignores
    /// repeats.
    pub fn session_ready(&mut self, i: usize, kind: ProtoKind)
        requires
            old(self).wf(),
            i < old(self).slots@.len(),
            (old(self).slots@[i as int] is Some),
        ensures
            final(self).wf(),
            final(self).slots@.len() == old(self).slots@.len(),
            forall|j: int|
                0 <= j < old(self).slots@.len() && j != i ==> final(self).slots@[j] == old(
                    self,
                ).slots@[j],
            final(self).slots@[i as int] matches Some(e) && e.id == old(self).slots@[
                i as int
            ].unwrap().id && e.peer == old(self).slots@[i as int].unwrap().peer && e.session@
                == spec_activate(old(self).slots@[i as int].unwrap().session@, kind),
    {
        let ghost pre = self.slots@;
        let mut slot = self.slots.remove(i);
        match &mut slot {
            Some(e) => e.session.on_transport_ready(kind),
            None => {
                proof {
                    assert(false);
                }
            },
        };
        self.slots.insert(i, slot);
        proof {
            assert(self.slots@ =~= pre.update(i as int, self.slots@[i as int]));
        }
    }

    /// The garbage-collection sweep: empties exactly the slots whose
    /// transport session reported closed (`closed[i]` true), the only way an
    /// entry ever leaves the table.
    pub fn gc(&mut self, closed: &Vec<bool>)
        requires
            old(self).wf(),
            closed@.len() == old(self).slots@.len(),
        ensures
            final(self).wf(),
            final(self).slots@ == spec_gc(old(self).slots@, closed@),
    {
        let mut i: usize = 0;
        while i < self.slots.len()
            invariant
                0 <= i <= self.slots@.len(),
                self.slots@.len() == old(self).slots@.len(),
                closed@.len() == old(self).slots@.len(),
                table_wf(old(self).slots@),
                forall|j: int|
                    0 <= j < i ==> self.slots@[j] == (if closed@[j] {
                        None
                    } else {
                        old(self).slots@[j]
                    }),
                forall|j: int| i <= j < self.slots@.len() ==> self.slots@[j] == old(self).slots@[j],
            decreases self.slots@.len() - i,
        {
            if closed[i] {
                let ghost pre = self.slots@;
                self.slots.remove(i);
                self.slots.insert(i, None);
                proof {
                    assert(self.slots@ =~= pre.update(i as int, None));
                }
            }
            i = i + 1;
        }
        proof {
            assert(self.slots@ =~= spec_gc(old(self).slots@, closed@));
        }
    }
}

/// Garbage collection removes closed sessions for good: an entry whose
/// transport reported closed is absent from the table after the sweep — no
/// lookup under its identifier can find it again, and no operation but a
/// fresh admission ever adds an identifier.
pub proof fn lemma_gc_removes_closed(slots: Seq<Option<TableEntry>>, closed: Seq<bool>, i: int)
    requires
        table_wf(slots),
        closed.len() == slots.len(),
        0 <= i < slots.len(),
        (slots[i] is Some),
        closed[i],
    ensures
        !table_contains(spec_gc(slots, closed), slots[i].unwrap().id@),
{
    let id = slots[i].unwrap().id@;
    let swept = spec_gc(slots, closed);
    assert forall|j: int| 0 <= j < swept.len() implies !slot_has_id(swept[j], id) by {
        if !closed[j] && slots[j] is Some && j != i {
            assert(slots[j].unwrap().id@ != id);
        }
    }
}

/// The sweep never touches a session whose transport is still open.
pub proof fn lemma_gc_keeps_open(slots: Seq<Option<TableEntry>>, closed: Seq<bool>, i: int)
    requires
        closed.len() == slots.len(),
        0 <= i < slots.len(),
        !closed[i],
    ensures
        spec_gc(slots, closed)[i] == slots[i],
{
}

} // verus!
