//! A single slot holding at most one requested file path.

use vstd::prelude::*;

verus! {

/// The abstract view of an optional path: `None` when nothing is held.
pub open spec fn path_view(p: Option<String>) -> Option<Seq<char>> {
    match p {
        Some(s) => Some(s@),
        None => None,
    }
}

/// One operation on the slot, as contracts and proofs describe it.
pub enum SlotOp {
    Store(Seq<char>),
    Take,
}

/// The slot's content after `op`, starting from `slot`.
pub open spec fn slot_after_op(slot: Option<Seq<char>>, op: SlotOp) -> Option<Seq<char>> {
    match op {
        SlotOp::Store(p) => Some(p),
        SlotOp::Take => None,
    }
}

/// The slot's content after running `ops` in order, starting from `slot`.
pub open spec fn slot_after_ops(slot: Option<Seq<char>>, ops: Seq<SlotOp>) -> Option<Seq<char>>
    decreases ops.len(),
{
    if ops.len() == 0 {
        slot
    } else {
        slot_after_op(slot_after_ops(slot, ops.drop_last()), ops.last())
    }
}

/// What `take` hands back from `slot`: its whole content.
pub open spec fn taken_from(slot: Option<Seq<char>>) -> Option<Seq<char>> {
    slot
}

/// A reusable single slot for the path of a document that was requested
/// before anyone could receive it.
pub struct PendingOpenMailbox {
    slot: Option<String>,
}

impl View for PendingOpenMailbox {
    type V = Option<Seq<char>>;

    closed spec fn view(&self) -> Option<Seq<char>> {
        path_view(self.slot)
    }
}

impl PendingOpenMailbox {
    /// An empty mailbox.
    pub fn new() -> (r: PendingOpenMailbox)
        ensures
            r@ == None::<Seq<char>>,
    {
        PendingOpenMailbox { slot: None }
    }

    /// Replaces whatever is held with `path`.
    pub fn store(&mut self, path: String)
        ensures
            final(self)@ == slot_after_op(old(self)@, SlotOp::Store(path@)),
            final(self)@ == Some(path@),
    {
        self.slot = Some(path);
    }

    /// Hands back what is held and leaves the mailbox empty.
    pub fn take(&mut self) -> (r: Option<String>)
        ensures
            path_view(r) == taken_from(old(self)@),
            final(self)@ == slot_after_op(old(self)@, SlotOp::Take),
            final(self)@ == None::<Seq<char>>,
    {
        self.slot.take()
    }

    /// Whether a path is waiting to be taken.
    pub fn is_pending(&self) -> (r: bool)
        ensures
            r == self@.is_some(),
    {
        self.slot.is_some()
    }
}

/// Once a `take` has run, the slot is empty until the next `store`: when the
/// operation at `i` is a take and only takes follow it, the slot ends empty,
/// whatever came before.
pub proof fn lemma_empty_after_take(slot: Option<Seq<char>>, ops: Seq<SlotOp>, i: int)
    requires
        0 <= i < ops.len(),
        forall|j: int| i <= j < ops.len() ==> ops[j] is Take,
    ensures
        slot_after_ops(slot, ops) == None::<Seq<char>>,
    decreases ops.len(),
{
    if i < ops.len() - 1 {
        let rest = ops.drop_last();
        assert forall|j: int| i <= j < rest.len() implies rest[j] is Take by {
            assert(rest[j] == ops[j]);
        }
        lemma_empty_after_take(slot, rest, i);
    }
}

/// Two takes in a row after a store hand the stored path back once: the
/// first take returns it and the second returns nothing.
pub proof fn lemma_take_once(slot: Option<Seq<char>>, path: Seq<char>)
    ensures
        taken_from(slot_after_op(slot, SlotOp::Store(path))) == Some(path),
        taken_from(slot_after_ops(slot, seq![SlotOp::Store(path), SlotOp::Take])) == None::<
            Seq<char>,
        >,
{
    let ops = seq![SlotOp::Store(path), SlotOp::Take];
    assert(ops.drop_last().drop_last() =~= Seq::<SlotOp>::empty());
}

/// Of two stores with no take between them, the later wins: a following take
/// returns the second path, and the first is lost.
pub proof fn lemma_last_store_wins(slot: Option<Seq<char>>, first: Seq<char>, second: Seq<char>)
    ensures
        taken_from(slot_after_ops(slot, seq![SlotOp::Store(first), SlotOp::Store(second)]))
            == Some(second),
{
    let ops = seq![SlotOp::Store(first), SlotOp::Store(second)];
    assert(ops.drop_last().drop_last() =~= Seq::<SlotOp>::empty());
}

} // verus!
