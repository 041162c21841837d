use vstd::prelude::*;
use crate::state::State;

verus! {

/// Notifications that keep count of the live buffered handles.
#[derive(Clone, Copy, Debug, PartialEq, Eq, Structural)]
pub enum InternalOperation {
    NotifySenderCreated,
    NotifySenderDestroyed,
    NotifyReceiverCreated,
    NotifyReceiverDestroyed,
}

/// Counts after one notification, as `(senders, receivers)`.
pub open spec fn spec_apply(c: (nat, nat), op: InternalOperation) -> (nat, nat) {
    match op {
        InternalOperation::NotifySenderCreated => ((c.0 + 1) as nat, c.1),
        InternalOperation::NotifySenderDestroyed => ((c.0 - 1) as nat, c.1),
        InternalOperation::NotifyReceiverCreated => (c.0, (c.1 + 1) as nat),
        InternalOperation::NotifyReceiverDestroyed => (c.0, (c.1 - 1) as nat),
    }
}

/// Counts after a sequence of notifications, first to last.
pub open spec fn spec_apply_all(c: (nat, nat), ops: Seq<InternalOperation>) -> (nat, nat)
    decreases ops.len(),
{
    if ops.len() == 0 {
        c
    } else {
        spec_apply(spec_apply_all(c, ops.drop_last()), ops.last())
    }
}

/// Number of times `op` occurs in `ops`.
pub open spec fn occurrences(ops: Seq<InternalOperation>, op: InternalOperation) -> nat
    decreases ops.len(),
{
    if ops.len() == 0 {
        0
    } else {
        occurrences(ops.drop_last(), op) + if ops.last() == op {
            1nat
        } else {
            0nat
        }
    }
}

/// Every prefix destroys no more handles of a side than it has created: the
/// order in which handles can come and go.
pub open spec fn well_ordered(ops: Seq<InternalOperation>) -> bool {
    forall|k: int|
        0 <= k <= ops.len() ==> {
            &&& occurrences(#[trigger] ops.subrange(0, k), InternalOperation::NotifySenderDestroyed)
                <= occurrences(ops.subrange(0, k), InternalOperation::NotifySenderCreated)
            &&& occurrences(ops.subrange(0, k), InternalOperation::NotifyReceiverDestroyed)
                <= occurrences(ops.subrange(0, k), InternalOperation::NotifyReceiverCreated)
        }
}

/// Live sender and receiver handles of one controller instance, kept up to
/// date by the notifications of their guards.
#[derive(Debug)]
pub struct GuardCounts {
    senders: u32,
    receivers: u32,
}

impl View for GuardCounts {
    type V = (nat, nat);

    closed spec fn view(&self) -> (nat, nat) {
        (self.senders as nat, self.receivers as nat)
    }
}

impl GuardCounts {
    /// No live handle.
    pub fn new() -> (r: GuardCounts)
        ensures
            r@ == (0nat, 0nat),
    {
        GuardCounts { senders: 0, receivers: 0 }
    }

    /// Whether `op` can be applied: no count overflows or goes below zero.
    pub open spec fn can_apply(&self, op: InternalOperation) -> bool {
        match op {
            InternalOperation::NotifySenderCreated => self@.0 < u32::MAX,
            InternalOperation::NotifySenderDestroyed => self@.0 > 0,
            InternalOperation::NotifyReceiverCreated => self@.1 < u32::MAX,
            InternalOperation::NotifyReceiverDestroyed => self@.1 > 0,
        }
    }

    /// Applies one notification.
    pub fn internal_operation(&mut self, op: InternalOperation)
        requires
            old(self).can_apply(op),
        ensures
            final(self)@ == spec_apply(old(self)@, op),
    {
        match op {
            InternalOperation::NotifySenderCreated => self.senders = self.senders + 1,
            InternalOperation::NotifySenderDestroyed => self.senders = self.senders - 1,
            InternalOperation::NotifyReceiverCreated => self.receivers = self.receivers + 1,
            InternalOperation::NotifyReceiverDestroyed => self.receivers = self.receivers - 1,
        }
    }

    /// Live sender handles.
    pub fn senders(&self) -> (r: u32)
        ensures
            r == self@.0,
    {
        self.senders
    }

    /// Live receiver handles.
    pub fn receivers(&self) -> (r: u32)
        ensures
            r == self@.1,
    {
        self.receivers
    }

    /// Whether any buffered handle is live, so that buffered I/O is still
    /// needed.
    pub fn buffered_io_needed(&self) -> (r: bool)
        ensures
            r == (self@.0 > 0 || self@.1 > 0),
    {
        self.senders > 0 || self.receivers > 0
    }
}

/// Ties one live sender handle to the count: made with a "created"
/// notification, released with a "destroyed" one.
pub struct TxGuard<'a> {
    info: &'a State,
}

impl<'a> TxGuard<'a> {
    /// Counts one more sender.
    pub fn new(info: &'a State, counts: &mut GuardCounts) -> (r: TxGuard<'a>)
        requires
            old(counts)@.0 < u32::MAX,
        ensures
            final(counts)@ == spec_apply(old(counts)@, InternalOperation::NotifySenderCreated),
            r.spec_info() == info,
    {
        counts.internal_operation(InternalOperation::NotifySenderCreated);
        TxGuard { info }
    }

    /// The controller state that the handle belongs to.
    pub closed spec fn spec_info(&self) -> &'a State {
        self.info
    }

    /// Returns the controller state that the handle belongs to.
    pub fn info(&self) -> (r: &'a State)
        ensures
            r == self.spec_info(),
    {
        self.info
    }

    /// Counts one sender less.
    pub fn release(self, counts: &mut GuardCounts)
        requires
            old(counts)@.0 > 0,
        ensures
            final(counts)@ == spec_apply(old(counts)@, InternalOperation::NotifySenderDestroyed),
    {
        counts.internal_operation(InternalOperation::NotifySenderDestroyed);
    }
}

/// Ties one live receiver handle to the count; see [`TxGuard`].
pub struct RxGuard<'a> {
    info: &'a State,
}

impl<'a> RxGuard<'a> {
    /// Counts one more receiver.
    pub fn new(info: &'a State, counts: &mut GuardCounts) -> (r: RxGuard<'a>)
        requires
            old(counts)@.1 < u32::MAX,
        ensures
            final(counts)@ == spec_apply(old(counts)@, InternalOperation::NotifyReceiverCreated),
            r.spec_info() == info,
    {
        counts.internal_operation(InternalOperation::NotifyReceiverCreated);
        RxGuard { info }
    }

    /// The controller state that the handle belongs to.
    pub closed spec fn spec_info(&self) -> &'a State {
        self.info
    }

    /// Returns the controller state that the handle belongs to.
    pub fn info(&self) -> (r: &'a State)
        ensures
            r == self.spec_info(),
    {
        self.info
    }

    /// Counts one receiver less.
    pub fn release(self, counts: &mut GuardCounts)
        requires
            old(counts)@.1 > 0,
        ensures
            final(counts)@ == spec_apply(old(counts)@, InternalOperation::NotifyReceiverDestroyed),
    {
        counts.internal_operation(InternalOperation::NotifyReceiverDestroyed);
    }
}

/// One sender guard and one receiver guard, for a handle that both sends
/// and receives.
pub struct Guards<'a> {
    pub tx: TxGuard<'a>,
    pub rx: RxGuard<'a>,
}

impl<'a> Guards<'a> {
    /// Counts one more sender and one more receiver.
    pub fn new(info: &'a State, counts: &mut GuardCounts) -> (r: Guards<'a>)
        requires
            old(counts)@.0 < u32::MAX,
            old(counts)@.1 < u32::MAX,
        ensures
            final(counts)@ == ((old(counts)@.0 + 1) as nat, (old(counts)@.1 + 1) as nat),
            r.tx.spec_info() == info,
            r.rx.spec_info() == info,
    {
        let tx = TxGuard::new(info, counts);
        let rx = RxGuard::new(info, counts);
        Guards { tx, rx }
    }

    /// Counts one sender and one receiver less.
    pub fn release(self, counts: &mut GuardCounts)
        requires
            old(counts)@.0 > 0,
            old(counts)@.1 > 0,
        ensures
            final(counts)@ == ((old(counts)@.0 - 1) as nat, (old(counts)@.1 - 1) as nat),
    {
        self.tx.release(counts);
        self.rx.release(counts);
    }
}

/// For any order in which sender and receiver handles are made and
/// released, each count equals the handles made minus those released;
/// so once every handle made has been released, both counts are back at zero.
pub proof fn lemma_counts_track_live_handles(ops: Seq<InternalOperation>)
    requires
        well_ordered(ops),
    ensures
        spec_apply_all((0nat, 0nat), ops).0 == occurrences(ops, InternalOperation::NotifySenderCreated)
            - occurrences(ops, InternalOperation::NotifySenderDestroyed),
        spec_apply_all((0nat, 0nat), ops).1 == occurrences(
            ops,
            InternalOperation::NotifyReceiverCreated,
        ) - occurrences(ops, InternalOperation::NotifyReceiverDestroyed),
        occurrences(ops, InternalOperation::NotifySenderCreated) == occurrences(
            ops,
            InternalOperation::NotifySenderDestroyed,
        ) ==> spec_apply_all((0nat, 0nat), ops).0 == 0,
        occurrences(ops, InternalOperation::NotifyReceiverCreated) == occurrences(
            ops,
            InternalOperation::NotifyReceiverDestroyed,
        ) ==> spec_apply_all((0nat, 0nat), ops).1 == 0,
    decreases ops.len(),
{
    if ops.len() > 0 {
        let init = ops.drop_last();
        assert forall|k: int| 0 <= k <= init.len() implies {
            &&& occurrences(#[trigger] init.subrange(0, k), InternalOperation::NotifySenderDestroyed)
                <= occurrences(init.subrange(0, k), InternalOperation::NotifySenderCreated)
            &&& occurrences(init.subrange(0, k), InternalOperation::NotifyReceiverDestroyed)
                <= occurrences(init.subrange(0, k), InternalOperation::NotifyReceiverCreated)
        } by {
            assert(init.subrange(0, k) =~= ops.subrange(0, k));
        }
        lemma_counts_track_live_handles(init);
        assert(ops.subrange(0, ops.len() as int) =~= ops);
    }
}

} // verus!
