//! The synchronisation objects of the frames in flight.

use vstd::prelude::*;

verus! {

/// The synchronisation objects of one frame in flight, by their raw handles:
/// the semaphore that the acquired image signals, the semaphore that the
/// submission signals and the present waits on, and the fence that the
/// submission signals.
#[derive(Clone, Copy, Debug, PartialEq, Eq, Structural)]
pub struct CurrentFrameSynchronization {
    pub image_available: u64,
    pub render_finished: u64,
    pub in_flight: u64,
}

/// One slot of synchronisation objects per frame in flight, and for each slot
/// whether a submission that signals its fence may still be executing.
pub struct SynchronizationSet {
    slots: Vec<CurrentFrameSynchronization>,
    pending: Vec<bool>,
}

/// What contracts say of a `SynchronizationSet`.
pub struct SynchronizationState {
    pub slots: Seq<CurrentFrameSynchronization>,
    pub pending: Seq<bool>,
}

impl SynchronizationState {
    /// There is at least one slot, and one pending flag per slot.
    pub open spec fn wf(self) -> bool {
        &&& self.slots.len() >= 1
        &&& self.pending.len() == self.slots.len()
    }

    /// No submission can still be executing, on any slot.
    pub open spec fn idle(self) -> bool {
        forall|i: int| 0 <= i < self.pending.len() ==> !self.pending[i]
    }

    /// The slot that frame `frame` uses.
    pub open spec fn slot_index(self, frame: nat) -> nat {
        frame % self.slots.len()
    }
}

impl View for SynchronizationSet {
    type V = SynchronizationState;

    closed spec fn view(&self) -> SynchronizationState {
        SynchronizationState { slots: self.slots@, pending: self.pending@ }
    }
}

impl SynchronizationSet {
    /// The number of frames in flight that the renderer is set up with.
    pub const MAX_FRAMES_IN_FLIGHT: u32 = 2;

    #[verifier::type_invariant]
    spec fn inv(self) -> bool {
        self@.wf()
    }

    /// A set over the given slots, none of them pending: a fence is created
    /// signalled. `None` for no slot at all.
    pub fn new(slots: Vec<CurrentFrameSynchronization>) -> (set: Option<Self>)
        ensures
            set is Some <==> slots@.len() >= 1,
            set matches Some(set) ==> {
                &&& set@.wf()
                &&& set@.slots == slots@
                &&& set@.idle()
            },
    {
        if slots.len() == 0 {
            return None;
        }
        let mut pending: Vec<bool> = Vec::new();
        while pending.len() < slots.len()
            invariant
                pending@.len() <= slots@.len(),
                forall|i: int| 0 <= i < pending@.len() ==> !pending@[i],
            decreases slots@.len() - pending@.len(),
        {
            pending.push(false);
        }
        Some(SynchronizationSet { slots, pending })
    }

    /// The number of frames in flight.
    pub fn frames_in_flight(&self) -> (n: usize)
        ensures
            n == self@.slots.len(),
            n >= 1,
            self@.wf(),
    {
        proof {
            use_type_invariant(self);
        }
        self.slots.len()
    }

    /// The slot of frame `current_frame`: slot `current_frame mod N` of the
    /// `N` frames in flight.
    pub fn current_frame_synchronization(&self, current_frame: usize) -> (slot:
        CurrentFrameSynchronization)
        ensures
            self@.wf(),
            slot == self@.slots[self@.slot_index(current_frame as nat) as int],
    {
        proof {
            use_type_invariant(self);
        }
        self.slots[current_frame % self.slots.len()]
    }

    /// Whether a submission on the slot of frame `current_frame` may still be
    /// executing.
    pub fn is_pending(&self, current_frame: usize) -> (pending: bool)
        ensures
            self@.wf(),
            pending == self@.pending[self@.slot_index(current_frame as nat) as int],
    {
        proof {
            use_type_invariant(self);
        }
        self.pending[current_frame % self.slots.len()]
    }

    /// Whether no submission can still be executing, on any slot.
    pub fn is_idle(&self) -> (idle: bool)
        ensures
            idle == self@.idle(),
    {
        let mut i: usize = 0;
        while i < self.pending.len()
            invariant
                i <= self.pending@.len(),
                forall|j: int| 0 <= j < i ==> !self.pending@[j],
            decreases self.pending@.len() - i,
        {
            if self.pending[i] {
                assert(self@.pending[i as int]);
                return false;
            }
            i += 1;
        }
        true
    }

    /// The set in which the fence of the slot of frame `current_frame` was
    /// waited on (`pending` false) or handed to a submission (`pending`
    /// true), and every other slot is as it is here.
    pub fn with_pending(&self, current_frame: usize, pending: bool) -> (set: Self)
        ensures
            set@.wf(),
            set@.slots == self@.slots,
            set@.pending == self@.pending.update(
                self@.slot_index(current_frame as nat) as int,
                pending,
            ),
    {
        proof {
            use_type_invariant(self);
        }
        let index: usize = current_frame % self.slots.len();
        let mut slots: Vec<CurrentFrameSynchronization> = Vec::new();
        let mut flags: Vec<bool> = Vec::new();
        while flags.len() < self.pending.len()
            invariant
                index < self.pending@.len(),
                self.pending@.len() == self.slots@.len(),
                flags@.len() <= self.pending@.len(),
                slots@ == self.slots@.subrange(0, flags@.len() as int),
                forall|i: int|
                    0 <= i < flags@.len() ==> flags@[i] == (if i == index {
                        pending
                    } else {
                        self.pending@[i]
                    }),
            decreases self.pending@.len() - flags@.len(),
        {
            let i: usize = flags.len();
            slots.push(self.slots[i]);
            flags.push(if i == index { pending } else { self.pending[i] });
        }
        SynchronizationSet { slots, pending: flags }
    }

    /// The set once the device is idle: no submission is executing on any
    /// slot.
    pub fn all_signaled(&self) -> (set: Self)
        ensures
            set@.wf(),
            set@.slots == self@.slots,
            set@.idle(),
            set@.pending.len() == self@.pending.len(),
    {
        proof {
            use_type_invariant(self);
        }
        let mut slots: Vec<CurrentFrameSynchronization> = Vec::new();
        let mut flags: Vec<bool> = Vec::new();
        while flags.len() < self.slots.len()
            invariant
                flags@.len() <= self.slots@.len(),
                slots@ == self.slots@.subrange(0, flags@.len() as int),
                forall|i: int| 0 <= i < flags@.len() ==> !flags@[i],
            decreases self.slots@.len() - flags@.len(),
        {
            let i: usize = flags.len();
            slots.push(self.slots[i]);
            flags.push(false);
        }
        SynchronizationSet { slots, pending: flags }
    }
}

/// The slot that the `frame`-th frame uses when the slot advances by one,
/// modulo `n`, after each frame, starting from slot 0.
pub open spec fn slot_of_frame(frame: nat, n: nat) -> nat
    decreases frame,
{
    if frame == 0 {
        0
    } else {
        (slot_of_frame((frame - 1) as nat, n) + 1) % n
    }
}

/// Slot law: with `n` frames in flight, frame `i` uses slot `i mod n`.
pub proof fn lemma_slot_of_frame(frame: nat, n: nat)
    requires
        n >= 1,
    ensures
        slot_of_frame(frame, n) == frame % n,
    decreases frame,
{
    if frame == 0 {
    } else {
        lemma_slot_of_frame((frame - 1) as nat, n);
        vstd::arithmetic::div_mod::lemma_add_mod_noop((frame - 1) as int, 1, n as int);
        vstd::arithmetic::div_mod::lemma_mod_twice((frame - 1) as int, n as int);
        vstd::arithmetic::div_mod::lemma_add_mod_noop(
            ((frame - 1) as int) % (n as int),
            1,
            n as int,
        );
    }
}

} // verus!
