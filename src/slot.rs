//! A take-once cell for one request's transaction.
//!
//! The cell is Filled until one holder takes its value; while the value is
//! out it is Locked, and every further take or steal reports `Locked`. The
//! holder either gives the value back or finishes it, which leaves the cell
//! Empty. Shared between tasks, each operation runs under a lock held for
//! that operation only; the operations below are those atomic steps.
use vstd::prelude::*;

verus! {

/// What an attempt to acquire a slot's value found.
#[derive(Debug)]
pub enum SlotState<T> {
    Value(T),
    Empty,
    Locked,
}

pub struct Slot<T> {
    cell: Option<T>,
    lent: bool,
}

/// The atomic steps on a slot.
pub ghost enum SlotOp<T> {
    Take,
    GiveBack(T),
    Finish,
    Steal,
}

/// Model of a slot: its value, whether the value is out with a holder, and
/// how many holders have a value taken from it.
pub ghost struct SlotModel<T> {
    pub cell: Option<T>,
    pub lent: bool,
    pub holders: nat,
}

pub open spec fn take_result<T>(cell: Option<T>, lent: bool) -> SlotState<T> {
    if lent {
        SlotState::Locked
    } else {
        match cell {
            Some(v) => SlotState::Value(v),
            None => SlotState::Empty,
        }
    }
}

/// One step of the model. A give-back or a finish by no holder changes nothing.
pub open spec fn slot_step<T>(m: SlotModel<T>, op: SlotOp<T>) -> SlotModel<T> {
    match op {
        SlotOp::Take => if !m.lent && m.cell is Some {
            SlotModel { cell: None, lent: true, holders: m.holders + 1 }
        } else {
            m
        },
        SlotOp::GiveBack(v) => if m.lent && m.holders > 0 {
            SlotModel { cell: Some(v), lent: false, holders: (m.holders - 1) as nat }
        } else {
            m
        },
        SlotOp::Finish => if m.lent && m.holders > 0 {
            SlotModel { cell: None, lent: false, holders: (m.holders - 1) as nat }
        } else {
            m
        },
        SlotOp::Steal => if !m.lent {
            SlotModel { cell: None, lent: false, holders: m.holders }
        } else {
            m
        },
    }
}

pub open spec fn slot_run<T>(m: SlotModel<T>, ops: Seq<SlotOp<T>>) -> SlotModel<T>
    decreases ops.len(),
{
    if ops.len() == 0 {
        m
    } else {
        slot_step(slot_run(m, ops.drop_last()), ops.last())
    }
}

/// Whatever steps run, in whatever interleaving of requests, at most one
/// holder has the value at any time, and while it has it every take and
/// every steal reports `Locked`.
pub proof fn lemma_single_holder<T>(value: T, ops: Seq<SlotOp<T>>)
    ensures
        ({
            let m = slot_run(SlotModel { cell: Some(value), lent: false, holders: 0 }, ops);
            &&& m.holders <= 1
            &&& m.holders == 1 <==> m.lent
            &&& m.lent ==> take_result(m.cell, m.lent) is Locked
        }),
    decreases ops.len(),
{
    if ops.len() > 0 {
        lemma_single_holder(value, ops.drop_last());
    }
}

impl<T> Slot<T> {
    pub closed spec fn content(&self) -> Option<T> {
        self.cell
    }

    /// The value is out with a holder.
    pub closed spec fn is_lent(&self) -> bool {
        self.lent
    }

    pub fn new(value: T) -> (s: Self)
        ensures
            s.content() == Some(value),
            !s.is_lent(),
    {
        Slot { cell: Some(value), lent: false }
    }

    pub fn is_out(&self) -> (r: bool)
        ensures
            r == self.is_lent(),
    {
        self.lent
    }

    /// Hands the value to one holder, leaving the slot Locked.
    pub fn take(&mut self) -> (r: SlotState<T>)
        ensures
            r == take_result(old(self).content(), old(self).is_lent()),
            r is Value ==> final(self).content() is None && final(self).is_lent(),
            !(r is Value) ==> *final(self) == *old(self),
    {
        if self.lent {
            SlotState::Locked
        } else {
            match self.cell.take() {
                Some(v) => {
                    self.lent = true;
                    SlotState::Value(v)
                },
                None => SlotState::Empty,
            }
        }
    }

    /// The holder returns the value; the slot is Filled again.
    pub fn give_back(&mut self, value: T)
        requires
            old(self).is_lent(),
        ensures
            final(self).content() == Some(value),
            !final(self).is_lent(),
    {
        self.cell = Some(value);
        self.lent = false;
    }

    /// The holder consumed the value; the slot is Empty.
    pub fn finish(&mut self)
        requires
            old(self).is_lent(),
        ensures
            final(self).content() is None,
            !final(self).is_lent(),
    {
        self.cell = None;
        self.lent = false;
    }

    /// Takes the value out for good, unless a holder has it.
    pub fn steal(&mut self) -> (r: SlotState<T>)
        ensures
            r == take_result(old(self).content(), old(self).is_lent()),
            !old(self).is_lent() ==> final(self).content() is None && !final(self).is_lent(),
            old(self).is_lent() ==> *final(self) == *old(self),
    {
        if self.lent {
            SlotState::Locked
        } else {
            match self.cell.take() {
                Some(v) => SlotState::Value(v),
                None => SlotState::Empty,
            }
        }
    }
}

} // verus!
