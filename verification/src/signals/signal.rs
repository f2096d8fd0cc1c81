//! Signals.

use crate::signals::slot::{Slot, SlotFunc};
use std::marker::PhantomData;
use vstd::prelude::*;

verus! {

/// A list of slots of one kind, to be called together. The slots stand in
/// the order in which they were connected.
#[verifier::reject_recursive_types(Arg)]
#[verifier::reject_recursive_types(S)]
pub struct Signal<Arg, S: Slot<Arg>> {
    pub slots: Vec<S>,
    pub argument: PhantomData<Arg>,
}

impl<Arg, S: Slot<Arg>> Default for Signal<Arg, S> {
    fn default() -> (r: Self)
        ensures
            r.slots@.len() == 0,
    {
        Self::new()
    }
}

impl<Arg, S: Slot<Arg>> Signal<Arg, S> {
    /// A signal without slots.
    pub fn new() -> (r: Self)
        ensures
            r.slots@.len() == 0,
    {
        Self { slots: Vec::new(), argument: PhantomData }
    }

    /// Calls every slot with `arg`, one after the other, in the order in
    /// which they were connected, and comes back when the last one has.
    pub fn emit(&self, arg: &Arg)
        ensures
            forall|i: int|
                0 <= i < self.slots@.len() ==> (#[trigger] self.slots@[i]).called_with(arg),
    {
        let mut i: usize = 0;
        while i < self.slots.len()
            invariant
                i <= self.slots@.len(),
                forall|k: int| 0 <= k < i ==> (#[trigger] self.slots@[k]).called_with(arg),
            decreases self.slots@.len() - i,
        {
            self.slots[i].call(arg);
            i = i + 1;
        }
    }

    /// Connects a slot, after the slots that are there.
    pub fn connect(&mut self, slot: S)
        ensures
            final(self).slots@ == old(self).slots@.push(slot),
    {
        self.slots.push(slot);
    }
}

impl<Arg, F: Fn(&Arg)> Signal<Arg, SlotFunc<Arg, F>> {
    /// Connects a function: the slot that calls it comes after the slots
    /// that are there, which stay as they are. The function has to take
    /// every argument.
    pub fn connect_func(&mut self, callback: F)
        requires
            forall|arg: &Arg| call_requires(callback, (arg,)),
        ensures
            final(self).slots@ == old(self).slots@.push(SlotFunc::of(callback)),
            final(self).slots@.last().callback() == callback,
    {
        let slot = SlotFunc::new(callback);
        self.connect(slot);
    }
}

} // verus!
