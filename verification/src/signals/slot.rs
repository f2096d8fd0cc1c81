//! Slots: what a signal calls.

use std::marker::PhantomData;
use vstd::prelude::*;

verus! {

/// Something that can be called with an argument.
pub trait Slot<Arg> {
    /// What holds once the slot has been called with `arg`. A slot that
    /// promises something of its calls says so here.
    open spec fn called_with(&self, arg: &Arg) -> bool {
        true
    }

    /// Calls the slot with `arg`.
    fn call(&self, arg: &Arg)
        ensures
            self.called_with(arg),
    ;
}

/// A slot that calls a function.
#[verifier::reject_recursive_types(Arg)]
#[verifier::reject_recursive_types(F)]
pub struct SlotFunc<Arg, F: Fn(&Arg)> {
    callback: F,
    argument: PhantomData<Arg>,
}

impl<Arg, F: Fn(&Arg)> SlotFunc<Arg, F> {
    /// The function takes every argument.
    #[verifier::type_invariant]
    spec fn takes_every_argument(&self) -> bool {
        forall|arg: &Arg| call_requires(self.callback, (arg,))
    }

    /// The function that the slot calls.
    pub closed spec fn callback(&self) -> F {
        self.callback
    }

    /// The slot that calls `callback`.
    pub closed spec fn of(callback: F) -> Self {
        SlotFunc { callback, argument: PhantomData }
    }

    /// A slot that calls `callback`, which has to take every argument.
    pub fn new(callback: F) -> (r: Self)
        requires
            forall|arg: &Arg| call_requires(callback, (arg,)),
        ensures
            r == Self::of(callback),
            r.callback() == callback,
    {
        Self { callback, argument: PhantomData }
    }

    /// The slot of a function calls that function.
    pub proof fn lemma_callback_of(callback: F)
        ensures
            Self::of(callback).callback() == callback,
    {
    }
}

impl<Arg, F: Fn(&Arg)> Slot<Arg> for SlotFunc<Arg, F> {
    /// The function has been called with `arg` and has come back.
    open spec fn called_with(&self, arg: &Arg) -> bool {
        call_ensures(self.callback(), (arg,), ())
    }

    fn call(&self, arg: &Arg) {
        proof {
            use_type_invariant(self);
        }
        (self.callback)(arg);
    }
}

} // verus!
