//! The life of a value that is made once and then shared.
//!
//! A slot starts vacant. The first access loads it, and the outcome of that
//! load, a value or a failure, stays for good: later accesses find it and
//! load nothing. An access takes its loader along and may run it only on a
//! vacant slot. The holder of the slot gives each access exclusive use of it
//! for as long as the access lasts.

use vstd::prelude::*;

verus! {

/// A slot for a value that is loaded at most once.
#[derive(Debug, PartialEq, Eq)]
pub enum Singleton<T, E> {
    /// Nothing has been loaded yet.
    Vacant,
    /// The load gave this value.
    Ready(T),
    /// The load failed, and is not tried again.
    Failed(E),
}

impl<T, E> Singleton<T, E> {
    /// The slot after a load with the given outcome was offered to it: a
    /// vacant slot takes the outcome, any other keeps what it has.
    pub open spec fn settled(self, outcome: Result<T, E>) -> Self {
        match self {
            Singleton::Vacant => match outcome {
                Ok(value) => Singleton::Ready(value),
                Err(why) => Singleton::Failed(why),
            },
            _ => self,
        }
    }

    /// The slot after a run of accesses, where `outcomes[i]` is what a load
    /// at access `i` gives.
    pub open spec fn after(self, outcomes: Seq<Result<T, E>>) -> Self
        decreases outcomes.len(),
    {
        if outcomes.len() == 0 {
            self
        } else {
            self.after(outcomes.drop_last()).settled(outcomes.last())
        }
    }

    /// How many of a run of accesses load: those that find the slot vacant.
    pub open spec fn loads(self, outcomes: Seq<Result<T, E>>) -> nat
        decreases outcomes.len(),
    {
        if outcomes.len() == 0 {
            0
        } else {
            let before = outcomes.drop_last();
            self.loads(before) + if self.after(before) is Vacant {
                1nat
            } else {
                0nat
            }
        }
    }

    /// A slot at its beginning.
    pub fn new() -> (slot: Self)
        ensures
            slot is Vacant,
    {
        Singleton::Vacant
    }

    /// Whether an access has to load: only a vacant slot asks for it.
    pub fn needs_load(&self) -> (needed: bool)
        ensures
            needed == (self is Vacant),
    {
        match self {
            Singleton::Vacant => true,
            _ => false,
        }
    }

    /// Offers the outcome of a load to the slot.
    pub fn settle(&mut self, outcome: Result<T, E>)
        ensures
            *final(self) == old(self).settled(outcome),
    {
        if self.needs_load() {
            *self = match outcome {
                Ok(value) => Singleton::Ready(value),
                Err(why) => Singleton::Failed(why),
            };
        }
    }

    /// How one access with the loader `load` changes a slot: a vacant slot
    /// takes an outcome of `load`, any other stays as it is.
    pub open spec fn accessed<F: FnOnce() -> Result<T, E>>(self, after: Self, load: F) -> bool {
        if self is Vacant {
            exists|outcome: Result<T, E>|
                load.ensures((), outcome) && after == #[trigger] self.settled(outcome)
        } else {
            after == self
        }
    }

    /// One access: loads with `load` where the slot is vacant, and leaves it
    /// as it is where it is not. A slot that is not vacant leaves its loader
    /// alone: nothing is asked of `load` there, so it cannot be run.
    pub fn load_with<F: FnOnce() -> Result<T, E>>(&mut self, load: F)
        requires
            *old(self) is Vacant ==> load.requires(()),
        ensures
            old(self).accessed(*final(self), load),
    {
        if self.needs_load() {
            let outcome = load();
            self.settle(outcome);
        }
    }

    /// The value, where the load gave one.
    pub fn get(&self) -> (value: Option<&T>)
        ensures
            match *self {
                Singleton::Ready(held) => value == Some(&held),
                _ => value is None,
            },
    {
        match self {
            Singleton::Ready(held) => Some(held),
            _ => None,
        }
    }

    /// The failure, where the load failed.
    pub fn failure(&self) -> (why: Option<&E>)
        ensures
            match *self {
                Singleton::Failed(held) => why == Some(&held),
                _ => why is None,
            },
    {
        match self {
            Singleton::Failed(held) => Some(held),
            _ => None,
        }
    }

    /// What the first load gave stays: a second outcome changes nothing.
    pub proof fn lemma_first_outcome_stays(self, first: Result<T, E>, second: Result<T, E>)
        ensures
            self.settled(first).settled(second) == self.settled(first),
            !(self.settled(first) is Vacant),
    {
    }

    /// A run of accesses to a vacant slot loads exactly once, at its first
    /// access, whatever the later loads would have given.
    pub proof fn lemma_loads_once(outcomes: Seq<Result<T, E>>)
        ensures
            Singleton::<T, E>::Vacant.loads(outcomes) == if outcomes.len() == 0 {
                0nat
            } else {
                1nat
            },
            outcomes.len() > 0 ==> Singleton::<T, E>::Vacant.after(outcomes)
                == Singleton::<T, E>::Vacant.settled(outcomes[0]),
        decreases outcomes.len(),
    {
        let vacant = Singleton::<T, E>::Vacant;
        if outcomes.len() > 0 {
            let before = outcomes.drop_last();
            Self::lemma_loads_once(before);
            assert(vacant.after(outcomes) == vacant.after(before).settled(outcomes.last()));
            if before.len() > 0 {
                assert(before[0] == outcomes[0]);
            }
        }
    }

    /// Every access in a run sees what the first one loaded: the slot is the
    /// same after each of them.
    pub proof fn lemma_every_access_sees_the_first(outcomes: Seq<Result<T, E>>, n: int)
        requires
            1 <= n <= outcomes.len(),
        ensures
            Singleton::<T, E>::Vacant.after(outcomes.take(n)) == Singleton::<T, E>::Vacant.settled(
                outcomes[0],
            ),
    {
        Self::lemma_loads_once(outcomes.take(n));
    }
}

} // verus!
