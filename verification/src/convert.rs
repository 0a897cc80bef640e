//! Turning what the caller sent into what the database is asked.

use vstd::prelude::*;

use crate::errors::Error;

verus! {

/// Something the caller sent, which is either turned into a `Target` or refused.
pub trait Convert: Sized {
    /// What it is turned into.
    type Target;

    /// The error by which it is refused, if it is.
    spec fn fault(&self) -> Option<Error>;

    /// That `target` is what it is turned into, where nothing refuses it.
    spec fn becomes(&self, target: Self::Target) -> bool;

    /// A refusal always blames the input.
    proof fn lemma_fault_refuses_input(&self)
        ensures
            self.fault() matches Some(error) ==> error.refuses_input(),
    ;

    /// Turns it into its target or says by which error it is refused.
    fn convert(&self) -> (result: Result<Self::Target, Error>)
        ensures
            match result {
                Ok(target) => self.fault() is None && self.becomes(target),
                Err(error) => self.fault() == Some(error),
            },
    ;
}

/// The fault of the first item that has one.
pub open spec fn first_fault<T: Convert>(items: Seq<T>) -> Option<Error>
    decreases items.len(),
{
    if items.len() == 0 {
        None
    } else {
        match items[0].fault() {
            Some(error) => Some(error),
            None => first_fault(items.drop_first()),
        }
    }
}

/// One target for each item, in the order of the items.
pub open spec fn all_become<T: Convert>(items: Seq<T>, targets: Seq<T::Target>) -> bool {
    &&& targets.len() == items.len()
    &&& forall|i: int| 0 <= i < items.len() ==> items[i].becomes(#[trigger] targets[i])
}

/// The first of two faults; the second counts only where there is no first.
pub open spec fn either_fault(first: Option<Error>, second: Option<Error>) -> Option<Error> {
    match first {
        Some(error) => Some(error),
        None => second,
    }
}

impl<T: Convert> Convert for Vec<T> {
    type Target = Vec<T::Target>;

    open spec fn fault(&self) -> Option<Error> {
        first_fault(self@)
    }

    open spec fn becomes(&self, target: Vec<T::Target>) -> bool {
        all_become(self@, target@)
    }

    proof fn lemma_fault_refuses_input(&self) {
        lemma_first_fault_refuses_input(self@);
    }

    fn convert(&self) -> (result: Result<Vec<T::Target>, Error>) {
        let mut targets: Vec<T::Target> = Vec::new();
        let mut i: usize = 0;
        assert(self@.skip(0) =~= self@);
        while i < self.len()
            invariant
                i <= self@.len(),
                first_fault(self@) == first_fault(self@.skip(i as int)),
                targets@.len() == i,
                forall|j: int| 0 <= j < i ==> self@[j].becomes(#[trigger] targets@[j]),
            decreases self@.len() - i,
        {
            assert(self@.skip(i as int).drop_first() =~= self@.skip(i + 1));
            match self[i].convert() {
                Ok(target) => targets.push(target),
                Err(error) => return Err(error),
            }
            i = i + 1;
        }
        Ok(targets)
    }
}

impl<T: Convert> Convert for Option<T> {
    type Target = Option<T::Target>;

    open spec fn fault(&self) -> Option<Error> {
        match self {
            Some(item) => item.fault(),
            None => None,
        }
    }

    open spec fn becomes(&self, target: Option<T::Target>) -> bool {
        match self {
            Some(item) => target matches Some(value) && item.becomes(value),
            None => target is None,
        }
    }

    proof fn lemma_fault_refuses_input(&self) {
        if let Some(item) = self {
            item.lemma_fault_refuses_input();
        }
    }

    fn convert(&self) -> (result: Result<Option<T::Target>, Error>) {
        match self {
            Some(item) => match item.convert() {
                Ok(value) => Ok(Some(value)),
                Err(error) => Err(error),
            },
            None => Ok(None),
        }
    }
}

/// A list is only ever refused by an error that blames the input.
pub proof fn lemma_first_fault_refuses_input<T: Convert>(items: Seq<T>)
    ensures
        first_fault(items) matches Some(error) ==> error.refuses_input(),
    decreases items.len(),
{
    if items.len() > 0 {
        items[0].lemma_fault_refuses_input();
        lemma_first_fault_refuses_input(items.drop_first());
    }
}

/// Of two lists in a row, the second is to blame only where the first is accepted.
pub proof fn lemma_first_fault_concat<T: Convert>(first: Seq<T>, second: Seq<T>)
    ensures
        first_fault(first + second) == either_fault(first_fault(first), first_fault(second)),
    decreases first.len(),
{
    if first.len() == 0 {
        assert(first + second =~= second);
    } else {
        assert((first + second).drop_first() =~= first.drop_first() + second);
        lemma_first_fault_concat(first.drop_first(), second);
    }
}

/// A list is accepted if and only if each of its items is.
pub proof fn lemma_accepted_item_by_item<T: Convert>(items: Seq<T>)
    ensures
        first_fault(items) is None <==> forall|i: int|
            0 <= i < items.len() ==> (#[trigger] items[i]).fault() is None,
    decreases items.len(),
{
    if items.len() > 0 {
        let rest = items.drop_first();
        lemma_accepted_item_by_item(rest);
        assert forall|i: int| 0 <= i < items.len() && first_fault(items) is None implies (
        #[trigger] items[i]).fault() is None by {
            if i > 0 {
                assert(rest[i - 1].fault() is None);
            }
        }
        if forall|i: int| 0 <= i < items.len() ==> (#[trigger] items[i]).fault() is None {
            assert(items[0].fault() is None);
            assert forall|i: int| 0 <= i < rest.len() implies (
            #[trigger] rest[i]).fault() is None by {
                assert(items[i + 1].fault() is None);
            }
        }
    }
}

/// A list is refused by the fault of the first item that has one: the items before
/// it are without fault.
pub proof fn lemma_refused_by_first<T: Convert>(items: Seq<T>, at: int, error: Error)
    requires
        0 <= at < items.len(),
        forall|i: int| 0 <= i < at ==> (#[trigger] items[i]).fault() is None,
        items[at].fault() == Some(error),
    ensures
        first_fault(items) == Some(error),
    decreases items.len(),
{
    if at > 0 {
        assert(items[0].fault() is None);
        let rest = items.drop_first();
        assert forall|i: int| 0 <= i < at - 1 implies (#[trigger] rest[i]).fault() is None by {
            assert(items[i + 1].fault() is None);
        }
        lemma_refused_by_first(rest, at - 1, error);
    }
}

} // verus!
