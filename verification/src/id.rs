//! Fresh identifiers: non-zero 32-bit numbers, given out in increasing order
//! from 1 by a counter that stops for good once they have run out.

use vstd::prelude::*;

verus! {

/// An identifier. It is never zero.
#[derive(Debug, Clone, Copy, Hash, PartialEq, Eq, Structural)]
pub struct PiksellId {
    value: u32,
}

impl View for PiksellId {
    type V = u32;

    closed spec fn view(&self) -> u32 {
        self.value
    }
}

impl PiksellId {
    #[verifier::type_invariant]
    spec fn is_nonzero(self) -> bool {
        self.value != 0
    }

    /// The identifier that stands for the counter value `counter`: none for
    /// zero, which no identifier is.
    pub fn from_counter(counter: u32) -> (id: Option<PiksellId>)
        ensures
            match id {
                Some(id) => counter != 0 && id@ == counter,
                None => counter == 0,
            },
    {
        if counter == 0 {
            None
        } else {
            Some(PiksellId { value: counter })
        }
    }

    /// The number of the identifier.
    pub fn get(&self) -> (value: u32)
        ensures
            value == self@,
            value != 0,
    {
        proof {
            use_type_invariant(self);
        }
        self.value
    }
}

/// The identifier that a request finds at a counter that stands at `next`:
/// `next` itself, and none once the counter has run out, which is when it
/// stands at zero.
pub open spec fn issued(next: u32) -> Option<u32> {
    if next == 0 {
        None
    } else {
        Some(next)
    }
}

/// Where a counter stands after a request found it at `next`: one further,
/// and at zero once the last identifier has been given out.
pub open spec fn advanced(next: u32) -> u32 {
    if next == 0 || next == u32::MAX {
        0
    } else {
        (next + 1) as u32
    }
}

/// Where a counter stands after `requests` requests found it at `next`.
pub open spec fn advanced_by(next: u32, requests: nat) -> u32
    decreases requests,
{
    if requests == 0 {
        next
    } else {
        advanced_by(advanced(next), (requests - 1) as nat)
    }
}

/// The source of identifiers.
#[derive(Debug)]
pub struct PiksellIdCounter {
    next: u32,
}

impl View for PiksellIdCounter {
    type V = u32;

    closed spec fn view(&self) -> u32 {
        self.next
    }
}

impl PiksellIdCounter {
    /// A counter whose first identifier is 1.
    pub fn new() -> (counter: Self)
        ensures
            counter@ == 1,
    {
        Self { next: 1 }
    }

    /// Gives out the next identifier, or none when all have been given out.
    pub fn next_id(&mut self) -> (id: Option<PiksellId>)
        ensures
            match id {
                Some(id) => issued(old(self)@) == Some(id@),
                None => issued(old(self)@) is None,
            },
            final(self)@ == advanced(old(self)@),
    {
        let id = PiksellId::from_counter(self.next);
        if self.next == u32::MAX {
            self.next = 0;
        } else if self.next != 0 {
            self.next = self.next + 1;
        }
        id
    }
}

/// A counter that has not run out after some requests stands that many
/// further than it stood.
proof fn lemma_advanced_by(next: u32, requests: nat)
    ensures
        advanced_by(next, requests) == if next != 0 && next + requests <= u32::MAX {
            (next + requests) as u32
        } else {
            0u32
        },
    decreases requests,
{
    if requests > 0 {
        lemma_advanced_by(advanced(next), (requests - 1) as nat);
    }
}

/// No identifier is given out twice: the identifiers that two different
/// requests to one counter receive are different.
pub proof fn lemma_ids_distinct(start: u32, first: nat, second: nat)
    requires
        first != second,
        issued(advanced_by(start, first)) is Some,
        issued(advanced_by(start, second)) is Some,
    ensures
        issued(advanced_by(start, first)) != issued(advanced_by(start, second)),
{
    lemma_advanced_by(start, first);
    lemma_advanced_by(start, second);
}

/// A counter that has run out stays so: once a request received nothing, no
/// later request receives anything.
pub proof fn lemma_exhaustion_is_final(start: u32, first: nat, second: nat)
    requires
        first <= second,
        issued(advanced_by(start, first)) is None,
    ensures
        issued(advanced_by(start, second)) is None,
{
    lemma_advanced_by(start, first);
    lemma_advanced_by(start, second);
}

} // verus!
