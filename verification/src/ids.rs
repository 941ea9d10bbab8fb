//! Typed Discord snowflake identifiers.
use std::marker::PhantomData;
use vstd::prelude::*;

verus! {

/// Marker for guild identifiers.
#[derive(Clone, Copy, Debug, PartialEq, Eq)]
pub struct GuildMarker;

/// Marker for channel identifiers.
#[derive(Clone, Copy, Debug, PartialEq, Eq)]
pub struct ChannelMarker;

/// Marker for message identifiers.
#[derive(Clone, Copy, Debug, PartialEq, Eq)]
pub struct MessageMarker;

/// Marker for user identifiers.
#[derive(Clone, Copy, Debug, PartialEq, Eq)]
pub struct UserMarker;

/// A Discord snowflake: a non-zero 64-bit value tagged with the kind of
/// object it names.
#[derive(Debug)]
pub struct Id<M> {
    value: u64,
    marker: PhantomData<M>,
}

impl<M> Clone for Id<M> {
    fn clone(&self) -> (res: Self)
        ensures
            res == *self,
    {
        *self
    }
}

impl<M> Copy for Id<M> {}

impl<M> View for Id<M> {
    type V = u64;

    closed spec fn view(&self) -> u64 {
        self.value
    }
}

impl<M> Id<M> {
    #[verifier::type_invariant]
    closed spec fn non_zero(self) -> bool {
        self.value != 0
    }

    /// Builds an identifier from its raw value, which must not be zero.
    pub fn new(value: u64) -> (id: Self)
        requires
            value != 0,
        ensures
            id@ == value,
    {
        Id { value, marker: PhantomData }
    }

    /// The raw snowflake value.
    pub fn get(&self) -> (value: u64)
        ensures
            value == self@,
            value != 0,
    {
        proof {
            use_type_invariant(self);
        }
        self.value
    }

    /// Two identifiers of the same kind are equal when their raw values are.
    pub fn same(&self, other: &Self) -> (eq: bool)
        ensures
            eq == (self@ == other@),
    {
        self.value == other.value
    }
}

} // verus!
