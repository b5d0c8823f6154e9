use vstd::prelude::*;
use std::ops::Deref;
use vstd::std_specs::convert::FromSpec;

verus! {

/// Marks a connection handle as unauthenticated.
///
/// A borrowed handle can be marked without copying it: `Unauth::from(&connection)` is an
/// `Unauth<&Connection>`. Reading through the marker reads the handle itself.
pub struct Unauth<T>(pub T);

impl<T> From<T> for Unauth<T> {
    fn from(value: T) -> (r: Self)
        ensures
            r.0 == value,
    {
        Unauth(value)
    }
}

impl<T> vstd::std_specs::convert::FromSpecImpl<T> for Unauth<T> {
    open spec fn obeys_from_spec() -> bool {
        true
    }

    open spec fn from_spec(v: T) -> Self {
        Unauth(v)
    }
}

impl<T> Deref for Unauth<T> {
    type Target = T;

    fn deref(&self) -> (r: &T)
        ensures
            *r == self.0,
    {
        &self.0
    }
}

impl<T> Unauth<T> {
    /// Takes the handle back out of the marker.
    pub fn into_inner(self) -> (r: T)
        ensures
            r == self.0,
    {
        self.0
    }
}

/// Marks a connection handle as being used for a registration in progress.
///
/// There is no conversion between this marker and [`Unauth`]: a handle changes marker only
/// by being taken out and marked again.
pub struct Registration<T>(pub T);

impl<T> From<T> for Registration<T> {
    fn from(value: T) -> (r: Self)
        ensures
            r.0 == value,
    {
        Registration(value)
    }
}

impl<T> vstd::std_specs::convert::FromSpecImpl<T> for Registration<T> {
    open spec fn obeys_from_spec() -> bool {
        true
    }

    open spec fn from_spec(v: T) -> Self {
        Registration(v)
    }
}

impl<T> Deref for Registration<T> {
    type Target = T;

    fn deref(&self) -> (r: &T)
        ensures
            *r == self.0,
    {
        &self.0
    }
}

impl<T> Registration<T> {
    /// Takes the handle back out of the marker.
    pub fn into_inner(self) -> (r: T)
        ensures
            r == self.0,
    {
        self.0
    }
}

/// Marking a handle as unauthenticated and reading it back, through the marker or by
/// taking it out, gives the handle unchanged.
pub proof fn lemma_unauth_round_trip<T>(v: T)
    ensures
        <Unauth<T> as FromSpec<T>>::from_spec(v).0 == v,
{
}

/// Marking a handle as registering and reading it back gives the handle unchanged.
pub proof fn lemma_registration_round_trip<T>(v: T)
    ensures
        <Registration<T> as FromSpec<T>>::from_spec(v).0 == v,
{
}

} // verus!
