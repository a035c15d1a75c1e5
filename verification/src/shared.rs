//! Shared, read-only ownership of a resource.

use std::sync::Arc;
use vstd::prelude::*;

verus! {

/// Takes the value out of `handle` through `Arc::try_unwrap`. Whether the
/// value comes out depends on how many handles there are at the time of the
/// call, of which the contract says nothing; what comes out, either way, is
/// what the handle held.
#[verifier::external_body]
fn arc_try_unwrap<R>(handle: Arc<R>) -> (outcome: Result<R, Arc<R>>)
    ensures
        match outcome {
            Ok(value) => value == *handle,
            Err(same) => same == handle,
        },
{
    Arc::try_unwrap(handle)
}

/// Another handle to what `handle` holds, through `Arc::clone`.
#[verifier::external_body]
fn arc_clone<R>(handle: &Arc<R>) -> (other: Arc<R>)
    ensures
        other == *handle,
{
    Arc::clone(handle)
}

/// A handle to a resource that any number of handles may share. Handles give
/// read access only.
#[derive(Debug)]
pub struct PiksellWrapper<R> {
    inner: Arc<R>,
}

impl<R> View for PiksellWrapper<R> {
    type V = R;

    closed spec fn view(&self) -> R {
        *self.inner
    }
}

impl<R> PiksellWrapper<R> {
    /// Takes ownership of `value` and returns the first handle to it.
    pub fn new(value: R) -> (handle: Self)
        ensures
            handle@ == value,
    {
        Self { inner: Arc::new(value) }
    }

    /// Gives the resource back if this is the last handle to it. What comes
    /// back is the resource that the handle held.
    pub fn try_unwrap(self) -> (recovered: Option<R>)
        ensures
            recovered matches Some(value) ==> value == self@,
    {
        Self::recovered(arc_try_unwrap(self.inner))
    }

    /// What an attempt to take the resource out of a handle comes to: the
    /// resource where the handle was the last one, and nothing where other
    /// handles were left, which go on holding the resource.
    pub fn recovered(outcome: Result<R, Arc<R>>) -> (resource: Option<R>)
        ensures
            match outcome {
                Ok(value) => resource == Some(value),
                Err(_) => resource is None,
            },
    {
        match outcome {
            Ok(value) => Some(value),
            Err(_) => None,
        }
    }
}

impl<R> Clone for PiksellWrapper<R> {
    /// Another handle to the same resource.
    fn clone(&self) -> (other: Self)
        ensures
            other@ == self@,
    {
        Self { inner: arc_clone(&self.inner) }
    }
}

impl<R> AsRef<R> for PiksellWrapper<R> {
    /// The resource.
    fn as_ref(&self) -> (resource: &R)
        ensures
            *resource == self@,
    {
        &*self.inner
    }
}

impl<R> std::ops::Deref for PiksellWrapper<R> {
    type Target = R;

    /// The resource.
    fn deref(&self) -> (resource: &R)
        ensures
            *resource == self@,
    {
        &*self.inner
    }
}

} // verus!
