//! The connection registry: at most one current client handle.
//!
//! A handle is an opaque capability that is cheap to clone. The registry keeps
//! the current one; a reader takes its own clone and is not affected by a
//! later replacement.

use vstd::prelude::*;
use crate::error::{BridgeError, not_connected_view};

verus! {

/// Holds zero or one client handle.
#[derive(Debug)]
pub struct Registry<H> {
    pub current: Option<H>,
}

impl<H> View for Registry<H> {
    type V = Option<H>;

    open spec fn view(&self) -> Option<H> {
        self.current
    }
}

impl<H: Clone> Registry<H> {
    /// A registry before any connection was made.
    pub fn new() -> (r: Registry<H>)
        ensures
            r@ is None,
    {
        Registry { current: None }
    }

    /// Makes `handle` the current handle. Whatever was current before is dropped.
    pub fn set(&mut self, handle: H)
        ensures
            final(self)@ == Some(handle),
    {
        self.current = Some(handle);
    }

    /// Whether a handle is current.
    pub fn is_connected(&self) -> (b: bool)
        ensures
            b == (self@ is Some),
    {
        self.current.is_some()
    }

    /// A clone of the current handle, for the caller to keep.
    pub fn get(&self) -> (snapshot: Option<H>)
        ensures
            snapshot is Some <==> self@ is Some,
            snapshot matches Some(h) ==> cloned(self@->0, h),
    {
        match &self.current {
            Some(h) => Some(h.clone()),
            None => None,
        }
    }

    /// A clone of the current handle, or the failure that tells the caller to connect first.
    pub fn require(&self) -> (snapshot: Result<H, BridgeError>)
        ensures
            snapshot is Ok <==> self@ is Some,
            snapshot matches Ok(h) ==> cloned(self@->0, h),
            snapshot matches Err(e) ==> e@ == not_connected_view(),
    {
        match &self.current {
            Some(h) => Ok(h.clone()),
            None => Err(BridgeError::not_connected()),
        }
    }
}

} // verus!
