//! The kernel's handle on the session store, which may be absent: without
//! a store, listings are empty and lookups find nothing, while creating or
//! updating a session is an error.

use vstd::prelude::*;
use crate::agents::session_store_missing;
use crate::error::AvixError;
use crate::invocation::store_missing;

verus! {

/// Session operations over an optional store `S`.
#[derive(Debug)]
pub struct SessionManager<S> {
    store: Option<S>,
}

impl<S> SessionManager<S> {
    /// The store, when configured.
    pub closed spec fn configured(&self) -> Option<S> {
        self.store
    }

    /// A manager over `store`.
    pub fn new(store: Option<S>) -> (m: SessionManager<S>)
        ensures
            m.configured() == store,
    {
        SessionManager { store }
    }

    /// This manager with `store` configured.
    pub fn with_store(self, store: S) -> (m: SessionManager<S>)
        ensures
            m.configured() == Some(store),
    {
        SessionManager { store: Some(store) }
    }

    /// The configured store.
    pub fn store(&self) -> (r: Option<&S>)
        ensures
            match self.configured() {
                Some(s) => r == Some(&s),
                None => r is None,
            },
    {
        match &self.store {
            Some(s) => Some(s),
            None => None,
        }
    }

    /// The store a create or update needs: an error when none is configured.
    pub fn require_store(&self) -> (r: Result<&S, AvixError>)
        ensures
            match self.configured() {
                Some(s) => r == Ok::<&S, AvixError>(&s),
                None => r matches Err(AvixError::NotFound(m)) && m@ == "session store not configured"@,
            },
    {
        match &self.store {
            Some(s) => Ok(s),
            None => Err(session_store_missing()),
        }
    }
}

/// Invocation operations over an optional store `S`: without a store,
/// lookups find nothing and listings, updates and snapshots are errors.
#[derive(Debug)]
pub struct InvocationManager<S> {
    store: Option<S>,
}

impl<S> InvocationManager<S> {
    /// The store, when configured.
    pub closed spec fn configured(&self) -> Option<S> {
        self.store
    }

    /// A manager over `store`.
    pub fn new(store: Option<S>) -> (m: InvocationManager<S>)
        ensures
            m.configured() == store,
    {
        InvocationManager { store }
    }

    /// This manager with `store` configured.
    pub fn with_store(self, store: S) -> (m: InvocationManager<S>)
        ensures
            m.configured() == Some(store),
    {
        InvocationManager { store: Some(store) }
    }

    /// The configured store.
    pub fn store(&self) -> (r: Option<&S>)
        ensures
            match self.configured() {
                Some(s) => r == Some(&s),
                None => r is None,
            },
    {
        match &self.store {
            Some(s) => Some(s),
            None => None,
        }
    }

    /// The store a listing, update or snapshot needs: an error when none is
    /// configured.
    pub fn require_store(&self) -> (r: Result<&S, AvixError>)
        ensures
            match self.configured() {
                Some(s) => r == Ok::<&S, AvixError>(&s),
                None => r matches Err(AvixError::NotFound(m)) && m@ == "invocation store not configured"@,
            },
    {
        match &self.store {
            Some(s) => Ok(s),
            None => Err(store_missing()),
        }
    }
}

} // verus!