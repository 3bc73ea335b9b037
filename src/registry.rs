//! Registry of drivers addressed by opaque integer tokens.
//!
//! A foreign runtime that cannot hold typed references registers a driver
//! once and names it by its token on every call. A token that names no
//! driver is refused like any other failure.

use vstd::prelude::*;

use crate::error::Error;

verus! {

/// Status a foreign caller sees: `0` for success, `-1` for any failure.
pub open spec fn c_status_of<T>(r: Result<T, Error>) -> i32 {
    match r {
        Ok(_) => 0,
        Err(_) => -1i32,
    }
}

/// The value a foreign caller receives through an out-parameter: the
/// driver's value on success, `none` otherwise.
pub open spec fn c_value_of<T>(r: Result<T, Error>, none: T) -> T {
    match r {
        Ok(v) => v,
        Err(_) => none,
    }
}

/// Collapses a driver outcome to the foreign status; the error's detail is
/// dropped.
pub fn c_status<T>(r: &Result<T, Error>) -> (s: i32)
    ensures
        s == c_status_of(*r),
{
    match r {
        Ok(_) => 0,
        Err(_) => -1,
    }
}

/// Owned drivers, each addressed by the token it was registered under.
pub struct Registry<D> {
    slots: Vec<Option<D>>,
}

impl<D> Registry<D> {
    /// What each token holds: a driver, or `None` once it was taken back.
    pub closed spec fn view(&self) -> Seq<Option<D>> {
        self.slots@
    }

    /// The token names a driver.
    pub open spec fn holds(&self, token: usize) -> bool {
        token < self.view().len() && self.view()[token as int] is Some
    }

    /// The driver that the token names.
    pub open spec fn driver(&self, token: usize) -> D {
        self.view()[token as int].unwrap()
    }

    /// The registry after the driver of `token` became `d`.
    pub open spec fn with_driver(&self, token: usize, d: D) -> Seq<Option<D>> {
        self.view().update(token as int, Some(d))
    }

    /// An empty registry.
    pub fn new() -> (r: Self)
        ensures
            r.view() == Seq::<Option<D>>::empty(),
    {
        Registry { slots: Vec::new() }
    }

    /// Number of tokens handed out so far.
    pub fn len(&self) -> (r: usize)
        ensures
            r == self.view().len(),
    {
        self.slots.len()
    }

    /// Takes ownership of `drv` and returns its token, which no earlier
    /// driver had.
    pub fn register(&mut self, drv: D) -> (token: usize)
        ensures
            token == old(self).view().len(),
            final(self).view() == old(self).view().push(Some(drv)),
    {
        let token = self.slots.len();
        self.slots.push(Some(drv));
        token
    }

    /// Gives back the driver of `token`, which then names nothing.
    pub fn unregister(&mut self, token: usize) -> (r: Option<D>)
        ensures
            old(self).holds(token) ==> r == Some(old(self).driver(token))
                && final(self).view() == old(self).view().update(token as int, None),
            !old(self).holds(token) ==> r is None && final(self).view() == old(self).view(),
    {
        if token < self.slots.len() {
            let slot = &mut self.slots[token];
            slot.take()
        } else {
            None
        }
    }

    /// The driver of `token`, borrowed for one call.
    pub fn get_mut(&mut self, token: usize) -> (r: Option<&mut D>)
        ensures
            old(self).holds(token) ==> r is Some && *r.unwrap() == old(self).driver(token)
                && final(self).view() == old(self).with_driver(token, *final(r.unwrap())),
            !old(self).holds(token) ==> r is None && final(self).view() == old(self).view(),
    {
        if token < self.slots.len() {
            let slot = &mut self.slots[token];
            slot.as_mut()
        } else {
            None
        }
    }
}

} // verus!
