//! How a wrapper lets its siblings at the native handle it owns, without
//! giving the handle away.

use vstd::prelude::*;

verus! {

/// A wrapper around a dispatchable object, whose handle doubles as the key
/// to the object's table of entry points.
pub trait HasRawAshHandle<T> {
    /// The handle that this wrapper owns.
    spec fn raw_ash_handle(&self) -> T;

    fn get_ash_handle(&self) -> (r: &T)
        ensures
            *r == self.raw_ash_handle(),
    ;
}

/// A wrapper around one native handle.
pub trait HasRawVkHandle<T> {
    /// The handle that this wrapper owns or refers to.
    spec fn raw_handle(&self) -> T;

    fn get_vk_handle(&self) -> (r: T)
        ensures
            r == self.raw_handle(),
    ;
}

} // verus!
