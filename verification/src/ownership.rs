//! Who destroys a native handle. The mode is passed at every crossing from
//! one API layer to the next, each of which has its own way of being told.

use vstd::prelude::*;

verus! {

/// Who destroys a native handle once its wrapper is discarded.
#[derive(Clone, Copy, Debug, PartialEq, Eq, Structural)]
pub enum OwnershipMode {
    /// The wrapper destroys the handle.
    Owned,
    /// The caller destroys the handle, after the wrapper is gone.
    Borrowed,
}

/// Whether the abstraction layer destroys a wrapped native instance when the
/// wrapper is dropped: it does so exactly when it was given a drop guard.
pub open spec fn layer_destroys_instance(drop_guard: bool) -> bool {
    drop_guard
}

/// Whether the abstraction layer destroys a wrapped native device when the
/// wrapper is dropped: it does so exactly when it was told that it owns the
/// handle.
pub open spec fn layer_destroys_device(handle_is_owned: bool) -> bool {
    handle_is_owned
}

/// Whether the abstraction layer destroys an imported native image when the
/// texture is destroyed: it does so exactly when it was given no drop guard.
pub open spec fn layer_destroys_image(drop_guard: bool) -> bool {
    !drop_guard
}

impl OwnershipMode {
    /// The mode that a yes-or-no answer to "does the wrapper own it" stands for.
    pub fn from_owned(owned: bool) -> (r: Self)
        ensures
            r == if owned {
                OwnershipMode::Owned
            } else {
                OwnershipMode::Borrowed
            },
    {
        if owned {
            OwnershipMode::Owned
        } else {
            OwnershipMode::Borrowed
        }
    }

    /// Whether the wrapper destroys the handle.
    pub open spec fn owned(self) -> bool {
        self == OwnershipMode::Owned
    }

    /// Whether the wrapper destroys the handle.
    pub fn is_owned(self) -> (r: bool)
        ensures
            r == self.owned(),
    {
        match self {
            OwnershipMode::Owned => true,
            OwnershipMode::Borrowed => false,
        }
    }

    /// Whether a drop guard goes with a native instance that is handed to the
    /// abstraction layer.
    pub fn instance_drop_guard(self) -> (r: bool)
        ensures
            r == self.owned(),
            layer_destroys_instance(r) == self.owned(),
    {
        self.is_owned()
    }

    /// What the abstraction layer is told of a native device that is handed
    /// to it: whether it owns the handle.
    pub fn device_handle_is_owned(self) -> (r: bool)
        ensures
            r == self.owned(),
            layer_destroys_device(r) == self.owned(),
    {
        self.is_owned()
    }

    /// Whether a drop guard goes with a native image that is imported as a
    /// texture.
    pub fn image_drop_guard(self) -> (r: bool)
        ensures
            r == !self.owned(),
            layer_destroys_image(r) == self.owned(),
    {
        !self.is_owned()
    }
}

} // verus!
