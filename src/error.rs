use vstd::prelude::*;

verus! {

/// Why an operation on properties, activities or the registry failed.
#[derive(Debug, Clone, Copy, PartialEq, Eq, Structural)]
pub enum DynError {
    /// No activity of that name is registered.
    ActivityNotFound,
    /// The activity has no property of that name.
    PropertyNotFound,
    /// An activity of that name is registered already.
    ActivityAlreadyRegistered,
    /// The activity has a property of that name already.
    PropertyAlreadyExists,
    /// The activity to remove was not registered.
    ActivityNotRegistered,
    /// The new value's type differs from the property's type.
    TypeMismatch,
    /// The receiving end of the update channel is gone.
    ChannelClosed,
    /// The presentation layer could not be told of the change.
    PresentationSyncFailure,
}

} // verus!
