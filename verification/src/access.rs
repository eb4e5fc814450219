use vstd::prelude::*;

/// Information to diverge some access trait implementations.
pub mod target;

verus! {

/// Indicates access into fields.
pub trait Take<T, Target> {
    /// The field that is accessed.
    spec fn held(&self) -> T;

    /// Shared access into the field.
    fn take_ref(&self) -> (field: &T)
        ensures
            *field == self.held(),
    ;

    /// Mutable access into the field.
    fn take_mut(&mut self) -> (field: &mut T)
        ensures
            *field == old(self).held(),
            final(self).held() == *final(field),
    ;
}

/// Indicates access into fields.
pub trait TakeOwned<T, Target>: Sized {
    /// Taking the field out of this value may give `field`.
    spec fn gives(self, field: T) -> bool;

    /// Takes the field out, and gives up the rest.
    fn take_owned(self) -> (field: T)
        ensures
            self.gives(field),
    ;
}

} // verus!
