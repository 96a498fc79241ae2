//! Traits shared by the two entity types.

use vstd::prelude::*;

verus! {

/// An entity with an immutable integer identity.
pub trait Identifiable {
    /// The identity, at the specification level.
    spec fn spec_id(&self) -> u32;

    /// Returns the entity's id.
    fn id(&self) -> (r: u32)
        ensures
            r == self.spec_id(),
    ;
}

/// An entity that can render a one-line log entry about itself.
pub trait Loggable {
    /// The exact characters of the log line.
    spec fn spec_log_line(&self) -> Seq<char>;

    /// Returns the log line.
    fn log_info(&self) -> (r: String)
        ensures
            r@ == self.spec_log_line(),
    ;
}

} // verus!
