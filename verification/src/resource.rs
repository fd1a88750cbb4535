//! What every resource of the service has in common.

use vstd::prelude::*;

verus! {

/// A resource that the service addresses by a link.
pub trait Resource {
    /// The link under which later requests reach the resource.
    fn uri(&self) -> &str;
}

} // verus!
