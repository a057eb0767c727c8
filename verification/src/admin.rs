//! Whether the admin surface may be brought up at all.

use crate::request::Deployment;
use vstd::prelude::*;

verus! {

/// Whether the admin surface may mount: only outside production deployment.
/// The surrounding program mounts the admin routes when this returns true and
/// refuses to start otherwise.
pub fn mount(deployment: &Deployment) -> (allowed: bool)
    ensures
        allowed <==> *deployment is Test,
{
    !deployment.is_prod()
}

} // verus!
