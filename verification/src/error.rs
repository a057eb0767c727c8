//! Internal errors with an opaque correlation reference.
//!
//! Every internal failure is logged server-side in full and answered outward
//! by a generic error page that shows only a freshly generated reference, so
//! that a user can report the failure without internal detail leaking.

use vstd::prelude::*;

verus! {

/// Relies on `uuid::Uuid::new_v4` and its `Display` form: a random
/// version-4 UUID rendered hyphenated, which is always 36 ASCII characters.
/// The value itself is random; nothing more is assumed of it.
#[verifier::external_body]
fn fresh_reference() -> (r: String)
    ensures
        r@.len() == 36,
{
    uuid::Uuid::new_v4().to_string()
}

/// A tagged internal error: the full cause, kept for the server-side log,
/// and the opaque reference echoed to the user.
pub struct Error {
    reference: String,
    cause: String,
}

impl Error {
    pub closed spec fn spec_reference(&self) -> Seq<char> {
        self.reference@
    }

    pub closed spec fn spec_cause(&self) -> Seq<char> {
        self.cause@
    }

    /// Wraps a cause under a freshly generated reference. The reference is
    /// random: nothing relates it to the cause or to other references.
    pub fn new(cause: String) -> (e: Error)
        ensures
            e.spec_cause() == cause@,
            e.spec_reference().len() == 36,
    {
        Error { reference: fresh_reference(), cause }
    }

    /// The opaque reference, for the error page and the log line.
    pub fn reference(&self) -> (r: &String)
        ensures
            r@ == self.spec_reference(),
    {
        &self.reference
    }

    /// The full cause, for the server-side log only.
    pub fn cause(&self) -> (r: &String)
        ensures
            r@ == self.spec_cause(),
    {
        &self.cause
    }
}

} // verus!
