//! The home resource: the body of the document served at the root of the
//! service.

use vstd::prelude::*;

verus! {

/// The body of the home resource representation.
pub struct Output {
    /// The name the service presents itself under.
    pub name: String,
}

/// Build the body of the home resource. The surrounding application wraps it
/// in its document envelope, with the `self` link, an OK status and the
/// caching headers, and serves it.
pub fn handle() -> (output: Output)
    ensures
        output.name@ == "Graham"@,
{
    Output { name: "Graham".to_owned() }
}

} // verus!
