use vstd::prelude::*;

verus! {

/// What the file system answered about one path: the path asked about and
/// whether something was found there. Its fields are private, so outside this
/// module a value of it only comes from `path_exists`: its answer is the one
/// given for its own path.
#[derive(Debug, Clone)]
pub struct PathCheck {
    path: String,
    found: bool,
}

impl PathCheck {
    /// The path that was asked about.
    pub closed spec fn asked(self) -> Seq<char> {
        self.path@
    }

    /// Whether something was found at that path.
    pub closed spec fn answer(self) -> bool {
        self.found
    }

    /// Whether something was found at the path asked about.
    pub fn found(&self) -> (r: bool)
        ensures
            r == self.answer(),
    {
        self.found
    }
}

/// Whether something is found at `path`: `std::path::Path::exists`, returned
/// together with the path it was asked about. The answer depends on the file
/// system at the moment of the call, so nothing is claimed of it; the contract
/// only says which path the answer belongs to.
#[verifier::external_body]
pub(crate) fn path_exists(path: &str) -> (r: PathCheck)
    ensures
        r.asked() == path@,
{
    PathCheck { path: path.to_string(), found: std::path::Path::new(path).exists() }
}

} // verus!
