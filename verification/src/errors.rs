use vstd::prelude::*;

verus! {

/// The fatal errors of a run. Malformed entries inside a listing page are
/// not errors: they are silently skipped during transformation.
#[derive(Clone, Copy, Debug, PartialEq, Eq, Structural)]
pub enum MoveError {
    /// The location string does not match `s3://container/keypath`.
    MalformedLocation,
    /// A supplied region override does not name a known store region.
    UnknownRegion,
    /// The filter pattern is not a valid regular expression.
    InvalidPattern,
    /// The storage service reported a failure while listing a page.
    StorageApi,
}

pub open spec fn spec_message(e: MoveError) -> Seq<char> {
    match e {
        MoveError::MalformedLocation => "malformed location: expected s3://container/keypath"@,
        MoveError::UnknownRegion => "unknown region"@,
        MoveError::InvalidPattern => "invalid filter pattern"@,
        MoveError::StorageApi => "storage api error"@,
    }
}

impl MoveError {
    /// A human-readable description, printed at the top level before a
    /// non-zero exit.
    pub fn message(&self) -> (r: &'static str)
        ensures
            r@ == spec_message(*self),
    {
        match self {
            MoveError::MalformedLocation => "malformed location: expected s3://container/keypath",
            MoveError::UnknownRegion => "unknown region",
            MoveError::InvalidPattern => "invalid filter pattern",
            MoveError::StorageApi => "storage api error",
        }
    }
}

} // verus!
