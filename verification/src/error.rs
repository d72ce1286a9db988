use vstd::prelude::*;
use vstd::string::StringExecFns;

verus! {

/// Errors that the simulation reports back to its callers.
#[derive(Debug, Clone, Copy, PartialEq, Eq)]
pub enum Error {
    GridSizeError(&'static str),
    VectorLengthMismatch(&'static str),
    NoParticlesFound(&'static str),
    OutOfGridBounds(&'static str),
}

/// The text that comes before the detail of an error in its message.
pub open spec fn message_prefix(e: Error) -> Seq<char> {
    match e {
        Error::GridSizeError(_) => "Grid layout invalidly set: `"@,
        Error::VectorLengthMismatch(_) => "Mismatched vector lengths: `"@,
        Error::NoParticlesFound(_) => "No particles found: `"@,
        Error::OutOfGridBounds(_) => "Out of grid bounds: `"@,
    }
}

/// The detail that an error carries.
pub open spec fn message_detail(e: Error) -> Seq<char> {
    match e {
        Error::GridSizeError(s) => s@,
        Error::VectorLengthMismatch(s) => s@,
        Error::NoParticlesFound(s) => s@,
        Error::OutOfGridBounds(s) => s@,
    }
}

/// The full human-readable message of an error.
pub open spec fn spec_message(e: Error) -> Seq<char> {
    message_prefix(e) + message_detail(e) + "`"@
}

impl Error {
    /// The human-readable message of this error, its detail quoted in backticks.
    pub fn message(&self) -> (res: String)
        ensures
            res@ == spec_message(*self),
    {
        let (prefix, detail): (&str, &str) = match self {
            Error::GridSizeError(s) => ("Grid layout invalidly set: `", *s),
            Error::VectorLengthMismatch(s) => ("Mismatched vector lengths: `", *s),
            Error::NoParticlesFound(s) => ("No particles found: `", *s),
            Error::OutOfGridBounds(s) => ("Out of grid bounds: `", *s),
        };
        let mut res = String::from_str(prefix);
        res.append(detail);
        res.append("`");
        res
    }
}

} // verus!
