use vstd::prelude::*;

verus! {

/// Every failure the access layer can report.
///
/// Each sentinel of the native engine (a null pointer, a negative code) and
/// each value that cannot cross the boundary maps to exactly one variant.
#[derive(Debug)]
pub enum AgcError {
    /// The archive could not be opened; `path` is the path that was tried.
    Open { path: String },
    /// Caller-supplied text holds an embedded NUL byte and cannot be passed on.
    Encoding { text: String },
    /// The contig `name` (in `sample`, if one was given) was not found.
    NotFound { sample: Option<String>, name: String },
    /// The archive names no reference sample.
    NoReferenceSample,
    /// The engine failed to produce a sample or contig listing.
    ListFailed,
    /// The engine failed to extract the range `[start, end]` of contig `name`.
    SequenceFetchFailed { sample: Option<String>, name: String, start: i32, end: i32 },
    /// Bytes handed back by the engine are not valid UTF-8.
    Decoding,
    /// The archive has been closed and takes no more queries.
    Closed,
}

} // verus!

verus! {

/// True when the owned name `a` holds the same text as the borrowed `b`.
pub open spec fn same_name(a: Option<String>, b: Option<&str>) -> bool {
    match (a, b) {
        (None, None) => true,
        (Some(x), Some(y)) => x@ == y@,
        _ => false,
    }
}

/// `e` reports that contig `name` of `sample` was not found.
pub open spec fn is_not_found(e: AgcError, sample: Option<&str>, name: &str) -> bool {
    e matches AgcError::NotFound { sample: s, name: n } && same_name(s, sample) && n@ == name@
}

/// `e` reports a failed extraction of `[start, end]` from contig `name` of `sample`.
pub open spec fn is_fetch_failure(
    e: AgcError,
    sample: Option<&str>,
    name: &str,
    start: i32,
    end: i32,
) -> bool {
    &&& e matches AgcError::SequenceFetchFailed { sample: s, name: n, start: a, end: b }
    &&& same_name(s, sample)
    &&& n@ == name@
    &&& a == start
    &&& b == end
}

/// Copies an optional borrowed name into an owned one.
pub fn owned_name(s: Option<&str>) -> (r: Option<String>)
    ensures
        same_name(r, s),
{
    match s {
        None => None,
        Some(t) => Some(t.to_owned()),
    }
}

} // verus!
