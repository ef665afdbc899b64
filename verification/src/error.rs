use vstd::prelude::*;

verus! {

/// A failure reported by the external export mechanism, reduced to its kind.
///
/// The variants mirror the mechanism's own error type one for one; the
/// payload each of those variants carries (an I/O error value or a message)
/// is dropped at the boundary, since this library exposes no nested detail.
#[derive(Clone, Copy, Debug, PartialEq, Eq)]
pub enum MechFailure {
    /// A low-level I/O condition stopped the operation.
    Io,
    /// The mechanism read unusual data from the pin's resource.
    Unexpected,
    /// The pin's resource path is invalid.
    InvalidPath,
    /// The operation is not supported on the running system.
    Unsupported,
}

/// The library's stable error taxonomy: exactly three kinds, flat, with no
/// nested detail payload exposed to callers.
#[derive(Clone, Copy, Debug, PartialEq, Eq)]
pub enum Error {
    /// The underlying operation could not complete due to a low-level I/O
    /// condition.
    IOError,
    /// The pin id or its corresponding resource path is invalid or
    /// unavailable.
    Invalid,
    /// Any mechanism failure not classified as the other two kinds.
    Unexpected,
}

/// The total classification of mechanism failures into the error taxonomy:
/// an I/O condition maps to the I/O error, an invalid resource path maps to
/// the invalid-target error, and every other failure counts as unexpected.
pub open spec fn mapped_error(k: MechFailure) -> Error {
    match k {
        MechFailure::Io => Error::IOError,
        MechFailure::InvalidPath => Error::Invalid,
        MechFailure::Unexpected => Error::Unexpected,
        MechFailure::Unsupported => Error::Unexpected,
    }
}

/// Classify a mechanism failure into the error taxonomy.
pub fn error_of(k: MechFailure) -> (e: Error)
    ensures
        e == mapped_error(k),
{
    match k {
        MechFailure::Io => Error::IOError,
        MechFailure::InvalidPath => Error::Invalid,
        MechFailure::Unexpected => Error::Unexpected,
        MechFailure::Unsupported => Error::Unexpected,
    }
}

/// Law: the classification is faithful. An I/O failure alone yields the I/O
/// error, an invalid-path failure alone yields the invalid-target error, and
/// exactly the remaining failure kinds yield the unexpected error — so no
/// failure kind is silently reclassified.
pub proof fn lemma_error_mapping_faithful()
    ensures
        forall|k: MechFailure| #[trigger] mapped_error(k) == Error::IOError <==> k == MechFailure::Io,
        forall|k: MechFailure| #[trigger] mapped_error(k) == Error::Invalid <==> k == MechFailure::InvalidPath,
        forall|k: MechFailure| #[trigger] mapped_error(k) == Error::Unexpected
            <==> (k == MechFailure::Unexpected || k == MechFailure::Unsupported),
{
}

} // verus!
