//! The ways in which building a table and looking a digest up can fail.

use vstd::prelude::*;

verus! {

/// Why a chain or a table was not built.
#[derive(Clone, Copy, Debug, PartialEq, Eq, Structural)]
pub enum ConstructionError {
    /// The number of seeds handed in differs from the number of samples asked for.
    SeedCountMismatch,
    /// The chain length is zero.
    ZeroLengthChain,
}

/// Why a digest was not decoded.
#[derive(Clone, Copy, Debug, PartialEq, Eq, Structural)]
pub enum LookupError {
    /// The digest is not sixteen bytes long.
    MalformedDigest,
    /// No position of the digest in a chain leads to a stored endpoint.
    NotFound,
    /// A stored endpoint was reached, but its chain does not pass through the
    /// digest: two chains merged.
    NotFoundInChain,
}

impl ConstructionError {
    /// A sentence for the operator.
    pub fn message(&self) -> (text: &'static str)
        ensures
            text@ == match *self {
                ConstructionError::SeedCountMismatch =>
                    "seed vector must be the same length as the sample length of table"@,
                ConstructionError::ZeroLengthChain =>
                    "A zero-lengthed chain is not much of a chain."@,
            },
    {
        match self {
            ConstructionError::SeedCountMismatch =>
                "seed vector must be the same length as the sample length of table",
            ConstructionError::ZeroLengthChain => "A zero-lengthed chain is not much of a chain.",
        }
    }
}

impl LookupError {
    /// A sentence for the operator.
    pub fn message(&self) -> (text: &'static str)
        ensures
            text@ == match *self {
                LookupError::MalformedDigest =>
                    "Unexpected input hash pointer format! Should be array of 16 u8s"@,
                LookupError::NotFound => "Cannot find hash inside table."@,
                LookupError::NotFoundInChain => "Cannot find hash inside backchain."@,
            },
    {
        match self {
            LookupError::MalformedDigest =>
                "Unexpected input hash pointer format! Should be array of 16 u8s",
            LookupError::NotFound => "Cannot find hash inside table.",
            LookupError::NotFoundInChain => "Cannot find hash inside backchain.",
        }
    }
}

} // verus!
