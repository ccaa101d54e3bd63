use vstd::prelude::*;

verus! {

/// Every way a relay step can fail.
#[derive(Debug, Clone, Copy, PartialEq, Eq, Structural)]
pub enum RelayError {
    /// The chain identifier is empty.
    MalformedChainId,
    /// The chain identifier of a block could not be read as a chain identity.
    IdentifierParseError,
    /// The trusting period exceeds the unbonding period, or the trust
    /// threshold is not a fraction in `(0, 1]`.
    InvalidTrustParameters,
    /// A height does not fit the width of the contract's fields.
    NumericOverflow,
    /// A commitment root or validator-set hash is not 32 bytes long.
    MalformedDigest,
    /// A trusted height is zero: no client has been initialized.
    ZeroTrustedHeight,
    /// The client is frozen and takes no update.
    ClientFrozen,
    /// The target height does not lie above the trusted height.
    HeightNotIncreasing,
    /// No key path was requested.
    EmptyKeyPaths,
    /// A query answered for another key than the one requested.
    KeyMismatch,
    /// A query returned no proof nodes.
    EmptyProofError,
    /// A query answered at another height than the one requested.
    HeightMismatch,
    /// The number of query answers differs from the number of key paths.
    ResponseCountMismatch,
    /// A proof's public output disagrees with the request it was made for.
    OutputInconsistency,
    /// A proof's public output could not be decoded.
    MalformedOutput,
    /// The proof is not a hex string.
    MalformedProof,
}

} // verus!
