//! Signatures: secp256k1 ECDSA over SHA-256 message digests, and the
//! multisignature threshold that governance actions require.

pub mod multisig;
pub mod signatures;
