//! Checks on anchored registries: their structure, the format of their
//! timestamp proofs, and the hash chain that links each month's registry to
//! the one before it.

use vstd::prelude::*;
use vstd::string::*;
use vstd::utf8::encode_utf8;
use crate::audit::entry::{zero_hash, zero_hash_string};
use crate::digest::{tagged_sha256, tagged_sha256_of};
use crate::ots::anchor::GovernanceRegistry;
use crate::ots::client::{confirmed_height, proof_marker, OtsClient, OtsError, VerificationResult};

verus! {

/// Why a registry's structure is refused.
#[derive(Debug, PartialEq, Eq, Structural)]
pub enum RegistryStructureError {
    EmptyVersion,
    NoMaintainers,
    InvalidMultisig,
}

/// The first structural defect of a registry, if any.
pub open spec fn structure_defect(r: GovernanceRegistry) -> Option<RegistryStructureError> {
    if r.version@.len() == 0 {
        Some(RegistryStructureError::EmptyVersion)
    } else if r.maintainers@.len() == 0 {
        Some(RegistryStructureError::NoMaintainers)
    } else if r.multisig_config.required_signatures == 0 {
        Some(RegistryStructureError::InvalidMultisig)
    } else {
        None
    }
}

/// The message of a structural defect.
pub open spec fn structure_error_text(e: RegistryStructureError) -> Seq<char> {
    match e {
        RegistryStructureError::EmptyVersion => "Registry version is empty"@,
        RegistryStructureError::NoMaintainers => "Registry has no maintainers"@,
        RegistryStructureError::InvalidMultisig => "Invalid multisig configuration"@,
    }
}

impl RegistryStructureError {
    /// The message for this defect.
    pub fn message(&self) -> (r: &'static str)
        ensures
            r@ == structure_error_text(*self),
    {
        match self {
            RegistryStructureError::EmptyVersion => "Registry version is empty",
            RegistryStructureError::NoMaintainers => "Registry has no maintainers",
            RegistryStructureError::InvalidMultisig => "Invalid multisig configuration",
        }
    }
}

/// Checks the fields every registry must fill: a version, at least one
/// maintainer, and a non-zero signature requirement, in that order.
pub fn check_registry_structure(registry: &GovernanceRegistry) -> (r: Result<(), RegistryStructureError>)
    ensures
        r == (match structure_defect(*registry) {
            Some(e) => Err::<(), RegistryStructureError>(e),
            None => Ok(()),
        }),
{
    if registry.version.as_str().unicode_len() == 0 {
        return Err(RegistryStructureError::EmptyVersion);
    }
    if registry.maintainers.len() == 0 {
        return Err(RegistryStructureError::NoMaintainers);
    }
    if registry.multisig_config.required_signatures == 0 {
        return Err(RegistryStructureError::InvalidMultisig);
    }
    Ok(())
}

/// A proof starts with the bytes of the marker.
pub open spec fn has_marker(proof: Seq<u8>) -> bool {
    let m = encode_utf8(proof_marker());
    proof.len() >= m.len() && proof.subrange(0, m.len() as int) == m
}

/// Does the proof start with the marker?
pub fn is_marked_proof(proof: &[u8]) -> (r: bool)
    ensures
        r == has_marker(proof@),
{
    let client = OtsClient::new(String::new());
    match client.verify(proof, proof) {
        Ok(_) => true,
        Err(_) => false,
    }
}

/// Checks the format of a proof: it must start with the marker.
pub fn check_proof_format(proof: &[u8]) -> (r: Result<(), OtsError>)
    ensures
        r is Ok <==> has_marker(proof@),
{
    if is_marked_proof(proof) {
        Ok(())
    } else {
        Err(OtsError::InvalidProofFormat)
    }
}

/// The block height a proof reports: the fixed height for a marked proof,
/// none otherwise.
pub fn proof_block_height(proof: &[u8]) -> (r: Option<u32>)
    ensures
        r == (if has_marker(proof@) { Some(confirmed_height()) } else { None }),
{
    if is_marked_proof(proof) {
        Some(12345)
    } else {
        None
    }
}

/// One registry of a chain, as read from its file: the parsed registry, the
/// raw bytes of its file, and the bytes of its proof file where one exists.
pub struct RegistryLink {
    pub registry: GovernanceRegistry,
    pub file_bytes: Vec<u8>,
    pub ots_proof: Option<Vec<u8>>,
}

/// Why a registry chain is refused.
#[derive(Debug, PartialEq, Eq, Structural)]
pub enum ChainError {
    /// The registry at this position is malformed.
    Structure(u64, RegistryStructureError),
    /// The registry at this position does not name the hash of the one before.
    HashChainBroken(u64),
    /// The proof of the registry at this position has the wrong format.
    InvalidProof(u64),
    /// The proof of the registry at this position is not confirmed.
    NotConfirmed(u64),
}

/// The hash that the registry at position `i` must name as its predecessor:
/// the zero hash for the first, else the tagged SHA-256 of the file before it.
pub open spec fn expected_previous(links: Seq<RegistryLink>, i: int) -> Seq<char> {
    if i == 0 {
        zero_hash()
    } else {
        tagged_sha256(links[i - 1].file_bytes@)
    }
}

/// The link at position `i` passes every check.
pub open spec fn link_valid(links: Seq<RegistryLink>, i: int) -> bool {
    &&& structure_defect(links[i].registry) is None
    &&& links[i].registry.previous_registry_hash@ == expected_previous(links, i)
    &&& (links[i].ots_proof matches Some(p) ==> has_marker(p@))
}

/// The error the first failing link at position `i` gives.
pub open spec fn link_error(links: Seq<RegistryLink>, i: int) -> ChainError {
    if structure_defect(links[i].registry) is Some {
        ChainError::Structure(i as u64, structure_defect(links[i].registry)->0)
    } else if links[i].registry.previous_registry_hash@ != expected_previous(links, i) {
        ChainError::HashChainBroken(i as u64)
    } else {
        ChainError::InvalidProof(i as u64)
    }
}

/// Verifies a chain of registries, oldest first: each must be well formed,
/// name the hash of the file before it (the zero hash for the first), and, if
/// it has a proof, carry a confirmed one. Returns the versions in order, or
/// the error of the first link that fails.
pub fn verify_registry_chain(links: &[RegistryLink]) -> (r: Result<Vec<String>, ChainError>)
    requires
        links@.len() < u64::MAX,
    ensures
        match r {
            Ok(versions) => {
                &&& forall|i: int| 0 <= i < links@.len() ==> link_valid(links@, i)
                &&& versions@.len() == links@.len()
                &&& forall|i: int| 0 <= i < links@.len() ==> #[trigger] versions@[i]@ == links@[i].registry.version@
            },
            Err(e) => exists|k: int|
                0 <= k < links@.len()
                && (forall|i: int| 0 <= i < k ==> link_valid(links@, i))
                && !link_valid(links@, k)
                && e == link_error(links@, k),
        },
{
    let mut versions: Vec<String> = Vec::new();
    let mut previous = zero_hash_string();
    let client = OtsClient::new(String::new());
    let n = links.len();
    let mut i: usize = 0;
    while i < n
        invariant
            n == links@.len(),
            n < u64::MAX,
            i <= n,
            previous@ == expected_previous(links@, i as int),
            forall|j: int| 0 <= j < i ==> link_valid(links@, j),
            versions@.len() == i,
            forall|j: int| 0 <= j < i ==> #[trigger] versions@[j]@ == links@[j].registry.version@,
        decreases n - i,
    {
        let link = &links[i];
        match check_registry_structure(&link.registry) {
            Err(e) => {
                assert(!link_valid(links@, i as int));
                return Err(ChainError::Structure(i as u64, e));
            },
            Ok(()) => {},
        }
        if link.registry.previous_registry_hash != previous {
            assert(!link_valid(links@, i as int));
            return Err(ChainError::HashChainBroken(i as u64));
        }
        match &link.ots_proof {
            Some(p) => {
                match client.verify(link.file_bytes.as_slice(), p.as_slice()) {
                    Ok(res) => {
                        if !res.is_confirmed() {
                            return Err(ChainError::NotConfirmed(i as u64));
                        }
                    },
                    Err(_) => {
                        assert(!link_valid(links@, i as int));
                        return Err(ChainError::InvalidProof(i as u64));
                    },
                }
            },
            None => {},
        }
        assert(link_valid(links@, i as int));
        versions.push(link.registry.version.clone());
        previous = tagged_sha256_of(link.file_bytes.as_slice());
        i = i + 1;
    }
    Ok(versions)
}

} // verus!
