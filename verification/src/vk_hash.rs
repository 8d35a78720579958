//! The hash of a SNARK wrapper verification key.
//!
//! What is hashed is the list of curve points of the key: its gate setup,
//! gate selector, permutation, lookup selector, lookup table and lookup table
//! type points, in that order, each point as the big-endian bytes of its
//! x and y coordinates, followed by the zero field element that stands for the
//! flag "no recursive part". The Keccak-256 digest of those bytes is the hash.
use crate::field_bytes::{
    lemma_point_be_bytes_injective, lemma_points_be_bytes_blocks, lemma_points_be_bytes_injective,
    point_be_bytes, points_be_bytes, repr_be_bytes, write_points_be, zero_repr, FieldRepr,
    G1Coordinates,
};
use crate::keccak::{keccak256, keccak256_digest};
use vstd::prelude::*;

verus! {

/// Number of gate setup commitments a hashed key carries.
pub const GATE_SETUP_COMMITMENTS: usize = 8;

/// Number of gate selector commitments a hashed key carries.
pub const GATE_SELECTORS_COMMITMENTS: usize = 2;

/// Number of permutation commitments a hashed key carries.
pub const PERMUTATION_COMMITMENTS: usize = 4;

/// Number of lookup table commitments a hashed key carries.
pub const LOOKUP_TABLES_COMMITMENTS: usize = 4;

/// Number of bytes that are hashed for a key of the expected shape:
/// 20 points of 64 bytes each and one field element of 32 bytes.
pub const VK_HASH_PREIMAGE_LEN: usize = 1312;

/// The commitments of a SNARK wrapper verification key, each point given by
/// the canonical representations of its affine coordinates.
#[derive(Clone, Debug, PartialEq, Eq)]
pub struct VkCommitments {
    pub gate_setup_commitments: Vec<G1Coordinates>,
    pub gate_selectors_commitments: Vec<G1Coordinates>,
    pub permutation_commitments: Vec<G1Coordinates>,
    pub lookup_selector_commitment: Option<G1Coordinates>,
    pub lookup_tables_commitments: Vec<G1Coordinates>,
    pub lookup_table_type_commitment: Option<G1Coordinates>,
}

/// Why a key cannot be hashed: the first of its parts, in hashing order, that
/// does not have the expected shape.
#[derive(Clone, Copy, Debug, PartialEq, Eq)]
pub enum VkShapeError {
    GateSetupCommitments { found: usize },
    GateSelectorsCommitments { found: usize },
    PermutationCommitments { found: usize },
    MissingLookupSelector,
    LookupTablesCommitments { found: usize },
    MissingLookupTableType,
}

impl VkCommitments {
    /// The key has the number of commitments of each kind that the hash
    /// expects, and both lookup commitments are present.
    pub open spec fn has_hash_shape(self) -> bool {
        &&& self.gate_setup_commitments@.len() == GATE_SETUP_COMMITMENTS
        &&& self.gate_selectors_commitments@.len() == GATE_SELECTORS_COMMITMENTS
        &&& self.permutation_commitments@.len() == PERMUTATION_COMMITMENTS
        &&& self.lookup_selector_commitment is Some
        &&& self.lookup_tables_commitments@.len() == LOOKUP_TABLES_COMMITMENTS
        &&& self.lookup_table_type_commitment is Some
    }

    /// The first part of the key, in hashing order, whose shape is wrong.
    pub open spec fn first_shape_violation(self) -> Option<VkShapeError> {
        if self.gate_setup_commitments@.len() != GATE_SETUP_COMMITMENTS {
            Some(VkShapeError::GateSetupCommitments { found: self.gate_setup_commitments.len() })
        } else if self.gate_selectors_commitments@.len() != GATE_SELECTORS_COMMITMENTS {
            Some(
                VkShapeError::GateSelectorsCommitments {
                    found: self.gate_selectors_commitments.len(),
                },
            )
        } else if self.permutation_commitments@.len() != PERMUTATION_COMMITMENTS {
            Some(VkShapeError::PermutationCommitments { found: self.permutation_commitments.len() })
        } else if self.lookup_selector_commitment is None {
            Some(VkShapeError::MissingLookupSelector)
        } else if self.lookup_tables_commitments@.len() != LOOKUP_TABLES_COMMITMENTS {
            Some(
                VkShapeError::LookupTablesCommitments {
                    found: self.lookup_tables_commitments.len(),
                },
            )
        } else if self.lookup_table_type_commitment is None {
            Some(VkShapeError::MissingLookupTableType)
        } else {
            None
        }
    }

    /// The two keys carry the same commitments.
    pub open spec fn same_commitments(self, other: VkCommitments) -> bool {
        &&& self.gate_setup_commitments@ == other.gate_setup_commitments@
        &&& self.gate_selectors_commitments@ == other.gate_selectors_commitments@
        &&& self.permutation_commitments@ == other.permutation_commitments@
        &&& self.lookup_selector_commitment == other.lookup_selector_commitment
        &&& self.lookup_tables_commitments@ == other.lookup_tables_commitments@
        &&& self.lookup_table_type_commitment == other.lookup_table_type_commitment
    }

    /// Reports the first part of the key, in hashing order, whose shape is
    /// not the one the hash expects, or `Ok` when the key can be hashed.
    pub fn check_shape(&self) -> (r: Result<(), VkShapeError>)
        ensures
            r is Ok <==> self.has_hash_shape(),
            r is Ok <==> self.first_shape_violation() is None,
            r matches Err(e) ==> self.first_shape_violation() == Some(e),
    {
        if self.gate_setup_commitments.len() != GATE_SETUP_COMMITMENTS {
            return Err(
                VkShapeError::GateSetupCommitments { found: self.gate_setup_commitments.len() },
            );
        }
        if self.gate_selectors_commitments.len() != GATE_SELECTORS_COMMITMENTS {
            return Err(
                VkShapeError::GateSelectorsCommitments {
                    found: self.gate_selectors_commitments.len(),
                },
            );
        }
        if self.permutation_commitments.len() != PERMUTATION_COMMITMENTS {
            return Err(
                VkShapeError::PermutationCommitments { found: self.permutation_commitments.len() },
            );
        }
        if self.lookup_selector_commitment.is_none() {
            return Err(VkShapeError::MissingLookupSelector);
        }
        if self.lookup_tables_commitments.len() != LOOKUP_TABLES_COMMITMENTS {
            return Err(
                VkShapeError::LookupTablesCommitments {
                    found: self.lookup_tables_commitments.len(),
                },
            );
        }
        if self.lookup_table_type_commitment.is_none() {
            return Err(VkShapeError::MissingLookupTableType);
        }
        Ok(())
    }
}

/// The bytes of an optional point: the point's bytes when it is present,
/// nothing otherwise.
pub open spec fn optional_point_be_bytes(p: Option<G1Coordinates>) -> Seq<u8> {
    match p {
        Some(q) => point_be_bytes(q),
        None => Seq::<u8>::empty(),
    }
}

/// The bytes whose Keccak-256 digest is the hash of the key.
pub open spec fn vk_hash_preimage(vk: VkCommitments) -> Seq<u8> {
    points_be_bytes(vk.gate_setup_commitments@) + points_be_bytes(vk.gate_selectors_commitments@)
        + points_be_bytes(vk.permutation_commitments@) + optional_point_be_bytes(
        vk.lookup_selector_commitment,
    ) + points_be_bytes(vk.lookup_tables_commitments@) + optional_point_be_bytes(
        vk.lookup_table_type_commitment,
    ) + repr_be_bytes(zero_repr())
}

/// The hash of the key: the Keccak-256 digest of its preimage.
pub open spec fn spec_verification_key_hash(vk: VkCommitments) -> Seq<u8> {
    keccak256_digest(vk_hash_preimage(vk))
}

/// Writes the bytes that are hashed for `verification_key`: its commitments
/// in hashing order, then the zero field element.
pub fn encode_verification_key(verification_key: &VkCommitments) -> (bytes: Vec<u8>)
    ensures
        bytes@ == vk_hash_preimage(*verification_key),
{
    let mut res: Vec<u8> = Vec::new();
    write_points_be(&mut res, &verification_key.gate_setup_commitments);
    write_points_be(&mut res, &verification_key.gate_selectors_commitments);
    write_points_be(&mut res, &verification_key.permutation_commitments);
    match &verification_key.lookup_selector_commitment {
        Some(p) => p.write_be(&mut res),
        None => {},
    }
    write_points_be(&mut res, &verification_key.lookup_tables_commitments);
    match &verification_key.lookup_table_type_commitment {
        Some(p) => p.write_be(&mut res),
        None => {},
    }
    let flag = FieldRepr::zero();
    flag.write_be(&mut res);
    assert(res@ =~= vk_hash_preimage(*verification_key));
    res
}

/// The hash of a verification key of the expected shape: the Keccak-256
/// digest of the bytes that `encode_verification_key` writes.
pub fn calculate_verification_key_hash(verification_key: VkCommitments) -> (hash: [u8; 32])
    requires
        verification_key.has_hash_shape(),
    ensures
        hash@ == spec_verification_key_hash(verification_key),
        hash@ == keccak256_digest(vk_hash_preimage(verification_key)),
{
    let res = encode_verification_key(&verification_key);
    keccak256(res.as_slice())
}

/// For a key of the expected shape the hashed bytes are, in this order and at
/// these offsets: the 8 gate setup commitments, the 2 gate selector
/// commitments, the 4 permutation commitments, the lookup selector, the 4
/// lookup table commitments, the lookup table type, and 32 zero bytes;
/// 1312 bytes in all.
pub proof fn lemma_vk_hash_preimage_layout(vk: VkCommitments)
    requires
        vk.has_hash_shape(),
    ensures
        vk_hash_preimage(vk).len() == VK_HASH_PREIMAGE_LEN,
        vk_hash_preimage(vk).subrange(0, 512) == points_be_bytes(vk.gate_setup_commitments@),
        vk_hash_preimage(vk).subrange(512, 640) == points_be_bytes(
            vk.gate_selectors_commitments@,
        ),
        vk_hash_preimage(vk).subrange(640, 896) == points_be_bytes(vk.permutation_commitments@),
        vk_hash_preimage(vk).subrange(896, 960) == point_be_bytes(
            vk.lookup_selector_commitment->0,
        ),
        vk_hash_preimage(vk).subrange(960, 1216) == points_be_bytes(
            vk.lookup_tables_commitments@,
        ),
        vk_hash_preimage(vk).subrange(1216, 1280) == point_be_bytes(
            vk.lookup_table_type_commitment->0,
        ),
        forall|i: int| 1280 <= i < 1312 ==> #[trigger] vk_hash_preimage(vk)[i] == 0u8,
{
    lemma_points_be_bytes_blocks(vk.gate_setup_commitments@);
    lemma_points_be_bytes_blocks(vk.gate_selectors_commitments@);
    lemma_points_be_bytes_blocks(vk.permutation_commitments@);
    lemma_points_be_bytes_blocks(vk.lookup_tables_commitments@);
    let a = points_be_bytes(vk.gate_setup_commitments@);
    let b = points_be_bytes(vk.gate_selectors_commitments@);
    let c = points_be_bytes(vk.permutation_commitments@);
    let d = point_be_bytes(vk.lookup_selector_commitment->0);
    let e = points_be_bytes(vk.lookup_tables_commitments@);
    let f = point_be_bytes(vk.lookup_table_type_commitment->0);
    let z = repr_be_bytes(zero_repr());
    let all = vk_hash_preimage(vk);
    assert(all =~= a + b + c + d + e + f + z);
    assert(all.subrange(0, 512) =~= a);
    assert(all.subrange(512, 640) =~= b);
    assert(all.subrange(640, 896) =~= c);
    assert(all.subrange(896, 960) =~= d);
    assert(all.subrange(960, 1216) =~= e);
    assert(all.subrange(1216, 1280) =~= f);
    assert forall|i: int| 1280 <= i < 1312 implies #[trigger] all[i] == 0u8 by {
        assert(all[i] == z[i - 1280]);
        assert(((0u64 >> 56u64) as u8) == 0u8 && ((0u64 >> 48u64) as u8) == 0u8 && ((0u64
            >> 40u64) as u8) == 0u8 && ((0u64 >> 32u64) as u8) == 0u8 && ((0u64 >> 24u64) as u8)
            == 0u8 && ((0u64 >> 16u64) as u8) == 0u8 && ((0u64 >> 8u64) as u8) == 0u8 && (0u64 as u8)
            == 0u8) by (bit_vector);
    }
}

/// The hashed bytes determine the key: two keys of the expected shape whose
/// hashed bytes are equal carry the same commitments.
pub proof fn lemma_vk_hash_preimage_injective(vk1: VkCommitments, vk2: VkCommitments)
    requires
        vk1.has_hash_shape(),
        vk2.has_hash_shape(),
        vk_hash_preimage(vk1) == vk_hash_preimage(vk2),
    ensures
        vk1.same_commitments(vk2),
{
    lemma_vk_hash_preimage_layout(vk1);
    lemma_vk_hash_preimage_layout(vk2);
    lemma_points_be_bytes_injective(vk1.gate_setup_commitments@, vk2.gate_setup_commitments@);
    lemma_points_be_bytes_injective(
        vk1.gate_selectors_commitments@,
        vk2.gate_selectors_commitments@,
    );
    lemma_points_be_bytes_injective(vk1.permutation_commitments@, vk2.permutation_commitments@);
    lemma_point_be_bytes_injective(
        vk1.lookup_selector_commitment->0,
        vk2.lookup_selector_commitment->0,
    );
    lemma_points_be_bytes_injective(
        vk1.lookup_tables_commitments@,
        vk2.lookup_tables_commitments@,
    );
    lemma_point_be_bytes_injective(
        vk1.lookup_table_type_commitment->0,
        vk2.lookup_table_type_commitment->0,
    );
}

/// The hash depends on the commitments only: keys that carry the same
/// commitments have the same hash.
pub proof fn lemma_vk_hash_depends_on_commitments(vk1: VkCommitments, vk2: VkCommitments)
    requires
        vk1.same_commitments(vk2),
    ensures
        vk_hash_preimage(vk1) == vk_hash_preimage(vk2),
        spec_verification_key_hash(vk1) == spec_verification_key_hash(vk2),
{
}

} // verus!
