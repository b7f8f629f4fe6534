//! The streaming BLAKE3 hasher, as the liveness verifier sees it.

use vstd::prelude::*;

verus! {

/// `blake3::Hasher`, carried as an opaque value.
#[verifier::external_type_specification]
#[verifier::external_body]
pub struct ExHasher(blake3::Hasher);

/// The 32-byte BLAKE3 digest of `data` in the regular (unkeyed) mode.
pub uninterp spec fn blake3_hash(data: Seq<u8>) -> Seq<u8>;

/// The bytes that `hasher` has absorbed so far, in order.
pub uninterp spec fn hasher_input(hasher: blake3::Hasher) -> Seq<u8>;

/// Whether `hasher` hashes in the regular mode from input offset zero.
pub uninterp spec fn hasher_is_regular(hasher: blake3::Hasher) -> bool;

/// `blake3::Hasher::new`: a hasher in the regular mode that has absorbed
/// nothing yet.
#[verifier::external_body]
pub(crate) fn hasher_new() -> (hasher: blake3::Hasher)
    ensures
        hasher_is_regular(hasher),
        hasher_input(hasher) == Seq::<u8>::empty(),
{
    blake3::Hasher::new()
}

/// `blake3::Hasher::update`: appends `input` to what the hasher has absorbed.
/// The mode does not change. Only a hasher at a non-zero input offset can
/// refuse input, so a regular one is asked for.
#[verifier::external_body]
pub(crate) fn hasher_update(hasher: &mut blake3::Hasher, input: &[u8])
    requires
        hasher_is_regular(*old(hasher)),
    ensures
        hasher_is_regular(*final(hasher)),
        hasher_input(*final(hasher)) == hasher_input(*old(hasher)) + input@,
{
    hasher.update(input);
}

/// `blake3::Hasher::finalize`, then `blake3::Hash::as_bytes`: the digest of
/// everything absorbed, which equals the one-shot hash of the same bytes.
#[verifier::external_body]
pub(crate) fn hasher_finalize(hasher: &blake3::Hasher) -> (digest: [u8; 32])
    requires
        hasher_is_regular(*hasher),
    ensures
        digest@ == blake3_hash(hasher_input(*hasher)),
{
    *hasher.finalize().as_bytes()
}

} // verus!
