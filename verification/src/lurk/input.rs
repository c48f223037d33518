//! The arguments that the Lurk entry point takes: a block of field elements
//! that holds the tag and the digest of the expression to evaluate.

use p3_baby_bear::BabyBear;
use p3_field::AbstractField;
use vstd::prelude::*;

verus! {

/// An element of the Baby Bear prime field, as the `p3-baby-bear` crate
/// defines it. Nothing is known of what a value holds.
#[verifier::external_type_specification]
#[verifier::external_body]
pub struct ExBabyBear(p3_baby_bear::BabyBear);

/// The number of field elements in the entry point's arguments.
pub const INPUT_SIZE: usize = 24;

/// The number of field elements in a digest.
pub const DIGEST_SIZE: usize = 8;

/// The position at which the digest starts.
pub const DIGEST_START: usize = 8;

/// The field's zero, from `AbstractField::zero`. The contract says nothing
/// of the value: to the verifier it is some field element.
#[verifier::external_body]
fn field_zero() -> (zero: BabyBear) {
    BabyBear::zero()
}

/// The block of arguments: the tag first, the digest from position 8 on,
/// and `filler` everywhere else.
pub open spec fn framed(filler: BabyBear, tag: BabyBear, digest: Seq<BabyBear>) -> Seq<BabyBear>
    recommends
        digest.len() == DIGEST_SIZE,
{
    Seq::new(
        INPUT_SIZE as nat,
        |i: int|
            if i == 0 {
                tag
            } else if DIGEST_START <= i < DIGEST_START + DIGEST_SIZE {
                digest[i - DIGEST_START]
            } else {
                filler
            },
    )
}

/// Lays out the block of arguments around a given filler element.
pub fn frame_input(filler: BabyBear, tag: BabyBear, digest: &[BabyBear; 8]) -> (input: [BabyBear;
    24])
    ensures
        input@ == framed(filler, tag, digest@),
{
    let mut full_input: [BabyBear; 24] = [filler; 24];
    full_input[0] = tag;
    let mut k: usize = 0;
    while k < DIGEST_SIZE
        invariant
            k <= DIGEST_SIZE,
            full_input@.len() == INPUT_SIZE,
            forall|i: int|
                0 <= i < INPUT_SIZE ==> full_input@[i] == (if i == 0 {
                    tag
                } else if DIGEST_START <= i < DIGEST_START + k {
                    digest@[i - DIGEST_START]
                } else {
                    filler
                }),
        decreases DIGEST_SIZE - k,
    {
        full_input[DIGEST_START + k] = digest[k];
        k = k + 1;
    }
    full_input
}

/// Lays out the block of arguments for an expression with the given tag and
/// digest, filled up with the field's zero. Whatever element the field
/// hands out as its zero, it is the one at every position that holds
/// neither the tag nor the digest, such as position 1.
pub fn lurk_main_input(tag: BabyBear, digest: &[BabyBear; 8]) -> (input: [BabyBear; 24])
    ensures
        input@ == framed(input@[1], tag, digest@),
{
    frame_input(field_zero(), tag, digest)
}

} // verus!
