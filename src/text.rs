//! Fixed-width text fields in the Shift JIS encoding.
use vstd::prelude::*;
use crate::bytes::{put_all, put_zeros, zeros};
use crate::error::UnparseError;

verus! {

/// The Shift JIS bytes of a text.
pub uninterp spec fn shift_jis_of(s: Seq<char>) -> Seq<u8>;

/// Relies on `encoding_rs::SHIFT_JIS.encode`: the bytes that Shift JIS gives
/// the text, which depend on the text alone.
#[verifier::external_body]
fn encode_shift_jis(s: &str) -> (r: Vec<u8>)
    ensures
        r@ == shift_jis_of(s@),
{
    encoding_rs::SHIFT_JIS.encode(s).0.into_owned()
}

/// `b` followed by zeros up to `budget` bytes.
pub open spec fn padded(b: Seq<u8>, budget: nat) -> Seq<u8> {
    b + zeros((budget - b.len()) as nat)
}

/// The text's field of `budget` bytes: its Shift JIS bytes, zero-padded.
pub open spec fn text_field(s: Seq<char>, budget: nat) -> Seq<u8> {
    padded(shift_jis_of(s), budget)
}

/// Whether the text's Shift JIS bytes fit in `budget` bytes.
pub open spec fn text_fits(s: Seq<char>, budget: nat) -> bool {
    shift_jis_of(s).len() <= budget
}

/// Appends already encoded text as a field of `budget` bytes; fails, writing
/// nothing, when it does not fit.
pub fn put_padded(out: &mut Vec<u8>, encoded: &[u8], budget: usize) -> (r: Result<(), UnparseError>)
    ensures
        r is Ok <==> encoded@.len() <= budget,
        r is Ok ==> final(out)@ == old(out)@ + padded(encoded@, budget as nat),
        r is Err ==> r == Err::<(), UnparseError>(UnparseError::TextTooLong) && final(out)@ == old(out)@,
{
    if encoded.len() > budget {
        return Err(UnparseError::TextTooLong);
    }
    put_all(out, encoded);
    put_zeros(out, budget - encoded.len());
    assert(final(out)@ =~= old(out)@ + padded(encoded@, budget as nat));
    Ok(())
}

/// Appends `s` in Shift JIS as a field of `budget` bytes; fails, writing
/// nothing, when it does not fit.
pub fn write_shift_jis(out: &mut Vec<u8>, s: &String, budget: usize) -> (r: Result<(), UnparseError>)
    ensures
        r is Ok <==> text_fits(s@, budget as nat),
        r is Ok ==> final(out)@ == old(out)@ + text_field(s@, budget as nat),
        r is Err ==> r == Err::<(), UnparseError>(UnparseError::TextTooLong) && final(out)@ == old(out)@,
{
    let bytes = encode_shift_jis(s.as_str());
    put_padded(out, bytes.as_slice(), budget)
}

} // verus!
