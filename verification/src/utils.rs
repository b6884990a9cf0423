//! Small arithmetic helpers shared by the engine.

use vstd::prelude::*;

verus! {

/// The Unicode lowercase mapping of a character sequence, as
/// `str::to_lowercase` computes it.
pub uninterp spec fn lower_of(s: Seq<char>) -> Seq<char>;

/// Every character is ASCII and no uppercase letter stands among them,
/// so the Unicode lowercase mapping leaves the sequence unchanged.
pub open spec fn spec_ascii_no_uppercase(s: Seq<char>) -> bool {
    forall|i: int|
        0 <= i < s.len() ==> ((#[trigger] s[i]) as u32) < 128 && !(65 <= s[i] as u32 <= 90)
}

/// Relies on str::to_lowercase: the result is the Unicode lowercase
/// mapping of the input and depends on its characters alone.  The
/// mapping turns each character into one or more characters, so only
/// the empty string maps to the empty string; within ASCII it rewrites
/// the uppercase letters alone, so a string of ASCII characters with no
/// uppercase letter among them is its own lowercase.
#[verifier::external_body]
pub(crate) fn lowercase(s: &String) -> (r: String)
    ensures
        r@ == lower_of(s@),
        (r@.len() == 0) <==> (s@.len() == 0),
        spec_ascii_no_uppercase(s@) ==> r@ == s@,
{
    s.to_lowercase()
}

/// Offsets an unsigned coordinate by a signed step.
///
/// Used to move a row index along a piece's direction of travel; the
/// caller must make sure the step keeps the result inside `usize`.
pub fn add(u: usize, i: i32) -> (r: usize)
    requires
        u as int + i as int >= 0,
        u as int + i as int <= usize::MAX as int,
    ensures
        r as int == u as int + i as int,
{
    if i < 0 {
        let mag: usize = (0i64 - (i as i64)) as usize;
        u - mag
    } else {
        u + (i as usize)
    }
}

} // verus!
