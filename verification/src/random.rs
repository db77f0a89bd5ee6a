//! Random identifiers (as used for scratch repositories): texts made of
//! lower-case ASCII letters and digits.
use vstd::prelude::*;
use rand::Rng;
use crate::text::push_char;

verus! {

/// The characters that a random identifier is made of.
pub const IDENT_CHAR: &'static str = "abcdefghijklmnopqrstuvwxyz0123456789";

/// The length of a random identifier.
pub const IDENT_LENGTH: u8 = 8;

/// The characters that a random identifier is made of, as a sequence.
pub open spec fn ident_chars() -> Seq<char> {
    "abcdefghijklmnopqrstuvwxyz0123456789"@
}

/// Calls `rand::thread_rng().gen_range(0, n)`: a number at least 0 and
/// below `n`, drawn at random (`gen_range` panics unless `0 < n`).
#[verifier::external_body]
fn random_below(n: usize) -> (r: usize)
    requires
        n > 0,
    ensures
        r < n,
{
    rand::thread_rng().gen_range(0, n)
}

/// The text whose characters are those of [`IDENT_CHAR`] at the given positions.
pub fn ident_text(picks: &Vec<usize>) -> (r: String)
    requires
        forall|i: int| 0 <= i < picks@.len() ==> picks@[i] < 36,
    ensures
        r@ == picks@.map_values(|p: usize| ident_chars()[p as int]),
{
    proof {
        reveal_strlit("abcdefghijklmnopqrstuvwxyz0123456789");
    }
    assert(IDENT_CHAR@.len() == 36);
    let mut r = String::new();
    let mut i: usize = 0;
    while i < picks.len()
        invariant
            i <= picks.len(),
            IDENT_CHAR@ == ident_chars(),
            ident_chars().len() == 36,
            forall|k: int| 0 <= k < picks@.len() ==> picks@[k] < 36,
            r@ == picks@.subrange(0, i as int).map_values(|p: usize| ident_chars()[p as int]),
        decreases picks.len() - i,
    {
        let c = IDENT_CHAR.get_char(picks[i]);
        push_char(&mut r, c);
        proof {
            assert(picks@.subrange(0, i + 1) =~= picks@.subrange(0, i as int).push(picks@[i as int]));
            assert(r@ =~= picks@.subrange(0, i + 1).map_values(|p: usize| ident_chars()[p as int]));
        }
        i = i + 1;
    }
    proof {
        assert(picks@.subrange(0, i as int) =~= picks@);
    }
    r
}

/// A random text of `l` characters, each taken from [`IDENT_CHAR`].
pub fn rand_text(l: u8) -> (r: String)
    ensures
        r@.len() == l,
        forall|i: int| 0 <= i < r@.len() ==> ident_chars().contains(#[trigger] r@[i]),
{
    proof {
        reveal_strlit("abcdefghijklmnopqrstuvwxyz0123456789");
    }
    let mut picks: Vec<usize> = Vec::new();
    let mut i: u8 = 0;
    while i < l
        invariant
            i <= l,
            picks@.len() == i,
            forall|k: int| 0 <= k < picks@.len() ==> picks@[k] < 36,
        decreases l - i,
    {
        let p = random_below(36);
        picks.push(p);
        i = i + 1;
    }
    let r = ident_text(&picks);
    proof {
        assert forall|k: int| 0 <= k < r@.len() implies ident_chars().contains(#[trigger] r@[k]) by {
            assert(r@[k] == ident_chars()[picks@[k] as int]);
        }
    }
    r
}

/// A random identifier of [`IDENT_LENGTH`] characters.
pub fn rand_ident() -> (r: String)
    ensures
        r@.len() == IDENT_LENGTH,
        forall|i: int| 0 <= i < r@.len() ==> ident_chars().contains(#[trigger] r@[i]),
{
    rand_text(IDENT_LENGTH)
}

} // verus!
