//! Text helpers: joining, repeating and concatenating strings.
use vstd::prelude::*;

verus! {

/// `parts` joined with `sep` between each two neighbours.
pub open spec fn join_seqs(parts: Seq<Seq<char>>, sep: Seq<char>) -> Seq<char>
    decreases parts.len(),
{
    if parts.len() == 0 {
        Seq::empty()
    } else if parts.len() == 1 {
        parts[0]
    } else {
        join_seqs(parts.drop_last(), sep) + sep + parts.last()
    }
}

/// `s` repeated `n` times.
pub open spec fn repeat_seq(s: Seq<char>, n: nat) -> Seq<char>
    decreases n,
{
    if n == 0 {
        Seq::empty()
    } else {
        repeat_seq(s, (n - 1) as nat) + s
    }
}

/// The views of a list of strings.
pub open spec fn strings_view(v: Seq<String>) -> Seq<Seq<char>> {
    v.map_values(|s: String| s@)
}

/// Calls `String::push`: appends the character `c`.
#[verifier::external_body]
pub(crate) fn push_char(s: &mut String, c: char)
    ensures
        final(s)@ == old(s)@.push(c),
{
    s.push(c);
}

/// The strings of `parts` joined with `sep`.
pub fn join_strings(parts: &Vec<String>, sep: &str) -> (r: String)
    ensures
        r@ == join_seqs(strings_view(parts@), sep@),
{
    let mut r = String::new();
    let mut i: usize = 0;
    while i < parts.len()
        invariant
            i <= parts.len(),
            r@ == join_seqs(strings_view(parts@).subrange(0, i as int), sep@),
        decreases parts.len() - i,
    {
        let ghost prev = strings_view(parts@).subrange(0, i as int);
        let ghost next = strings_view(parts@).subrange(0, i + 1);
        proof {
            assert(next.drop_last() =~= prev);
            assert(next.last() == parts@[i as int]@);
        }
        if i > 0 {
            r.append(sep);
        }
        r.append(parts[i].as_str());
        proof {
            if i == 0 {
                assert(prev =~= Seq::<Seq<char>>::empty());
                assert(r@ =~= next[0]);
            }
        }
        i = i + 1;
    }
    proof {
        assert(strings_view(parts@).subrange(0, parts.len() as int) =~= strings_view(parts@));
    }
    r
}

/// `s` repeated `n` times.
pub fn repeat_str(s: &str, n: usize) -> (r: String)
    ensures
        r@ == repeat_seq(s@, n as nat),
{
    let mut r = String::new();
    let mut i: usize = 0;
    while i < n
        invariant
            i <= n,
            r@ == repeat_seq(s@, i as nat),
        decreases n - i,
    {
        r.append(s);
        proof {
            assert(repeat_seq(s@, (i + 1) as nat) == repeat_seq(s@, i as nat) + s@);
        }
        i = i + 1;
    }
    r
}

/// The concatenation of all of `parts`.
pub open spec fn concat_seqs(parts: Seq<Seq<char>>) -> Seq<char>
    decreases parts.len(),
{
    if parts.len() == 0 {
        Seq::empty()
    } else {
        concat_seqs(parts.drop_last()) + parts.last()
    }
}

/// Whether two strings hold the same characters.
pub fn str_eq(a: &str, b: &str) -> (r: bool)
    ensures
        r == (a@ == b@),
{
    let x = a.to_owned();
    let y = b.to_owned();
    x == y
}

/// Whether `v` holds an identifier equal to `x`.
pub fn contains_ident(v: &Vec<String>, x: &str) -> (r: bool)
    ensures
        r == strings_view(v@).contains(x@),
{
    let mut i: usize = 0;
    while i < v.len()
        invariant
            i <= v.len(),
            forall|j: int| 0 <= j < i ==> v@[j]@ != x@,
        decreases v.len() - i,
    {
        if str_eq(v[i].as_str(), x) {
            proof {
                assert(strings_view(v@)[i as int] == x@);
            }
            return true;
        }
        i = i + 1;
    }
    proof {
        if strings_view(v@).contains(x@) {
            let j = choose|j: int| 0 <= j < strings_view(v@).len() && strings_view(v@)[j] == x@;
            assert(v@[j]@ == x@);
        }
    }
    false
}

} // verus!
