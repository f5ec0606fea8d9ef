use vstd::prelude::*;

use vstd::string::StrSliceExecFns;

verus! {

/// ASCII lower case of one character; anything but `'A'..'Z'` is unchanged.
pub open spec fn lower_char(c: char) -> char {
    if 'A' <= c && c <= 'Z' {
        ((c as u8) + 32) as char
    } else {
        c
    }
}

/// ASCII lower case of a whole string.
pub open spec fn lower(s: Seq<char>) -> Seq<char> {
    s.map_values(|c: char| lower_char(c))
}

/// The pieces of `s` between occurrences of `sep`, in order. Always at
/// least one piece; an empty string yields one empty piece, and a trailing
/// separator yields a trailing empty piece.
pub open spec fn split_on(s: Seq<char>, sep: char) -> Seq<Seq<char>>
    decreases s.len(),
{
    if s.len() == 0 {
        seq![Seq::<char>::empty()]
    } else if s.last() == sep {
        split_on(s.drop_last(), sep).push(Seq::<char>::empty())
    } else {
        let parts = split_on(s.drop_last(), sep);
        parts.update(parts.len() - 1, parts.last().push(s.last()))
    }
}

/// ASCII lower case of one character.
pub fn to_lower(c: char) -> (r: char)
    ensures
        r == lower_char(c),
{
    if 'A' <= c && c <= 'Z' {
        ((c as u8) + 32) as char
    } else {
        c
    }
}

/// Whether `s`, lowered, reads exactly as `name`.
pub fn eq_lower(s: &str, name: &str) -> (b: bool)
    ensures
        b == (lower(s@) == name@),
{
    let n = s.unicode_len();
    let m = name.unicode_len();
    if n != m {
        proof {
            assert(lower(s@).len() == s@.len());
        }
        return false;
    }
    let mut i: usize = 0;
    while i < n
        invariant
            n == s@.len() == name@.len(),
            i <= n,
            forall|j: int| 0 <= j < i ==> lower(s@)[j] == name@[j],
        decreases n - i,
    {
        let c = to_lower(s.get_char(i));
        let d = name.get_char(i);
        if c != d {
            proof {
                assert(lower(s@)[i as int] != name@[i as int]);
            }
            return false;
        }
        i = i + 1;
    }
    proof {
        assert(lower(s@) =~= name@);
    }
    true
}

/// Splits `s` at every occurrence of `sep`.
pub fn split_str(s: &str, sep: char) -> (r: Vec<String>)
    ensures
        r@.map_values(|p: String| p@) == split_on(s@, sep),
{
    let n = s.unicode_len();
    let mut pieces: Vec<String> = Vec::new();
    let mut start: usize = 0;
    let mut i: usize = 0;
    while i < n
        invariant
            n == s@.len(),
            start <= i <= n,
            pieces@.map_values(|p: String| p@).push(s@.subrange(start as int, i as int))
                =~~= split_on(s@.take(i as int), sep),
        decreases n - i,
    {
        let c = s.get_char(i);
        let ghost prev = s@.take(i as int);
        if c == sep {
            let piece = s.substring_char(start, i);
            pieces.push(piece.to_owned());
            start = i + 1;
        }
        i = i + 1;
        proof {
            let cur = s@.take(i as int);
            assert(cur.drop_last() =~= prev);
            assert(cur.last() == s@[i - 1]);
            if s@[i - 1] == sep {
                assert(pieces@.map_values(|p: String| p@).push(
                    s@.subrange(start as int, i as int),
                ) =~~= split_on(cur, sep));
            } else {
                assert(s@.subrange(start as int, i as int) =~= s@.subrange(
                    start as int,
                    i - 1,
                ).push(s@[i - 1]));
                assert(pieces@.map_values(|p: String| p@).push(
                    s@.subrange(start as int, i as int),
                ) =~~= split_on(cur, sep));
            }
        }
    }
    let last = s.substring_char(start, n);
    pieces.push(last.to_owned());
    proof {
        assert(s@.take(n as int) =~= s@);
        assert(pieces@.map_values(|p: String| p@) =~~= split_on(s@, sep));
    }
    pieces
}

} // verus!
