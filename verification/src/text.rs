//! Character-level string helpers: substring matching, occurrence removal,
//! and repeated prefix trimming, all specified over `Seq<char>` views.

use vstd::prelude::*;

verus! {

/// Whether `pat` occurs in `s` starting at character position `i`.
pub open spec fn match_at(s: Seq<char>, pat: Seq<char>, i: int) -> bool {
    &&& 0 <= i
    &&& i + pat.len() <= s.len()
    &&& s.subrange(i, i + pat.len() as int) == pat
}

/// Whether `pat` occurs anywhere in `s` as a contiguous substring.
pub open spec fn contains_seq(s: Seq<char>, pat: Seq<char>) -> bool {
    exists|i: int| match_at(s, pat, i)
}

/// All occurrences of `pat` in `s` removed, scanning left to right and never
/// overlapping, as `str::replace` with an empty replacement does; an empty
/// `pat` removes nothing.
pub open spec fn remove_all(s: Seq<char>, pat: Seq<char>) -> Seq<char>
    decreases s.len(),
{
    if pat.len() == 0 || s.len() < pat.len() {
        s
    } else if s.subrange(0, pat.len() as int) == pat {
        remove_all(s.skip(pat.len() as int), pat)
    } else {
        seq![s[0]] + remove_all(s.skip(1), pat)
    }
}

/// `s` with every successive copy of `pat` stripped from its front, as
/// `str::trim_start_matches` does; an empty `pat` strips nothing.
pub open spec fn trim_prefix_all(s: Seq<char>, pat: Seq<char>) -> Seq<char>
    decreases s.len(),
{
    if pat.len() > 0 && pat.len() <= s.len() && s.subrange(0, pat.len() as int) == pat {
        trim_prefix_all(s.skip(pat.len() as int), pat)
    } else {
        s
    }
}

/// Tests whether the character at position `index` of `string` equals `c`;
/// an out-of-range position reads as a space.
pub fn char_at_is(string: &String, index: usize, c: char) -> (r: bool)
    ensures
        r == (if index < string@.len() {
            string@[index as int] == c
        } else {
            c == ' '
        }),
{
    let len = string.as_str().unicode_len();
    if index < len {
        string.as_str().get_char(index) == c
    } else {
        c == ' '
    }
}

/// Tests whether `pat` occurs in `s` at character position `i`.
pub fn matches_at(s: &str, pat: &str, i: usize) -> (r: bool)
    requires
        i + pat@.len() <= s@.len(),
    ensures
        r == match_at(s@, pat@, i as int),
{
    let s_len = s.unicode_len();
    let pat_len = pat.unicode_len();
    let mut j: usize = 0;
    while j < pat_len
        invariant
            j <= pat_len,
            s_len == s@.len(),
            pat_len == pat@.len(),
            i + pat_len <= s_len,
            forall|k: int| 0 <= k < j ==> s@[i + k] == pat@[k],
        decreases pat_len - j,
    {
        if s.get_char(i + j) != pat.get_char(j) {
            proof {
                assert(s@.subrange(i as int, i + pat@.len())[j as int] == s@[i + j]);
            }
            return false;
        }
        j += 1;
    }
    proof {
        assert(s@.subrange(i as int, i + pat@.len()) =~= pat@);
    }
    true
}

/// Tests whether `pat` occurs anywhere in `s`, as `str::contains` does.
pub fn contains_substr(s: &str, pat: &str) -> (r: bool)
    ensures
        r == contains_seq(s@, pat@),
{
    let s_len = s.unicode_len();
    let pat_len = pat.unicode_len();
    if pat_len > s_len {
        return false;
    }
    if pat_len == 0 {
        proof {
            assert(s@.subrange(0, 0) =~= pat@);
            assert(match_at(s@, pat@, 0));
        }
        return true;
    }
    let bound = s_len - pat_len;
    let mut i: usize = 0;
    while i <= bound
        invariant
            i <= bound + 1,
            bound == s_len - pat_len,
            1 <= pat_len <= s_len,
            s_len == s@.len(),
            pat_len == pat@.len(),
            forall|k: int| 0 <= k < i ==> !match_at(s@, pat@, k),
        decreases bound + 1 - i,
    {
        if matches_at(s, pat, i) {
            return true;
        }
        i += 1;
    }
    proof {
        assert(forall|k: int| match_at(s@, pat@, k) ==> 0 <= k < i);
    }
    false
}

/// `s` with every occurrence of `pat` removed, as `s.replace(pat, "")` does.
pub fn remove_all_occurrences(s: &str, pat: &str) -> (r: String)
    ensures
        r@ == remove_all(s@, pat@),
{
    let s_len = s.unicode_len();
    let pat_len = pat.unicode_len();
    if pat_len == 0 {
        return s.to_owned();
    }
    let mut out = String::new();
    proof {
        assert(s@.skip(0) =~= s@);
        assert(Seq::<char>::empty() + remove_all(s@, pat@) =~= remove_all(s@, pat@));
    }
    let mut i: usize = 0;
    while i < s_len
        invariant
            i <= s_len,
            s_len == s@.len(),
            pat_len == pat@.len(),
            pat_len >= 1,
            out@ + remove_all(s@.skip(i as int), pat@) == remove_all(s@, pat@),
        decreases s_len - i,
    {
        if pat_len <= s_len - i && matches_at(s, pat, i) {
            proof {
                assert(s@.skip(i as int).subrange(0, pat@.len() as int) =~= s@.subrange(
                    i as int,
                    i + pat@.len(),
                ));
                assert(s@.skip(i as int).skip(pat@.len() as int) =~= s@.skip(i + pat@.len()));
            }
            i += pat_len;
        } else {
            proof {
                let rest = s@.skip(i as int);
                assert(rest =~= seq![s@[i as int]] + s@.skip(i as int + 1));
                if pat_len <= s_len - i {
                    assert(rest.subrange(0, pat@.len() as int) =~= s@.subrange(
                        i as int,
                        i + pat@.len(),
                    ));
                    assert(remove_all(rest, pat@) == seq![rest[0]] + remove_all(
                        rest.skip(1),
                        pat@,
                    ));
                } else {
                    assert(remove_all(rest, pat@) == rest);
                    assert(remove_all(rest.skip(1), pat@) == rest.skip(1));
                }
                assert(rest.skip(1) =~= s@.skip(i as int + 1));
                assert(seq![rest[0]] =~= s@.subrange(i as int, i as int + 1));
                assert((out@ + seq![s@[i as int]]) + remove_all(s@.skip(i as int + 1), pat@)
                    =~= out@ + remove_all(s@.skip(i as int), pat@));
            }
            let c_str = s.substring_char(i, i + 1);
            out.append(c_str);
            i += 1;
        }
    }
    proof {
        assert(s@.skip(s_len as int) =~= Seq::<char>::empty());
        assert(out@ + Seq::<char>::empty() =~= out@);
    }
    out
}

/// `s` with every successive leading copy of `pat` stripped, as
/// `s.trim_start_matches(pat)` does.
pub fn trim_prefix_repeated(s: &str, pat: &str) -> (r: String)
    ensures
        r@ == trim_prefix_all(s@, pat@),
{
    let s_len = s.unicode_len();
    let pat_len = pat.unicode_len();
    if pat_len == 0 {
        return s.to_owned();
    }
    proof {
        assert(s@.skip(0) =~= s@);
    }
    let mut i: usize = 0;
    while pat_len <= s_len - i && matches_at(s, pat, i)
        invariant
            i <= s_len,
            s_len == s@.len(),
            pat_len == pat@.len(),
            pat_len >= 1,
            trim_prefix_all(s@, pat@) == trim_prefix_all(s@.skip(i as int), pat@),
        decreases s_len - i,
    {
        proof {
            assert(s@.skip(i as int).subrange(0, pat@.len() as int) =~= s@.subrange(
                i as int,
                i + pat@.len(),
            ));
            assert(s@.skip(i as int).skip(pat@.len() as int) =~= s@.skip(i + pat@.len()));
        }
        i += pat_len;
    }
    proof {
        let rest = s@.skip(i as int);
        if pat_len <= s_len - i {
            assert(rest.subrange(0, pat@.len() as int) =~= s@.subrange(i as int, i + pat@.len()));
        }
        assert(trim_prefix_all(rest, pat@) == rest);
    }
    let rest = s.substring_char(i, s_len);
    rest.to_owned()
}

} // verus!
