//! Plain-text operations the workflow relies on: substring containment,
//! as the status checker uses it, and leftmost non-overlapping
//! replacement, as the profile renderer uses it.

use vstd::prelude::*;

verus! {

/// `needle` occurs in `hay` as the contiguous run starting at position `i`.
pub open spec fn matches_at(hay: Seq<char>, needle: Seq<char>, i: int) -> bool {
    &&& 0 <= i
    &&& i + needle.len() <= hay.len()
    &&& hay.subrange(i, i + needle.len() as int) == needle
}

/// `needle` occurs somewhere in `hay` as a contiguous run.
pub open spec fn text_contains(hay: Seq<char>, needle: Seq<char>) -> bool {
    exists|i: int| matches_at(hay, needle, i)
}

/// Compares `needle` against the run of `hay` that starts at position `i`.
fn occurs_at(hay: &str, needle: &str, i: usize) -> (r: bool)
    requires
        i + needle@.len() <= hay@.len(),
        i + needle@.len() <= usize::MAX,
    ensures
        r == matches_at(hay@, needle@, i as int),
{
    let n = needle.unicode_len();
    let mut j: usize = 0;
    while j < n
        invariant
            n == needle@.len(),
            i + n <= hay@.len(),
            i + n <= usize::MAX,
            j <= n,
            forall|k: int| 0 <= k < j ==> hay@[i + k] == needle@[k],
        decreases n - j,
    {
        if hay.get_char(i + j) != needle.get_char(j) {
            proof {
                assert(!matches_at(hay@, needle@, i as int)) by {
                    if hay@.subrange(i as int, i + n as int) == needle@ {
                        assert(hay@.subrange(i as int, i + n as int)[j as int]
                            == hay@[i + j]);
                    }
                }
            }
            return false;
        }
        j += 1;
    }
    proof {
        assert(hay@.subrange(i as int, i + n as int) =~= needle@);
    }
    true
}

/// Plain substring containment, the only form of status parsing the
/// workflow performs.
pub fn str_contains(hay: &str, needle: &str) -> (r: bool)
    ensures
        r == text_contains(hay@, needle@),
{
    let hay_len = hay.unicode_len();
    let needle_len = needle.unicode_len();
    if needle_len > hay_len {
        proof {
            assert(!text_contains(hay@, needle@)) by {
                if text_contains(hay@, needle@) {
                    let k = choose|k: int| matches_at(hay@, needle@, k);
                    assert(k + needle@.len() <= hay@.len());
                }
            }
        }
        return false;
    }
    if needle_len == 0 {
        proof {
            assert(matches_at(hay@, needle@, 0)) by {
                assert(hay@.subrange(0, 0) =~= needle@);
            }
        }
        return true;
    }
    let bound = hay_len - needle_len;
    let mut i: usize = 0;
    while i <= bound
        invariant
            hay_len == hay@.len(),
            needle_len == needle@.len(),
            0 < needle_len <= hay_len,
            bound == hay_len - needle_len,
            i <= bound + 1,
            forall|k: int| 0 <= k < i ==> !matches_at(hay@, needle@, k),
        decreases bound + 1 - i,
    {
        if occurs_at(hay, needle, i) {
            proof {
                assert(text_contains(hay@, needle@)) by {
                    assert(matches_at(hay@, needle@, i as int));
                }
            }
            return true;
        }
        i += 1;
    }
    proof {
        assert(!text_contains(hay@, needle@)) by {
            if text_contains(hay@, needle@) {
                let k = choose|k: int| matches_at(hay@, needle@, k);
                assert(k + needle@.len() <= hay@.len());
                assert(0 <= k < i);
            }
        }
    }
    false
}

/// The result of replacing, left to right and without overlap, every
/// occurrence of `pat` in `s` by `rep`.  Replaced text is not scanned
/// again, and an empty `pat` leaves `s` unchanged.
pub open spec fn replace_text(s: Seq<char>, pat: Seq<char>, rep: Seq<char>) -> Seq<char>
    decreases s.len(),
{
    if pat.len() == 0 || s.len() < pat.len() {
        s
    } else if s.subrange(0, pat.len() as int) == pat {
        rep + replace_text(s.subrange(pat.len() as int, s.len() as int), pat, rep)
    } else {
        seq![s[0]] + replace_text(s.subrange(1, s.len() as int), pat, rep)
    }
}

/// Builds the replacement of every occurrence of `pat` in `s` by `rep`,
/// scanning left to right.
pub fn replace_str(s: &str, pat: &str, rep: &str) -> (r: String)
    ensures
        r@ == replace_text(s@, pat@, rep@),
{
    let s_len = s.unicode_len();
    let pat_len = pat.unicode_len();
    if pat_len == 0 {
        return String::from_str(s);
    }
    let mut out = String::new();
    let mut i: usize = 0;
    proof {
        assert(s@.subrange(0, s_len as int) =~= s@);
        assert(out@ + replace_text(s@, pat@, rep@) =~= replace_text(s@, pat@, rep@));
    }
    while i < s_len
        invariant
            s_len == s@.len(),
            pat_len == pat@.len(),
            pat_len > 0,
            i <= s_len,
            out@ + replace_text(s@.subrange(i as int, s_len as int), pat@, rep@)
                == replace_text(s@, pat@, rep@),
        decreases s_len - i,
    {
        let ghost suffix = s@.subrange(i as int, s_len as int);
        if pat_len <= s_len - i && occurs_at(s, pat, i) {
            proof {
                assert(suffix.subrange(0, pat_len as int)
                    =~= s@.subrange(i as int, i + pat_len as int));
                assert(suffix.subrange(pat_len as int, suffix.len() as int)
                    =~= s@.subrange(i + pat_len as int, s_len as int));
                assert((out@ + rep@)
                    + replace_text(s@.subrange(i + pat_len as int, s_len as int), pat@, rep@)
                    =~= out@ + replace_text(suffix, pat@, rep@));
            }
            out.append(rep);
            i += pat_len;
        } else {
            proof {
                if i + pat_len <= s_len {
                    assert(suffix.subrange(0, pat_len as int)
                        =~= s@.subrange(i as int, i + pat_len as int));
                } else {
                    assert(suffix.len() < pat@.len());
                }
                assert(seq![suffix[0]] =~= s@.subrange(i as int, i + 1));
                assert(suffix.subrange(1, suffix.len() as int)
                    =~= s@.subrange(i + 1, s_len as int));
                assert((out@ + s@.subrange(i as int, i + 1))
                    + replace_text(s@.subrange(i + 1, s_len as int), pat@, rep@)
                    =~= out@ + (s@.subrange(i as int, i + 1)
                        + replace_text(s@.subrange(i + 1, s_len as int), pat@, rep@)));
            }
            let one = s.substring_char(i, i + 1);
            out.append(one);
            i += 1;
        }
    }
    proof {
        assert(s@.subrange(i as int, s_len as int) =~= Seq::<char>::empty());
        assert(out@ + Seq::<char>::empty() =~= out@);
    }
    out
}

} // verus!
