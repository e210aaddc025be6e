//! Text assembly for the decode loops: joining decoded fragments, and the
//! end-of-turn markers that stop the text-cleanup stage.

use vstd::prelude::*;
use vstd::string::*;

verus! {

/// The end-of-turn marker of the cleanup model's chat template.
pub open spec fn end_marker() -> Seq<char> {
    "<|end|>"@
}

/// The end-of-text marker of the cleanup model's chat template.
pub open spec fn end_of_text_marker() -> Seq<char> {
    "<|endoftext|>"@
}

/// One of the two stop markers starts at position `i` of `t`.
pub open spec fn is_marker_at(t: Seq<char>, i: int) -> bool {
    ||| (i + end_marker().len() <= t.len() && t.subrange(i, i + end_marker().len())
        == end_marker())
    ||| (i + end_of_text_marker().len() <= t.len() && t.subrange(
        i,
        i + end_of_text_marker().len(),
    ) == end_of_text_marker())
}

/// Position of the first stop marker at or after `i`, or `t.len()` if none.
pub open spec fn marker_scan(t: Seq<char>, i: int) -> int
    decreases t.len() - i,
{
    if i >= t.len() {
        t.len() as int
    } else if is_marker_at(t, i) {
        i
    } else {
        marker_scan(t, i + 1)
    }
}

/// Position of the first stop marker in `t`, or `t.len()` if none.
pub open spec fn first_marker(t: Seq<char>) -> int {
    marker_scan(t, 0)
}

/// `t` holds no stop marker.
pub open spec fn marker_free(t: Seq<char>) -> bool {
    forall|i: int| 0 <= i < t.len() ==> !is_marker_at(t, i)
}

/// `t` cut just before its first stop marker; all of `t` if none occurs.
pub open spec fn trim_at_marker(t: Seq<char>) -> Seq<char> {
    t.take(first_marker(t))
}

proof fn lemma_marker_scan_bounds(t: Seq<char>, i: int)
    requires
        0 <= i <= t.len(),
    ensures
        i <= marker_scan(t, i) <= t.len(),
        marker_scan(t, i) < t.len() ==> is_marker_at(t, marker_scan(t, i)),
        forall|j: int| i <= j < marker_scan(t, i) ==> !is_marker_at(t, j),
    decreases t.len() - i,
{
    if i < t.len() && !is_marker_at(t, i) {
        lemma_marker_scan_bounds(t, i + 1);
    }
}

/// Where the first marker stands: before it there is none, and unless the
/// scan ran off the end a marker does start there.
pub proof fn lemma_first_marker(t: Seq<char>)
    ensures
        0 <= first_marker(t) <= t.len(),
        first_marker(t) < t.len() ==> is_marker_at(t, first_marker(t)),
        forall|j: int| 0 <= j < first_marker(t) ==> !is_marker_at(t, j),
        marker_free(t) ==> first_marker(t) == t.len(),
        first_marker(t) == t.len() ==> marker_free(t),
        marker_free(t) ==> trim_at_marker(t) == t,
{
    lemma_marker_scan_bounds(t, 0);
    if first_marker(t) == t.len() {
        assert(marker_free(t));
    }
    if marker_free(t) {
        assert(first_marker(t) == t.len());
        assert(trim_at_marker(t) =~= t);
    }
}

/// Whether two pieces of text hold the same characters.
pub fn str_eq(a: &str, b: &str) -> (r: bool)
    ensures
        r == (a@ == b@),
{
    let a_len = a.unicode_len();
    let b_len = b.unicode_len();
    if a_len != b_len {
        proof {
            if a@ == b@ {
                assert(a@.len() == b@.len());
            }
        }
        return false;
    }
    let r = occurs_at(a, 0, b);
    proof {
        assert(a@.subrange(0, b@.len() as int) =~= a@);
    }
    r
}

/// Whether `pat` occurs in `s` starting at character position `i`.
fn occurs_at(s: &str, i: usize, pat: &str) -> (r: bool)
    requires
        i <= s@.len(),
    ensures
        r == (i + pat@.len() <= s@.len() && s@.subrange(i as int, i + pat@.len()) == pat@),
{
    let s_len = s.unicode_len();
    let pat_len = pat.unicode_len();
    if pat_len > s_len - i {
        return false;
    }
    let mut k: usize = 0;
    while k < pat_len
        invariant
            0 <= k <= pat_len,
            i + pat_len <= s_len,
            s_len == s@.len(),
            pat_len == pat@.len(),
            forall|m: int| 0 <= m < k ==> s@[i + m] == pat@[m],
        decreases pat_len - k,
    {
        if s.get_char(i + k) != pat.get_char(k) {
            assert(s@.subrange(i as int, i + pat@.len()) != pat@) by {
                assert(s@.subrange(i as int, i + pat@.len())[k as int] != pat@[k as int]);
            }
            return false;
        }
        k += 1;
    }
    assert(s@.subrange(i as int, i + pat@.len()) =~= pat@);
    true
}

/// Finds the first stop marker in `s`: its position, or `None` when `s` is
/// free of markers.
pub fn find_marker(s: &str) -> (r: Option<usize>)
    ensures
        match r {
            Some(i) => i == first_marker(s@) && i < s@.len(),
            None => marker_free(s@),
        },
{
    let s_len = s.unicode_len();
    let mut i: usize = 0;
    while i < s_len
        invariant
            0 <= i <= s_len,
            s_len == s@.len(),
            forall|j: int| 0 <= j < i ==> !is_marker_at(s@, j),
        decreases s_len - i,
    {
        let hit = if occurs_at(s, i, "<|end|>") {
            true
        } else {
            occurs_at(s, i, "<|endoftext|>")
        };
        if hit {
            proof {
                lemma_marker_scan_bounds(s@, 0);
                assert(is_marker_at(s@, i as int));
                if first_marker(s@) < i {
                    assert(false);
                }
                if first_marker(s@) > i {
                    assert(!is_marker_at(s@, i as int));
                }
            }
            return Some(i);
        }
        i += 1;
    }
    proof {
        assert(marker_free(s@));
    }
    None
}

/// Appends `frag` to `out`, cut at its first stop marker. Returns whether a
/// marker was found, which ends the cleanup decode loop.
pub fn append_fragment(out: &mut String, frag: &str) -> (stopped: bool)
    ensures
        final(out)@ == old(out)@ + trim_at_marker(frag@),
        stopped == !marker_free(frag@),
{
    proof {
        lemma_first_marker(frag@);
    }
    match find_marker(frag) {
        Some(i) => {
            let head = frag.substring_char(0, i);
            out.append(head);
            proof {
                assert(trim_at_marker(frag@) =~= frag@.subrange(0, first_marker(frag@)));
                assert(!marker_free(frag@)) by {
                    assert(is_marker_at(frag@, first_marker(frag@)));
                }
            }
            true
        },
        None => {
            out.append(frag);
            proof {
                assert(trim_at_marker(frag@) =~= frag@);
            }
            false
        },
    }
}

/// The fragments joined in order.
pub open spec fn concat_frags(frags: Seq<Seq<char>>) -> Seq<char>
    decreases frags.len(),
{
    if frags.len() == 0 {
        Seq::empty()
    } else {
        concat_frags(frags.drop_last()) + frags.last()
    }
}

} // verus!
