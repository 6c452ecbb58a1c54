//! Removal of markdown-style bold markers: every non-overlapping occurrence
//! of the two-character sequence `**`, scanning left to right, is deleted.

use vstd::prelude::*;

verus! {

/// What bold-marker removal returns: scan left to right; whenever the next
/// two characters are `**`, drop both and resume after them; otherwise keep
/// one character and move on. Equivalent to literal substring replacement of
/// `**` by nothing.
pub open spec fn strip_bold(s: Seq<char>) -> Seq<char>
    decreases s.len(),
{
    if s.len() == 0 {
        Seq::<char>::empty()
    } else if s.len() >= 2 && s[0] == '*' && s[1] == '*' {
        strip_bold(s.skip(2))
    } else {
        seq![s[0]] + strip_bold(s.skip(1))
    }
}

/// Holds when `s` contains the substring `**`.
pub open spec fn has_bold_marker(s: Seq<char>) -> bool {
    exists|i: int| 0 <= i && i + 1 < s.len() && #[trigger] s[i] == '*' && s[i + 1] == '*'
}

/// Removes every non-overlapping occurrence of `**` from `text`, scanning
/// left to right; all other characters are preserved verbatim, in order.
pub fn remove_bold_markers(text: &str) -> (result: String)
    ensures
        result@ == strip_bold(text@),
{
    let len = text.unicode_len();
    let mut result = String::new();
    let mut i: usize = 0;
    proof {
        assert(text@.skip(0) =~= text@);
    }
    while i < len
        invariant
            i <= len,
            len == text@.len(),
            strip_bold(text@) == result@ + strip_bold(text@.skip(i as int)),
        decreases len - i,
    {
        if i + 1 < len && text.get_char(i) == '*' && text.get_char(i + 1) == '*' {
            proof {
                assert(text@.skip(i as int).skip(2) =~= text@.skip(i + 2));
            }
            i = i + 2;
        } else {
            let piece = text.substring_char(i, i + 1);
            proof {
                assert(piece@ =~= seq![text@[i as int]]);
                assert(text@.skip(i as int).skip(1) =~= text@.skip(i + 1));
                assert(result@ + strip_bold(text@.skip(i as int)) =~= (result@ + piece@)
                    + strip_bold(text@.skip(i + 1)));
            }
            result.append(piece);
            i = i + 1;
        }
    }
    proof {
        assert(text@.skip(len as int) =~= Seq::<char>::empty());
        assert(result@ + strip_bold(Seq::<char>::empty()) =~= result@);
    }
    result
}

/// When a text starts with something other than `*`, removal keeps that
/// first character in place.
proof fn lemma_strip_bold_head(s: Seq<char>)
    requires
        s.len() > 0,
        s[0] != '*',
    ensures
        strip_bold(s).len() > 0,
        strip_bold(s)[0] == s[0],
{
    assert(strip_bold(s) == seq![s[0]] + strip_bold(s.skip(1)));
}

/// Text that contains no `**` substring is unchanged by bold-marker removal.
pub proof fn lemma_strip_bold_no_marker_id(s: Seq<char>)
    requires
        !has_bold_marker(s),
    ensures
        strip_bold(s) == s,
    decreases s.len(),
{
    if s.len() == 0 {
        assert(strip_bold(s) =~= s);
    } else if s.len() >= 2 && s[0] == '*' && s[1] == '*' {
        assert(has_bold_marker(s));
    } else {
        assert(!has_bold_marker(s.skip(1))) by {
            if has_bold_marker(s.skip(1)) {
                let j = choose|j: int|
                    0 <= j && j + 1 < s.skip(1).len() && #[trigger] s.skip(1)[j] == '*'
                        && s.skip(1)[j + 1] == '*';
                assert(s[j + 1] == '*' && s[j + 2] == '*');
                assert(has_bold_marker(s));
            }
        }
        lemma_strip_bold_no_marker_id(s.skip(1));
        assert(seq![s[0]] + s.skip(1) =~= s);
    }
}

/// Text that contains no `*` at all is unchanged by bold-marker removal.
pub proof fn lemma_strip_bold_no_star_id(s: Seq<char>)
    requires
        forall|i: int| 0 <= i < s.len() ==> s[i] != '*',
    ensures
        strip_bold(s) == s,
{
    lemma_strip_bold_no_marker_id(s);
}

/// The result of bold-marker removal never contains the substring `**`.
pub proof fn lemma_strip_bold_no_marker(s: Seq<char>)
    ensures
        !has_bold_marker(strip_bold(s)),
    decreases s.len(),
{
    if s.len() == 0 {
    } else if s.len() >= 2 && s[0] == '*' && s[1] == '*' {
        lemma_strip_bold_no_marker(s.skip(2));
    } else {
        lemma_strip_bold_no_marker(s.skip(1));
        let t = strip_bold(s.skip(1));
        let r = strip_bold(s);
        assert(r == seq![s[0]] + t);
        assert forall|i: int| 0 <= i && i + 1 < r.len() implies !(#[trigger] r[i] == '*' && r[i
            + 1] == '*') by {
            if i == 0 {
                if s[0] == '*' {
                    // Not the marker branch, so either `s` is the lone `*` or
                    // the next character differs from `*`; with a character at
                    // index 1 in the result, the tail is nonempty.
                    assert(s.skip(1).len() > 0);
                    assert(s.skip(1)[0] == s[1]);
                    lemma_strip_bold_head(s.skip(1));
                    assert(r[1] == t[0]);
                }
            } else {
                assert(r[i] == t[i - 1] && r[i + 1] == t[i]);
                if t[i - 1] == '*' && t[i] == '*' {
                    assert(has_bold_marker(t));
                }
            }
        }
    }
}

/// Removing bold markers twice is the same as removing them once.
pub proof fn lemma_strip_bold_idempotent(s: Seq<char>)
    ensures
        strip_bold(strip_bold(s)) == strip_bold(s),
{
    lemma_strip_bold_no_marker(s);
    lemma_strip_bold_no_marker_id(strip_bold(s));
}

} // verus!
