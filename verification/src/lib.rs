//! Text sanitizer: removes markdown-style bold markers (`**`) from text and,
//! optionally, emoji characters drawn from a fixed set of Unicode code-point
//! ranges.

use vstd::prelude::*;

pub mod bold;
pub mod emoji;

verus! {

use crate::bold::{strip_bold, has_bold_marker, remove_bold_markers};
use crate::bold::{lemma_strip_bold_idempotent, lemma_strip_bold_no_marker_id};
use crate::emoji::{strip_emoji, remove_emojis, lemma_strip_emoji_idempotent};

/// The whole transformation: bold markers are always removed; emoji are
/// removed afterwards when `remove_emoji` is set.
pub open spec fn process_spec(s: Seq<char>, remove_emoji: bool) -> Seq<char> {
    if remove_emoji {
        strip_emoji(strip_bold(s))
    } else {
        strip_bold(s)
    }
}

/// Removes every `**` from `text` and, when `remove_emoji` is set, afterwards
/// every character whose code point lies in the fixed emoji range set.
pub fn process_text(text: &str, remove_emoji: bool) -> (result: String)
    ensures
        result@ == process_spec(text@, remove_emoji),
{
    let result = remove_bold_markers(text);
    if remove_emoji {
        remove_emojis(result.as_str())
    } else {
        result
    }
}

/// Law: the transformation is idempotent. When emoji are removed, this asks
/// that deleting emoji does not itself bring two `*` characters together into
/// a fresh `**` (as it does in a text of `*`, an emoji, then `*`); on every
/// other input, and always when emoji are kept, processing a second time
/// changes nothing.
pub proof fn lemma_process_idempotent(s: Seq<char>, remove_emoji: bool)
    requires
        remove_emoji ==> !has_bold_marker(strip_emoji(strip_bold(s))),
    ensures
        process_spec(process_spec(s, remove_emoji), remove_emoji) == process_spec(s, remove_emoji),
{
    if remove_emoji {
        let t = strip_emoji(strip_bold(s));
        lemma_strip_bold_no_marker_id(t);
        lemma_strip_emoji_idempotent(strip_bold(s));
    } else {
        lemma_strip_bold_idempotent(s);
    }
}

/// Law: the empty text is mapped to the empty text, whatever the flag says.
pub proof fn lemma_process_empty(remove_emoji: bool)
    ensures
        process_spec(Seq::<char>::empty(), remove_emoji) == Seq::<char>::empty(),
{
}

} // verus!
