//! Removal of emoji characters: every code point that falls inside a fixed
//! set of inclusive Unicode ranges is deleted; all other code points are kept
//! in their original order.

use vstd::prelude::*;

verus! {

/// The fixed emoji range set, as a predicate on a Unicode code-point value:
/// true exactly when the value lies inside one of the inclusive ranges.
pub open spec fn emoji_code(u: u32) -> bool {
    ||| 0x1F600 <= u <= 0x1F64F  // Emoticons
    ||| 0x1F300 <= u <= 0x1F5FF  // Miscellaneous symbols and pictographs
    ||| 0x1F680 <= u <= 0x1F6FF  // Transport and map symbols
    ||| 0x1F1E0 <= u <= 0x1F1FF  // Flags
    ||| 0x2600 <= u <= 0x26FF  // Miscellaneous symbols
    ||| 0x2700 <= u <= 0x27BF  // Dingbats
    ||| 0xFE00 <= u <= 0xFE0F  // Variation selectors
    ||| 0x1F900 <= u <= 0x1F9FF  // Supplemental symbols and pictographs
    ||| 0x1FA00 <= u <= 0x1FA6F  // Chess symbols
    ||| 0x1FA70 <= u <= 0x1FAFF  // Symbols and pictographs extended-A
    ||| 0x231A <= u <= 0x231B  // Watch, hourglass
    ||| 0x23E9 <= u <= 0x23F3  // Various symbols
    ||| 0x23F8 <= u <= 0x23FA  // Various symbols
    ||| 0x25AA <= u <= 0x25AB  // Squares
    ||| u == 0x25B6  // Play button
    ||| u == 0x25C0  // Reverse button
    ||| 0x25FB <= u <= 0x25FE  // Squares
    ||| 0x2614 <= u <= 0x2615  // Umbrella, hot beverage
    ||| 0x2648 <= u <= 0x2653  // Zodiac
    ||| u == 0x267F  // Wheelchair
    ||| u == 0x2693  // Anchor
    ||| u == 0x26A1  // High voltage
    ||| 0x26AA <= u <= 0x26AB  // Circles
    ||| 0x26BD <= u <= 0x26BE  // Soccer, baseball
    ||| 0x26C4 <= u <= 0x26C5  // Snowman, sun
    ||| u == 0x26CE  // Ophiuchus
    ||| u == 0x26D4  // No entry
    ||| u == 0x26EA  // Church
    ||| 0x26F2 <= u <= 0x26F3  // Fountain, golf
    ||| u == 0x26F5  // Sailboat
    ||| u == 0x26FA  // Tent
    ||| u == 0x26FD  // Fuel pump
    ||| u == 0x2702  // Scissors
    ||| u == 0x2705  // Check mark
    ||| 0x2708 <= u <= 0x270D  // Various
    ||| u == 0x270F  // Pencil
    ||| u == 0x2712  // Black nib
    ||| u == 0x2714  // Check mark
    ||| u == 0x2716  // X mark
    ||| u == 0x271D  // Cross
    ||| u == 0x2721  // Star of David
    ||| u == 0x2728  // Sparkles
    ||| 0x2733 <= u <= 0x2734  // Eight-spoked asterisks
    ||| u == 0x2744  // Snowflake
    ||| u == 0x2747  // Sparkle
    ||| u == 0x274C  // Cross mark
    ||| u == 0x274E  // Cross mark
    ||| 0x2753 <= u <= 0x2755  // Question marks
    ||| u == 0x2757  // Exclamation mark
    ||| 0x2763 <= u <= 0x2764  // Heart exclamation, heart
    ||| 0x2795 <= u <= 0x2797  // Plus, minus, division
    ||| u == 0x27A1  // Right arrow
    ||| u == 0x27B0  // Curly loop
    ||| u == 0x27BF  // Double curly loop
    ||| 0x2934 <= u <= 0x2935  // Arrows
    ||| 0x2B05 <= u <= 0x2B07  // Arrows
    ||| 0x2B1B <= u <= 0x2B1C  // Squares
    ||| u == 0x2B50  // Star
    ||| u == 0x2B55  // Circle
    ||| u == 0x3030  // Wavy dash
    ||| u == 0x303D  // Part alternation mark
    ||| u == 0x3297  // Circled ideograph congratulation
    ||| u == 0x3299  // Circled ideograph secret
}

/// A character counts as an emoji when its code point lies in the fixed
/// emoji range set.
pub open spec fn is_emoji(c: char) -> bool {
    emoji_code(c as u32)
}

/// Decides membership of a character's code point in the fixed emoji range
/// set.
pub fn is_emoji_char(c: char) -> (r: bool)
    ensures
        r == is_emoji(c),
{
    let u: u32 = c as u32;
    (0x1F600 <= u && u <= 0x1F64F)  // Emoticons
        || (0x1F300 <= u && u <= 0x1F5FF)  // Miscellaneous symbols and pictographs
        || (0x1F680 <= u && u <= 0x1F6FF)  // Transport and map symbols
        || (0x1F1E0 <= u && u <= 0x1F1FF)  // Flags
        || (0x2600 <= u && u <= 0x26FF)  // Miscellaneous symbols
        || (0x2700 <= u && u <= 0x27BF)  // Dingbats
        || (0xFE00 <= u && u <= 0xFE0F)  // Variation selectors
        || (0x1F900 <= u && u <= 0x1F9FF)  // Supplemental symbols and pictographs
        || (0x1FA00 <= u && u <= 0x1FA6F)  // Chess symbols
        || (0x1FA70 <= u && u <= 0x1FAFF)  // Symbols and pictographs extended-A
        || (0x231A <= u && u <= 0x231B)  // Watch, hourglass
        || (0x23E9 <= u && u <= 0x23F3)  // Various symbols
        || (0x23F8 <= u && u <= 0x23FA)  // Various symbols
        || (0x25AA <= u && u <= 0x25AB)  // Squares
        || (u == 0x25B6)  // Play button
        || (u == 0x25C0)  // Reverse button
        || (0x25FB <= u && u <= 0x25FE)  // Squares
        || (0x2614 <= u && u <= 0x2615)  // Umbrella, hot beverage
        || (0x2648 <= u && u <= 0x2653)  // Zodiac
        || (u == 0x267F)  // Wheelchair
        || (u == 0x2693)  // Anchor
        || (u == 0x26A1)  // High voltage
        || (0x26AA <= u && u <= 0x26AB)  // Circles
        || (0x26BD <= u && u <= 0x26BE)  // Soccer, baseball
        || (0x26C4 <= u && u <= 0x26C5)  // Snowman, sun
        || (u == 0x26CE)  // Ophiuchus
        || (u == 0x26D4)  // No entry
        || (u == 0x26EA)  // Church
        || (0x26F2 <= u && u <= 0x26F3)  // Fountain, golf
        || (u == 0x26F5)  // Sailboat
        || (u == 0x26FA)  // Tent
        || (u == 0x26FD)  // Fuel pump
        || (u == 0x2702)  // Scissors
        || (u == 0x2705)  // Check mark
        || (0x2708 <= u && u <= 0x270D)  // Various
        || (u == 0x270F)  // Pencil
        || (u == 0x2712)  // Black nib
        || (u == 0x2714)  // Check mark
        || (u == 0x2716)  // X mark
        || (u == 0x271D)  // Cross
        || (u == 0x2721)  // Star of David
        || (u == 0x2728)  // Sparkles
        || (0x2733 <= u && u <= 0x2734)  // Eight-spoked asterisks
        || (u == 0x2744)  // Snowflake
        || (u == 0x2747)  // Sparkle
        || (u == 0x274C)  // Cross mark
        || (u == 0x274E)  // Cross mark
        || (0x2753 <= u && u <= 0x2755)  // Question marks
        || (u == 0x2757)  // Exclamation mark
        || (0x2763 <= u && u <= 0x2764)  // Heart exclamation, heart
        || (0x2795 <= u && u <= 0x2797)  // Plus, minus, division
        || (u == 0x27A1)  // Right arrow
        || (u == 0x27B0)  // Curly loop
        || (u == 0x27BF)  // Double curly loop
        || (0x2934 <= u && u <= 0x2935)  // Arrows
        || (0x2B05 <= u && u <= 0x2B07)  // Arrows
        || (0x2B1B <= u && u <= 0x2B1C)  // Squares
        || (u == 0x2B50)  // Star
        || (u == 0x2B55)  // Circle
        || (u == 0x3030)  // Wavy dash
        || (u == 0x303D)  // Part alternation mark
        || (u == 0x3297)  // Circled ideograph congratulation
        || (u == 0x3299)  // Circled ideograph secret
}

/// What emoji removal returns: the characters of `s` whose code points lie
/// outside the emoji range set, in their original order.
pub open spec fn strip_emoji(s: Seq<char>) -> Seq<char>
    decreases s.len(),
{
    if s.len() == 0 {
        Seq::<char>::empty()
    } else if is_emoji(s[0]) {
        strip_emoji(s.skip(1))
    } else {
        seq![s[0]] + strip_emoji(s.skip(1))
    }
}

/// Removes every character whose code point lies in the fixed emoji range
/// set; all other characters are preserved verbatim, in order.
pub fn remove_emojis(text: &str) -> (result: String)
    ensures
        result@ == strip_emoji(text@),
{
    let len = text.unicode_len();
    let mut result = String::new();
    let mut i: usize = 0;
    proof {
        assert(text@.skip(0) =~= text@);
    }
    while i < len
        invariant
            i <= len,
            len == text@.len(),
            strip_emoji(text@) == result@ + strip_emoji(text@.skip(i as int)),
        decreases len - i,
    {
        let c = text.get_char(i);
        proof {
            assert(text@.skip(i as int)[0] == text@[i as int]);
            assert(text@.skip(i as int).skip(1) =~= text@.skip(i + 1));
        }
        if !is_emoji_char(c) {
            let piece = text.substring_char(i, i + 1);
            proof {
                assert(piece@ =~= seq![text@[i as int]]);
                assert(result@ + strip_emoji(text@.skip(i as int)) =~= (result@ + piece@)
                    + strip_emoji(text@.skip(i + 1)));
            }
            result.append(piece);
        }
        i = i + 1;
    }
    proof {
        assert(text@.skip(len as int) =~= Seq::<char>::empty());
        assert(result@ + strip_emoji(Seq::<char>::empty()) =~= result@);
    }
    result
}

/// No character of the result of emoji removal lies in the emoji range set.
pub proof fn lemma_strip_emoji_no_emoji(s: Seq<char>)
    ensures
        forall|i: int| 0 <= i < strip_emoji(s).len() ==> !is_emoji(#[trigger] strip_emoji(s)[i]),
    decreases s.len(),
{
    if s.len() == 0 {
    } else {
        lemma_strip_emoji_no_emoji(s.skip(1));
        let t = strip_emoji(s.skip(1));
        if !is_emoji(s[0]) {
            assert(strip_emoji(s) == seq![s[0]] + t);
            assert forall|i: int| 0 <= i < strip_emoji(s).len() implies !is_emoji(
                #[trigger] strip_emoji(s)[i],
            ) by {
                if i > 0 {
                    assert(strip_emoji(s)[i] == t[i - 1]);
                }
            }
        }
    }
}

/// Text none of whose characters lies in the emoji range set is unchanged by
/// emoji removal.
pub proof fn lemma_strip_emoji_emoji_free_id(s: Seq<char>)
    requires
        forall|i: int| 0 <= i < s.len() ==> !is_emoji(#[trigger] s[i]),
    ensures
        strip_emoji(s) == s,
    decreases s.len(),
{
    if s.len() == 0 {
        assert(strip_emoji(s) =~= s);
    } else {
        assert(forall|i: int| 0 <= i < s.skip(1).len() ==> !is_emoji(#[trigger] s.skip(1)[i]));
        lemma_strip_emoji_emoji_free_id(s.skip(1));
        assert(seq![s[0]] + s.skip(1) =~= s);
    }
}

/// Removing emoji twice is the same as removing them once.
pub proof fn lemma_strip_emoji_idempotent(s: Seq<char>)
    ensures
        strip_emoji(strip_emoji(s)) == strip_emoji(s),
{
    lemma_strip_emoji_no_emoji(s);
    lemma_strip_emoji_emoji_free_id(strip_emoji(s));
}

} // verus!
