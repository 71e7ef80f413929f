//! Text of plugin cards: truncated descriptions and rating stars.
use vstd::prelude::*;
use vstd::string::StringSliceAdditionalSpecFns;
use vstd::utf8::{decode_utf8, encode_utf8, is_char_boundary};
use crate::text::{push_char, push_str, string_of};

verus! {

/// Style for plugin card rendering.
#[derive(Debug, Clone, Copy, PartialEq, Eq, Structural)]
pub enum PluginCardStyle {
    /// Normal unselected card
    Normal,
    /// Selected/highlighted card
    Selected,
    /// Installed plugin
    Installed,
}

/// Where a too long text is cut: three bytes before the limit, for the
/// ellipsis.
pub open spec fn cut_point(max_len: usize) -> int {
    if max_len >= 3 {
        max_len - 3
    } else {
        0
    }
}

/// A text of at most `max_len` bytes is kept whole; a longer one keeps its
/// bytes before the cut point, followed by `...`.
pub open spec fn truncated(s: Seq<char>, max_len: usize) -> Seq<char> {
    if encode_utf8(s).len() <= max_len {
        s
    } else {
        decode_utf8(encode_utf8(s).take(cut_point(max_len))) + "..."@
    }
}

/// Truncate a string to `max_len` bytes with an ellipsis. The cut must fall
/// between characters.
pub fn truncate(s: &str, max_len: usize) -> (r: String)
    requires
        s.spec_bytes().len() > max_len ==> is_char_boundary(s.spec_bytes(), cut_point(max_len)),
    ensures
        r@ == truncated(s@, max_len),
{
    let byte_len = s.as_bytes().len();
    if byte_len <= max_len {
        string_of(s)
    } else {
        let cut: usize = if max_len >= 3 { max_len - 3 } else { 0 };
        let (head, _tail) = s.split_at(cut);
        proof {
            vstd::utf8::encode_utf8_decode_utf8(head@);
            assert(head.spec_bytes() =~= s.spec_bytes().take(cut as int));
        }
        let mut r = string_of(head);
        push_str(&mut r, "...");
        proof {
            assert(decode_utf8(encode_utf8(s@).take(cut_point(max_len))) == head@);
            assert(encode_utf8(s@).len() > max_len);
        }
        r
    }
}

/// Rating stars: `full` filled stars, a half star when `half`, and empty
/// stars up to five.
pub open spec fn stars(full: nat, half: bool) -> Seq<char> {
    let empty = (5 - full - if half { 1int } else { 0int }) as nat;
    Seq::new(full, |i: int| '★') + (if half { seq!['⯨'] } else { seq![] }) + Seq::new(
        empty,
        |i: int| '☆',
    )
}

/// A rating always shows five stars: the whole ones first, then the half
/// star if any, then empty ones.
pub proof fn lemma_five_stars(full: nat, half: bool, i: int)
    requires
        full + (if half { 1int } else { 0int }) <= 5,
        0 <= i < 5,
    ensures
        stars(full, half).len() == 5,
        i < full ==> stars(full, half)[i] == '★',
        half && i == full ==> stars(full, half)[i] == '⯨',
        i >= full + (if half { 1int } else { 0int }) ==> stars(full, half)[i] == '☆',
{
}

/// Renders a rating of `full` whole stars plus a half star when `half`.
pub fn render_stars(full: u32, half: bool) -> (r: String)
    requires
        full + (if half { 1int } else { 0int }) <= 5,
    ensures
        r@ == stars(full as nat, half),
{
    let empty: u32 = 5 - full - if half { 1 } else { 0 };
    let mut s = String::new();
    let mut i: u32 = 0;
    while i < full
        invariant
            i <= full,
            s@ == Seq::new(i as nat, |k: int| '★'),
        decreases full - i,
    {
        push_char(&mut s, '★');
        proof {
            assert(s@ =~= Seq::new((i + 1) as nat, |k: int| '★'));
        }
        i = i + 1;
    }
    let ghost filled = s@;
    if half {
        push_char(&mut s, '⯨');
    }
    let ghost head = s@;
    let mut j: u32 = 0;
    while j < empty
        invariant
            j <= empty,
            s@ == head + Seq::new(j as nat, |k: int| '☆'),
        decreases empty - j,
    {
        push_char(&mut s, '☆');
        proof {
            assert(s@ =~= head + Seq::new((j + 1) as nat, |k: int| '☆'));
        }
        j = j + 1;
    }
    proof {
        assert(head =~= filled + (if half { seq!['⯨'] } else { seq![] }));
    }
    s
}

} // verus!
