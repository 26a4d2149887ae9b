//! Laws of the renderer, stated and proved over the spec-level
//! transitions that the executable writer is verified against.

use vstd::prelude::*;
use crate::event::{MdEvent, QuoteKind, Tag, TagEnd};
use crate::style;
use crate::style::TextStyle;
use crate::text::LineView;
use crate::writer::{
    spec_bottom_filler_len, spec_handle_event, spec_end_tag, spec_item_width,
    spec_ordered_marker, spec_pop_inline_style, spec_push_inline_style, spec_quote_color,
    spec_quote_prefix, spec_render, spec_rule_len, spec_start_blockquote, spec_start_item,
    spec_start_tag, spec_top_filler_len, spec_top_inline_style, WriterV,
};

verus! {

/// Determinism: the transform is a pure function of the event stream
/// and the viewport width, so any two results of rendering the same
/// input are equal, byte for byte.
pub proof fn lemma_render_deterministic(
    events: Seq<MdEvent>,
    width: u16,
    r1: Seq<LineView>,
    r2: Seq<LineView>,
)
    requires
        r1 == spec_render(events, width),
        r2 == spec_render(events, width),
    ensures
        r1 == r2,
{
}

/// Style composition: opening a strong scope and an emphasis scope
/// inside it leaves an effective style with both the bold and the
/// italic modifier set, because composition overlays rather than
/// replaces; closing the inner scope removes only italic, leaving bold
/// active until its own close.
pub proof fn lemma_style_composition(w: WriterV)
    requires
        !spec_top_inline_style(w).italic,
    ensures
        ({
            let inside_strong = spec_push_inline_style(w, style::spec_strong_style());
            let inside_both = spec_push_inline_style(inside_strong, style::spec_emphasis_style());
            let after_inner_close = spec_pop_inline_style(inside_both);
            &&& spec_top_inline_style(inside_both).bold
            &&& spec_top_inline_style(inside_both).italic
            &&& spec_top_inline_style(after_inner_close).bold
            &&& !spec_top_inline_style(after_inner_close).italic
        }),
{
    let inside_strong = spec_push_inline_style(w, style::spec_strong_style());
    let inside_both = spec_push_inline_style(inside_strong, style::spec_emphasis_style());
    let after_inner_close = spec_pop_inline_style(inside_both);
    assert(after_inner_close.inline_styles =~= inside_strong.inline_styles);
}

/// The block quote kind table: every kind maps to its documented prefix
/// glyph sequence and color; note and tip share one pair, and the four
/// remaining prefixes are pairwise distinct.
pub proof fn lemma_blockquote_kind_table()
    ensures
        spec_quote_prefix(QuoteKind::Plain) == "▌ "@,
        spec_quote_prefix(QuoteKind::Note) == "▌✎ "@,
        spec_quote_prefix(QuoteKind::Tip) == "▌✎ "@,
        spec_quote_prefix(QuoteKind::Warning) == "▌⚠ "@,
        spec_quote_prefix(QuoteKind::Caution) == "▌✖ "@,
        spec_quote_prefix(QuoteKind::Important) == "▌🔥 "@,
        spec_quote_color(QuoteKind::Note) == spec_quote_color(QuoteKind::Tip),
        spec_quote_prefix(QuoteKind::Note) == spec_quote_prefix(QuoteKind::Tip),
        spec_quote_prefix(QuoteKind::Plain) != spec_quote_prefix(QuoteKind::Note),
        spec_quote_prefix(QuoteKind::Plain) != spec_quote_prefix(QuoteKind::Warning),
        spec_quote_prefix(QuoteKind::Plain) != spec_quote_prefix(QuoteKind::Caution),
        spec_quote_prefix(QuoteKind::Plain) != spec_quote_prefix(QuoteKind::Important),
        spec_quote_prefix(QuoteKind::Note) != spec_quote_prefix(QuoteKind::Warning),
        spec_quote_prefix(QuoteKind::Note) != spec_quote_prefix(QuoteKind::Caution),
        spec_quote_prefix(QuoteKind::Note) != spec_quote_prefix(QuoteKind::Important),
        spec_quote_prefix(QuoteKind::Warning) != spec_quote_prefix(QuoteKind::Caution),
        spec_quote_prefix(QuoteKind::Warning) != spec_quote_prefix(QuoteKind::Important),
        spec_quote_prefix(QuoteKind::Caution) != spec_quote_prefix(QuoteKind::Important),
{
    reveal_strlit("▌ ");
    reveal_strlit("▌✎ ");
    reveal_strlit("▌⚠ ");
    reveal_strlit("▌✖ ");
    reveal_strlit("▌🔥 ");
    assert("▌ "@.len() == 2);
    assert("▌✎ "@[1] == '✎');
    assert("▌⚠ "@[1] == '⚠');
    assert("▌✖ "@[1] == '✖');
    assert("▌🔥 "@[1] == '🔥');
}

/// Opening a block quote pushes exactly the kind's prefix and color
/// onto the decoration stacks, so every line emitted while it is open
/// carries them.
pub proof fn lemma_blockquote_pushes_its_decoration(w: WriterV, kind: QuoteKind)
    ensures
        spec_start_blockquote(w, kind).line_prefixes.last() == spec_quote_prefix(kind),
        spec_start_blockquote(w, kind).line_styles.last() == TextStyle::spec_fg_only(
            spec_quote_color(kind),
        ),
{
}

/// Ordered list counting: an item of an ordered level renders the
/// current counter, zero-padded to the level's indentation width and
/// followed by a period and a space, in the marker style, and bumps
/// the counter by one — so successive items render successive numbers.
pub proof fn lemma_ordered_item_counts(w: WriterV, n: u64)
    requires
        w.list_indices.len() > 0,
        w.list_indices.last() == Some(n),
        n < u64::MAX,
    ensures
        ({
            let w1 = spec_start_item(w);
            let marker = w1.text.last().spans.last();
            &&& w1.list_indices.last() == Some((n + 1) as u64)
            &&& marker.text == spec_ordered_marker(n, spec_item_width(w.list_indices.len()))
            &&& marker.style == style::spec_list_index_style()
        }),
{
    let w1 = spec_start_item(w);
    assert(w1.list_indices.last() == Some((n + 1) as u64));
}

/// Width clamping: every subtraction in border and rule sizing is
/// clamped to zero, so a viewport narrower than the fixed budget
/// degrades to minimum-length lines instead of underflowing.
pub proof fn lemma_width_clamping(width: u16, lang_len: nat)
    ensures
        width < 2 ==> spec_rule_len(width) == 0,
        width >= 2 ==> spec_rule_len(width) == width - 2,
        width < 3 ==> spec_bottom_filler_len(width) == 0,
        width >= 3 ==> spec_bottom_filler_len(width) == width - 3,
        width < 7 + lang_len ==> spec_top_filler_len(width, lang_len) == 0,
        width >= 7 + lang_len ==> spec_top_filler_len(width, lang_len) == width - 7 - lang_len,
{
}

/// Graceful degradation: an event or container outside the supported
/// set changes nothing — no output, no state, no fault — so the
/// surrounding content still renders.
pub proof fn lemma_unsupported_is_skipped(w: WriterV)
    ensures
        spec_handle_event(w, MdEvent::Other) == w,
        spec_start_tag(w, Tag::Other) == w,
        spec_end_tag(w, TagEnd::Other) == w,
{
}

/// Pop underflow is a safe no-op: closing an inline scope with an
/// empty style stack leaves the state unchanged, never a fault.
pub proof fn lemma_pop_on_empty_is_noop(w: WriterV)
    requires
        w.inline_styles.len() == 0,
    ensures
        spec_pop_inline_style(w) == w,
{
    assert(spec_pop_inline_style(w) =~= w);
}

} // verus!
