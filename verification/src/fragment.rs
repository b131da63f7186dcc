//! Styled text fragments, and the escaping of control characters.
//!
//! A fragment pairs a piece of text with the display attribute that
//! paints it; an ordered sequence of fragments is what a render call
//! emits. Text that may hold control characters never reaches a fragment
//! raw: each control character becomes its own fragment, in a dedicated
//! style, holding the character's escaped spelling.

use vstd::prelude::*;

verus! {

/// One styled span of text: the unit the renderer emits.
pub struct StyledFragment {
    /// The text to show.
    pub text: String,
    /// The attribute to paint it with.
    pub style: ansi_term::Style,
}

/// The mathematical view of a [`StyledFragment`].
pub ghost struct FragmentModel {
    pub text: Seq<char>,
    pub style: ansi_term::Style,
}

impl View for StyledFragment {
    type V = FragmentModel;

    open spec fn view(&self) -> FragmentModel {
        FragmentModel { text: self.text@, style: self.style }
    }
}

/// The views of a sequence of fragments.
pub open spec fn frag_views(s: Seq<StyledFragment>) -> Seq<FragmentModel> {
    s.map_values(|f: StyledFragment| f@)
}

pub proof fn lemma_frag_views_push(s: Seq<StyledFragment>, f: StyledFragment)
    ensures
        frag_views(s.push(f)) == frag_views(s).push(f@),
{
    assert(frag_views(s.push(f)) =~= frag_views(s).push(f@));
}

pub proof fn lemma_frag_views_add(a: Seq<StyledFragment>, b: Seq<StyledFragment>)
    ensures
        frag_views(a + b) == frag_views(a) + frag_views(b),
{
    assert(frag_views(a + b) =~= frag_views(a) + frag_views(b));
}

/// A character the terminal can show inside a name: anything from the
/// space character up. Everything below is a control character.
pub open spec fn printable(c: char) -> bool {
    c as u32 >= 0x20
}

/// Whether a whole text is free of control characters.
pub open spec fn all_printable(text: Seq<char>) -> bool {
    forall|i: int| 0 <= i < text.len() ==> printable(#[trigger] text[i])
}

/// The escaped spelling of a control character: the conventional short
/// forms for tab, newline and carriage return, and the bracketed
/// lowercase-hexadecimal code point for the rest. Empty for a character
/// that is not a control character.
pub open spec fn escaped_control_model(c: char) -> Seq<char> {
    if c == '\u{0}' { "\\u{0}"@ }
    else if c == '\u{1}' { "\\u{1}"@ }
    else if c == '\u{2}' { "\\u{2}"@ }
    else if c == '\u{3}' { "\\u{3}"@ }
    else if c == '\u{4}' { "\\u{4}"@ }
    else if c == '\u{5}' { "\\u{5}"@ }
    else if c == '\u{6}' { "\\u{6}"@ }
    else if c == '\u{7}' { "\\u{7}"@ }
    else if c == '\u{8}' { "\\u{8}"@ }
    else if c == '\t' { "\\t"@ }
    else if c == '\n' { "\\n"@ }
    else if c == '\u{b}' { "\\u{b}"@ }
    else if c == '\u{c}' { "\\u{c}"@ }
    else if c == '\r' { "\\r"@ }
    else if c == '\u{e}' { "\\u{e}"@ }
    else if c == '\u{f}' { "\\u{f}"@ }
    else if c == '\u{10}' { "\\u{10}"@ }
    else if c == '\u{11}' { "\\u{11}"@ }
    else if c == '\u{12}' { "\\u{12}"@ }
    else if c == '\u{13}' { "\\u{13}"@ }
    else if c == '\u{14}' { "\\u{14}"@ }
    else if c == '\u{15}' { "\\u{15}"@ }
    else if c == '\u{16}' { "\\u{16}"@ }
    else if c == '\u{17}' { "\\u{17}"@ }
    else if c == '\u{18}' { "\\u{18}"@ }
    else if c == '\u{19}' { "\\u{19}"@ }
    else if c == '\u{1a}' { "\\u{1a}"@ }
    else if c == '\u{1b}' { "\\u{1b}"@ }
    else if c == '\u{1c}' { "\\u{1c}"@ }
    else if c == '\u{1d}' { "\\u{1d}"@ }
    else if c == '\u{1e}' { "\\u{1e}"@ }
    else if c == '\u{1f}' { "\\u{1f}"@ }
    else { Seq::<char>::empty() }
}

/// The escaped spelling of one control character.
fn escaped_control(c: char) -> (r: &'static str)
    requires
        !printable(c),
    ensures
        r@ == escaped_control_model(c),
{
    let code: u32 = c as u32;
    if code == 0x0 { "\\u{0}" }
    else if code == 0x1 { "\\u{1}" }
    else if code == 0x2 { "\\u{2}" }
    else if code == 0x3 { "\\u{3}" }
    else if code == 0x4 { "\\u{4}" }
    else if code == 0x5 { "\\u{5}" }
    else if code == 0x6 { "\\u{6}" }
    else if code == 0x7 { "\\u{7}" }
    else if code == 0x8 { "\\u{8}" }
    else if code == 0x9 { "\\t" }
    else if code == 0xa { "\\n" }
    else if code == 0xb { "\\u{b}" }
    else if code == 0xc { "\\u{c}" }
    else if code == 0xd { "\\r" }
    else if code == 0xe { "\\u{e}" }
    else if code == 0xf { "\\u{f}" }
    else if code == 0x10 { "\\u{10}" }
    else if code == 0x11 { "\\u{11}" }
    else if code == 0x12 { "\\u{12}" }
    else if code == 0x13 { "\\u{13}" }
    else if code == 0x14 { "\\u{14}" }
    else if code == 0x15 { "\\u{15}" }
    else if code == 0x16 { "\\u{16}" }
    else if code == 0x17 { "\\u{17}" }
    else if code == 0x18 { "\\u{18}" }
    else if code == 0x19 { "\\u{19}" }
    else if code == 0x1a { "\\u{1a}" }
    else if code == 0x1b { "\\u{1b}" }
    else if code == 0x1c { "\\u{1c}" }
    else if code == 0x1d { "\\u{1d}" }
    else if code == 0x1e { "\\u{1e}" }
    else { "\\u{1f}" }
}

/// The fragments for a text rendered character by character: printable
/// characters keep the main style, control characters appear escaped in
/// the control style.
pub open spec fn char_fragments(
    text: Seq<char>,
    main: ansi_term::Style,
    control: ansi_term::Style,
) -> Seq<FragmentModel>
    decreases text.len(),
{
    if text.len() == 0 {
        Seq::empty()
    } else {
        char_fragments(text.drop_last(), main, control).push(
            if printable(text.last()) {
                FragmentModel { text: seq![text.last()], style: main }
            } else {
                FragmentModel { text: escaped_control_model(text.last()), style: control }
            },
        )
    }
}

/// What escaping a text produces: one fragment holding the whole text
/// when it is clean, else one fragment per character.
pub open spec fn escape_model(
    text: Seq<char>,
    main: ansi_term::Style,
    control: ansi_term::Style,
) -> Seq<FragmentModel> {
    if all_printable(text) {
        seq![FragmentModel { text: text, style: main }]
    } else {
        char_fragments(text, main, control)
    }
}

proof fn lemma_char_fragments_styles(
    text: Seq<char>,
    main: ansi_term::Style,
    control: ansi_term::Style,
)
    ensures
        forall|i: int|
            0 <= i < char_fragments(text, main, control).len()
                ==> #[trigger] char_fragments(text, main, control)[i].style == main
                || char_fragments(text, main, control)[i].style == control,
    decreases text.len(),
{
    if text.len() > 0 {
        lemma_char_fragments_styles(text.drop_last(), main, control);
        let frags = char_fragments(text, main, control);
        let rest = char_fragments(text.drop_last(), main, control);
        assert forall|i: int| 0 <= i < frags.len() implies #[trigger] frags[i].style == main
            || frags[i].style == control by {
            if i < frags.len() - 1 {
                assert(frags[i] == rest[i]);
                assert(rest[i].style == main || rest[i].style == control);
            }
        }
    }
}

/// Escaping paints with the two given styles alone: every fragment it
/// produces carries either the main style or the control style.
pub proof fn lemma_escape_styles(
    text: Seq<char>,
    main: ansi_term::Style,
    control: ansi_term::Style,
)
    ensures
        forall|i: int|
            0 <= i < escape_model(text, main, control).len()
                ==> #[trigger] escape_model(text, main, control)[i].style == main
                || escape_model(text, main, control)[i].style == control,
{
    if !all_printable(text) {
        lemma_char_fragments_styles(text, main, control);
    }
}

/// Appends the fragments for `text` to `bits`, escaping control
/// characters: a clean text stays one span in the main style; otherwise
/// each character gets its own fragment and control characters appear
/// escaped in the control style.
pub fn escape(
    text: &str,
    main: ansi_term::Style,
    control: ansi_term::Style,
    bits: &mut Vec<StyledFragment>,
)
    ensures
        frag_views(final(bits)@) == frag_views(old(bits)@) + escape_model(text@, main, control),
{
    let n = text.unicode_len();
    let mut clean = true;
    let mut i: usize = 0;
    while i < n
        invariant
            n == text@.len(),
            i <= n,
            clean == all_printable(text@.take(i as int)),
        decreases n - i,
    {
        let c = text.get_char(i);
        proof {
            assert(text@.take(i as int + 1).drop_last() =~= text@.take(i as int));
            assert(text@.take(i as int + 1).last() == text@[i as int]);
        }
        if (c as u32) < 0x20 {
            clean = false;
            assert(!all_printable(text@.take(i as int + 1)));
        } else {
            if clean {
                assert forall|j: int| 0 <= j < i + 1 implies printable(
                    #[trigger] text@.take(i as int + 1)[j],
                ) by {
                    if j < i {
                        assert(printable(text@.take(i as int)[j]));
                    }
                }
            } else {
                let ghost k = choose|k: int| 0 <= k < i && !printable(text@.take(i as int)[k]);
                assert(!printable(text@.take(i as int + 1)[k]));
            }
        }
        i += 1;
    }
    assert(text@.take(n as int) =~= text@);
    if clean {
        let whole = StyledFragment { text: text.to_owned(), style: main };
        proof {
            lemma_frag_views_push(bits@, whole);
        }
        bits.push(whole);
        assert(frag_views(bits@) =~= frag_views(old(bits)@) + escape_model(text@, main, control));
    } else {
        let ghost entry_bits = bits@;
        let mut i: usize = 0;
        while i < n
            invariant
                n == text@.len(),
                i <= n,
                frag_views(bits@) == frag_views(entry_bits) + char_fragments(
                    text@.take(i as int),
                    main,
                    control,
                ),
            decreases n - i,
        {
            let c = text.get_char(i);
            let frag = if (c as u32) >= 0x20 {
                let piece = text.substring_char(i, i + 1);
                assert(piece@ =~= seq![text@[i as int]]);
                StyledFragment { text: piece.to_owned(), style: main }
            } else {
                StyledFragment { text: escaped_control(c).to_owned(), style: control }
            };
            proof {
                lemma_frag_views_push(bits@, frag);
                assert(text@.take(i as int + 1).drop_last() =~= text@.take(i as int));
                assert(text@.take(i as int + 1).last() == text@[i as int]);
            }
            bits.push(frag);
            i += 1;
        }
        assert(frag_views(bits@) =~= frag_views(old(bits)@) + escape_model(text@, main, control));
    }
}

} // verus!
