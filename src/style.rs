//! Format directives and their resolution into one cell style.

use vstd::prelude::*;
use crate::color::{hex_color, parse_hex_color};

verus! {

#[derive(Clone, Copy, Debug, PartialEq, Eq)]
pub enum AlignPos {
    Center,
    Left,
    Right,
}

#[derive(Clone, Copy, Debug, PartialEq, Eq)]
pub enum FillPattern {
    Solid,
    NoFill,
    Gray125,
    Gray0625,
}

#[derive(Clone, Copy, Debug, PartialEq, Eq)]
pub enum UnderlineStyle {
    Single,
    Double,
    SingleAccounting,
    DoubleAccounting,
}

#[derive(Clone, Copy, Debug, PartialEq, Eq)]
pub enum BorderStyle {
    Thin,
    Medium,
    Thick,
    Dashed,
    Dotted,
    Double,
    Hair,
    MediumDashed,
    DashDot,
    MediumDashDot,
    DashDotDot,
    MediumDashDotDot,
    SlantDashDot,
}

#[derive(Clone, Copy, Debug, PartialEq, Eq)]
pub enum FontScript {
    Superscript,
    Subscript,
}

/// One styling intent. Colors are hex strings, `"RRGGBB"` or `"#RRGGBB"`.
#[derive(Clone, Debug, PartialEq)]
pub enum CellFormat {
    Bold,
    Align(AlignPos),
    NumFormat(String),
    BgColor(String),
    Pattern(FillPattern),
    FontColor(String),
    Italic,
    Underline(UnderlineStyle),
    Strikethrough,
    FontSize(u16),
    FontName(String),
    Superscript,
    Subscript,
    Border(BorderStyle),
    BorderTop(BorderStyle),
    BorderBottom(BorderStyle),
    BorderLeft(BorderStyle),
    BorderRight(BorderStyle),
    BorderColor(String),
    BorderTopColor(String),
    BorderBottomColor(String),
    BorderLeftColor(String),
    BorderRightColor(String),
}

/// A resolved cell style. An unset field (`None`, `false`) keeps the
/// encoder's default.
#[derive(Clone, Debug, PartialEq)]
pub struct Style {
    pub bold: bool,
    pub italic: bool,
    pub strikethrough: bool,
    pub align: Option<AlignPos>,
    pub num_format: Option<String>,
    pub background: Option<u32>,
    pub pattern: Option<FillPattern>,
    pub font_color: Option<u32>,
    pub underline: Option<UnderlineStyle>,
    pub font_size: Option<u16>,
    pub font_name: Option<String>,
    pub script: Option<FontScript>,
    pub border_top: Option<BorderStyle>,
    pub border_bottom: Option<BorderStyle>,
    pub border_left: Option<BorderStyle>,
    pub border_right: Option<BorderStyle>,
    pub border_top_color: Option<u32>,
    pub border_bottom_color: Option<u32>,
    pub border_left_color: Option<u32>,
    pub border_right_color: Option<u32>,
}

/// The style with nothing set.
pub open spec fn plain_style() -> Style {
    Style {
        bold: false,
        italic: false,
        strikethrough: false,
        align: None,
        num_format: None,
        background: None,
        pattern: None,
        font_color: None,
        underline: None,
        font_size: None,
        font_name: None,
        script: None,
        border_top: None,
        border_bottom: None,
        border_left: None,
        border_right: None,
        border_top_color: None,
        border_bottom_color: None,
        border_left_color: None,
        border_right_color: None,
    }
}

/// Sets a color field when the hex string parses, and leaves the style as it is otherwise.
pub open spec fn with_color(s: Style, hex: Seq<char>, set: spec_fn(Style, u32) -> Style) -> Style {
    match hex_color(hex) {
        Some(c) => set(s, c),
        None => s,
    }
}

/// The effect of one directive: it overwrites the fields it is about.
pub open spec fn apply_directive_spec(s: Style, d: CellFormat) -> Style {
    match d {
        CellFormat::Bold => Style { bold: true, ..s },
        CellFormat::Align(p) => Style { align: Some(p), ..s },
        CellFormat::NumFormat(f) => Style { num_format: Some(f), ..s },
        CellFormat::BgColor(h) => with_color(s, h@, |t: Style, c: u32| Style { background: Some(c), ..t }),
        CellFormat::Pattern(p) => Style { pattern: Some(p), ..s },
        CellFormat::FontColor(h) => with_color(s, h@, |t: Style, c: u32| Style { font_color: Some(c), ..t }),
        CellFormat::Italic => Style { italic: true, ..s },
        CellFormat::Underline(u) => Style { underline: Some(u), ..s },
        CellFormat::Strikethrough => Style { strikethrough: true, ..s },
        CellFormat::FontSize(n) => Style { font_size: Some(n), ..s },
        CellFormat::FontName(n) => Style { font_name: Some(n), ..s },
        CellFormat::Superscript => Style { script: Some(FontScript::Superscript), ..s },
        CellFormat::Subscript => Style { script: Some(FontScript::Subscript), ..s },
        CellFormat::Border(b) => Style {
            border_top: Some(b),
            border_bottom: Some(b),
            border_left: Some(b),
            border_right: Some(b),
            ..s
        },
        CellFormat::BorderTop(b) => Style { border_top: Some(b), ..s },
        CellFormat::BorderBottom(b) => Style { border_bottom: Some(b), ..s },
        CellFormat::BorderLeft(b) => Style { border_left: Some(b), ..s },
        CellFormat::BorderRight(b) => Style { border_right: Some(b), ..s },
        CellFormat::BorderColor(h) => with_color(s, h@, |t: Style, c: u32| Style {
            border_top_color: Some(c),
            border_bottom_color: Some(c),
            border_left_color: Some(c),
            border_right_color: Some(c),
            ..t
        }),
        CellFormat::BorderTopColor(h) => with_color(s, h@, |t: Style, c: u32| Style { border_top_color: Some(c), ..t }),
        CellFormat::BorderBottomColor(h) => with_color(s, h@, |t: Style, c: u32| Style { border_bottom_color: Some(c), ..t }),
        CellFormat::BorderLeftColor(h) => with_color(s, h@, |t: Style, c: u32| Style { border_left_color: Some(c), ..t }),
        CellFormat::BorderRightColor(h) => with_color(s, h@, |t: Style, c: u32| Style { border_right_color: Some(c), ..t }),
    }
}

/// Applies the directives to `s` from first to last.
pub open spec fn fold_directives(s: Style, ds: Seq<CellFormat>) -> Style
    decreases ds.len(),
{
    if ds.len() == 0 {
        s
    } else {
        apply_directive_spec(fold_directives(s, ds.drop_last()), ds.last())
    }
}

/// The style that a list of directives resolves to.
pub open spec fn resolve_spec(ds: Seq<CellFormat>) -> Style {
    fold_directives(plain_style(), ds)
}

/// A field of `top` that is set wins over the same field of `base`.
pub open spec fn pick<T>(base: Option<T>, top: Option<T>) -> Option<T> {
    if top is Some {
        top
    } else {
        base
    }
}

/// `top` laid over `base`: every field that `top` sets replaces the one in `base`.
pub open spec fn overlay(base: Style, top: Style) -> Style {
    Style {
        bold: base.bold || top.bold,
        italic: base.italic || top.italic,
        strikethrough: base.strikethrough || top.strikethrough,
        align: pick(base.align, top.align),
        num_format: pick(base.num_format, top.num_format),
        background: pick(base.background, top.background),
        pattern: pick(base.pattern, top.pattern),
        font_color: pick(base.font_color, top.font_color),
        underline: pick(base.underline, top.underline),
        font_size: pick(base.font_size, top.font_size),
        font_name: pick(base.font_name, top.font_name),
        script: pick(base.script, top.script),
        border_top: pick(base.border_top, top.border_top),
        border_bottom: pick(base.border_bottom, top.border_bottom),
        border_left: pick(base.border_left, top.border_left),
        border_right: pick(base.border_right, top.border_right),
        border_top_color: pick(base.border_top_color, top.border_top_color),
        border_bottom_color: pick(base.border_bottom_color, top.border_bottom_color),
        border_left_color: pick(base.border_left_color, top.border_left_color),
        border_right_color: pick(base.border_right_color, top.border_right_color),
    }
}

proof fn lemma_overlay_plain(s: Style)
    ensures
        overlay(s, plain_style()) == s,
        overlay(plain_style(), s) == s,
{
}

proof fn lemma_overlay_assoc(a: Style, b: Style, c: Style)
    ensures
        overlay(overlay(a, b), c) == overlay(a, overlay(b, c)),
{
}

proof fn lemma_overlay_idem(a: Style)
    ensures
        overlay(a, a) == a,
{
}

proof fn lemma_overlay_absorb(a: Style, p: Style, b: Style)
    ensures
        overlay(overlay(overlay(a, p), b), p) == overlay(overlay(a, b), p),
{
}

/// A directive sets its fields to values that do not depend on the style it is applied to.
proof fn lemma_apply_is_overlay(s: Style, d: CellFormat)
    ensures
        apply_directive_spec(s, d) == overlay(s, apply_directive_spec(plain_style(), d)),
{
}

proof fn lemma_fold_is_overlay(s: Style, ds: Seq<CellFormat>)
    ensures
        fold_directives(s, ds) == overlay(s, resolve_spec(ds)),
    decreases ds.len(),
{
    if ds.len() == 0 {
        lemma_overlay_plain(s);
    } else {
        let d = ds.last();
        let p = apply_directive_spec(plain_style(), d);
        lemma_fold_is_overlay(s, ds.drop_last());
        lemma_fold_is_overlay(plain_style(), ds.drop_last());
        lemma_overlay_plain(resolve_spec(ds.drop_last()));
        lemma_apply_is_overlay(fold_directives(s, ds.drop_last()), d);
        lemma_apply_is_overlay(resolve_spec(ds.drop_last()), d);
        lemma_overlay_assoc(s, resolve_spec(ds.drop_last()), p);
    }
}

proof fn lemma_fold_concat(s: Style, a: Seq<CellFormat>, b: Seq<CellFormat>)
    ensures
        fold_directives(s, a + b) == fold_directives(fold_directives(s, a), b),
    decreases b.len(),
{
    if b.len() == 0 {
        assert(a + b =~= a);
    } else {
        assert((a + b).drop_last() =~= a + b.drop_last());
        lemma_fold_concat(s, a, b.drop_last());
    }
}

/// Resolving the directives of a list once more over its own result changes
/// nothing: the fold is idempotent.
pub proof fn lemma_resolve_idempotent(ds: Seq<CellFormat>)
    ensures
        fold_directives(resolve_spec(ds), ds) == resolve_spec(ds),
        resolve_spec(ds + ds) == resolve_spec(ds),
{
    lemma_fold_is_overlay(resolve_spec(ds), ds);
    lemma_overlay_idem(resolve_spec(ds));
    lemma_fold_concat(plain_style(), ds, ds);
}

/// Appending a directive that the list already holds gives the same style as
/// moving that directive to the end: a repeated directive replaces, it does not add.
pub proof fn lemma_repeat_replaces(ds: Seq<CellFormat>, i: int)
    requires
        0 <= i < ds.len(),
    ensures
        resolve_spec(ds.push(ds[i])) == resolve_spec(ds.remove(i).push(ds[i])),
{
    let d = ds[i];
    let a = ds.take(i);
    let b = ds.skip(i + 1);
    let p = apply_directive_spec(plain_style(), d);
    let ra = resolve_spec(a);
    let rb = resolve_spec(b);
    assert(ds =~= (a + seq![d]) + b);
    assert(ds.remove(i) =~= a + b);
    assert(seq![d].drop_last() =~= Seq::<CellFormat>::empty());
    lemma_fold_concat(plain_style(), a, seq![d]);
    assert(fold_directives(ra, Seq::<CellFormat>::empty()) == ra);
    assert(seq![d].last() == d);
    assert(fold_directives(ra, seq![d]) == apply_directive_spec(ra, d));
    lemma_apply_is_overlay(ra, d);
    assert(resolve_spec(a + seq![d]) == overlay(ra, p));
    lemma_fold_concat(plain_style(), a + seq![d], b);
    lemma_fold_is_overlay(overlay(ra, p), b);
    assert(resolve_spec(ds) == overlay(overlay(ra, p), rb));
    lemma_fold_concat(plain_style(), a, b);
    lemma_fold_is_overlay(ra, b);
    assert(resolve_spec(ds.remove(i)) == overlay(ra, rb));
    assert(ds.push(d).drop_last() =~= ds);
    assert(ds.remove(i).push(d).drop_last() =~= ds.remove(i));
    lemma_apply_is_overlay(overlay(overlay(ra, p), rb), d);
    lemma_apply_is_overlay(overlay(ra, rb), d);
    lemma_overlay_absorb(ra, p, rb);
}

proof fn lemma_overlay_congruent(a: Style, b: Style, q: Style, p: Style)
    requires
        overlay(a, p) == overlay(b, p),
    ensures
        overlay(overlay(a, q), p) == overlay(overlay(b, q), p),
{
    assert(overlay(a, p).bold == overlay(b, p).bold);
    assert(overlay(a, p).italic == overlay(b, p).italic);
    assert(overlay(a, p).strikethrough == overlay(b, p).strikethrough);
}

/// Holds of every directive but `d`.
pub open spec fn other_than(d: CellFormat) -> spec_fn(CellFormat) -> bool {
    |x: CellFormat| x != d
}

proof fn lemma_without_then_push(ds: Seq<CellFormat>, d: CellFormat)
    ensures
        overlay(resolve_spec(ds), apply_directive_spec(plain_style(), d)) == overlay(
            resolve_spec(ds.filter(other_than(d))),
            apply_directive_spec(plain_style(), d),
        ),
    decreases ds.len(),
{
    let p = apply_directive_spec(plain_style(), d);
    if ds.len() > 0 {
        let e = ds.last();
        let rest = ds.drop_last();
        lemma_without_then_push(rest, d);
        lemma_apply_is_overlay(resolve_spec(rest), e);
        let q = apply_directive_spec(plain_style(), e);
        let kept = rest.filter(other_than(d));
        reveal(Seq::filter);
        assert(ds.filter(other_than(d)) == if other_than(d)(e) {
            kept.push(e)
        } else {
            kept
        });
        if e == d {
            assert(ds.filter(other_than(d)) == kept);
            lemma_overlay_absorb(resolve_spec(rest), p, plain_style());
            lemma_overlay_plain(overlay(resolve_spec(rest), p));
            lemma_overlay_plain(resolve_spec(rest));
        } else {
            assert(ds.filter(other_than(d)) == kept.push(e));
            assert(kept.push(e).drop_last() =~= kept);
            lemma_apply_is_overlay(resolve_spec(kept), e);
            lemma_overlay_congruent(resolve_spec(rest), resolve_spec(kept), q, p);
        }
    }
}

/// Appending a directive gives the same style as first dropping every earlier
/// occurrence of it: a repeated directive replaces, it does not accumulate.
pub proof fn lemma_repeat_replaces_all(ds: Seq<CellFormat>, d: CellFormat)
    ensures
        resolve_spec(ds.push(d)) == resolve_spec(ds.filter(other_than(d)).push(d)),
{
    let kept = ds.filter(other_than(d));
    assert(ds.push(d).drop_last() =~= ds);
    assert(kept.push(d).drop_last() =~= kept);
    lemma_apply_is_overlay(resolve_spec(ds), d);
    lemma_apply_is_overlay(resolve_spec(kept), d);
    lemma_without_then_push(ds, d);
}

/// No field is set in both styles.
pub open spec fn disjoint(a: Style, b: Style) -> bool {
    &&& !(a.bold && b.bold) && !(a.italic && b.italic) && !(a.strikethrough && b.strikethrough)
    &&& !(a.align is Some && b.align is Some) && !(a.num_format is Some && b.num_format is Some)
    &&& !(a.background is Some && b.background is Some) && !(a.pattern is Some && b.pattern is Some)
    &&& !(a.font_color is Some && b.font_color is Some) && !(a.underline is Some && b.underline is Some)
    &&& !(a.font_size is Some && b.font_size is Some) && !(a.font_name is Some && b.font_name is Some)
    &&& !(a.script is Some && b.script is Some)
    &&& !(a.border_top is Some && b.border_top is Some) && !(a.border_bottom is Some && b.border_bottom is Some)
    &&& !(a.border_left is Some && b.border_left is Some) && !(a.border_right is Some && b.border_right is Some)
    &&& !(a.border_top_color is Some && b.border_top_color is Some)
    &&& !(a.border_bottom_color is Some && b.border_bottom_color is Some)
    &&& !(a.border_left_color is Some && b.border_left_color is Some)
    &&& !(a.border_right_color is Some && b.border_right_color is Some)
}

/// The two directives set no field in common.
pub open spec fn touch_apart(e: CellFormat, d: CellFormat) -> bool {
    disjoint(apply_directive_spec(plain_style(), e), apply_directive_spec(plain_style(), d))
}

proof fn lemma_resolve_disjoint(ds: Seq<CellFormat>, d: CellFormat)
    requires
        forall|j: int| 0 <= j < ds.len() ==> touch_apart(#[trigger] ds[j], d),
    ensures
        disjoint(resolve_spec(ds), apply_directive_spec(plain_style(), d)),
    decreases ds.len(),
{
    if ds.len() > 0 {
        let rest = ds.drop_last();
        assert forall|j: int| 0 <= j < rest.len() implies touch_apart(#[trigger] rest[j], d) by {
            assert(rest[j] == ds[j]);
        }
        lemma_resolve_disjoint(rest, d);
        lemma_apply_is_overlay(resolve_spec(rest), ds.last());
        assert(touch_apart(ds[ds.len() - 1], d));
    }
}

/// Appending a directive that the list already holds changes nothing when no
/// directive after its last occurrence sets any field that it sets.
pub proof fn lemma_repeat_without_overlap_changes_nothing(ds: Seq<CellFormat>, i: int)
    requires
        0 <= i < ds.len(),
        forall|j: int| i < j < ds.len() ==> touch_apart(#[trigger] ds[j], ds[i]),
    ensures
        resolve_spec(ds.push(ds[i])) == resolve_spec(ds),
{
    let d = ds[i];
    let a = ds.take(i);
    let b = ds.skip(i + 1);
    let p = apply_directive_spec(plain_style(), d);
    let ra = resolve_spec(a);
    let rb = resolve_spec(b);
    assert(ds =~= (a + seq![d]) + b);
    assert(seq![d].drop_last() =~= Seq::<CellFormat>::empty());
    lemma_fold_concat(plain_style(), a, seq![d]);
    assert(fold_directives(ra, Seq::<CellFormat>::empty()) == ra);
    assert(seq![d].last() == d);
    lemma_apply_is_overlay(ra, d);
    lemma_fold_concat(plain_style(), a + seq![d], b);
    lemma_fold_is_overlay(overlay(ra, p), b);
    assert(resolve_spec(ds) == overlay(overlay(ra, p), rb));
    assert forall|j: int| 0 <= j < b.len() implies touch_apart(#[trigger] b[j], d) by {
        assert(b[j] == ds[i + 1 + j]);
    }
    lemma_resolve_disjoint(b, d);
    assert(ds.push(d).drop_last() =~= ds);
    lemma_apply_is_overlay(resolve_spec(ds), d);
}

/// A `#` in front of a color written without one does not change the color
/// it denotes.
pub proof fn lemma_hash_prefix_ignored(with_hash: Seq<char>, bare: Seq<char>)
    requires
        with_hash == seq!['#'] + bare,
        bare.len() == 0 || bare[0] != '#',
    ensures
        hex_color(with_hash) == hex_color(bare),
{
    assert(with_hash.drop_first() =~= bare);
}

/// A background color written with or without a leading `#` resolves to the
/// same style, after any list of directives.
pub proof fn lemma_background_hash_tolerant(ds: Seq<CellFormat>, with_hash: String, bare: String)
    requires
        with_hash@ == seq!['#'] + bare@,
        bare@.len() == 0 || bare@[0] != '#',
    ensures
        resolve_spec(ds.push(CellFormat::BgColor(with_hash))) == resolve_spec(
            ds.push(CellFormat::BgColor(bare)),
        ),
{
    lemma_hash_prefix_ignored(with_hash@, bare@);
    assert(ds.push(CellFormat::BgColor(with_hash)).drop_last() =~= ds);
    assert(ds.push(CellFormat::BgColor(bare)).drop_last() =~= ds);
}

/// A color directive whose string is no hex color leaves the style as it was;
/// it is not an error.
pub proof fn lemma_invalid_color_ignored(ds: Seq<CellFormat>, hex: String)
    requires
        hex_color(hex@) is None,
    ensures
        resolve_spec(ds.push(CellFormat::BgColor(hex))) == resolve_spec(ds),
        resolve_spec(ds.push(CellFormat::FontColor(hex))) == resolve_spec(ds),
        resolve_spec(ds.push(CellFormat::BorderColor(hex))) == resolve_spec(ds),
{
    assert(ds.push(CellFormat::BgColor(hex)).drop_last() =~= ds);
    assert(ds.push(CellFormat::FontColor(hex)).drop_last() =~= ds);
    assert(ds.push(CellFormat::BorderColor(hex)).drop_last() =~= ds);
}

impl Style {
    /// The style with nothing set.
    pub fn plain() -> (r: Style)
        ensures
            r == plain_style(),
    {
        Style {
            bold: false,
            italic: false,
            strikethrough: false,
            align: None,
            num_format: None,
            background: None,
            pattern: None,
            font_color: None,
            underline: None,
            font_size: None,
            font_name: None,
            script: None,
            border_top: None,
            border_bottom: None,
            border_left: None,
            border_right: None,
            border_top_color: None,
            border_bottom_color: None,
            border_left_color: None,
            border_right_color: None,
        }
    }
}

/// Applies one directive to `style`; a color that does not parse changes nothing.
pub fn apply_directive(style: &mut Style, d: &CellFormat)
    ensures
        *final(style) == apply_directive_spec(*old(style), *d),
{
    match d {
        CellFormat::Bold => style.bold = true,
        CellFormat::Align(p) => style.align = Some(*p),
        CellFormat::NumFormat(f) => style.num_format = Some(f.clone()),
        CellFormat::BgColor(h) => {
            if let Some(c) = parse_hex_color(h.as_str()) {
                style.background = Some(c);
            }
        },
        CellFormat::Pattern(p) => style.pattern = Some(*p),
        CellFormat::FontColor(h) => {
            if let Some(c) = parse_hex_color(h.as_str()) {
                style.font_color = Some(c);
            }
        },
        CellFormat::Italic => style.italic = true,
        CellFormat::Underline(u) => style.underline = Some(*u),
        CellFormat::Strikethrough => style.strikethrough = true,
        CellFormat::FontSize(n) => style.font_size = Some(*n),
        CellFormat::FontName(n) => style.font_name = Some(n.clone()),
        CellFormat::Superscript => style.script = Some(FontScript::Superscript),
        CellFormat::Subscript => style.script = Some(FontScript::Subscript),
        CellFormat::Border(b) => {
            style.border_top = Some(*b);
            style.border_bottom = Some(*b);
            style.border_left = Some(*b);
            style.border_right = Some(*b);
        },
        CellFormat::BorderTop(b) => style.border_top = Some(*b),
        CellFormat::BorderBottom(b) => style.border_bottom = Some(*b),
        CellFormat::BorderLeft(b) => style.border_left = Some(*b),
        CellFormat::BorderRight(b) => style.border_right = Some(*b),
        CellFormat::BorderColor(h) => {
            if let Some(c) = parse_hex_color(h.as_str()) {
                style.border_top_color = Some(c);
                style.border_bottom_color = Some(c);
                style.border_left_color = Some(c);
                style.border_right_color = Some(c);
            }
        },
        CellFormat::BorderTopColor(h) => {
            if let Some(c) = parse_hex_color(h.as_str()) {
                style.border_top_color = Some(c);
            }
        },
        CellFormat::BorderBottomColor(h) => {
            if let Some(c) = parse_hex_color(h.as_str()) {
                style.border_bottom_color = Some(c);
            }
        },
        CellFormat::BorderLeftColor(h) => {
            if let Some(c) = parse_hex_color(h.as_str()) {
                style.border_left_color = Some(c);
            }
        },
        CellFormat::BorderRightColor(h) => {
            if let Some(c) = parse_hex_color(h.as_str()) {
                style.border_right_color = Some(c);
            }
        },
    }
}

/// Resolves a list of directives, from first to last, starting from the plain style.
pub fn resolve(directives: &Vec<CellFormat>) -> (r: Style)
    ensures
        r == resolve_spec(directives@),
{
    let mut style = Style::plain();
    let mut i: usize = 0;
    while i < directives.len()
        invariant
            i <= directives@.len(),
            style == resolve_spec(directives@.take(i as int)),
        decreases directives@.len() - i,
    {
        proof {
            assert(directives@.take(i + 1).drop_last() =~= directives@.take(i as int));
        }
        apply_directive(&mut style, &directives[i]);
        i = i + 1;
    }
    assert(directives@.take(i as int) =~= directives@);
    style
}

} // verus!
