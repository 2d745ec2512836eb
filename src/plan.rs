//! Instructions for a sheet, and the primitive encoder calls each one becomes.

use vstd::prelude::*;
use crate::error::{ErrorKind, WriteError};
use crate::sink::{date_rejected, parse_datetime, error_message};
use crate::style::{plain_style, resolve, resolve_spec, CellFormat, Style};

verus! {

/// What one write puts in a cell. A number is carried as the bit pattern of
/// its IEEE 754 binary64 value; the library never does arithmetic on it.
#[derive(Clone, Debug, PartialEq)]
pub enum CellData {
    Number(u64),
    String(String),
    StringWithFormat(String, Vec<CellFormat>),
    NumberWithFormat(u64, Vec<CellFormat>),
    ImagePath(String),
    Image(Vec<u8>),
    Date(String),
    DateTime(String),
    Formula(String),
    Boolean(bool),
    BooleanWithFormat(bool, Vec<CellFormat>),
    Url(String),
    UrlWithText(String, String),
    UrlWithFormat(String, Vec<CellFormat>),
    UrlWithTextAndFormat(String, String, Vec<CellFormat>),
    Blank(Vec<CellFormat>),
    RichString(Vec<(String, Vec<CellFormat>)>),
    RichStringWithFormat(Vec<(String, Vec<CellFormat>)>, Vec<CellFormat>),
    /// Sets the width of the cell's column, as `Instruction::SetColumnWidth` does.
    ColumnWidth(u32),
    /// Sets the height of the cell's row, as `Instruction::SetRowHeight` does.
    RowHeight(u16),
}

/// Optional settings of a cell note; an unset one keeps the encoder's default.
#[derive(Clone, Debug, PartialEq)]
pub struct NoteOptions {
    pub author: Option<String>,
    pub visible: Option<bool>,
    pub width: Option<u32>,
    pub height: Option<u32>,
}

/// One operation on a sheet. Rows and columns count from zero.
#[derive(Clone, Debug, PartialEq)]
pub enum Instruction {
    Write(u32, u16, CellData),
    SetColumnWidth(u16, u32),
    SetRowHeight(u32, u16),
    SetColumnRangeWidth(u16, u16, u32),
    SetRowRangeHeight(u32, u32, u16),
    SetFreezePanes(u32, u16),
    SetRowHidden(u32),
    SetColumnHidden(u16),
    SetAutofilter(u32, u16, u32, u16),
    MergeRange(u32, u16, u32, u16, CellData),
    InsertNote(u32, u16, String, NoteOptions),
}

/// One primitive call on the encoder's sheet. A `style` of `None` means an
/// unformatted write.
#[derive(Clone, Debug, PartialEq)]
pub enum SinkCall {
    WriteString { row: u32, col: u16, text: String, style: Option<Style> },
    WriteNumber { row: u32, col: u16, bits: u64, style: Option<Style> },
    WriteDate { row: u32, col: u16, text: String, style: Style },
    WriteFormula { row: u32, col: u16, formula: String },
    WriteBoolean { row: u32, col: u16, value: bool, style: Option<Style> },
    WriteUrl { row: u32, col: u16, url: String, text: Option<String>, style: Option<Style> },
    WriteBlank { row: u32, col: u16, style: Style },
    WriteRichString { row: u32, col: u16, segments: Vec<(String, Style)>, style: Option<Style> },
    InsertImageFile { row: u32, col: u16, path: String },
    InsertImageBytes { row: u32, col: u16, bytes: Vec<u8> },
    Merge { first_row: u32, first_col: u16, last_row: u32, last_col: u16, text: String, style: Style },
    ColumnWidth { col: u16, width: u32 },
    RowHeight { row: u32, height: u16 },
    ColumnRangeWidthPixels { first_col: u16, last_col: u16, width: u32 },
    RowRangeHeightPixels { first_row: u32, last_row: u32, height: u16 },
    FreezePanes { row: u32, col: u16 },
    HideRow { row: u32 },
    HideColumn { col: u16 },
    Autofilter { first_row: u32, first_col: u16, last_row: u32, last_col: u16 },
    InsertNote { row: u32, col: u16, text: String, options: NoteOptions },
}

pub open spec fn date_format_text() -> Seq<char> {
    seq!['y', 'y', 'y', 'y', '-', 'm', 'm', '-', 'd', 'd']
}

pub open spec fn datetime_format_text() -> Seq<char> {
    date_format_text() + seq!['T', 'h', 'h', ':', 'm', 'm', ':', 's', 's']
}

/// The fixed style of a date cell: the plain style with the number format `fmt`.
pub open spec fn is_date_style(s: Style, fmt: Seq<char>) -> bool {
    &&& s.num_format is Some
    &&& s.num_format->0@ == fmt
    &&& s == Style { num_format: s.num_format, ..plain_style() }
}

pub open spec fn is_write_date(c: SinkCall, row: u32, col: u16, text: String, fmt: Seq<char>) -> bool {
    match c {
        SinkCall::WriteDate { row: r, col: k, text: t, style } => r == row && k == col && t == text
            && is_date_style(style, fmt),
        _ => false,
    }
}

/// A rich string call whose segments are the texts of `segs`, each with its
/// own resolved directives.
pub open spec fn is_write_rich(
    c: SinkCall,
    row: u32,
    col: u16,
    segs: Seq<(String, Vec<CellFormat>)>,
    cell: Option<Style>,
) -> bool {
    match c {
        SinkCall::WriteRichString { row: r, col: k, segments, style } => {
            &&& r == row && k == col && style == cell
            &&& segments@.len() == segs.len()
            &&& forall|i: int|
                0 <= i < segs.len() ==> (#[trigger] segments@[i]).0 == segs[i].0 && segments@[i].1
                    == resolve_spec(segs[i].1@)
        },
        _ => false,
    }
}

pub open spec fn is_insert_bytes(c: SinkCall, row: u32, col: u16, data: Seq<u8>) -> bool {
    match c {
        SinkCall::InsertImageBytes { row: r, col: k, bytes } => r == row && k == col && bytes@ == data,
        _ => false,
    }
}

pub open spec fn is_merge(
    c: SinkCall,
    first_row: u32,
    first_col: u16,
    last_row: u32,
    last_col: u16,
    text: Seq<char>,
    style: Style,
) -> bool {
    match c {
        SinkCall::Merge { first_row: r0, first_col: c0, last_row: r1, last_col: c1, text: t, style: s } => {
            r0 == first_row && c0 == first_col && r1 == last_row && c1 == last_col && t@ == text
                && s == style
        },
        _ => false,
    }
}

pub open spec fn single(calls: Seq<SinkCall>, c: SinkCall) -> bool {
    calls == seq![c]
}

/// The calls that writing `data` at (`row`, `col`) makes.
pub open spec fn write_calls(row: u32, col: u16, data: CellData, calls: Seq<SinkCall>) -> bool {
    match data {
        CellData::Number(b) => single(calls, SinkCall::WriteNumber { row, col, bits: b, style: None }),
        CellData::String(t) => single(calls, SinkCall::WriteString { row, col, text: t, style: None }),
        CellData::StringWithFormat(t, fs) => single(
            calls,
            SinkCall::WriteString { row, col, text: t, style: Some(resolve_spec(fs@)) },
        ),
        CellData::NumberWithFormat(b, fs) => single(
            calls,
            SinkCall::WriteNumber { row, col, bits: b, style: Some(resolve_spec(fs@)) },
        ),
        CellData::ImagePath(p) => single(calls, SinkCall::InsertImageFile { row, col, path: p }),
        CellData::Image(bytes) => calls.len() == 1 && is_insert_bytes(calls[0], row, col, bytes@),
        CellData::Date(t) => calls.len() == 1 && is_write_date(calls[0], row, col, t, date_format_text()),
        CellData::DateTime(t) => calls.len() == 1 && is_write_date(
            calls[0],
            row,
            col,
            t,
            datetime_format_text(),
        ),
        CellData::Formula(f) => single(calls, SinkCall::WriteFormula { row, col, formula: f }),
        CellData::Boolean(v) => single(calls, SinkCall::WriteBoolean { row, col, value: v, style: None }),
        CellData::BooleanWithFormat(v, fs) => single(
            calls,
            SinkCall::WriteBoolean { row, col, value: v, style: Some(resolve_spec(fs@)) },
        ),
        CellData::Url(u) => single(calls, SinkCall::WriteUrl { row, col, url: u, text: None, style: None }),
        CellData::UrlWithText(u, t) => single(
            calls,
            SinkCall::WriteUrl { row, col, url: u, text: Some(t), style: None },
        ),
        CellData::UrlWithFormat(u, fs) => single(
            calls,
            SinkCall::WriteUrl { row, col, url: u, text: None, style: Some(resolve_spec(fs@)) },
        ),
        // The link is written with its text, then the same text is written
        // over it with the style: two calls on one cell.
        CellData::UrlWithTextAndFormat(u, t, fs) => calls == seq![
            SinkCall::WriteUrl { row, col, url: u, text: Some(t), style: None },
            SinkCall::WriteString { row, col, text: t, style: Some(resolve_spec(fs@)) },
        ],
        CellData::Blank(fs) => single(calls, SinkCall::WriteBlank { row, col, style: resolve_spec(fs@) }),
        CellData::RichString(segs) => calls.len() == 1 && is_write_rich(calls[0], row, col, segs@, None),
        CellData::RichStringWithFormat(segs, fs) => calls.len() == 1 && is_write_rich(
            calls[0],
            row,
            col,
            segs@,
            Some(resolve_spec(fs@)),
        ),
        CellData::ColumnWidth(w) => single(calls, SinkCall::ColumnWidth { col, width: w }),
        CellData::RowHeight(h) => single(calls, SinkCall::RowHeight { row, height: h }),
    }
}

/// The kinds of cell data that a merged range can hold. The others are written
/// to the top-left cell alone and nothing is merged.
pub open spec fn merge_supported(data: CellData) -> bool {
    match data {
        CellData::String(_) | CellData::StringWithFormat(_, _) | CellData::Number(_)
        | CellData::NumberWithFormat(_, _) | CellData::Boolean(_) | CellData::BooleanWithFormat(_, _)
        | CellData::Blank(_) => true,
        _ => false,
    }
}

/// The calls that merging (`r0`, `c0`)..(`r1`, `c1`) with `data` makes. A
/// number or boolean is written after the merge, which blanks the top-left
/// cell, so that the cell keeps the value.
pub open spec fn merge_calls(r0: u32, c0: u16, r1: u32, c1: u16, data: CellData, calls: Seq<SinkCall>) -> bool {
    let empty = Seq::<char>::empty();
    match data {
        CellData::String(t) => calls.len() == 1 && is_merge(calls[0], r0, c0, r1, c1, t@, plain_style()),
        CellData::StringWithFormat(t, fs) => calls.len() == 1 && is_merge(
            calls[0],
            r0,
            c0,
            r1,
            c1,
            t@,
            resolve_spec(fs@),
        ),
        CellData::Number(b) => calls.len() == 2 && is_merge(calls[0], r0, c0, r1, c1, empty, plain_style())
            && calls[1] == (SinkCall::WriteNumber { row: r0, col: c0, bits: b, style: None }),
        CellData::NumberWithFormat(b, fs) => calls.len() == 2 && is_merge(
            calls[0],
            r0,
            c0,
            r1,
            c1,
            empty,
            resolve_spec(fs@),
        ) && calls[1] == (SinkCall::WriteNumber {
            row: r0,
            col: c0,
            bits: b,
            style: Some(resolve_spec(fs@)),
        }),
        CellData::Boolean(v) => calls.len() == 2 && is_merge(calls[0], r0, c0, r1, c1, empty, plain_style())
            && calls[1] == (SinkCall::WriteBoolean { row: r0, col: c0, value: v, style: None }),
        CellData::BooleanWithFormat(v, fs) => calls.len() == 2 && is_merge(
            calls[0],
            r0,
            c0,
            r1,
            c1,
            empty,
            resolve_spec(fs@),
        ) && calls[1] == (SinkCall::WriteBoolean {
            row: r0,
            col: c0,
            value: v,
            style: Some(resolve_spec(fs@)),
        }),
        CellData::Blank(fs) => calls.len() == 1 && is_merge(
            calls[0],
            r0,
            c0,
            r1,
            c1,
            empty,
            resolve_spec(fs@),
        ),
        _ => write_calls(r0, c0, data, calls),
    }
}

/// A date or date-time payload whose string the encoder cannot parse.
pub open spec fn bad_date(data: CellData) -> bool {
    match data {
        CellData::Date(t) => date_rejected(t@),
        CellData::DateTime(t) => date_rejected(t@),
        _ => false,
    }
}

pub open spec fn instruction_bad_date(i: Instruction) -> bool {
    match i {
        Instruction::Write(_, _, d) => bad_date(d),
        Instruction::MergeRange(_, _, _, _, d) => bad_date(d),
        _ => false,
    }
}

/// The calls that one instruction makes.
pub open spec fn instruction_calls(i: Instruction, calls: Seq<SinkCall>) -> bool {
    match i {
        Instruction::Write(r, c, d) => write_calls(r, c, d, calls),
        Instruction::MergeRange(r0, c0, r1, c1, d) => merge_calls(r0, c0, r1, c1, d, calls),
        Instruction::SetColumnWidth(c, w) => single(calls, SinkCall::ColumnWidth { col: c, width: w }),
        Instruction::SetRowHeight(r, h) => single(calls, SinkCall::RowHeight { row: r, height: h }),
        Instruction::SetColumnRangeWidth(c0, c1, w) => single(
            calls,
            SinkCall::ColumnRangeWidthPixels { first_col: c0, last_col: c1, width: w },
        ),
        Instruction::SetRowRangeHeight(r0, r1, h) => single(
            calls,
            SinkCall::RowRangeHeightPixels { first_row: r0, last_row: r1, height: h },
        ),
        Instruction::SetFreezePanes(r, c) => single(calls, SinkCall::FreezePanes { row: r, col: c }),
        Instruction::SetRowHidden(r) => single(calls, SinkCall::HideRow { row: r }),
        Instruction::SetColumnHidden(c) => single(calls, SinkCall::HideColumn { col: c }),
        Instruction::SetAutofilter(r0, c0, r1, c1) => single(
            calls,
            SinkCall::Autofilter { first_row: r0, first_col: c0, last_row: r1, last_col: c1 },
        ),
        Instruction::InsertNote(r, c, t, o) => single(
            calls,
            SinkCall::InsertNote { row: r, col: c, text: t, options: o },
        ),
    }
}

fn one(c: SinkCall) -> (r: Vec<SinkCall>)
    ensures
        r@ == seq![c],
{
    let mut v: Vec<SinkCall> = Vec::new();
    v.push(c);
    assert(v@ =~= seq![c]);
    v
}

fn two(a: SinkCall, b: SinkCall) -> (r: Vec<SinkCall>)
    ensures
        r@ == seq![a, b],
{
    let mut v: Vec<SinkCall> = Vec::new();
    v.push(a);
    v.push(b);
    assert(v@ =~= seq![a, b]);
    v
}

fn copy_bytes(b: &Vec<u8>) -> (r: Vec<u8>)
    ensures
        r@ == b@,
{
    let mut v: Vec<u8> = Vec::new();
    let mut i: usize = 0;
    while i < b.len()
        invariant
            i <= b@.len(),
            v@ == b@.take(i as int),
        decreases b@.len() - i,
    {
        v.push(b[i]);
        i = i + 1;
        assert(v@ =~= b@.take(i as int));
    }
    assert(b@.take(i as int) =~= b@);
    v
}

fn copy_text(t: &String) -> (r: String)
    ensures
        r == *t,
{
    t.clone()
}

/// The plain style with the number format `fmt`.
fn date_style(fmt: &str) -> (r: Style)
    ensures
        is_date_style(r, fmt@),
{
    let mut s = Style::plain();
    s.num_format = Some(fmt.to_owned());
    s
}

/// Resolves the directives of each rich-string segment.
fn resolve_segments(segs: &Vec<(String, Vec<CellFormat>)>) -> (r: Vec<(String, Style)>)
    ensures
        r@.len() == segs@.len(),
        forall|i: int|
            0 <= i < segs@.len() ==> (#[trigger] r@[i]).0 == segs@[i].0 && r@[i].1 == resolve_spec(
                segs@[i].1@,
            ),
{
    let mut out: Vec<(String, Style)> = Vec::new();
    let mut i: usize = 0;
    while i < segs.len()
        invariant
            i <= segs@.len(),
            out@.len() == i,
            forall|j: int|
                0 <= j < i ==> (#[trigger] out@[j]).0 == segs@[j].0 && out@[j].1 == resolve_spec(
                    segs@[j].1@,
                ),
        decreases segs@.len() - i,
    {
        let seg = &segs[i];
        out.push((copy_text(&seg.0), resolve(&seg.1)));
        i = i + 1;
    }
    out
}

/// Checks a date or date-time string and plans its write with the fixed
/// number format `fmt`.
fn plan_date(row: u32, col: u16, text: &String, fmt: &str) -> (r: Result<Vec<SinkCall>, WriteError>)
    ensures
        r is Err <==> date_rejected(text@),
        r is Err ==> r->Err_0.kind == ErrorKind::DateParse,
        r is Ok ==> r->Ok_0@.len() == 1 && is_write_date(r->Ok_0@[0], row, col, *text, fmt@),
{
    match parse_datetime(text.as_str()) {
        Err(e) => Err(WriteError { kind: ErrorKind::DateParse, message: error_message(&e) }),
        Ok(_) => Ok(one(SinkCall::WriteDate { row, col, text: copy_text(text), style: date_style(fmt) })),
    }
}

/// Plans writing `data` at (`row`, `col`). Fails only on a date or date-time
/// string that does not parse.
pub fn plan_write(row: u32, col: u16, data: &CellData) -> (r: Result<Vec<SinkCall>, WriteError>)
    ensures
        r is Err <==> bad_date(*data),
        r is Err ==> r->Err_0.kind == ErrorKind::DateParse,
        r is Ok ==> write_calls(row, col, *data, r->Ok_0@),
{
    match data {
        CellData::Number(b) => Ok(one(SinkCall::WriteNumber { row, col, bits: *b, style: None })),
        CellData::String(t) => Ok(one(SinkCall::WriteString { row, col, text: copy_text(t), style: None })),
        CellData::StringWithFormat(t, fs) => Ok(
            one(SinkCall::WriteString { row, col, text: copy_text(t), style: Some(resolve(fs)) }),
        ),
        CellData::NumberWithFormat(b, fs) => Ok(
            one(SinkCall::WriteNumber { row, col, bits: *b, style: Some(resolve(fs)) }),
        ),
        CellData::ImagePath(p) => Ok(one(SinkCall::InsertImageFile { row, col, path: copy_text(p) })),
        CellData::Image(bytes) => Ok(one(SinkCall::InsertImageBytes { row, col, bytes: copy_bytes(bytes) })),
        CellData::Date(t) => {
            proof {
                reveal_strlit("yyyy-mm-dd");
                assert("yyyy-mm-dd"@ =~= date_format_text());
            }
            plan_date(row, col, t, "yyyy-mm-dd")
        },
        CellData::DateTime(t) => {
            proof {
                reveal_strlit("yyyy-mm-ddThh:mm:ss");
                assert("yyyy-mm-ddThh:mm:ss"@ =~= datetime_format_text());
            }
            plan_date(row, col, t, "yyyy-mm-ddThh:mm:ss")
        },
        CellData::Formula(f) => Ok(one(SinkCall::WriteFormula { row, col, formula: copy_text(f) })),
        CellData::Boolean(v) => Ok(one(SinkCall::WriteBoolean { row, col, value: *v, style: None })),
        CellData::BooleanWithFormat(v, fs) => Ok(
            one(SinkCall::WriteBoolean { row, col, value: *v, style: Some(resolve(fs)) }),
        ),
        CellData::Url(u) => Ok(
            one(SinkCall::WriteUrl { row, col, url: copy_text(u), text: None, style: None }),
        ),
        CellData::UrlWithText(u, t) => Ok(
            one(SinkCall::WriteUrl { row, col, url: copy_text(u), text: Some(copy_text(t)), style: None }),
        ),
        CellData::UrlWithFormat(u, fs) => Ok(
            one(SinkCall::WriteUrl { row, col, url: copy_text(u), text: None, style: Some(resolve(fs)) }),
        ),
        CellData::UrlWithTextAndFormat(u, t, fs) => Ok(
            two(
                SinkCall::WriteUrl { row, col, url: copy_text(u), text: Some(copy_text(t)), style: None },
                SinkCall::WriteString { row, col, text: copy_text(t), style: Some(resolve(fs)) },
            ),
        ),
        CellData::Blank(fs) => Ok(one(SinkCall::WriteBlank { row, col, style: resolve(fs) })),
        CellData::RichString(segs) => Ok(
            one(SinkCall::WriteRichString { row, col, segments: resolve_segments(segs), style: None }),
        ),
        CellData::RichStringWithFormat(segs, fs) => Ok(
            one(
                SinkCall::WriteRichString {
                    row,
                    col,
                    segments: resolve_segments(segs),
                    style: Some(resolve(fs)),
                },
            ),
        ),
        CellData::ColumnWidth(w) => Ok(one(SinkCall::ColumnWidth { col, width: *w })),
        CellData::RowHeight(h) => Ok(one(SinkCall::RowHeight { row, height: *h })),
    }
}

/// Plans a merge of (`r0`, `c0`)..(`r1`, `c1`) holding `data`. Kinds of data
/// that a merged range cannot hold (images, dates, formulas, links, rich
/// strings) are written to the top-left cell only, and nothing is merged.
pub fn plan_merge(r0: u32, c0: u16, r1: u32, c1: u16, data: &CellData) -> (r: Result<
    Vec<SinkCall>,
    WriteError,
>)
    ensures
        r is Err <==> bad_date(*data),
        r is Err ==> r->Err_0.kind == ErrorKind::DateParse,
        r is Ok ==> merge_calls(r0, c0, r1, c1, *data, r->Ok_0@),
{
    match data {
        CellData::String(t) => Ok(
            one(
                SinkCall::Merge {
                    first_row: r0,
                    first_col: c0,
                    last_row: r1,
                    last_col: c1,
                    text: copy_text(t),
                    style: Style::plain(),
                },
            ),
        ),
        CellData::StringWithFormat(t, fs) => Ok(
            one(
                SinkCall::Merge {
                    first_row: r0,
                    first_col: c0,
                    last_row: r1,
                    last_col: c1,
                    text: copy_text(t),
                    style: resolve(fs),
                },
            ),
        ),
        CellData::Number(b) => Ok(
            two(
                SinkCall::Merge {
                    first_row: r0,
                    first_col: c0,
                    last_row: r1,
                    last_col: c1,
                    text: String::new(),
                    style: Style::plain(),
                },
                SinkCall::WriteNumber { row: r0, col: c0, bits: *b, style: None },
            ),
        ),
        CellData::NumberWithFormat(b, fs) => Ok(
            two(
                SinkCall::Merge {
                    first_row: r0,
                    first_col: c0,
                    last_row: r1,
                    last_col: c1,
                    text: String::new(),
                    style: resolve(fs),
                },
                SinkCall::WriteNumber { row: r0, col: c0, bits: *b, style: Some(resolve(fs)) },
            ),
        ),
        CellData::Boolean(v) => Ok(
            two(
                SinkCall::Merge {
                    first_row: r0,
                    first_col: c0,
                    last_row: r1,
                    last_col: c1,
                    text: String::new(),
                    style: Style::plain(),
                },
                SinkCall::WriteBoolean { row: r0, col: c0, value: *v, style: None },
            ),
        ),
        CellData::BooleanWithFormat(v, fs) => Ok(
            two(
                SinkCall::Merge {
                    first_row: r0,
                    first_col: c0,
                    last_row: r1,
                    last_col: c1,
                    text: String::new(),
                    style: resolve(fs),
                },
                SinkCall::WriteBoolean { row: r0, col: c0, value: *v, style: Some(resolve(fs)) },
            ),
        ),
        CellData::Blank(fs) => Ok(
            one(
                SinkCall::Merge {
                    first_row: r0,
                    first_col: c0,
                    last_row: r1,
                    last_col: c1,
                    text: String::new(),
                    style: resolve(fs),
                },
            ),
        ),
        _ => plan_write(r0, c0, data),
    }
}

fn copy_options(o: &NoteOptions) -> (r: NoteOptions)
    ensures
        r == *o,
{
    NoteOptions {
        author: match &o.author {
            Some(a) => Some(copy_text(a)),
            None => None,
        },
        visible: o.visible,
        width: o.width,
        height: o.height,
    }
}

/// Plans one instruction. Fails only on a date or date-time string that does
/// not parse.
pub fn plan_instruction(i: &Instruction) -> (r: Result<Vec<SinkCall>, WriteError>)
    ensures
        r is Err <==> instruction_bad_date(*i),
        r is Err ==> r->Err_0.kind == ErrorKind::DateParse,
        r is Ok ==> instruction_calls(*i, r->Ok_0@),
{
    match i {
        Instruction::Write(row, col, d) => plan_write(*row, *col, d),
        Instruction::MergeRange(r0, c0, r1, c1, d) => plan_merge(*r0, *c0, *r1, *c1, d),
        Instruction::SetColumnWidth(c, w) => Ok(one(SinkCall::ColumnWidth { col: *c, width: *w })),
        Instruction::SetRowHeight(r, h) => Ok(one(SinkCall::RowHeight { row: *r, height: *h })),
        Instruction::SetColumnRangeWidth(c0, c1, w) => Ok(
            one(SinkCall::ColumnRangeWidthPixels { first_col: *c0, last_col: *c1, width: *w }),
        ),
        Instruction::SetRowRangeHeight(r0, r1, h) => Ok(
            one(SinkCall::RowRangeHeightPixels { first_row: *r0, last_row: *r1, height: *h }),
        ),
        Instruction::SetFreezePanes(r, c) => Ok(one(SinkCall::FreezePanes { row: *r, col: *c })),
        Instruction::SetRowHidden(r) => Ok(one(SinkCall::HideRow { row: *r })),
        Instruction::SetColumnHidden(c) => Ok(one(SinkCall::HideColumn { col: *c })),
        Instruction::SetAutofilter(r0, c0, r1, c1) => Ok(
            one(SinkCall::Autofilter { first_row: *r0, first_col: *c0, last_row: *r1, last_col: *c1 }),
        ),
        Instruction::InsertNote(r, c, t, o) => Ok(
            one(SinkCall::InsertNote { row: *r, col: *c, text: copy_text(t), options: copy_options(o) }),
        ),
    }
}

/// Some instruction of the list has a date that does not parse.
pub open spec fn sheet_bad_date(instrs: Seq<Instruction>) -> bool {
    exists|k: int| 0 <= k < instrs.len() && instruction_bad_date(#[trigger] instrs[k])
}

/// Some sheet of the workbook has an instruction whose date does not parse.
pub open spec fn workbook_bad_date(sheets: Seq<(String, Vec<Instruction>)>) -> bool {
    exists|s: int| 0 <= s < sheets.len() && sheet_bad_date((#[trigger] sheets[s]).1@)
}

/// A width or height given as cell data has the same effect as the dedicated
/// sizing instruction.
pub proof fn lemma_sizing_data_same_as_instruction(row: u32, col: u16, width: u32, height: u16, calls: Seq<
    SinkCall,
>)
    ensures
        instruction_calls(Instruction::Write(row, col, CellData::ColumnWidth(width)), calls)
            <==> instruction_calls(Instruction::SetColumnWidth(col, width), calls),
        instruction_calls(Instruction::Write(row, col, CellData::RowHeight(height)), calls)
            <==> instruction_calls(Instruction::SetRowHeight(row, height), calls),
{
}

/// A merge of data that a merged range cannot hold (a formula, a date, an
/// image, a link, a rich string) makes the calls of a plain write of that data
/// to the top-left cell, and no merge call at all.
pub proof fn lemma_merge_degrades(r0: u32, c0: u16, r1: u32, c1: u16, data: CellData, calls: Seq<SinkCall>)
    requires
        !merge_supported(data),
        merge_calls(r0, c0, r1, c1, data, calls),
    ensures
        write_calls(r0, c0, data, calls),
        forall|k: int| 0 <= k < calls.len() ==> !(#[trigger] calls[k] is Merge),
{
}

/// A merge of data that a merged range can hold starts with exactly one merge
/// call over the whole range; a number or boolean is then written to the
/// top-left cell, in the merge's style.
pub proof fn lemma_merge_supported_merges(
    r0: u32,
    c0: u16,
    r1: u32,
    c1: u16,
    data: CellData,
    calls: Seq<SinkCall>,
)
    requires
        merge_supported(data),
        merge_calls(r0, c0, r1, c1, data, calls),
    ensures
        calls.len() >= 1,
        calls[0] is Merge,
        forall|k: int| 1 <= k < calls.len() ==> !(#[trigger] calls[k] is Merge),
        calls.len() == 2 ==> match (calls[0], calls[1]) {
            (SinkCall::Merge { style, .. }, SinkCall::WriteNumber { row, col, style: s, .. }) => row == r0
                && col == c0 && (s is Some ==> s == Some(style)),
            (SinkCall::Merge { style, .. }, SinkCall::WriteBoolean { row, col, style: s, .. }) => row == r0
                && col == c0 && (s is Some ==> s == Some(style)),
            _ => false,
        },
{
}

} // verus!
