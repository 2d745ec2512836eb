//! The encoder: rust_xlsxwriter's workbook, worksheet and format, reached
//! through small trusted wrappers, and the verified code that drives them.

use vstd::prelude::*;
use rust_xlsxwriter::{
    Color, ExcelDateTime, Format, FormatAlign, FormatBorder, FormatPattern, FormatScript,
    FormatUnderline, Formula, Image, Note, Url, Workbook, Worksheet, XlsxError,
};
use crate::error::{ErrorKind, WriteError};
use crate::plan::{NoteOptions, SinkCall};
use crate::style::{AlignPos, BorderStyle, FillPattern, FontScript, Style, UnderlineStyle};

verus! {

#[verifier::external_type_specification]
#[verifier::external_body]
pub struct ExWorkbook(Workbook);

#[verifier::external_type_specification]
#[verifier::external_body]
pub struct ExWorksheet(Worksheet);

#[verifier::external_type_specification]
#[verifier::external_body]
pub struct ExFormat(Format);

#[verifier::external_type_specification]
#[verifier::external_body]
pub struct ExNote(Note);

#[verifier::external_type_specification]
#[verifier::external_body]
pub struct ExImage(Image);

#[verifier::external_type_specification]
#[verifier::external_body]
pub struct ExExcelDateTime(ExcelDateTime);

#[verifier::external_type_specification]
#[verifier::external_body]
pub struct ExXlsxError(XlsxError);

// The format enums are declared with their variants, so that verified code
// can build the encoder's value for each of the library's own.
#[verifier::external_type_specification]
pub struct ExFormatAlign(FormatAlign);

#[verifier::external_type_specification]
pub struct ExFormatPattern(FormatPattern);

#[verifier::external_type_specification]
pub struct ExFormatUnderline(FormatUnderline);

#[verifier::external_type_specification]
pub struct ExFormatBorder(FormatBorder);

#[verifier::external_type_specification]
pub struct ExFormatScript(FormatScript);

/// Whether rust_xlsxwriter's `ExcelDateTime::parse_from_str` accepts a string.
pub uninterp spec fn datetime_parses(s: Seq<char>) -> bool;

pub open spec fn is_ascii_digit(c: char) -> bool {
    '0' <= c && c <= '9'
}

pub open spec fn digit_at(s: Seq<char>, i: int) -> int {
    s[i] as int - '0' as int
}

/// A date written `YYYY-MM-DD`, with ASCII digits.
pub open spec fn is_ymd_text(s: Seq<char>) -> bool {
    &&& s.len() == 10
    &&& s[4] == '-' && s[7] == '-'
    &&& is_ascii_digit(s[0]) && is_ascii_digit(s[1]) && is_ascii_digit(s[2]) && is_ascii_digit(s[3])
    &&& is_ascii_digit(s[5]) && is_ascii_digit(s[6]) && is_ascii_digit(s[8]) && is_ascii_digit(s[9])
}

pub open spec fn ymd_year(s: Seq<char>) -> int {
    1000 * digit_at(s, 0) + 100 * digit_at(s, 1) + 10 * digit_at(s, 2) + digit_at(s, 3)
}

pub open spec fn ymd_month(s: Seq<char>) -> int {
    10 * digit_at(s, 5) + digit_at(s, 6)
}

pub open spec fn ymd_day(s: Seq<char>) -> int {
    10 * digit_at(s, 8) + digit_at(s, 9)
}

/// The number of days of a month, with the encoder's leap years: those of
/// the Gregorian calendar, and 1900.
pub open spec fn days_in_month(year: int, month: int) -> int {
    if month == 2 {
        if (year % 4 == 0 && (year % 100 != 0 || year % 400 == 0)) || year == 1900 {
            29
        } else {
            28
        }
    } else if month == 4 || month == 6 || month == 9 || month == 11 {
        30
    } else {
        31
    }
}

/// A calendar date that the encoder can hold: years 1900 to 9999, and the
/// last day of 1899.
pub open spec fn valid_ymd(year: int, month: int, day: int) -> bool {
    &&& (1900 <= year <= 9999 || (year == 1899 && month == 12 && day == 31))
    &&& 1 <= month <= 12
    &&& 1 <= day <= days_in_month(year, month)
}

/// Whether the encoder refuses a date or date-time string: a `YYYY-MM-DD`
/// date exactly when it is no valid date, any other string as its parser decides.
pub open spec fn date_rejected(s: Seq<char>) -> bool {
    if is_ymd_text(s) {
        !valid_ymd(ymd_year(s), ymd_month(s), ymd_day(s))
    } else {
        !datetime_parses(s)
    }
}

/// Relies on `ExcelDateTime::parse_from_str`: it succeeds on exactly the
/// strings it accepts; it refuses a string with neither `-` nor `:` in it; a
/// `YYYY-MM-DD` date is accepted exactly when `validate_ymd` accepts its
/// year, month and day (the time is then midnight, which is always valid).
#[verifier::external_body]
pub(crate) fn parse_datetime(text: &str) -> (r: Result<ExcelDateTime, XlsxError>)
    ensures
        r is Ok <==> datetime_parses(text@),
        !text@.contains('-') && !text@.contains(':') ==> r is Err,
        is_ymd_text(text@) ==> (r is Ok <==> valid_ymd(ymd_year(text@), ymd_month(text@), ymd_day(text@))),
{
    ExcelDateTime::parse_from_str(text)
}

/// Relies on `XlsxError`'s `Display`: the error's message.
#[verifier::external_body]
pub(crate) fn error_message(e: &XlsxError) -> (r: String) {
    e.to_string()
}

pub fn convert_align(a: AlignPos) -> (r: FormatAlign)
    ensures
        r == match a {
            AlignPos::Center => FormatAlign::Center,
            AlignPos::Left => FormatAlign::Left,
            AlignPos::Right => FormatAlign::Right,
        },
{
    match a {
        AlignPos::Center => FormatAlign::Center,
        AlignPos::Left => FormatAlign::Left,
        AlignPos::Right => FormatAlign::Right,
    }
}

pub fn convert_pattern(p: FillPattern) -> (r: FormatPattern)
    ensures
        r == match p {
            FillPattern::Solid => FormatPattern::Solid,
            FillPattern::NoFill => FormatPattern::None,
            FillPattern::Gray125 => FormatPattern::Gray125,
            FillPattern::Gray0625 => FormatPattern::Gray0625,
        },
{
    match p {
        FillPattern::Solid => FormatPattern::Solid,
        FillPattern::NoFill => FormatPattern::None,
        FillPattern::Gray125 => FormatPattern::Gray125,
        FillPattern::Gray0625 => FormatPattern::Gray0625,
    }
}

pub fn convert_underline(u: UnderlineStyle) -> (r: FormatUnderline)
    ensures
        r == match u {
            UnderlineStyle::Single => FormatUnderline::Single,
            UnderlineStyle::Double => FormatUnderline::Double,
            UnderlineStyle::SingleAccounting => FormatUnderline::SingleAccounting,
            UnderlineStyle::DoubleAccounting => FormatUnderline::DoubleAccounting,
        },
{
    match u {
        UnderlineStyle::Single => FormatUnderline::Single,
        UnderlineStyle::Double => FormatUnderline::Double,
        UnderlineStyle::SingleAccounting => FormatUnderline::SingleAccounting,
        UnderlineStyle::DoubleAccounting => FormatUnderline::DoubleAccounting,
    }
}

pub fn convert_script(f: FontScript) -> (r: FormatScript)
    ensures
        r == match f {
            FontScript::Superscript => FormatScript::Superscript,
            FontScript::Subscript => FormatScript::Subscript,
        },
{
    match f {
        FontScript::Superscript => FormatScript::Superscript,
        FontScript::Subscript => FormatScript::Subscript,
    }
}

pub open spec fn border_of(style: BorderStyle) -> FormatBorder {
    match style {
        BorderStyle::Thin => FormatBorder::Thin,
        BorderStyle::Medium => FormatBorder::Medium,
        BorderStyle::Thick => FormatBorder::Thick,
        BorderStyle::Dashed => FormatBorder::Dashed,
        BorderStyle::Dotted => FormatBorder::Dotted,
        BorderStyle::Double => FormatBorder::Double,
        BorderStyle::Hair => FormatBorder::Hair,
        BorderStyle::MediumDashed => FormatBorder::MediumDashed,
        BorderStyle::DashDot => FormatBorder::DashDot,
        BorderStyle::MediumDashDot => FormatBorder::MediumDashDot,
        BorderStyle::DashDotDot => FormatBorder::DashDotDot,
        BorderStyle::MediumDashDotDot => FormatBorder::MediumDashDotDot,
        BorderStyle::SlantDashDot => FormatBorder::SlantDashDot,
    }
}

/// The encoder's border of the same name; none maps to its "no border".
pub fn convert_border_style(style: BorderStyle) -> (r: FormatBorder)
    ensures
        r == border_of(style),
        r != FormatBorder::None,
{
    match style {
        BorderStyle::Thin => FormatBorder::Thin,
        BorderStyle::Medium => FormatBorder::Medium,
        BorderStyle::Thick => FormatBorder::Thick,
        BorderStyle::Dashed => FormatBorder::Dashed,
        BorderStyle::Dotted => FormatBorder::Dotted,
        BorderStyle::Double => FormatBorder::Double,
        BorderStyle::Hair => FormatBorder::Hair,
        BorderStyle::MediumDashed => FormatBorder::MediumDashed,
        BorderStyle::DashDot => FormatBorder::DashDot,
        BorderStyle::MediumDashDot => FormatBorder::MediumDashDot,
        BorderStyle::DashDotDot => FormatBorder::DashDotDot,
        BorderStyle::MediumDashDotDot => FormatBorder::MediumDashDotDot,
        BorderStyle::SlantDashDot => FormatBorder::SlantDashDot,
    }
}

/// Relies on `Format::new`: a format with every property at its default.
#[verifier::external_body]
fn format_new() -> (r: Format) {
    Format::new()
}

/// Relies on `Format::set_bold`.
#[verifier::external_body]
fn format_bold(f: Format) -> (r: Format) {
    f.set_bold()
}

/// Relies on `Format::set_italic`.
#[verifier::external_body]
fn format_italic(f: Format) -> (r: Format) {
    f.set_italic()
}

/// Relies on `Format::set_font_strikethrough`.
#[verifier::external_body]
fn format_strikethrough(f: Format) -> (r: Format) {
    f.set_font_strikethrough()
}

/// Relies on `Format::set_num_format`.
#[verifier::external_body]
fn format_num_format(f: Format, num_format: &str) -> (r: Format) {
    f.set_num_format(num_format)
}

/// Relies on `Format::set_align`.
#[verifier::external_body]
fn format_align(f: Format, a: FormatAlign) -> (r: Format) {
    f.set_align(a)
}

/// Relies on `Format::set_background_color`, with `Color::from` on an RGB value.
#[verifier::external_body]
fn format_background(f: Format, rgb: u32) -> (r: Format) {
    f.set_background_color(Color::from(rgb))
}

/// Relies on `Format::set_pattern`.
#[verifier::external_body]
fn format_pattern(f: Format, p: FormatPattern) -> (r: Format) {
    f.set_pattern(p)
}

/// Relies on `Format::set_font_color`, with `Color::from` on an RGB value.
#[verifier::external_body]
fn format_font_color(f: Format, rgb: u32) -> (r: Format) {
    f.set_font_color(Color::from(rgb))
}

/// Relies on `Format::set_underline`.
#[verifier::external_body]
fn format_underline(f: Format, u: FormatUnderline) -> (r: Format) {
    f.set_underline(u)
}

/// Relies on `Format::set_font_size`.
#[verifier::external_body]
fn format_font_size(f: Format, size: u16) -> (r: Format) {
    f.set_font_size(size)
}

/// Relies on `Format::set_font_name`.
#[verifier::external_body]
fn format_font_name(f: Format, name: &str) -> (r: Format) {
    f.set_font_name(name)
}

/// Relies on `Format::set_font_script`.
#[verifier::external_body]
fn format_script(f: Format, s: FormatScript) -> (r: Format) {
    f.set_font_script(s)
}

/// Relies on `Format::set_border_top`.
#[verifier::external_body]
fn format_border_top(f: Format, b: FormatBorder) -> (r: Format) {
    f.set_border_top(b)
}

/// Relies on `Format::set_border_bottom`.
#[verifier::external_body]
fn format_border_bottom(f: Format, b: FormatBorder) -> (r: Format) {
    f.set_border_bottom(b)
}

/// Relies on `Format::set_border_left`.
#[verifier::external_body]
fn format_border_left(f: Format, b: FormatBorder) -> (r: Format) {
    f.set_border_left(b)
}

/// Relies on `Format::set_border_right`.
#[verifier::external_body]
fn format_border_right(f: Format, b: FormatBorder) -> (r: Format) {
    f.set_border_right(b)
}

/// Relies on `Format::set_border_top_color`, with `Color::from` on an RGB value.
#[verifier::external_body]
fn format_border_top_color(f: Format, rgb: u32) -> (r: Format) {
    f.set_border_top_color(Color::from(rgb))
}

/// Relies on `Format::set_border_bottom_color`, with `Color::from` on an RGB value.
#[verifier::external_body]
fn format_border_bottom_color(f: Format, rgb: u32) -> (r: Format) {
    f.set_border_bottom_color(Color::from(rgb))
}

/// Relies on `Format::set_border_left_color`, with `Color::from` on an RGB value.
#[verifier::external_body]
fn format_border_left_color(f: Format, rgb: u32) -> (r: Format) {
    f.set_border_left_color(Color::from(rgb))
}

/// Relies on `Format::set_border_right_color`, with `Color::from` on an RGB value.
#[verifier::external_body]
fn format_border_right_color(f: Format, rgb: u32) -> (r: Format) {
    f.set_border_right_color(Color::from(rgb))
}

/// Builds the encoder's format for a resolved style: each field that is set
/// becomes one setter call, the others keep the encoder's default.
pub fn to_format(style: &Style) -> (r: Format) {
    let mut f = format_new();
    if style.bold {
        f = format_bold(f);
    }
    if style.italic {
        f = format_italic(f);
    }
    if style.strikethrough {
        f = format_strikethrough(f);
    }
    if let Some(a) = style.align {
        f = format_align(f, convert_align(a));
    }
    if let Some(n) = &style.num_format {
        f = format_num_format(f, n.as_str());
    }
    if let Some(c) = style.background {
        f = format_background(f, c);
    }
    if let Some(p) = style.pattern {
        f = format_pattern(f, convert_pattern(p));
    }
    if let Some(c) = style.font_color {
        f = format_font_color(f, c);
    }
    if let Some(u) = style.underline {
        f = format_underline(f, convert_underline(u));
    }
    if let Some(n) = style.font_size {
        f = format_font_size(f, n);
    }
    if let Some(n) = &style.font_name {
        f = format_font_name(f, n.as_str());
    }
    if let Some(s) = style.script {
        f = format_script(f, convert_script(s));
    }
    if let Some(b) = style.border_top {
        f = format_border_top(f, convert_border_style(b));
    }
    if let Some(b) = style.border_bottom {
        f = format_border_bottom(f, convert_border_style(b));
    }
    if let Some(b) = style.border_left {
        f = format_border_left(f, convert_border_style(b));
    }
    if let Some(b) = style.border_right {
        f = format_border_right(f, convert_border_style(b));
    }
    if let Some(c) = style.border_top_color {
        f = format_border_top_color(f, c);
    }
    if let Some(c) = style.border_bottom_color {
        f = format_border_bottom_color(f, c);
    }
    if let Some(c) = style.border_left_color {
        f = format_border_left_color(f, c);
    }
    if let Some(c) = style.border_right_color {
        f = format_border_right_color(f, c);
    }
    f
}

/// The number of rows of a sheet.
pub const ROW_LIMIT: u32 = 1_048_576;

/// The widest column, in character units; the encoder stores no wider one.
pub const MAX_COLUMN_WIDTH: u32 = 255;

/// The number of columns of a sheet.
pub const COL_LIMIT: u16 = 16_384;

/// A cell that lies outside every sheet.
pub open spec fn outside_sheet(row: u32, col: u16) -> bool {
    row >= ROW_LIMIT || col >= COL_LIMIT
}

/// A range that leaves the sheet or whose corners are in the wrong order.
pub open spec fn bad_rectangle(first_row: u32, first_col: u16, last_row: u32, last_col: u16) -> bool {
    outside_sheet(first_row, first_col) || outside_sheet(last_row, last_col) || first_row > last_row
        || first_col > last_col
}

/// Relies on `Worksheet::write_string`: a non-empty string outside the sheet is refused.
#[verifier::external_body]
fn ws_write_string(ws: &mut Worksheet, row: u32, col: u16, text: &str) -> (r: Result<(), XlsxError>)
    ensures
        text@.len() > 0 && outside_sheet(row, col) ==> r is Err,
{
    ws.write_string(row, col, text).map(|_| ())
}

/// Relies on `Worksheet::write_string_with_format`: a cell outside the sheet is refused.
#[verifier::external_body]
fn ws_write_string_with_format(ws: &mut Worksheet, row: u32, col: u16, text: &str, f: &Format) -> (r: Result<
    (),
    XlsxError,
>)
    ensures
        outside_sheet(row, col) ==> r is Err,
{
    ws.write_string_with_format(row, col, text, f).map(|_| ())
}

/// Relies on `Worksheet::write_datetime_with_format`: a cell outside the sheet is refused.
#[verifier::external_body]
fn ws_write_datetime_with_format(
    ws: &mut Worksheet,
    row: u32,
    col: u16,
    date: &ExcelDateTime,
    f: &Format,
) -> (r: Result<(), XlsxError>)
    ensures
        outside_sheet(row, col) ==> r is Err,
{
    ws.write_datetime_with_format(row, col, date, f).map(|_| ())
}

/// Relies on `Worksheet::write_formula`, with `Formula::new` on the text.
#[verifier::external_body]
fn ws_write_formula(ws: &mut Worksheet, row: u32, col: u16, formula: &str) -> (r: Result<(), XlsxError>) {
    ws.write_formula(row, col, Formula::new(formula)).map(|_| ())
}

/// Relies on `Worksheet::write_boolean`: only a cell outside the sheet is refused.
#[verifier::external_body]
fn ws_write_boolean(ws: &mut Worksheet, row: u32, col: u16, value: bool) -> (r: Result<(), XlsxError>)
    ensures
        r is Ok <==> !outside_sheet(row, col),
{
    ws.write_boolean(row, col, value).map(|_| ())
}

/// Relies on `Worksheet::write_boolean_with_format`: only a cell outside the sheet is refused.
#[verifier::external_body]
fn ws_write_boolean_with_format(ws: &mut Worksheet, row: u32, col: u16, value: bool, f: &Format) -> (r: Result<
    (),
    XlsxError,
>)
    ensures
        r is Ok <==> !outside_sheet(row, col),
{
    ws.write_boolean_with_format(row, col, value, f).map(|_| ())
}

/// Relies on `Worksheet::write_url`, with `Url::new` on the link: a cell
/// outside the sheet is refused.
#[verifier::external_body]
fn ws_write_url(ws: &mut Worksheet, row: u32, col: u16, url: &str) -> (r: Result<(), XlsxError>)
    ensures
        outside_sheet(row, col) ==> r is Err,
{
    ws.write_url(row, col, Url::new(url)).map(|_| ())
}

/// Relies on `Worksheet::write_url_with_text`, with `Url::new` on the link: a
/// cell outside the sheet is refused.
#[verifier::external_body]
fn ws_write_url_with_text(ws: &mut Worksheet, row: u32, col: u16, url: &str, text: &str) -> (r: Result<
    (),
    XlsxError,
>)
    ensures
        outside_sheet(row, col) ==> r is Err,
{
    ws.write_url_with_text(row, col, Url::new(url), text).map(|_| ())
}

/// Relies on `Worksheet::write_url_with_format`, with `Url::new` on the link:
/// a cell outside the sheet is refused.
#[verifier::external_body]
fn ws_write_url_with_format(ws: &mut Worksheet, row: u32, col: u16, url: &str, f: &Format) -> (r: Result<
    (),
    XlsxError,
>)
    ensures
        outside_sheet(row, col) ==> r is Err,
{
    ws.write_url_with_format(row, col, Url::new(url), f).map(|_| ())
}

/// Relies on `Worksheet::write_blank`: only a cell outside the sheet is refused.
#[verifier::external_body]
fn ws_write_blank(ws: &mut Worksheet, row: u32, col: u16, f: &Format) -> (r: Result<(), XlsxError>)
    ensures
        r is Ok <==> !outside_sheet(row, col),
{
    ws.write_blank(row, col, f).map(|_| ())
}

/// Relies on `Worksheet::write_rich_string`; segment `i` is `texts[i]` in `formats[i]`.
#[verifier::external_body]
fn ws_write_rich_string(
    ws: &mut Worksheet,
    row: u32,
    col: u16,
    formats: &Vec<Format>,
    texts: &Vec<String>,
) -> (r: Result<(), XlsxError>) {
    let segments: Vec<(&Format, &str)> = formats.iter().zip(texts.iter()).map(
        |(f, t)| (f, t.as_str()),
    ).collect();
    ws.write_rich_string(row, col, &segments).map(|_| ())
}

/// Relies on `Worksheet::write_rich_string_with_format`; segment `i` is
/// `texts[i]` in `formats[i]`, and `cell` formats the cell.
#[verifier::external_body]
fn ws_write_rich_string_with_format(
    ws: &mut Worksheet,
    row: u32,
    col: u16,
    formats: &Vec<Format>,
    texts: &Vec<String>,
    cell: &Format,
) -> (r: Result<(), XlsxError>) {
    let segments: Vec<(&Format, &str)> = formats.iter().zip(texts.iter()).map(
        |(f, t)| (f, t.as_str()),
    ).collect();
    ws.write_rich_string_with_format(row, col, &segments, cell).map(|_| ())
}

/// Whether rust_xlsxwriter's `Image::new_from_buffer` decodes these bytes.
pub uninterp spec fn image_decodes(bytes: Seq<u8>) -> bool;

/// Relies on `Image::new_from_buffer`: decodes an image held in memory; whether
/// it succeeds depends on the bytes alone.
#[verifier::external_body]
fn image_from_buffer(bytes: &Vec<u8>) -> (r: Result<Image, XlsxError>)
    ensures
        r is Ok <==> image_decodes(bytes@),
{
    Image::new_from_buffer(bytes.as_slice())
}

/// Relies on `Worksheet::insert_image`: a cell outside the sheet is refused.
#[verifier::external_body]
pub(crate) fn ws_insert_image(ws: &mut Worksheet, row: u32, col: u16, image: &Image) -> (r: Result<
    (),
    XlsxError,
>)
    ensures
        outside_sheet(row, col) ==> r is Err,
{
    ws.insert_image(row, col, image).map(|_| ())
}

/// Relies on `Worksheet::merge_range`: a range that leaves the sheet, is
/// reversed, or is a single cell is refused.
#[verifier::external_body]
fn ws_merge_range(
    ws: &mut Worksheet,
    first_row: u32,
    first_col: u16,
    last_row: u32,
    last_col: u16,
    text: &str,
    f: &Format,
) -> (r: Result<(), XlsxError>)
    ensures
        bad_rectangle(first_row, first_col, last_row, last_col) || (first_row == last_row && first_col == last_col) ==> r is Err,
{
    ws.merge_range(first_row, first_col, last_row, last_col, text, f).map(|_| ())
}

/// Relies on `Worksheet::set_column_width`, in character units: only a column
/// past the last is refused. Widths are kept within the encoder's maximum,
/// where its conversion to pixels cannot overflow.
#[verifier::external_body]
fn ws_set_column_width(ws: &mut Worksheet, col: u16, width: u32) -> (r: Result<(), XlsxError>)
    requires
        width <= MAX_COLUMN_WIDTH,
    ensures
        r is Ok <==> col < COL_LIMIT,
{
    ws.set_column_width(col, width).map(|_| ())
}

/// Relies on `Worksheet::set_row_height`, in points: only a row past the last is refused.
#[verifier::external_body]
fn ws_set_row_height(ws: &mut Worksheet, row: u32, height: u16) -> (r: Result<(), XlsxError>)
    ensures
        r is Ok <==> row < ROW_LIMIT,
{
    ws.set_row_height(row, height).map(|_| ())
}

/// Relies on `Worksheet::set_column_width_pixels`: only a column past the last is refused.
#[verifier::external_body]
fn ws_set_column_width_pixels(ws: &mut Worksheet, col: u16, width: u32) -> (r: Result<(), XlsxError>)
    ensures
        r is Ok <==> col < COL_LIMIT,
{
    ws.set_column_width_pixels(col, width).map(|_| ())
}

/// Relies on `Worksheet::set_row_height_pixels`: only a row past the last is refused.
#[verifier::external_body]
fn ws_set_row_height_pixels(ws: &mut Worksheet, row: u32, height: u32) -> (r: Result<(), XlsxError>)
    ensures
        r is Ok <==> row < ROW_LIMIT,
{
    ws.set_row_height_pixels(row, height).map(|_| ())
}

/// Relies on `Worksheet::set_freeze_panes`: only a cell outside the sheet is refused.
#[verifier::external_body]
fn ws_set_freeze_panes(ws: &mut Worksheet, row: u32, col: u16) -> (r: Result<(), XlsxError>)
    ensures
        r is Ok <==> !outside_sheet(row, col),
{
    ws.set_freeze_panes(row, col).map(|_| ())
}

/// Relies on `Worksheet::set_row_hidden`: only a row past the last is refused.
#[verifier::external_body]
fn ws_set_row_hidden(ws: &mut Worksheet, row: u32) -> (r: Result<(), XlsxError>)
    ensures
        r is Ok <==> row < ROW_LIMIT,
{
    ws.set_row_hidden(row).map(|_| ())
}

/// Relies on `Worksheet::set_column_hidden`: only a column past the last is refused.
#[verifier::external_body]
fn ws_set_column_hidden(ws: &mut Worksheet, col: u16) -> (r: Result<(), XlsxError>)
    ensures
        r is Ok <==> col < COL_LIMIT,
{
    ws.set_column_hidden(col).map(|_| ())
}

/// Relies on `Worksheet::autofilter`: a range that leaves the sheet or is reversed is refused.
#[verifier::external_body]
fn ws_autofilter(ws: &mut Worksheet, first_row: u32, first_col: u16, last_row: u32, last_col: u16) -> (r: Result<
    (),
    XlsxError,
>)
    ensures
        bad_rectangle(first_row, first_col, last_row, last_col) ==> r is Err,
{
    ws.autofilter(first_row, first_col, last_row, last_col).map(|_| ())
}

/// Relies on `Note::new`: a note holding `text`.
#[verifier::external_body]
fn note_new(text: &str) -> (r: Note) {
    Note::new(text)
}

/// Relies on `Note::set_author`.
#[verifier::external_body]
fn note_author(n: Note, author: &str) -> (r: Note) {
    n.set_author(author)
}

/// Relies on `Note::set_visible`.
#[verifier::external_body]
fn note_visible(n: Note, visible: bool) -> (r: Note) {
    n.set_visible(visible)
}

/// Relies on `Note::set_width`.
#[verifier::external_body]
fn note_width(n: Note, width: u32) -> (r: Note) {
    n.set_width(width)
}

/// Relies on `Note::set_height`.
#[verifier::external_body]
fn note_height(n: Note, height: u32) -> (r: Note) {
    n.set_height(height)
}

/// Relies on `Worksheet::insert_note`: a cell outside the sheet is refused.
#[verifier::external_body]
fn ws_insert_note(ws: &mut Worksheet, row: u32, col: u16, note: &Note) -> (r: Result<(), XlsxError>)
    ensures
        outside_sheet(row, col) ==> r is Err,
{
    ws.insert_note(row, col, note).map(|_| ())
}

/// Builds a note with `text`; each option that is set becomes one setter call.
fn build_note(text: &String, options: &NoteOptions) -> (r: Note) {
    let mut note = note_new(text.as_str());
    if let Some(a) = &options.author {
        note = note_author(note, a.as_str());
    }
    if let Some(v) = options.visible {
        note = note_visible(note, v);
    }
    if let Some(w) = options.width {
        note = note_width(note, w);
    }
    if let Some(h) = options.height {
        note = note_height(note, h);
    }
    note
}

fn sink_error(e: XlsxError) -> (r: WriteError)
    ensures
        r.kind == ErrorKind::SinkWrite,
{
    WriteError { kind: ErrorKind::SinkWrite, message: error_message(&e) }
}

pub(crate) fn image_error(e: XlsxError) -> (r: WriteError)
    ensures
        r.kind == ErrorKind::Image,
{
    WriteError { kind: ErrorKind::Image, message: error_message(&e) }
}

pub(crate) fn sink_result(r: Result<(), XlsxError>) -> (out: Result<(), WriteError>)
    ensures
        out is Ok <==> r is Ok,
        out is Err ==> out->Err_0.kind == ErrorKind::SinkWrite,
{
    match r {
        Ok(()) => Ok(()),
        Err(e) => Err(sink_error(e)),
    }
}

/// The calls that `perform` carries out. A number write needs a floating-point
/// value and an image file needs the file system: the caller does those.
pub open spec fn performed_here(call: SinkCall) -> bool {
    !(call is WriteNumber) && !(call is InsertImageFile)
}

/// A date write whose string the encoder cannot parse.
pub open spec fn unparsable_date_call(call: SinkCall) -> bool {
    match call {
        SinkCall::WriteDate { text, .. } => date_rejected(text@),
        _ => false,
    }
}

/// Calls that the encoder refuses whatever the sheet holds: a cell outside
/// the sheet, a range that leaves it or is reversed, a merge of one cell.
pub open spec fn encoder_refuses(call: SinkCall) -> bool {
    match call {
        SinkCall::WriteString { row, col, text, style } => (text@.len() > 0 || style is Some) && outside_sheet(
            row,
            col,
        ),
        SinkCall::WriteBoolean { row, col, .. } => outside_sheet(row, col),
        SinkCall::WriteBlank { row, col, .. } => outside_sheet(row, col),
        SinkCall::InsertImageBytes { row, col, .. } => outside_sheet(row, col),
        SinkCall::Merge { first_row, first_col, last_row, last_col, .. } => bad_rectangle(
            first_row,
            first_col,
            last_row,
            last_col,
        ) || (first_row == last_row && first_col == last_col),
        SinkCall::Autofilter { first_row, first_col, last_row, last_col } => bad_rectangle(
            first_row,
            first_col,
            last_row,
            last_col,
        ),
        SinkCall::FreezePanes { row, col } => outside_sheet(row, col),
        SinkCall::HideRow { row } => row >= ROW_LIMIT,
        SinkCall::HideColumn { col } => col >= COL_LIMIT,
        SinkCall::RowHeight { row, .. } => row >= ROW_LIMIT,
        SinkCall::ColumnWidth { col, .. } => col >= COL_LIMIT,
        SinkCall::RowRangeHeightPixels { first_row, last_row, .. } => first_row <= last_row && last_row
            >= ROW_LIMIT,
        SinkCall::ColumnRangeWidthPixels { first_col, last_col, .. } => first_col <= last_col && last_col
            >= COL_LIMIT,
        SinkCall::InsertNote { row, col, .. } => outside_sheet(row, col),
        SinkCall::InsertImageFile { row, col, .. } => outside_sheet(row, col),
        SinkCall::WriteDate { row, col, .. } => outside_sheet(row, col),
        SinkCall::WriteUrl { row, col, .. } => outside_sheet(row, col),
        _ => false,
    }
}

/// Calls that the encoder takes whenever their cell, row or column lies in the sheet.
pub open spec fn accepted_in_sheet(call: SinkCall) -> bool {
    call is WriteBoolean || call is WriteBlank || call is FreezePanes || call is HideRow
        || call is HideColumn || call is RowHeight || call is ColumnWidth || call is RowRangeHeightPixels
        || call is ColumnRangeWidthPixels
}

/// An image held in memory that the encoder cannot decode.
pub open spec fn undecodable_image_call(call: SinkCall) -> bool {
    match call {
        SinkCall::InsertImageBytes { bytes, .. } => !image_decodes(bytes@),
        _ => false,
    }
}

/// The kind of error a call fails with when the encoder refuses it.
pub open spec fn refusal_kind(call: SinkCall) -> ErrorKind {
    match call {
        SinkCall::InsertImageBytes { .. } => ErrorKind::Image,
        SinkCall::InsertImageFile { .. } => ErrorKind::Image,
        _ => ErrorKind::SinkWrite,
    }
}

/// Applies the pixel height to each row from `first` to `last` inclusive,
/// stopping at the first refusal.
fn rows_height_pixels(ws: &mut Worksheet, first: u32, last: u32, height: u16) -> (r: Result<(), WriteError>)
    ensures
        r is Ok <==> !(first <= last && last >= ROW_LIMIT),
        r is Err ==> r->Err_0.kind == ErrorKind::SinkWrite,
{
    let mut row: u32 = first;
    while row <= last
        invariant
            first <= row,
            first <= last ==> row <= last,
        decreases last as int + 1 - row,
    {
        let done = ws_set_row_height_pixels(ws, row, height as u32);
        if done.is_err() {
            return sink_result(done);
        }
        if row == last {
            return Ok(());
        }
        row = row + 1;
    }
    Ok(())
}

/// Applies the pixel width to each column from `first` to `last` inclusive,
/// stopping at the first refusal.
fn columns_width_pixels(ws: &mut Worksheet, first: u16, last: u16, width: u32) -> (r: Result<(), WriteError>)
    ensures
        r is Ok <==> !(first <= last && last >= COL_LIMIT),
        r is Err ==> r->Err_0.kind == ErrorKind::SinkWrite,
{
    let mut col: u16 = first;
    while col <= last
        invariant
            first <= col,
            first <= last ==> col <= last,
        decreases last as int + 1 - col,
    {
        let done = ws_set_column_width_pixels(ws, col, width);
        if done.is_err() {
            return sink_result(done);
        }
        if col == last {
            return Ok(());
        }
        col = col + 1;
    }
    Ok(())
}

/// Carries out one primitive call on the sheet. Only a date string that the
/// encoder cannot parse fails with `DateParse`; an image that cannot be decoded
/// or inserted fails with `Image`; any other refusal is `SinkWrite`. A call
/// that no sheet can take is always refused; a boolean, a blank, or a sizing,
/// hiding or freezing call inside the sheet always succeeds. A column width
/// above `MAX_COLUMN_WIDTH` is set as `MAX_COLUMN_WIDTH`, the encoder's maximum.
pub fn perform(ws: &mut Worksheet, call: &SinkCall) -> (r: Result<(), WriteError>)
    requires
        performed_here(*call),
    ensures
        (r is Err && r->Err_0.kind == ErrorKind::DateParse) <==> unparsable_date_call(*call),
        encoder_refuses(*call) ==> r is Err,
        accepted_in_sheet(*call) && !encoder_refuses(*call) ==> r is Ok,
        undecodable_image_call(*call) ==> r is Err && r->Err_0.kind == ErrorKind::Image,
        r is Err && !(*call is WriteDate) ==> r->Err_0.kind == refusal_kind(*call),
        r is Err && *call is WriteDate ==> r->Err_0.kind == ErrorKind::DateParse || r->Err_0.kind
            == ErrorKind::SinkWrite,
{
    match call {
        SinkCall::WriteString { row, col, text, style } => match style {
            None => sink_result(ws_write_string(ws, *row, *col, text.as_str())),
            Some(s) => sink_result(ws_write_string_with_format(ws, *row, *col, text.as_str(), &to_format(s))),
        },
        SinkCall::WriteDate { row, col, text, style } => match parse_datetime(text.as_str()) {
            Err(e) => Err(WriteError { kind: ErrorKind::DateParse, message: error_message(&e) }),
            Ok(date) => sink_result(ws_write_datetime_with_format(ws, *row, *col, &date, &to_format(style))),
        },
        SinkCall::WriteFormula { row, col, formula } => sink_result(
            ws_write_formula(ws, *row, *col, formula.as_str()),
        ),
        SinkCall::WriteBoolean { row, col, value, style } => match style {
            None => sink_result(ws_write_boolean(ws, *row, *col, *value)),
            Some(s) => sink_result(ws_write_boolean_with_format(ws, *row, *col, *value, &to_format(s))),
        },
        SinkCall::WriteUrl { row, col, url, text, style } => match (text, style) {
            (Some(t), _) => sink_result(ws_write_url_with_text(ws, *row, *col, url.as_str(), t.as_str())),
            (None, Some(s)) => sink_result(ws_write_url_with_format(ws, *row, *col, url.as_str(), &to_format(s))),
            (None, None) => sink_result(ws_write_url(ws, *row, *col, url.as_str())),
        },
        SinkCall::WriteBlank { row, col, style } => sink_result(ws_write_blank(ws, *row, *col, &to_format(style))),
        SinkCall::WriteRichString { row, col, segments, style } => {
            let mut formats: Vec<Format> = Vec::new();
            let mut texts: Vec<String> = Vec::new();
            let mut i: usize = 0;
            while i < segments.len()
                invariant
                    i <= segments@.len(),
                decreases segments@.len() - i,
            {
                formats.push(to_format(&segments[i].1));
                texts.push(segments[i].0.clone());
                i = i + 1;
            }
            match style {
                None => sink_result(ws_write_rich_string(ws, *row, *col, &formats, &texts)),
                Some(s) => sink_result(
                    ws_write_rich_string_with_format(ws, *row, *col, &formats, &texts, &to_format(s)),
                ),
            }
        },
        SinkCall::InsertImageBytes { row, col, bytes } => match image_from_buffer(bytes) {
            Err(e) => Err(image_error(e)),
            Ok(image) => match ws_insert_image(ws, *row, *col, &image) {
                Err(e) => Err(image_error(e)),
                Ok(()) => Ok(()),
            },
        },
        SinkCall::Merge { first_row, first_col, last_row, last_col, text, style } => sink_result(
            ws_merge_range(ws, *first_row, *first_col, *last_row, *last_col, text.as_str(), &to_format(style)),
        ),
        SinkCall::ColumnWidth { col, width } => {
            let w = if *width > MAX_COLUMN_WIDTH {
                MAX_COLUMN_WIDTH
            } else {
                *width
            };
            sink_result(ws_set_column_width(ws, *col, w))
        },
        SinkCall::RowHeight { row, height } => sink_result(ws_set_row_height(ws, *row, *height)),
        SinkCall::ColumnRangeWidthPixels { first_col, last_col, width } => columns_width_pixels(
            ws,
            *first_col,
            *last_col,
            *width,
        ),
        SinkCall::RowRangeHeightPixels { first_row, last_row, height } => rows_height_pixels(
            ws,
            *first_row,
            *last_row,
            *height,
        ),
        SinkCall::FreezePanes { row, col } => sink_result(ws_set_freeze_panes(ws, *row, *col)),
        SinkCall::HideRow { row } => sink_result(ws_set_row_hidden(ws, *row)),
        SinkCall::HideColumn { col } => sink_result(ws_set_column_hidden(ws, *col)),
        SinkCall::Autofilter { first_row, first_col, last_row, last_col } => sink_result(
            ws_autofilter(ws, *first_row, *first_col, *last_row, *last_col),
        ),
        SinkCall::InsertNote { row, col, text, options } => sink_result(
            ws_insert_note(ws, *row, *col, &build_note(text, options)),
        ),
        // Left to the caller, as the precondition says.
        SinkCall::WriteNumber { .. } => Ok(()),
        SinkCall::InsertImageFile { .. } => Ok(()),
    }
}

/// A sheet name that the encoder accepts: not empty, at most 31 characters,
/// none of `* ? : [ ] \ /`, and no apostrophe at either end.
pub open spec fn valid_sheet_name(name: Seq<char>) -> bool {
    &&& 0 < name.len() <= 31
    &&& forall|i: int|
        0 <= i < name.len() ==> !(#[trigger] name[i] == '*' || name[i] == '?' || name[i] == ':' || name[i]
            == '[' || name[i] == ']' || name[i] == '\\' || name[i] == '/')
    &&& name[0] != '\''
    &&& name.last() != '\''
}

/// Relies on `Worksheet::new`: an empty sheet.
#[verifier::external_body]
fn worksheet_new() -> (r: Worksheet) {
    Worksheet::new()
}

/// Relies on `Worksheet::set_name`, which refuses exactly the names that its
/// validation rejects.
#[verifier::external_body]
fn ws_set_name(ws: &mut Worksheet, name: &str) -> (r: Result<(), XlsxError>)
    ensures
        r is Ok <==> valid_sheet_name(name@),
{
    ws.set_name(name).map(|_| ())
}

/// A new, empty sheet with the given name. A name that the encoder refuses
/// fails with `SheetNaming`.
pub fn open_sheet(name: &String) -> (r: Result<Worksheet, WriteError>)
    ensures
        r is Ok <==> valid_sheet_name(name@),
        r is Err ==> r->Err_0.kind == ErrorKind::SheetNaming,
{
    let mut ws = worksheet_new();
    match ws_set_name(&mut ws, name.as_str()) {
        Ok(()) => Ok(ws),
        Err(e) => Err(WriteError { kind: ErrorKind::SheetNaming, message: error_message(&e) }),
    }
}

/// Relies on `Workbook::new`: a workbook with no sheet.
#[verifier::external_body]
fn workbook_new() -> (r: Workbook) {
    Workbook::new()
}

/// Relies on `Workbook::push_worksheet`: the sheet becomes the workbook's last.
#[verifier::external_body]
fn wb_push_worksheet(wb: &mut Workbook, ws: Worksheet) {
    wb.push_worksheet(ws)
}

/// Relies on `Workbook::save_to_buffer`: the whole document as bytes, a zip
/// package, never empty.
#[verifier::external_body]
fn wb_save_to_buffer(wb: &mut Workbook) -> (r: Result<Vec<u8>, XlsxError>)
    ensures
        r is Ok ==> r->Ok_0@.len() > 0,
{
    wb.save_to_buffer()
}

/// Relies on `XlsxError::SheetnameReused`: tells a repeated sheet name apart
/// from other failures to assemble the document.
#[verifier::external_body]
fn is_sheet_name_reused(e: &XlsxError) -> (r: bool) {
    matches!(e, XlsxError::SheetnameReused(_))
}

/// The sheets of one translation, in order, until they are encoded.
pub struct Document {
    book: Workbook,
}

impl Document {
    pub fn new() -> (r: Document) {
        Document { book: workbook_new() }
    }

    /// Adds a finished sheet after the others.
    pub fn add_sheet(&mut self, ws: Worksheet) {
        wb_push_worksheet(&mut self.book, ws);
    }

    /// Encodes the document. Two sheets whose names differ only in case fail
    /// with `SheetNaming`; any other failure is `Encoding`.
    pub fn finish(&mut self) -> (r: Result<Vec<u8>, WriteError>)
        ensures
            r is Err ==> r->Err_0.kind == ErrorKind::SheetNaming || r->Err_0.kind == ErrorKind::Encoding,
            r is Ok ==> r->Ok_0@.len() > 0,
    {
        match wb_save_to_buffer(&mut self.book) {
            Ok(bytes) => Ok(bytes),
            Err(e) => {
                let kind = if is_sheet_name_reused(&e) {
                    ErrorKind::SheetNaming
                } else {
                    ErrorKind::Encoding
                };
                Err(WriteError { kind, message: error_message(&e) })
            },
        }
    }
}

} // verus!
