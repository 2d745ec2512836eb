//! The whole translation: every sheet in order, every instruction planned and
//! applied, the first failure ending it with no document.

use vstd::prelude::*;
use rust_xlsxwriter::{Format, Image, Worksheet, XlsxError};
use crate::error::{ErrorKind, WriteError};
use crate::plan::{
    instruction_bad_date, instruction_calls, merge_supported, plan_instruction, sheet_bad_date,
    workbook_bad_date, CellData, Instruction, SinkCall,
};
use crate::sink::{
    accepted_in_sheet, bad_rectangle, encoder_refuses, refusal_kind, undecodable_image_call, image_error, open_sheet, outside_sheet, perform, sink_result,
    to_format, unparsable_date_call, valid_sheet_name, ws_insert_image, Document, COL_LIMIT,
    ROW_LIMIT,
};

verus! {

/// The two encoder calls that the library leaves to its caller: writing a
/// number, whose value is a float, and loading an image file, which reads the
/// file system. Nothing is assumed of what they return.
pub trait Delegate {
    /// Writes the number whose IEEE 754 binary64 bit pattern is `bits`.
    fn write_number(
        &self,
        ws: &mut Worksheet,
        row: u32,
        col: u16,
        bits: u64,
        format: Option<&Format>,
    ) -> Result<(), XlsxError>;

    /// Loads the image file at `path`.
    fn load_image(&self, path: &str) -> Result<Image, XlsxError>;
}

/// Writing `data` at (`row`, `col`) makes a call that no sheet can take.
pub open spec fn write_refused(row: u32, col: u16, data: CellData) -> bool {
    match data {
        CellData::String(t) => t@.len() > 0 && outside_sheet(row, col),
        CellData::StringWithFormat(_, _) | CellData::Boolean(_) | CellData::BooleanWithFormat(_, _)
        | CellData::Blank(_) | CellData::Image(_) | CellData::ImagePath(_)
        | CellData::UrlWithTextAndFormat(_, _, _) | CellData::Url(_) | CellData::UrlWithText(_, _)
        | CellData::UrlWithFormat(_, _) | CellData::Date(_) | CellData::DateTime(_) => outside_sheet(row, col),
        CellData::ColumnWidth(_) => col >= COL_LIMIT,
        CellData::RowHeight(_) => row >= ROW_LIMIT,
        _ => false,
    }
}

/// An instruction that makes a call no sheet can take: a cell, row or column
/// outside the sheet, a range that leaves it or is reversed, a merge of one cell.
pub open spec fn instruction_refused(i: Instruction) -> bool {
    match i {
        Instruction::Write(r, c, d) => write_refused(r, c, d),
        Instruction::MergeRange(r0, c0, r1, c1, d) => if merge_supported(d) {
            bad_rectangle(r0, c0, r1, c1) || (r0 == r1 && c0 == c1)
        } else {
            write_refused(r0, c0, d)
        },
        Instruction::SetColumnWidth(c, _) => c >= COL_LIMIT,
        Instruction::SetRowHeight(r, _) => r >= ROW_LIMIT,
        Instruction::SetColumnRangeWidth(c0, c1, _) => c0 <= c1 && c1 >= COL_LIMIT,
        Instruction::SetRowRangeHeight(r0, r1, _) => r0 <= r1 && r1 >= ROW_LIMIT,
        Instruction::SetFreezePanes(r, c) => outside_sheet(r, c),
        Instruction::SetRowHidden(r) => r >= ROW_LIMIT,
        Instruction::SetColumnHidden(c) => c >= COL_LIMIT,
        Instruction::SetAutofilter(r0, c0, r1, c1) => bad_rectangle(r0, c0, r1, c1),
        Instruction::InsertNote(r, c, _, _) => outside_sheet(r, c),
    }
}

/// Every sheet name is accepted, every date parses and no instruction is one
/// that the encoder must refuse.
pub open spec fn workbook_admissible(sheets: Seq<(String, Vec<Instruction>)>) -> bool {
    forall|s: int|
        0 <= s < sheets.len() ==> {
            &&& valid_sheet_name((#[trigger] sheets[s]).0@)
            &&& !sheet_bad_date(sheets[s].1@)
            &&& forall|k: int| 0 <= k < sheets[s].1@.len() ==> !instruction_refused(#[trigger] sheets[s].1@[k])
        }
}

/// An instruction that the encoder always takes: a boolean, a blank or a size
/// written inside the sheet, or a sizing, hiding or freezing instruction that
/// stays inside it.
pub open spec fn instruction_sure(i: Instruction) -> bool {
    match i {
        Instruction::Write(r, c, d) => !outside_sheet(r, c) && (d is Boolean || d is BooleanWithFormat
            || d is Blank || d is ColumnWidth || d is RowHeight),
        Instruction::SetColumnWidth(c, _) => c < COL_LIMIT,
        Instruction::SetRowHeight(r, _) => r < ROW_LIMIT,
        Instruction::SetColumnRangeWidth(c0, c1, _) => !(c0 <= c1 && c1 >= COL_LIMIT),
        Instruction::SetRowRangeHeight(r0, r1, _) => !(r0 <= r1 && r1 >= ROW_LIMIT),
        Instruction::SetFreezePanes(r, c) => !outside_sheet(r, c),
        Instruction::SetRowHidden(r) => r < ROW_LIMIT,
        Instruction::SetColumnHidden(c) => c < COL_LIMIT,
        _ => false,
    }
}

/// A sheet with an accepted name whose instructions are all sure.
pub open spec fn sheet_sure(sheet: (String, Vec<Instruction>)) -> bool {
    &&& valid_sheet_name(sheet.0@)
    &&& forall|k: int| 0 <= k < sheet.1@.len() ==> instruction_sure(#[trigger] sheet.1@[k])
}

/// Every instruction before position `k` is sure.
pub open spec fn sure_before(instrs: Seq<Instruction>, k: int) -> bool {
    forall|m: int| 0 <= m < k ==> instruction_sure(#[trigger] instrs[m])
}

/// Every sheet before position `s` is sure.
pub open spec fn sheets_sure_before(sheets: Seq<(String, Vec<Instruction>)>, s: int) -> bool {
    forall|j: int| 0 <= j < s ==> sheet_sure(#[trigger] sheets[j])
}

proof fn lemma_sure_calls_succeed(i: Instruction, calls: Seq<SinkCall>, k: int)
    requires
        instruction_calls(i, calls),
        instruction_sure(i),
        0 <= k < calls.len(),
    ensures
        accepted_in_sheet(calls[k]) && !encoder_refuses(calls[k]),
{
}

proof fn lemma_no_refused_call(i: Instruction, calls: Seq<SinkCall>)
    requires
        instruction_calls(i, calls),
        forall|k: int| 0 <= k < calls.len() ==> !encoder_refuses(#[trigger] calls[k]),
    ensures
        !instruction_refused(i),
{
    if calls.len() > 0 {
        assert(!encoder_refuses(calls[0]));
    }
    if calls.len() > 1 {
        assert(!encoder_refuses(calls[1]));
    }
}

proof fn lemma_planned_dates_parse(i: Instruction, calls: Seq<SinkCall>, k: int)
    requires
        instruction_calls(i, calls),
        !instruction_bad_date(i),
        0 <= k < calls.len(),
    ensures
        !unparsable_date_call(calls[k]),
{
}

/// Carries out one planned call, handing number writes and image files to the
/// delegate.
pub fn apply_call<D: Delegate>(ws: &mut Worksheet, call: &SinkCall, delegate: &D) -> (r: Result<
    (),
    WriteError,
>)
    ensures
        (r is Err && r->Err_0.kind == ErrorKind::DateParse) <==> unparsable_date_call(*call),
        encoder_refuses(*call) ==> r is Err,
        accepted_in_sheet(*call) && !encoder_refuses(*call) ==> r is Ok,
        undecodable_image_call(*call) ==> r is Err && r->Err_0.kind == ErrorKind::Image,
        r is Err && !(*call is WriteDate) ==> r->Err_0.kind == refusal_kind(*call),
{
    match call {
        SinkCall::WriteNumber { row, col, bits, style } => {
            let written = match style {
                Some(s) => {
                    let f = to_format(s);
                    delegate.write_number(ws, *row, *col, *bits, Some(&f))
                },
                None => delegate.write_number(ws, *row, *col, *bits, None),
            };
            sink_result(written)
        },
        SinkCall::InsertImageFile { row, col, path } => match delegate.load_image(path.as_str()) {
            Err(e) => Err(image_error(e)),
            Ok(image) => match ws_insert_image(ws, *row, *col, &image) {
                Err(e) => Err(image_error(e)),
                Ok(()) => Ok(()),
            },
        },
        _ => perform(ws, call),
    }
}

/// Plans and applies the instructions of one sheet in order, stopping at the
/// first failure.
fn apply_sheet<D: Delegate>(ws: &mut Worksheet, instrs: &Vec<Instruction>, delegate: &D) -> (r: Result<
    (),
    WriteError,
>)
    ensures
        r is Ok ==> !sheet_bad_date(instrs@),
        r is Ok ==> forall|k: int| 0 <= k < instrs@.len() ==> !instruction_refused(#[trigger] instrs@[k]),
        r is Err && r->Err_0.kind == ErrorKind::DateParse ==> sheet_bad_date(instrs@),
        sure_before(instrs@, instrs@.len() as int) ==> r is Ok,
        forall|k: int|
            0 <= k < instrs@.len() && sure_before(instrs@, k) && instruction_bad_date(#[trigger] instrs@[k])
                ==> r is Err && r->Err_0.kind == ErrorKind::DateParse,
{
    let mut k: usize = 0;
    while k < instrs.len()
        invariant
            k <= instrs@.len(),
            forall|j: int| 0 <= j < k ==> !instruction_bad_date(#[trigger] instrs@[j]),
            forall|j: int| 0 <= j < k ==> !instruction_refused(#[trigger] instrs@[j]),
        decreases instrs@.len() - k,
    {
        let calls = match plan_instruction(&instrs[k]) {
            Ok(calls) => calls,
            Err(e) => {
                proof {
                    assert forall|j: int|
                        0 <= j < instrs@.len() && sure_before(instrs@, j) && instruction_bad_date(
                            #[trigger] instrs@[j],
                        ) implies j == k by {
                        if j > k {
                            assert(instruction_sure(instrs@[k as int]));
                        }
                    }
                }
                return Err(e);
            },
        };
        let mut c: usize = 0;
        while c < calls.len()
            invariant
                c <= calls@.len(),
                instruction_calls(instrs@[k as int], calls@),
                !instruction_bad_date(instrs@[k as int]),
                forall|j: int| 0 <= j < c ==> !encoder_refuses(#[trigger] calls@[j]),
                forall|j: int| 0 <= j < k ==> !instruction_bad_date(#[trigger] instrs@[j]),
                k < instrs@.len(),
            decreases calls@.len() - c,
        {
            proof {
                lemma_planned_dates_parse(instrs@[k as int], calls@, c as int);
                if instruction_sure(instrs@[k as int]) {
                    lemma_sure_calls_succeed(instrs@[k as int], calls@, c as int);
                }
            }
            match apply_call(ws, &calls[c], delegate) {
                Ok(()) => {},
                Err(e) => {
                    proof {
                        assert(!instruction_sure(instrs@[k as int]));
                        assert(!sure_before(instrs@, instrs@.len() as int));
                        assert forall|j: int|
                            0 <= j < instrs@.len() && sure_before(instrs@, j) implies !instruction_bad_date(
                                #[trigger] instrs@[j],
                            ) by {
                            if j > k {
                                assert(instruction_sure(instrs@[k as int]));
                            }
                        }
                    }
                    return Err(e);
                },
            }
            c = c + 1;
        }
        proof {
            lemma_no_refused_call(instrs@[k as int], calls@);
        }
        k = k + 1;
    }
    Ok(())
}

/// Translates a workbook: one sheet per entry, in order, each named and filled
/// by its instructions, then encoded. It is all or nothing: the first failure
/// anywhere is the result and no bytes are returned. A bad sheet name, a date
/// that does not parse, or an instruction that the encoder must refuse always
/// ends in an error, and only a date that does not parse gives `DateParse`.
/// When everything before it is sure to succeed, a bad name gives
/// `SheetNaming` and a bad date gives `DateParse`. Two names that differ only
/// in case are refused by the encoder, also with `SheetNaming`.
pub fn translate<D: Delegate>(sheets: &Vec<(String, Vec<Instruction>)>, delegate: &D) -> (r: Result<
    Vec<u8>,
    WriteError,
>)
    ensures
        r is Ok ==> workbook_admissible(sheets@),
        r is Ok ==> r->Ok_0@.len() > 0,
        r is Err && r->Err_0.kind == ErrorKind::DateParse ==> workbook_bad_date(sheets@),
        forall|s: int|
            0 <= s < sheets@.len() && sheets_sure_before(sheets@, s) && !valid_sheet_name(
                (#[trigger] sheets@[s]).0@,
            ) ==> r is Err && r->Err_0.kind == ErrorKind::SheetNaming,
        forall|s: int, k: int|
            0 <= s < sheets@.len() && sheets_sure_before(sheets@, s) && valid_sheet_name(sheets@[s].0@)
                && 0 <= k < sheets@[s].1@.len() && sure_before(sheets@[s].1@, k) && instruction_bad_date(
                #[trigger] sheets@[s].1@[k],
            ) ==> r is Err && r->Err_0.kind == ErrorKind::DateParse,
{
    let mut document = Document::new();
    let mut s: usize = 0;
    while s < sheets.len()
        invariant
            s <= sheets@.len(),
            forall|j: int|
                0 <= j < s ==> {
                    &&& valid_sheet_name((#[trigger] sheets@[j]).0@)
                    &&& !sheet_bad_date(sheets@[j].1@)
                    &&& forall|k: int|
                        0 <= k < sheets@[j].1@.len() ==> !instruction_refused(#[trigger] sheets@[j].1@[k])
                },
        decreases sheets@.len() - s,
    {
        let sheet = &sheets[s];
        let mut ws = match open_sheet(&sheet.0) {
            Ok(ws) => ws,
            Err(e) => {
                return Err(e);
            },
        };
        match apply_sheet(&mut ws, &sheet.1, delegate) {
            Ok(()) => {},
            Err(e) => {
                return Err(e);
            },
        }
        document.add_sheet(ws);
        s = s + 1;
    }
    match document.finish() {
        Ok(bytes) => Ok(bytes),
        Err(e) => Err(e),
    }
}

/// One failing instruction anywhere, in any sheet, makes the whole workbook
/// inadmissible; `translate` then returns an error and no bytes.
pub proof fn lemma_one_failure_fails_all(sheets: Seq<(String, Vec<Instruction>)>, s: int, k: int)
    requires
        0 <= s < sheets.len(),
        0 <= k < sheets[s].1@.len(),
        instruction_bad_date(sheets[s].1@[k]) || instruction_refused(sheets[s].1@[k]),
    ensures
        !workbook_admissible(sheets),
{
    if instruction_bad_date(sheets[s].1@[k]) {
        assert(sheet_bad_date(sheets[s].1@));
    }
}

} // verus!
