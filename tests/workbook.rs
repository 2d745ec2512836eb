use rust_xlsxwriter::{Format, Image, Worksheet, XlsxError};
use xlsx_writer::error::ErrorKind;
use xlsx_writer::plan::{CellData, Instruction};
use xlsx_writer::style::CellFormat;
use xlsx_writer::translate::{translate, Delegate};

struct Encoder;

impl Delegate for Encoder {
    fn write_number(
        &self,
        ws: &mut Worksheet,
        row: u32,
        col: u16,
        bits: u64,
        format: Option<&Format>,
    ) -> Result<(), XlsxError> {
        let value = f64::from_bits(bits);
        match format {
            None => ws.write_number(row, col, value),
            Some(f) => ws.write_number_with_format(row, col, value, f),
        }
        .map(|_| ())
    }

    fn load_image(&self, path: &str) -> Result<Image, XlsxError> {
        Image::new(path)
    }
}

fn s(t: &str) -> String {
    t.to_string()
}

#[test]
fn scenario_translates_to_a_document() {
    let sheets = vec![(
        s("Sheet1"),
        vec![
            Instruction::Write(0, 0, CellData::String(s("Total"))),
            Instruction::Write(
                0,
                1,
                CellData::NumberWithFormat(42.5f64.to_bits(), vec![CellFormat::NumFormat(s("0.00"))]),
            ),
        ],
    )];
    let bytes = translate(&sheets, &Encoder).unwrap();
    assert_eq!(&bytes[0..2], b"PK");
}

#[test]
fn date_cell_translates() {
    let sheets = vec![(s("Dates"), vec![Instruction::Write(0, 0, CellData::Date(s("2023-01-25")))])];
    assert!(translate(&sheets, &Encoder).is_ok());
    let sheets = vec![(
        s("Dates"),
        vec![
            Instruction::Write(0, 0, CellData::Date(s("2023-13-40"))),
            Instruction::Write(1, 0, CellData::String(s("never written"))),
        ],
    )];
    assert_eq!(translate(&sheets, &Encoder).unwrap_err().kind, ErrorKind::DateParse);
}

#[test]
fn failure_in_second_sheet_gives_no_bytes() {
    let first = vec![Instruction::Write(0, 0, CellData::String(s("fine")))];
    let second = vec![
        Instruction::Write(0, 0, CellData::Number(1.0f64.to_bits())),
        Instruction::SetColumnWidth(0, 12),
        Instruction::SetColumnHidden(20_000),
        Instruction::Write(1, 0, CellData::String(s("not reached"))),
    ];
    let r = translate(&vec![(s("One"), first), (s("Two"), second)], &Encoder);
    assert_eq!(r.unwrap_err().kind, ErrorKind::SinkWrite);
}

#[test]
fn merge_of_formula_translates_without_merging() {
    let sheets = vec![(
        s("Sheet1"),
        vec![
            Instruction::Write(0, 0, CellData::Number(1.0f64.to_bits())),
            Instruction::Write(1, 0, CellData::Number(2.0f64.to_bits())),
            Instruction::MergeRange(2, 0, 3, 1, CellData::Formula(s("=SUM(A1:A2)"))),
            Instruction::MergeRange(4, 0, 4, 2, CellData::NumberWithFormat(3.0f64.to_bits(), vec![])),
        ],
    )];
    assert!(translate(&sheets, &Encoder).is_ok());
}

#[test]
fn sheet_name_errors() {
    let bad = vec![(s("a:b"), vec![])];
    assert_eq!(translate(&bad, &Encoder).unwrap_err().kind, ErrorKind::SheetNaming);
    let twice = vec![(s("Same"), vec![]), (s("SAME"), vec![])];
    assert_eq!(translate(&twice, &Encoder).unwrap_err().kind, ErrorKind::SheetNaming);
}

#[test]
fn missing_image_file_is_an_image_error() {
    let sheets = vec![(
        s("Pictures"),
        vec![Instruction::Write(3, 0, CellData::ImagePath(s("/nonexistent/bird.jpeg")))],
    )];
    assert_eq!(translate(&sheets, &Encoder).unwrap_err().kind, ErrorKind::Image);
}

#[test]
fn empty_workbook_translates() {
    assert!(translate(&vec![], &Encoder).is_ok());
}

#[test]
fn bad_date_after_sure_steps_is_a_date_error() {
    let first = vec![
        Instruction::Write(0, 0, CellData::Boolean(true)),
        Instruction::SetRowHeight(0, 20),
    ];
    let second = vec![
        Instruction::Write(0, 0, CellData::Blank(vec![CellFormat::Bold])),
        Instruction::SetFreezePanes(1, 0),
        Instruction::Write(0, 1, CellData::Date(s("2023-13-40"))),
        Instruction::Write(0, 2, CellData::String(s("never written"))),
    ];
    let r = translate(&vec![(s("One"), first), (s("Two"), second)], &Encoder);
    assert_eq!(r.unwrap_err().kind, ErrorKind::DateParse);
}

#[test]
fn very_wide_column_is_capped() {
    let sheets = vec![(
        s("Wide"),
        vec![
            Instruction::SetColumnWidth(0, 700_000_000),
            Instruction::Write(0, 1, CellData::ColumnWidth(u32::MAX)),
        ],
    )];
    assert!(translate(&sheets, &Encoder).is_ok());
}

#[test]
fn undecodable_image_bytes_are_an_image_error() {
    let sheets = vec![(s("Pictures"), vec![Instruction::Write(0, 0, CellData::Image(vec![0, 1, 2, 3]))])];
    assert_eq!(translate(&sheets, &Encoder).unwrap_err().kind, ErrorKind::Image);
}

#[test]
fn merged_number_range_translates() {
    let sheets = vec![(
        s("Merged"),
        vec![Instruction::MergeRange(0, 0, 1, 1, CellData::BooleanWithFormat(true, vec![CellFormat::Bold]))],
    )];
    assert!(translate(&sheets, &Encoder).is_ok());
}
