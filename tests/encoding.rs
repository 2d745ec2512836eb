use xlsx_writer::error::ErrorKind;
use xlsx_writer::plan::{plan_instruction, plan_write, CellData, Instruction, NoteOptions, SinkCall};
use xlsx_writer::sink::{open_sheet, perform, to_format, Document};
use xlsx_writer::style::{AlignPos, BorderStyle, CellFormat, Style};

fn s(t: &str) -> String {
    t.to_string()
}

#[test]
fn sheet_names_are_checked() {
    assert!(open_sheet(&s("Sheet1")).is_ok());
    assert_eq!(open_sheet(&s("bad/name")).err().unwrap().kind, ErrorKind::SheetNaming);
    assert_eq!(open_sheet(&s("")).err().unwrap().kind, ErrorKind::SheetNaming);
    assert_eq!(open_sheet(&s("'quoted")).err().unwrap().kind, ErrorKind::SheetNaming);
    assert_eq!(open_sheet(&s(&"x".repeat(32))).err().unwrap().kind, ErrorKind::SheetNaming);
}

#[test]
fn scenario_document_is_encoded() {
    let mut ws = open_sheet(&s("Sheet1")).unwrap();
    perform(&mut ws, &SinkCall::WriteString { row: 0, col: 0, text: s("Total"), style: None }).unwrap();
    let calls = plan_write(
        0,
        1,
        &CellData::NumberWithFormat(42.5f64.to_bits(), vec![CellFormat::NumFormat(s("0.00"))]),
    )
    .unwrap();
    match &calls[0] {
        SinkCall::WriteNumber { row, col, bits, style: Some(st) } => {
            ws.write_number_with_format(*row, *col, f64::from_bits(*bits), &to_format(st)).unwrap();
        }
        other => panic!("unexpected call {:?}", other),
    }
    let mut doc = Document::new();
    doc.add_sheet(ws);
    let bytes = doc.finish().unwrap();
    assert!(bytes.len() > 4);
    assert_eq!(&bytes[0..2], b"PK");
}

#[test]
fn every_library_call_is_accepted() {
    let mut ws = open_sheet(&s("All")).unwrap();
    let styled = xlsx_writer::style::resolve(&vec![
        CellFormat::Bold,
        CellFormat::Align(AlignPos::Center),
        CellFormat::Border(BorderStyle::Thin),
        CellFormat::BorderColor(s("#FF0000")),
        CellFormat::FontSize(12),
        CellFormat::FontName(s("Arial")),
        CellFormat::Underline(xlsx_writer::style::UnderlineStyle::Single),
        CellFormat::Pattern(xlsx_writer::style::FillPattern::Solid),
        CellFormat::BgColor(s("00FF00")),
    ]);
    let instructions = vec![
        Instruction::Write(0, 0, CellData::StringWithFormat(s("a"), vec![CellFormat::Italic])),
        Instruction::Write(1, 0, CellData::Date(s("2023-01-25"))),
        Instruction::Write(2, 0, CellData::DateTime(s("2023-01-25T12:30:00"))),
        Instruction::Write(3, 0, CellData::Formula(s("=1+1"))),
        Instruction::Write(4, 0, CellData::Boolean(true)),
        Instruction::Write(5, 0, CellData::BooleanWithFormat(false, vec![CellFormat::Bold])),
        Instruction::Write(6, 0, CellData::Url(s("https://example.com"))),
        Instruction::Write(7, 0, CellData::UrlWithText(s("https://example.com"), s("ex"))),
        Instruction::Write(8, 0, CellData::UrlWithFormat(s("https://example.com"), vec![CellFormat::Bold])),
        Instruction::Write(
            9,
            0,
            CellData::UrlWithTextAndFormat(s("https://example.com"), s("ex"), vec![CellFormat::Bold]),
        ),
        Instruction::Write(10, 0, CellData::Blank(vec![CellFormat::BgColor(s("#FFFF00"))])),
        Instruction::Write(
            11,
            0,
            CellData::RichString(vec![(s("x "), vec![CellFormat::Bold]), (s("y"), vec![])]),
        ),
        Instruction::MergeRange(12, 0, 12, 3, CellData::String(s("merged"))),
        Instruction::MergeRange(13, 0, 14, 1, CellData::Boolean(true)),
        Instruction::SetColumnWidth(1, 20),
        Instruction::SetRowHeight(2, 30),
        Instruction::SetColumnRangeWidth(2, 4, 90),
        Instruction::SetRowRangeHeight(3, 5, 25),
        Instruction::SetFreezePanes(1, 1),
        Instruction::SetRowHidden(20),
        Instruction::SetColumnHidden(10),
        Instruction::SetAutofilter(0, 0, 5, 2),
        Instruction::InsertNote(
            0,
            0,
            s("note"),
            NoteOptions { author: Some(s("Ann")), visible: Some(true), width: Some(200), height: Some(80) },
        ),
    ];
    for i in &instructions {
        for call in plan_instruction(i).unwrap() {
            perform(&mut ws, &call).unwrap();
        }
    }
    perform(&mut ws, &SinkCall::WriteBlank { row: 30, col: 0, style: styled }).unwrap();
    let mut doc = Document::new();
    doc.add_sheet(ws);
    assert!(doc.finish().is_ok());
}

#[test]
fn refusals_have_their_kinds() {
    let mut ws = open_sheet(&s("Errors")).unwrap();
    let far = SinkCall::WriteString { row: 2_000_000, col: 0, text: s("x"), style: None };
    assert_eq!(perform(&mut ws, &far).unwrap_err().kind, ErrorKind::SinkWrite);
    let wide = SinkCall::WriteBoolean { row: 0, col: 20_000, value: true, style: Some(Style::plain()) };
    assert_eq!(perform(&mut ws, &wide).unwrap_err().kind, ErrorKind::SinkWrite);
    let bad_image = SinkCall::InsertImageBytes { row: 0, col: 0, bytes: vec![1, 2, 3, 4] };
    assert_eq!(perform(&mut ws, &bad_image).unwrap_err().kind, ErrorKind::Image);
    let bad_date = SinkCall::WriteDate { row: 0, col: 0, text: s("2023-13-40"), style: Style::plain() };
    assert_eq!(perform(&mut ws, &bad_date).unwrap_err().kind, ErrorKind::DateParse);
    let rows = SinkCall::RowRangeHeightPixels { first_row: 1_048_570, last_row: 1_048_580, height: 20 };
    assert_eq!(perform(&mut ws, &rows).unwrap_err().kind, ErrorKind::SinkWrite);
    let one_cell = SinkCall::Merge {
        first_row: 3,
        first_col: 3,
        last_row: 3,
        last_col: 3,
        text: s("x"),
        style: Style::plain(),
    };
    assert_eq!(perform(&mut ws, &one_cell).unwrap_err().kind, ErrorKind::SinkWrite);
    let reversed = SinkCall::Autofilter { first_row: 5, first_col: 0, last_row: 1, last_col: 2 };
    assert_eq!(perform(&mut ws, &reversed).unwrap_err().kind, ErrorKind::SinkWrite);
    let hidden = SinkCall::HideColumn { col: 16_384 };
    assert_eq!(perform(&mut ws, &hidden).unwrap_err().kind, ErrorKind::SinkWrite);
    let note = SinkCall::InsertNote {
        row: 1_048_576,
        col: 0,
        text: s("n"),
        options: NoteOptions { author: None, visible: None, width: None, height: None },
    };
    assert_eq!(perform(&mut ws, &note).unwrap_err().kind, ErrorKind::SinkWrite);
    let empty_range = SinkCall::ColumnRangeWidthPixels { first_col: 5, last_col: 2, width: 20 };
    assert!(perform(&mut ws, &empty_range).is_ok());
}

#[test]
fn names_equal_but_for_case_are_refused_at_the_end() {
    let mut doc = Document::new();
    doc.add_sheet(open_sheet(&s("Data")).unwrap());
    doc.add_sheet(open_sheet(&s("data")).unwrap());
    assert_eq!(doc.finish().unwrap_err().kind, ErrorKind::SheetNaming);
}
