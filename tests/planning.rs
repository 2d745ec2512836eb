use xlsx_writer::error::ErrorKind;
use xlsx_writer::plan::{
    plan_instruction, plan_merge, plan_write, CellData, Instruction, NoteOptions, SinkCall,
};
use xlsx_writer::style::{resolve, CellFormat, Style};

fn s(t: &str) -> String {
    t.to_string()
}

fn date_style(fmt: &str) -> Style {
    let mut st = Style::plain();
    st.num_format = Some(s(fmt));
    st
}

#[test]
fn scenario_total_and_formatted_number() {
    let first = plan_instruction(&Instruction::Write(0, 0, CellData::String(s("Total")))).unwrap();
    assert_eq!(first, vec![SinkCall::WriteString { row: 0, col: 0, text: s("Total"), style: None }]);
    let second = plan_instruction(&Instruction::Write(
        0,
        1,
        CellData::NumberWithFormat(42.5f64.to_bits(), vec![CellFormat::NumFormat(s("0.00"))]),
    ))
    .unwrap();
    assert_eq!(
        second,
        vec![SinkCall::WriteNumber {
            row: 0,
            col: 1,
            bits: 42.5f64.to_bits(),
            style: Some(date_style("0.00")),
        }]
    );
}

#[test]
fn date_is_written_with_fixed_format() {
    let calls = plan_write(2, 0, &CellData::Date(s("2023-01-25"))).unwrap();
    assert_eq!(
        calls,
        vec![SinkCall::WriteDate { row: 2, col: 0, text: s("2023-01-25"), style: date_style("yyyy-mm-dd") }]
    );
    let calls = plan_write(2, 1, &CellData::DateTime(s("2023-01-25T10:30:00"))).unwrap();
    assert_eq!(
        calls,
        vec![SinkCall::WriteDate {
            row: 2,
            col: 1,
            text: s("2023-01-25T10:30:00"),
            style: date_style("yyyy-mm-ddThh:mm:ss"),
        }]
    );
}

#[test]
fn bad_date_fails_and_stops_the_sheet() {
    let e = plan_write(0, 0, &CellData::Date(s("2023-13-40"))).unwrap_err();
    assert_eq!(e.kind, ErrorKind::DateParse);
    let e = plan_write(0, 0, &CellData::DateTime(s("yesterday"))).unwrap_err();
    assert_eq!(e.kind, ErrorKind::DateParse);
    let e = plan_instruction(&Instruction::MergeRange(0, 0, 1, 1, CellData::Date(s("2023-13-40"))));
    assert_eq!(e.unwrap_err().kind, ErrorKind::DateParse);
}

#[test]
fn merge_of_formula_writes_top_left_only() {
    let calls = plan_merge(0, 0, 1, 1, &CellData::Formula(s("=SUM(A1:A2)"))).unwrap();
    assert_eq!(calls, vec![SinkCall::WriteFormula { row: 0, col: 0, formula: s("=SUM(A1:A2)") }]);
    let calls = plan_merge(3, 2, 5, 4, &CellData::Url(s("https://example.com"))).unwrap();
    assert_eq!(
        calls,
        vec![SinkCall::WriteUrl { row: 3, col: 2, url: s("https://example.com"), text: None, style: None }]
    );
}

#[test]
fn merge_of_number_merges_then_writes() {
    let fs = vec![CellFormat::Bold];
    let calls = plan_merge(0, 0, 1, 2, &CellData::NumberWithFormat(7u64, fs.clone())).unwrap();
    assert_eq!(
        calls,
        vec![
            SinkCall::Merge {
                first_row: 0,
                first_col: 0,
                last_row: 1,
                last_col: 2,
                text: s(""),
                style: resolve(&fs),
            },
            SinkCall::WriteNumber { row: 0, col: 0, bits: 7, style: Some(resolve(&fs)) },
        ]
    );
    let calls = plan_merge(0, 0, 0, 3, &CellData::String(s("Title"))).unwrap();
    assert_eq!(
        calls,
        vec![SinkCall::Merge {
            first_row: 0,
            first_col: 0,
            last_row: 0,
            last_col: 3,
            text: s("Title"),
            style: Style::plain(),
        }]
    );
}

#[test]
fn url_with_text_and_format_writes_twice() {
    let fs = vec![CellFormat::Italic];
    let calls = plan_write(
        4,
        1,
        &CellData::UrlWithTextAndFormat(s("https://example.com"), s("site"), fs.clone()),
    )
    .unwrap();
    assert_eq!(
        calls,
        vec![
            SinkCall::WriteUrl {
                row: 4,
                col: 1,
                url: s("https://example.com"),
                text: Some(s("site")),
                style: None,
            },
            SinkCall::WriteString { row: 4, col: 1, text: s("site"), style: Some(resolve(&fs)) },
        ]
    );
}

#[test]
fn rich_string_resolves_each_segment() {
    let segs = vec![(s("bold "), vec![CellFormat::Bold]), (s("plain"), vec![])];
    let cell = vec![CellFormat::BgColor(s("#00FF00"))];
    let calls = plan_write(0, 0, &CellData::RichStringWithFormat(segs, cell.clone())).unwrap();
    assert_eq!(
        calls,
        vec![SinkCall::WriteRichString {
            row: 0,
            col: 0,
            segments: vec![(s("bold "), resolve(&vec![CellFormat::Bold])), (s("plain"), Style::plain())],
            style: Some(resolve(&cell)),
        }]
    );
}

#[test]
fn sizing_and_layout_instructions() {
    assert_eq!(
        plan_instruction(&Instruction::SetRowRangeHeight(1, 3, 30)).unwrap(),
        vec![SinkCall::RowRangeHeightPixels { first_row: 1, last_row: 3, height: 30 }]
    );
    assert_eq!(
        plan_instruction(&Instruction::SetColumnRangeWidth(0, 2, 80)).unwrap(),
        vec![SinkCall::ColumnRangeWidthPixels { first_col: 0, last_col: 2, width: 80 }]
    );
    assert_eq!(
        plan_instruction(&Instruction::SetFreezePanes(1, 0)).unwrap(),
        vec![SinkCall::FreezePanes { row: 1, col: 0 }]
    );
    let options = NoteOptions { author: Some(s("Ann")), visible: Some(true), width: None, height: Some(90) };
    assert_eq!(
        plan_instruction(&Instruction::InsertNote(2, 2, s("check"), options.clone())).unwrap(),
        vec![SinkCall::InsertNote { row: 2, col: 2, text: s("check"), options }]
    );
}

#[test]
fn image_bytes_and_blank() {
    assert_eq!(
        plan_write(3, 0, &CellData::Image(vec![1, 2, 3])).unwrap(),
        vec![SinkCall::InsertImageBytes { row: 3, col: 0, bytes: vec![1, 2, 3] }]
    );
    let fs = vec![CellFormat::BgColor(s("FFFF00"))];
    assert_eq!(
        plan_write(0, 5, &CellData::Blank(fs.clone())).unwrap(),
        vec![SinkCall::WriteBlank { row: 0, col: 5, style: resolve(&fs) }]
    );
}

#[test]
fn sizing_as_cell_data_matches_sizing_instructions() {
    assert_eq!(
        plan_instruction(&Instruction::Write(5, 3, CellData::ColumnWidth(20))).unwrap(),
        plan_instruction(&Instruction::SetColumnWidth(3, 20)).unwrap()
    );
    assert_eq!(
        plan_instruction(&Instruction::Write(7, 1, CellData::RowHeight(40))).unwrap(),
        vec![SinkCall::RowHeight { row: 7, height: 40 }]
    );
}

#[test]
fn calendar_dates_follow_the_encoder_calendar() {
    for ok in ["2024-02-29", "1900-02-29", "1899-12-31", "9999-12-31", "2023-01-25"] {
        assert!(plan_write(0, 0, &CellData::Date(s(ok))).is_ok(), "{}", ok);
    }
    for bad in ["2023-02-29", "1899-12-30", "2023-00-10", "2023-04-31", "2023-13-40"] {
        assert_eq!(plan_write(0, 0, &CellData::Date(s(bad))).unwrap_err().kind, ErrorKind::DateParse);
    }
}
