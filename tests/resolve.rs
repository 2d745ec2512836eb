use xlsx_writer::color::parse_hex_color;
use xlsx_writer::style::{resolve, AlignPos, BorderStyle, CellFormat, FontScript, Style};

fn s(t: &str) -> String {
    t.to_string()
}

#[test]
fn hex_color_with_and_without_hash() {
    assert_eq!(parse_hex_color("#FF0000"), Some(0xFF0000));
    assert_eq!(parse_hex_color("FF0000"), Some(0xFF0000));
    assert_eq!(parse_hex_color("00ff7f"), Some(0x00FF7F));
    assert_eq!(parse_hex_color("#FFFFFF"), Some(0xFF_FFFF));
    assert_eq!(parse_hex_color("000000"), Some(0));
}

#[test]
fn hex_color_rejects_bad_strings() {
    assert_eq!(parse_hex_color("not-a-color"), None);
    assert_eq!(parse_hex_color(""), None);
    assert_eq!(parse_hex_color("#"), None);
    assert_eq!(parse_hex_color("ff"), None);
    assert_eq!(parse_hex_color("+fffff"), None);
    assert_eq!(parse_hex_color("##00ff7f"), None);
    assert_eq!(parse_hex_color("-fffff"), None);
    assert_eq!(parse_hex_color("12G456"), None);
    assert_eq!(parse_hex_color("FFFFFFFF"), None);
    assert_eq!(parse_hex_color("#FFFFFFF"), None);
    assert_eq!(parse_hex_color("01000000"), None);
}

#[test]
fn empty_list_resolves_to_plain() {
    assert_eq!(resolve(&vec![]), Style::plain());
}

#[test]
fn background_hash_is_optional() {
    let a = resolve(&vec![CellFormat::BgColor(s("#FF0000"))]);
    let b = resolve(&vec![CellFormat::BgColor(s("FF0000"))]);
    assert_eq!(a, b);
    assert_eq!(a.background, Some(0xFF0000));
}

#[test]
fn invalid_background_is_ignored() {
    let r = resolve(&vec![CellFormat::BgColor(s("not-a-color"))]);
    assert_eq!(r, Style::plain());
    let r = resolve(&vec![CellFormat::BgColor(s("00FF00")), CellFormat::BgColor(s("zz"))]);
    assert_eq!(r.background, Some(0x00FF00));
    let r = resolve(&vec![CellFormat::BgColor(s("FF0000")), CellFormat::BgColor(s("FFFFFFFF"))]);
    assert_eq!(r.background, Some(0xFF0000));
}

#[test]
fn later_directive_wins() {
    let r = resolve(&vec![CellFormat::Align(AlignPos::Left), CellFormat::Align(AlignPos::Right)]);
    assert_eq!(r.align, Some(AlignPos::Right));
    let r = resolve(&vec![CellFormat::Superscript, CellFormat::Subscript]);
    assert_eq!(r.script, Some(FontScript::Subscript));
}

#[test]
fn resolving_twice_is_the_same() {
    let d = vec![
        CellFormat::Bold,
        CellFormat::NumFormat(s("0.00")),
        CellFormat::FontColor(s("#123456")),
        CellFormat::Border(BorderStyle::Thin),
    ];
    assert_eq!(resolve(&d), resolve(&d));
    let mut doubled = d.clone();
    doubled.extend(d.clone());
    assert_eq!(resolve(&doubled), resolve(&d));
    assert_eq!(resolve(&vec![CellFormat::Bold, CellFormat::Bold]), resolve(&vec![CellFormat::Bold]));
}

#[test]
fn repeated_directive_replaces() {
    let d = vec![
        CellFormat::Align(AlignPos::Center),
        CellFormat::BorderTop(BorderStyle::Dashed),
        CellFormat::Align(AlignPos::Left),
        CellFormat::Border(BorderStyle::Thick),
    ];
    let mut appended = d.clone();
    appended.push(d[0].clone());
    let mut moved = d.clone();
    let first = moved.remove(0);
    moved.push(first);
    assert_eq!(resolve(&appended), resolve(&moved));
    assert_eq!(resolve(&appended).align, Some(AlignPos::Center));
    assert_eq!(resolve(&appended).border_top, Some(BorderStyle::Thick));
}

#[test]
fn every_directive_sets_its_field() {
    let r = resolve(&vec![
        CellFormat::Bold,
        CellFormat::Italic,
        CellFormat::Strikethrough,
        CellFormat::FontSize(14),
        CellFormat::FontName(s("Arial")),
        CellFormat::BorderColor(s("#0000FF")),
        CellFormat::BorderLeftColor(s("FF0000")),
        CellFormat::BorderBottom(BorderStyle::Double),
    ]);
    assert!(r.bold && r.italic && r.strikethrough);
    assert_eq!(r.font_size, Some(14));
    assert_eq!(r.font_name, Some(s("Arial")));
    assert_eq!(r.border_top_color, Some(0x0000FF));
    assert_eq!(r.border_right_color, Some(0x0000FF));
    assert_eq!(r.border_left_color, Some(0xFF0000));
    assert_eq!(r.border_bottom, Some(BorderStyle::Double));
    assert_eq!(r.border_top, None);
    assert_eq!(r.background, None);
}

#[test]
fn repeated_directive_replaces_every_earlier_one() {
    let d = CellFormat::Align(AlignPos::Center);
    let list = vec![
        d.clone(),
        CellFormat::Align(AlignPos::Left),
        d.clone(),
        CellFormat::Bold,
        CellFormat::Align(AlignPos::Right),
    ];
    let mut appended = list.clone();
    appended.push(d.clone());
    let mut kept: Vec<CellFormat> = list.iter().filter(|x| **x != d).cloned().collect();
    kept.push(d.clone());
    assert_eq!(resolve(&appended), resolve(&kept));
    assert_eq!(resolve(&appended).align, Some(AlignPos::Center));
    assert!(resolve(&appended).bold);
}

#[test]
fn repeat_without_later_overlap_changes_nothing() {
    let d = vec![CellFormat::Bold, CellFormat::Italic, CellFormat::FontSize(11)];
    let mut appended = d.clone();
    appended.push(CellFormat::Bold);
    assert_eq!(resolve(&appended), resolve(&d));
}
