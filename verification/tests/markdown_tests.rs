use githut::markdown::{render, render_events, MdColor, MdEvent, MdHeading, MdSpan, MdStyle, MdTag};

fn plain() -> MdStyle {
    MdStyle { fg: None, bold: false, italic: false, crossed_out: false, underlined: false }
}

fn fg(c: MdColor) -> MdStyle {
    MdStyle { fg: Some(c), ..plain() }
}

fn flat(lines: &[Vec<MdSpan>]) -> Vec<Vec<(String, MdStyle)>> {
    lines.iter().map(|l| l.iter().map(|s| (s.text.clone(), s.style)).collect()).collect()
}

fn texts(lines: &[Vec<MdSpan>]) -> Vec<String> {
    lines.iter().map(|l| l.iter().map(|s| s.text.as_str()).collect::<String>()).collect()
}

fn sp(t: &str, s: MdStyle) -> (String, MdStyle) {
    (t.to_string(), s)
}

fn text(t: &str) -> MdEvent {
    MdEvent::Text(t.to_string())
}

#[test]
fn heading_and_paragraph() {
    let lines = render("# Title\n\nSome *em* and **bold**.\n");
    let h = MdStyle { bold: true, ..fg(MdColor::Cyan) };
    assert_eq!(
        flat(&lines),
        vec![
            vec![],
            vec![sp("█ ", h), sp("Title", h)],
            vec![],
            vec![
                sp("Some ", plain()),
                sp("em", MdStyle { italic: true, ..plain() }),
                sp(" and ", plain()),
                sp("bold", MdStyle { bold: true, ..plain() }),
                sp(".", plain()),
            ],
            vec![],
        ]
    );
}

#[test]
fn heading_levels_have_their_prefix_and_colour() {
    let lines = render("## Two\n\n### Three\n\n#### Four\n\n###### Six\n");
    assert_eq!(lines[1][0].text, "▌ ");
    assert_eq!(lines[1][0].style.fg, Some(MdColor::Blue));
    assert_eq!(lines[4][0].text, "▎ ");
    assert_eq!(lines[4][0].style.fg, Some(MdColor::Magenta));
    assert_eq!(lines[7][0].text, "  ");
    assert_eq!(lines[7][0].style.fg, Some(MdColor::Yellow));
    assert_eq!(lines[10][1].style.fg, Some(MdColor::DarkGray));
}

#[test]
fn code_block_lines_are_green() {
    let lines = render("```\nfn main() {}\nlet x = 1;\n```\n");
    let g = fg(MdColor::Green);
    assert_eq!(
        flat(&lines),
        vec![vec![], vec![sp("fn main() {}", g)], vec![sp("let x = 1;", g)], vec![]]
    );
}

#[test]
fn inline_code_is_green() {
    let lines = render("use `cargo`\n");
    assert_eq!(
        flat(&lines),
        vec![vec![sp("use ", plain()), sp("cargo", fg(MdColor::Green))], vec![]]
    );
}

#[test]
fn bullet_and_numbered_items() {
    let events = vec![
        MdEvent::Start(MdTag::List, None),
        MdEvent::Start(MdTag::Item, None),
        text("a"),
        MdEvent::End(MdTag::Item),
        MdEvent::End(MdTag::List),
        MdEvent::Start(MdTag::List, Some(3)),
        MdEvent::Start(MdTag::Item, None),
        text("x"),
        MdEvent::End(MdTag::Item),
        MdEvent::Start(MdTag::Item, None),
        text("y"),
        MdEvent::End(MdTag::Item),
        MdEvent::End(MdTag::List),
    ];
    let y = fg(MdColor::Yellow);
    assert_eq!(
        flat(&render_events(&events)),
        vec![
            vec![],
            vec![sp("• ", y), sp("a", plain())],
            vec![],
            vec![],
            vec![sp("3. ", y), sp("x", plain())],
            vec![],
            vec![sp("4. ", y), sp("y", plain())],
            vec![],
        ]
    );
}

#[test]
fn nested_items_are_indented() {
    let lines = render("- a\n  - b\n");
    assert_eq!(texts(&lines), vec!["", "• a", "  • b", "", "", ""]);
}

#[test]
fn ordered_list_from_the_parser() {
    let lines = render("7. x\n8. y\n");
    assert_eq!(texts(&lines), vec!["", "7. x", "", "8. y", ""]);
}

#[test]
fn block_quote_has_a_bar() {
    let d = fg(MdColor::DarkGray);
    assert_eq!(
        flat(&render("> quote\n")),
        vec![vec![sp("│ ", d), sp("quote", d)], vec![], vec![]]
    );
}

#[test]
fn nested_quotes_repeat_the_bar() {
    let events = vec![
        MdEvent::Start(MdTag::BlockQuote, None),
        MdEvent::Start(MdTag::BlockQuote, None),
        text("deep"),
        MdEvent::HardBreak,
        MdEvent::End(MdTag::BlockQuote),
        MdEvent::End(MdTag::BlockQuote),
    ];
    let d = fg(MdColor::DarkGray);
    assert_eq!(
        flat(&render_events(&events)),
        vec![vec![sp("│ │ ", d), sp("deep", d)], vec![sp("│ ", d)], vec![]]
    );
}

#[test]
fn link_text_is_underlined_cyan() {
    let s = MdStyle { underlined: true, ..fg(MdColor::Cyan) };
    assert_eq!(
        flat(&render("see [site](http://x.y) now\n")),
        vec![vec![sp("see ", plain()), sp("site", s), sp(" now", plain())], vec![]]
    );
}

#[test]
fn image_becomes_a_label() {
    let s = MdStyle { italic: true, ..fg(MdColor::DarkGray) };
    assert_eq!(flat(&render("![alt text](i.png)\n")), vec![vec![sp("[image: alt text]", s)], vec![]]);
    let events = vec![MdEvent::Start(MdTag::Image, None), MdEvent::End(MdTag::Image)];
    assert_eq!(flat(&render_events(&events)), vec![vec![sp("[image]", s)]]);
}

#[test]
fn image_end_without_start_takes_all_spans() {
    let events = vec![text("a"), text("b"), MdEvent::End(MdTag::Image)];
    let s = MdStyle { italic: true, ..fg(MdColor::DarkGray) };
    assert_eq!(flat(&render_events(&events)), vec![vec![sp("[image: b]", s)]]);
}

#[test]
fn rule_is_a_long_line() {
    let lines = render("a\n\n---\n");
    assert_eq!(texts(&lines), vec!["a".to_string(), String::new(), String::new(), "─".repeat(60), String::new()]);
}

#[test]
fn table_rows_with_separator() {
    let lines = render("|a|b|\n|-|-|\n|1|2|\n");
    assert_eq!(
        texts(&lines),
        vec![
            String::new(),
            "│ a │ b ".to_string(),
            "─".repeat(40),
            "│ 1 │ 2 ".to_string(),
            String::new(),
            String::new(),
        ]
    );
}

#[test]
fn strikethrough_and_breaks() {
    let lines = render("~~gone~~ a\nb  \nc\n");
    assert_eq!(lines[0][0].text, "gone");
    assert!(lines[0][0].style.crossed_out);
    assert_eq!(texts(&lines), vec!["gone a b", "c", ""]);
}

#[test]
fn html_is_skipped() {
    assert_eq!(texts(&render("<div>x</div>\n")), Vec::<String>::new());
}

#[test]
fn text_left_at_the_end_is_flushed() {
    let events = vec![MdEvent::Start(MdTag::Heading(MdHeading::H3), None), text("t")];
    assert_eq!(texts(&render_events(&events)), vec!["", "▎ t"]);
    assert!(render_events(&Vec::new()).is_empty());
}

#[test]
fn code_block_text_keeps_a_lone_carriage_return_at_the_end() {
    let events = vec![
        MdEvent::Start(MdTag::CodeBlock, None),
        text("a\r\nb\r"),
        MdEvent::End(MdTag::CodeBlock),
    ];
    assert_eq!(texts(&render_events(&events)), vec!["", "a", "b\r", ""]);
}
