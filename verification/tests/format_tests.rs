use numeracle::format::{
    format_session, grid_titles, prompt_text, startup_lines, table_grid_rows,
    table_listing_lines, u32_dec, GridRow, TextStyle,
};
use numeracle::options::{OutputOptions, RunMode};
use numeracle::scoring::score_words;
use numeracle::table::WeightTable;

fn opts() -> OutputOptions {
    OutputOptions {
        less: false,
        raw: false,
        no_total: false,
        json: false,
        quiet: false,
        decorations: true,
    }
}

#[test]
fn numbers_render_in_decimal() {
    assert_eq!(u32_dec(0), "0");
    assert_eq!(u32_dec(7), "7");
    assert_eq!(u32_dec(10), "10");
    assert_eq!(u32_dec(12345), "12345");
    assert_eq!(u32_dec(u32::MAX), "4294967295");
}

#[test]
fn default_session_lines_show_letters_separator_and_total() {
    let session = score_words(&vec![String::from("cat")]);
    let lines = format_session(&session, &opts());
    let texts: Vec<&str> = lines.iter().map(|l| l.text.as_str()).collect();
    assert_eq!(
        texts,
        vec![
            "Value of \"cat\": 8",
            "'c': 3",
            "'a': 1",
            "'t': 4",
            "--------------------",
            "Total Value: 8",
        ]
    );
    assert_eq!(lines[0].style, TextStyle::Info);
    assert!(lines[0].strong);
    assert_eq!(lines[1].style, TextStyle::Detail);
    assert!(!lines[1].strong);
    assert_eq!(lines[5].style, TextStyle::Info);
}

#[test]
fn raw_session_lines_have_no_separator_or_letters() {
    let session = score_words(&vec![String::from("cat")]);
    let o = OutputOptions { raw: true, ..opts() };
    let lines = format_session(&session, &o);
    let texts: Vec<&str> = lines.iter().map(|l| l.text.as_str()).collect();
    assert_eq!(texts, vec!["\"cat\": 8", "Total Value: 8"]);
}

#[test]
fn less_session_lines_omit_letters_only() {
    let session = score_words(&vec![String::from("cat")]);
    let o = OutputOptions { less: true, ..opts() };
    let lines = format_session(&session, &o);
    let texts: Vec<&str> = lines.iter().map(|l| l.text.as_str()).collect();
    assert_eq!(texts, vec!["Value of \"cat\": 8", "--------------------", "Total Value: 8"]);
}

#[test]
fn no_total_omits_the_total_line() {
    let session = score_words(&vec![String::from("cat")]);
    let o = OutputOptions { no_total: true, less: true, ..opts() };
    let lines = format_session(&session, &o);
    let texts: Vec<&str> = lines.iter().map(|l| l.text.as_str()).collect();
    assert_eq!(texts, vec!["Value of \"cat\": 8", "--------------------"]);
    for l in &lines {
        assert!(!l.text.starts_with("Total Value:"));
    }
}

#[test]
fn empty_word_list_still_reports_zero_total() {
    let session = score_words(&Vec::new());
    let lines = format_session(&session, &opts());
    let texts: Vec<&str> = lines.iter().map(|l| l.text.as_str()).collect();
    assert_eq!(texts, vec!["--------------------", "Total Value: 0"]);
}

#[test]
fn undecorated_lines_are_not_strong() {
    let session = score_words(&vec![String::from("a")]);
    let o = OutputOptions { decorations: false, ..opts() };
    let lines = format_session(&session, &o);
    for l in &lines {
        assert!(!l.strong);
    }
}

#[test]
fn table_listing_has_36_plain_lines_and_a_note() {
    let table = WeightTable::new();
    let lines = table_listing_lines(&table, &opts());
    assert_eq!(lines.len(), 37);
    assert_eq!(lines[0].text, "0: 0");
    assert_eq!(lines[9].text, "9: 9");
    assert_eq!(lines[10].text, "a: 1");
    assert_eq!(lines[36].text, "Note: Both lowercase and uppercase letters hold equivalent value.");
    assert_eq!(lines[36].style, TextStyle::Note);
    assert!(lines[36].strong);
    for l in &lines[..36] {
        assert_eq!(l.style, TextStyle::Plain);
    }
}

#[test]
fn quiet_table_listing_has_no_note() {
    let table = WeightTable::new();
    let o = OutputOptions { quiet: true, ..opts() };
    let lines = table_listing_lines(&table, &o);
    assert_eq!(lines.len(), 36);
    assert_eq!(lines[35].text, "z: 7");
}

#[test]
fn grid_has_blank_row_at_digit_letter_boundary() {
    let table = WeightTable::new();
    let rows = table_grid_rows(&table);
    assert_eq!(rows.len(), 37);
    assert!(matches!(rows[10], GridRow::Blank));
    match &rows[0] {
        GridRow::Entry(c, v) => {
            assert_eq!(c, "0");
            assert_eq!(v, "0");
        }
        GridRow::Blank => panic!("expected an entry row"),
    }
    match &rows[11] {
        GridRow::Entry(c, v) => {
            assert_eq!(c, "a");
            assert_eq!(v, "1");
        }
        GridRow::Blank => panic!("expected an entry row"),
    }
    match &rows[36] {
        GridRow::Entry(c, v) => {
            assert_eq!(c, "z");
            assert_eq!(v, "7");
        }
        GridRow::Blank => panic!("expected an entry row"),
    }
    let titles = grid_titles();
    assert_eq!(titles.0, "CHARACTER");
    assert_eq!(titles.1, "VALUE");
}

#[test]
fn prompts_follow_verbosity_flags() {
    assert_eq!(prompt_text(&opts()), "Enter words separated by spaces: ");
    assert_eq!(prompt_text(&OutputOptions { less: true, ..opts() }), ": ");
    assert_eq!(prompt_text(&OutputOptions { raw: true, ..opts() }), ":");
    assert_eq!(prompt_text(&OutputOptions { raw: true, less: true, ..opts() }), ": ");
}

#[test]
fn startup_lines_per_mode() {
    let o = opts();
    assert!(startup_lines(&RunMode::PipedBatch, &o).is_empty());
    assert!(startup_lines(&RunMode::FastBatch, &o).is_empty());

    let rec = startup_lines(&RunMode::InteractiveRecursive, &o);
    assert_eq!(rec.len(), 1);
    assert_eq!(rec[0].text, "Note: Press Ctrl+C to exit.");
    assert_eq!(rec[0].style, TextStyle::Note);

    let quiet = OutputOptions { quiet: true, ..opts() };
    assert!(startup_lines(&RunMode::InteractiveRecursive, &quiet).is_empty());

    let full = startup_lines(&RunMode::InteractiveFullScreen, &o);
    assert_eq!(full.len(), 2);
    assert_eq!(full[0].style, TextStyle::Banner);
    assert!(full[0].text.contains("_   _"));
    assert_eq!(full[1].text, "Note: Press Ctrl+C to exit.");

    let full_quiet = startup_lines(&RunMode::InteractiveFullScreen, &quiet);
    assert_eq!(full_quiet.len(), 1);
    assert_eq!(full_quiet[0].style, TextStyle::Banner);
}
