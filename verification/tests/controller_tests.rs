use numeracle::controller::{run_iteration, split_words, IterationOutput};
use numeracle::options::{
    output_options, resolve_decorations, select_mode, Color, Decorations, OutputOptions, RunMode,
    CLI,
};

fn cli(recursive: bool, fast: bool, json: bool) -> CLI {
    CLI {
        words: Vec::new(),
        fast,
        recursive,
        less: false,
        raw: false,
        no_total: false,
        json,
        table: false,
        color: Color::Auto,
        decorations: Decorations::Auto,
        quiet: false,
    }
}

fn opts() -> OutputOptions {
    OutputOptions {
        less: false,
        raw: false,
        no_total: false,
        json: false,
        quiet: false,
        decorations: true,
    }
}

#[test]
fn split_words_on_plain_spaces() {
    let words = split_words(&String::from("cat dog"));
    assert_eq!(words, vec![String::from("cat"), String::from("dog")]);
}

#[test]
fn split_words_collapses_runs_and_trims() {
    let words = split_words(&String::from("  one \t two\n\nthree \r\n"));
    assert_eq!(
        words,
        vec![String::from("one"), String::from("two"), String::from("three")]
    );
}

#[test]
fn split_words_of_empty_and_blank_lines() {
    assert!(split_words(&String::new()).is_empty());
    assert!(split_words(&String::from("   \t  \n")).is_empty());
}

#[test]
fn split_words_single_token() {
    assert_eq!(split_words(&String::from("word")), vec![String::from("word")]);
}

#[test]
fn split_words_on_unicode_whitespace() {
    let words = split_words(&String::from("a\u{a0}b"));
    assert_eq!(words, vec![String::from("a"), String::from("b")]);
    let words = split_words(&String::from("one\u{2003}two\u{3000}three\u{2028}four"));
    assert_eq!(
        words,
        vec![
            String::from("one"),
            String::from("two"),
            String::from("three"),
            String::from("four"),
        ]
    );
    assert!(split_words(&String::from("\u{85}\u{1680}\u{202f}\u{205f}")).is_empty());
}

#[test]
fn split_words_agrees_with_std_whitespace_splitting() {
    let line = String::from(" red\u{a0}green \tblue\u{2000}\u{200a}x\u{2029} 42 ");
    let expected: Vec<String> = line.split_whitespace().map(|w| w.to_string()).collect();
    assert_eq!(split_words(&line), expected);
}

#[test]
fn piped_input_always_selects_piped_batch() {
    for &recursive in &[false, true] {
        for &fast in &[false, true] {
            for &json in &[false, true] {
                for &fullscreen in &[false, true] {
                    let mode = select_mode(false, fullscreen, &cli(recursive, fast, json));
                    assert_eq!(mode, RunMode::PipedBatch);
                }
            }
        }
    }
}

#[test]
fn mode_selection_on_a_terminal() {
    assert_eq!(select_mode(true, true, &cli(true, false, false)), RunMode::InteractiveRecursive);
    assert_eq!(select_mode(true, true, &cli(true, true, true)), RunMode::InteractiveRecursive);
    assert_eq!(select_mode(true, true, &cli(false, true, false)), RunMode::FastBatch);
    assert_eq!(select_mode(true, true, &cli(false, false, true)), RunMode::FastBatch);
    assert_eq!(select_mode(true, false, &cli(false, false, false)), RunMode::FastBatch);
    assert_eq!(
        select_mode(true, true, &cli(false, false, false)),
        RunMode::InteractiveFullScreen
    );
}

#[test]
fn decorations_resolve_on_unless_never() {
    assert!(resolve_decorations(&Decorations::Auto));
    assert!(resolve_decorations(&Decorations::Always));
    assert!(!resolve_decorations(&Decorations::Never));
    let mut c = cli(false, false, true);
    c.decorations = Decorations::Never;
    c.no_total = true;
    let o = output_options(&c);
    assert!(!o.decorations);
    assert!(o.no_total);
    assert!(o.json);
    assert!(!o.raw);
}

#[test]
fn iteration_totals_are_independent_between_prompts() {
    // Entering "a" and then "b" at two prompts yields two single-word
    // totals, never a running sum.
    let first = run_iteration(&vec![String::from("a")], &opts());
    let second = run_iteration(&vec![String::from("b")], &opts());
    let first_lines = match first {
        IterationOutput::Text(lines) => lines,
        IterationOutput::Json(_) => panic!("expected text output"),
    };
    let second_lines = match second {
        IterationOutput::Text(lines) => lines,
        IterationOutput::Json(_) => panic!("expected text output"),
    };
    assert_eq!(first_lines.last().unwrap().text, "Total Value: 1");
    assert_eq!(second_lines.last().unwrap().text, "Total Value: 2");
}

#[test]
fn iteration_renders_json_when_asked() {
    let o = OutputOptions { json: true, ..opts() };
    let out = run_iteration(&vec![String::from("cat")], &o);
    match out {
        IterationOutput::Json(s) => {
            assert_eq!(s, "[\n  {\n    \"cat\": 8\n  },\n  {\n    \"TOTAL_VALUE\": 8\n  }\n]");
        }
        IterationOutput::Text(_) => panic!("expected JSON output"),
    }
}
