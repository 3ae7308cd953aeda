//! Parsed command-line options, output options, and run-mode selection.

use vstd::prelude::*;

verus! {

/// Whether to colorize output.
#[derive(Clone, Copy, Debug, PartialEq, Eq, Structural)]
pub enum Color {
    Auto,
    Always,
    Never,
}

/// Whether to emphasize designated lines (bold, italic).
#[derive(Clone, Copy, Debug, PartialEq, Eq, Structural)]
pub enum Decorations {
    Auto,
    Always,
    Never,
}

/// The recognized command-line inputs, already parsed: the word list and the
/// flags of the run.
#[derive(Clone, Debug)]
pub struct CLI {
    /// List of words to calculate the values of.
    pub words: Vec<String>,
    /// Fast mode: one batch over the argument words, then exit.
    pub fast: bool,
    /// Recursive mode: prompt, score, and repeat until cancelled.
    pub recursive: bool,
    /// Limit output verbosity (omit individual letter values).
    pub less: bool,
    /// Eliminate formatting and extra text (simple output).
    pub raw: bool,
    /// Exclude the overall total from the output.
    pub no_total: bool,
    /// Format the output as JSON.
    pub json: bool,
    /// Print the table used to determine the values instead of scoring.
    pub table: bool,
    /// Whether to print output with color.
    pub color: Color,
    /// Whether to print output with decorations (bold, italic).
    pub decorations: Decorations,
    /// Silence informational notes.
    pub quiet: bool,
}

/// The flags the output pipeline consumes, with decorations resolved to a
/// plain on/off choice. Color is applied by the terminal layer and has no
/// effect on any computed text.
#[derive(Clone, Copy, Debug, PartialEq, Eq, Structural)]
pub struct OutputOptions {
    pub less: bool,
    pub raw: bool,
    pub no_total: bool,
    pub json: bool,
    pub quiet: bool,
    pub decorations: bool,
}

/// Decorations are on unless asked off: `Auto` and `Always` enable them.
pub open spec fn spec_resolve_decorations(d: Decorations) -> bool {
    !(d is Never)
}

pub fn resolve_decorations(d: &Decorations) -> (r: bool)
    ensures
        r == spec_resolve_decorations(*d),
{
    match d {
        Decorations::Never => false,
        _ => true,
    }
}

/// The output options a parsed command line asks for.
pub open spec fn spec_output_options(cli: CLI) -> OutputOptions {
    OutputOptions {
        less: cli.less,
        raw: cli.raw,
        no_total: cli.no_total,
        json: cli.json,
        quiet: cli.quiet,
        decorations: spec_resolve_decorations(cli.decorations),
    }
}

pub fn output_options(cli: &CLI) -> (r: OutputOptions)
    ensures
        r == spec_output_options(*cli),
{
    OutputOptions {
        less: cli.less,
        raw: cli.raw,
        no_total: cli.no_total,
        json: cli.json,
        quiet: cli.quiet,
        decorations: resolve_decorations(&cli.decorations),
    }
}

/// The mutually exclusive run modes, chosen once per invocation.
#[derive(Clone, Copy, Debug, PartialEq, Eq, Structural)]
pub enum RunMode {
    /// Read all whitespace-separated tokens from the pipe, score once, exit.
    PipedBatch,
    /// Score the argument words once, then fall through to program end.
    FastBatch,
    /// Loop: score, print, prompt, read one line, repeat until cancelled.
    InteractiveRecursive,
    /// Like the recursive loop, on a dedicated full-screen surface.
    InteractiveFullScreen,
}

/// Run-mode selection, checked in order: piped input always forces a one-shot
/// batch; otherwise the recursive flag wins; otherwise fast or JSON output or
/// a platform without full-screen support falls back to a fast batch; the
/// full-screen loop is the remaining default.
pub open spec fn spec_select_mode(
    is_tty: bool,
    fullscreen_supported: bool,
    recursive: bool,
    fast: bool,
    json: bool,
) -> RunMode {
    if !is_tty {
        RunMode::PipedBatch
    } else if recursive {
        RunMode::InteractiveRecursive
    } else if fast || json || !fullscreen_supported {
        RunMode::FastBatch
    } else {
        RunMode::InteractiveFullScreen
    }
}

/// Choose the run mode for this invocation from the terminal situation, the
/// platform's full-screen capability, and the parsed flags.
pub fn select_mode(is_tty: bool, fullscreen_supported: bool, cli: &CLI) -> (r: RunMode)
    ensures
        r == spec_select_mode(is_tty, fullscreen_supported, cli.recursive, cli.fast, cli.json),
{
    if !is_tty {
        RunMode::PipedBatch
    } else if cli.recursive {
        RunMode::InteractiveRecursive
    } else if cli.fast || cli.json || !fullscreen_supported {
        RunMode::FastBatch
    } else {
        RunMode::InteractiveFullScreen
    }
}

/// Piped input always selects the one-shot batch mode, whatever the
/// recursive flag (or any other flag) says.
pub proof fn lemma_piped_overrides_recursive(
    fullscreen_supported: bool,
    recursive: bool,
    fast: bool,
    json: bool,
)
    ensures
        spec_select_mode(false, fullscreen_supported, recursive, fast, json)
            == RunMode::PipedBatch,
{
}

} // verus!
