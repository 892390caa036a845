//! Text injection into the focused application: which tool types the text,
//! and with which arguments. Running the tool is done outside the library.
use vstd::prelude::*;

verus! {

/// The tools that can type text into the focused window.
#[derive(Debug, Clone, Copy, PartialEq, Eq, Structural)]
pub enum Injector {
    /// `xdotool type` (X11).
    Xdotool,
    /// `ydotool type` (Wayland).
    Ydotool,
}

/// How a text gets injected.
#[derive(Debug, Clone, Copy, PartialEq, Eq, Structural)]
pub enum InjectPlan {
    /// The text is empty: nothing to type.
    Nothing,
    /// Type the text with this tool.
    Run(Injector),
    /// Neither tool is installed.
    NoTool,
}

/// Picks the injection tool: empty text needs none; `xdotool` is preferred
/// to `ydotool`; with neither installed injection fails.
pub fn inject_plan(text: &str, xdotool_available: bool, ydotool_available: bool) -> (p: InjectPlan)
    ensures
        text@.len() == 0 ==> p == InjectPlan::Nothing,
        text@.len() > 0 && xdotool_available ==> p == InjectPlan::Run(Injector::Xdotool),
        text@.len() > 0 && !xdotool_available && ydotool_available ==> p == InjectPlan::Run(
            Injector::Ydotool,
        ),
        text@.len() > 0 && !xdotool_available && !ydotool_available ==> p == InjectPlan::NoTool,
{
    if text.is_empty() {
        InjectPlan::Nothing
    } else if xdotool_available {
        InjectPlan::Run(Injector::Xdotool)
    } else if ydotool_available {
        InjectPlan::Run(Injector::Ydotool)
    } else {
        InjectPlan::NoTool
    }
}

/// The program a tool is run as.
pub open spec fn injector_program(t: Injector) -> Seq<char> {
    match t {
        Injector::Xdotool => "xdotool"@,
        Injector::Ydotool => "ydotool"@,
    }
}

/// The program name of a tool.
pub fn injector_program_name(t: Injector) -> (s: &'static str)
    ensures
        s@ == injector_program(t),
{
    match t {
        Injector::Xdotool => "xdotool",
        Injector::Ydotool => "ydotool",
    }
}

/// The arguments that type `text`: `xdotool` releases held modifiers and
/// types without delay; `--` keeps the text from being read as options.
pub open spec fn injector_arguments(t: Injector, text: Seq<char>) -> Seq<Seq<char>> {
    match t {
        Injector::Xdotool => seq!["type"@, "--clearmodifiers"@, "--delay"@, "0"@, "--"@, text],
        Injector::Ydotool => seq!["type"@, "--"@, text],
    }
}

/// The command-line arguments for typing `text` with tool `t`.
pub fn injector_args(t: Injector, text: &str) -> (args: Vec<String>)
    ensures
        crate::text::string_seqs_view(args@) == injector_arguments(t, text@),
{
    let mut args: Vec<String> = Vec::new();
    match t {
        Injector::Xdotool => {
            args.push("type".to_owned());
            args.push("--clearmodifiers".to_owned());
            args.push("--delay".to_owned());
            args.push("0".to_owned());
            args.push("--".to_owned());
            args.push(text.to_owned());
        },
        Injector::Ydotool => {
            args.push("type".to_owned());
            args.push("--".to_owned());
            args.push(text.to_owned());
        },
    }
    assert(crate::text::string_seqs_view(args@) =~= injector_arguments(t, text@));
    args
}

/// Whichever tool types it, the text is the last argument and comes right
/// after `--`, so it is typed as given and never read as an option; the tool
/// is always asked to `type`.
pub proof fn lemma_text_is_last_argument(t: Injector, text: Seq<char>)
    ensures
        injector_arguments(t, text).len() >= 3,
        injector_arguments(t, text)[0] == "type"@,
        injector_arguments(t, text).last() == text,
        injector_arguments(t, text)[injector_arguments(t, text).len() - 2] == "--"@,
{
}

} // verus!
