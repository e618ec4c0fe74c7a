//! What stands behind the system monitors: the commands they run and the
//! parsers of what the commands and the kernel's files print.

use vstd::prelude::*;
use crate::text::{
    chars_of, contains, contains_chars, owned, signed_decimal, string_of, texts, trim,
    trim_chars,
};

pub mod app_finder;
pub mod audio;
pub mod battery;
pub mod brightness;
pub mod connectivity;
pub mod media;
pub mod power;

verus! {

/// A program to run, with its arguments.
#[derive(Debug, Clone)]
pub struct Command {
    pub program: String,
    pub args: Vec<String>,
}

/// What a command holds.
pub struct CommandView {
    pub program: Seq<char>,
    pub args: Seq<Seq<char>>,
}

impl View for Command {
    type V = CommandView;

    open spec fn view(&self) -> CommandView {
        CommandView { program: self.program@, args: texts(self.args@) }
    }
}

/// The command that runs `program` with the arguments `args`.
pub open spec fn invoke(program: Seq<char>, args: Seq<Seq<char>>) -> CommandView {
    CommandView { program, args }
}

impl Command {
    /// The command that runs `program` without arguments.
    pub fn new(program: &str) -> (made: Command)
        ensures
            made@ == invoke(program@, Seq::empty()),
    {
        let made = Command { program: owned(program), args: Vec::new() };
        assert(made@.args =~= Seq::<Seq<char>>::empty());
        made
    }

    /// This command with one argument more.
    pub fn arg(self, arg: &str) -> (made: Command)
        ensures
            made@ == invoke(self@.program, self@.args.push(arg@)),
    {
        let Command { program, args } = self;
        let mut args = args;
        let ghost before = args@;
        args.push(owned(arg));
        assert(texts(args@) =~= texts(before).push(arg@));
        Command { program, args }
    }
}

/// The view of the command that an operation gives, if it gives one.
pub open spec fn command_view(command: Option<Command>) -> Option<CommandView> {
    match command {
        Some(c) => Some(c@),
        None => None,
    }
}

/// `value`, or the nearer of the two bounds where it lies outside them.
pub open spec fn clamped(value: int, low: int, high: int) -> int {
    if value < low {
        low
    } else if value > high {
        high
    } else {
        value
    }
}

/// `value`, or the nearer of the two bounds where it lies outside them.
pub fn clamp_i32(value: i32, low: i32, high: i32) -> (out: i32)
    requires
        low <= high,
    ensures
        out == clamped(value as int, low as int, high as int),
{
    if value < low {
        low
    } else if value > high {
        high
    } else {
        value
    }
}

/// A percentage as the volume and brightness tools take it.
pub open spec fn percent_text(percent: int) -> Seq<char> {
    signed_decimal(percent) + "%"@
}

/// A percentage as the volume and brightness tools take it.
pub fn percent_arg(percent: i32) -> (text: String)
    ensures
        text@ == percent_text(percent as int),
{
    let mut out: Vec<char> = Vec::new();
    crate::text::push_signed_decimal(&mut out, percent as i64);
    crate::text::append_chars(&mut out, &crate::text::chars_of("%"));
    assert(out@ =~= percent_text(percent as int));
    crate::text::string_of(&out)
}

/// The decimal form of an index, as the tools take it.
pub fn index_arg(index: u32) -> (text: String)
    ensures
        text@ == signed_decimal(index as int),
{
    let mut out: Vec<char> = Vec::new();
    crate::text::push_signed_decimal(&mut out, index as i64);
    assert(out@ =~= signed_decimal(index as int));
    crate::text::string_of(&out)
}


/// What a command left behind when it ended.
#[derive(Debug, Clone)]
pub struct CommandOutput {
    /// Whether it ended with success.
    pub success: bool,
    /// What it printed.
    pub stdout: String,
    /// What it printed as errors.
    pub stderr: String,
}

/// How a command went: what it left behind, or why it could not be run.
pub type CommandRun = Result<CommandOutput, String>;

/// What an outcome holds.
pub open spec fn outcome_view(outcome: Result<(), String>) -> Result<(), Seq<char>> {
    match outcome {
        Ok(_) => Ok(()),
        Err(why) => Err(why@),
    }
}

/// The outcome of a command that is judged by how it ended: a command that
/// could not be run fails with the name of the tool and the reason; one that
/// ended without success fails with `what` and its errors, without the white
/// space around them.
pub open spec fn status_outcome(run: CommandRun, tool: Seq<char>, what: Seq<char>) -> Result<
    (),
    Seq<char>,
> {
    match run {
        Err(why) => Err("Failed to run "@ + tool + ": "@ + why@),
        Ok(output) => if output.success {
            Ok(())
        } else {
            Err(what + " failed: "@ + trim(output.stderr@))
        },
    }
}

/// Judges a command by how it ended.
pub fn judge_by_status(run: &CommandRun, tool: &str, what: &str) -> (outcome: Result<(), String>)
    ensures
        outcome_view(outcome) == status_outcome(*run, tool@, what@),
{
    match run {
        Err(why) => {
            let mut out = chars_of("Failed to run ");
            crate::text::append_chars(&mut out, &chars_of(tool));
            crate::text::append_chars(&mut out, &chars_of(": "));
            crate::text::append_chars(&mut out, &chars_of(why.as_str()));
            Err(string_of(&out))
        },
        Ok(output) => {
            if output.success {
                Ok(())
            } else {
                let mut out = chars_of(what);
                crate::text::append_chars(&mut out, &chars_of(" failed: "));
                crate::text::append_chars(&mut out, &trim_chars(&chars_of(output.stderr.as_str())));
                Err(string_of(&out))
            }
        },
    }
}

/// The outcome of a command that is judged by what it printed: a command
/// that could not be run fails with the name of the tool and the reason; one
/// whose output holds none of the two marks fails with `what` and its
/// output, without the white space around it.
pub open spec fn output_outcome(
    run: CommandRun,
    tool: Seq<char>,
    what: Seq<char>,
    mark: Seq<char>,
    other_mark: Seq<char>,
) -> Result<(), Seq<char>> {
    match run {
        Err(why) => Err("Failed to run "@ + tool + ": "@ + why@),
        Ok(output) => if contains(output.stdout@, mark) || contains(output.stdout@, other_mark) {
            Ok(())
        } else {
            Err(what + " failed: "@ + trim(output.stdout@))
        },
    }
}

/// Judges a command by what it printed.
pub fn judge_by_output(run: &CommandRun, tool: &str, what: &str, mark: &str, other_mark: &str) -> (outcome:
    Result<(), String>)
    ensures
        outcome_view(outcome) == output_outcome(*run, tool@, what@, mark@, other_mark@),
{
    match run {
        Err(why) => {
            let mut out = chars_of("Failed to run ");
            crate::text::append_chars(&mut out, &chars_of(tool));
            crate::text::append_chars(&mut out, &chars_of(": "));
            crate::text::append_chars(&mut out, &chars_of(why.as_str()));
            Err(string_of(&out))
        },
        Ok(output) => {
            let printed = chars_of(output.stdout.as_str());
            if contains_chars(&printed, &chars_of(mark)) || contains_chars(
                &printed,
                &chars_of(other_mark),
            ) {
                Ok(())
            } else {
                let mut out = chars_of(what);
                crate::text::append_chars(&mut out, &chars_of(" failed: "));
                crate::text::append_chars(&mut out, &trim_chars(&printed));
                Err(string_of(&out))
            }
        },
    }
}

} // verus!
