use vstd::prelude::*;

use crate::eval::{evaluation, run};

verus! {

/// What the interactive loop got from its input.
#[derive(Debug)]
pub enum ReplEvent {
    /// A line as read, line ending included. At end of input the read
    /// yields an empty line, which is handled like any other.
    Line(String),
    /// Reading failed.
    ReadFailed,
}

/// What the interactive loop does next.
#[derive(Debug)]
pub enum ReplStep {
    /// Leave the loop; the session ends normally.
    Stop,
    /// The line was evaluated with this outcome; report an error, then read on.
    Evaluated(Result<(), String>),
}

/// Unicode `White_Space`, the characters that `char::is_whitespace` accepts.
pub open spec fn is_white_space(c: char) -> bool {
    let n = c as u32;
    ||| 0x9 <= n <= 0xd
    ||| n == 0x20
    ||| n == 0x85
    ||| n == 0xa0
    ||| n == 0x1680
    ||| 0x2000 <= n <= 0x200a
    ||| n == 0x2028
    ||| n == 0x2029
    ||| n == 0x202f
    ||| n == 0x205f
    ||| n == 0x3000
}

/// A text with its trailing whitespace removed.
pub open spec fn trim_end_of(s: Seq<char>) -> Seq<char>
    decreases s.len(),
{
    if s.len() > 0 && is_white_space(s.last()) {
        trim_end_of(s.drop_last())
    } else {
        s
    }
}

/// Relies on `str::trim_end`: it removes trailing Unicode `White_Space`
/// characters and nothing else.
#[verifier::external_body]
fn trim_end(s: &str) -> (r: &str)
    ensures
        r@ == trim_end_of(s@),
{
    s.trim_end()
}

/// The words that end a session.
pub open spec fn is_quit_command(input: Seq<char>) -> bool {
    input == "exit"@ || input == "quit"@
}

/// The step for an input whose trailing whitespace is already gone.
pub open spec fn step_for_input(input: Seq<char>) -> ReplStep {
    if is_quit_command(input) {
        ReplStep::Stop
    } else {
        ReplStep::Evaluated(evaluation(input))
    }
}

/// The step for an event of the loop.
pub open spec fn step_for_event(event: ReplEvent) -> ReplStep {
    match event {
        ReplEvent::Line(line) => step_for_input(trim_end_of(line@)),
        ReplEvent::ReadFailed => ReplStep::Stop,
    }
}

/// Decides on one trimmed input: a quit word stops, anything else is evaluated.
pub fn respond(input: &str) -> (s: ReplStep)
    ensures
        s == step_for_input(input@),
{
    let owned = input.to_owned();
    if owned == "exit".to_owned() || owned == "quit".to_owned() {
        ReplStep::Stop
    } else {
        ReplStep::Evaluated(run(input))
    }
}

/// Decides what the interactive loop does after one read.
pub fn repl_next(event: &ReplEvent) -> (s: ReplStep)
    ensures
        s == step_for_event(*event),
{
    match event {
        ReplEvent::Line(line) => respond(trim_end(line.as_str())),
        ReplEvent::ReadFailed => ReplStep::Stop,
    }
}

} // verus!
