use vstd::prelude::*;

verus! {

/// The three mutually exclusive modes of the front end.
#[derive(PartialEq, Eq, Structural, Clone, Copy, Debug)]
pub enum Mode {
    /// Too many arguments: show how to call the tool.
    Usage,
    /// One argument: read and evaluate that file.
    File,
    /// No argument: start the interactive loop.
    Repl,
}

/// The mode for a given number of arguments (program name excluded).
pub open spec fn mode_for(arg_count: nat) -> Mode {
    if arg_count > 1 {
        Mode::Usage
    } else if arg_count == 1 {
        Mode::File
    } else {
        Mode::Repl
    }
}

/// Picks the mode from the number of arguments alone.
pub fn select_mode(arg_count: usize) -> (m: Mode)
    ensures
        m == mode_for(arg_count as nat),
{
    if arg_count > 1 {
        Mode::Usage
    } else if arg_count == 1 {
        Mode::File
    } else {
        Mode::Repl
    }
}

/// Shows how to call the tool. Returns an error (or a code carried in it)
/// to ask the process to stop after the help text.
pub trait Usage {
    /// The outcomes that showing usage may end with. Any outcome unless an
    /// impl narrows it; `run` hands back one that meets it.
    open spec fn show_post(&self, r: Result<(), String>) -> bool {
        true
    }

    fn show(&self) -> (r: Result<(), String>)
        ensures
            self.show_post(r),
    ;
}

/// Reads the file at `file` and evaluates its contents.
pub trait FileExec {
    /// The outcomes that running the file at `file` may end with. Any
    /// outcome unless an impl narrows it; `run` hands back one that meets it.
    open spec fn exec_post(&self, file: Seq<char>, r: Result<(), String>) -> bool {
        true
    }

    fn exec(&self, file: &str) -> (r: Result<(), String>)
        ensures
            self.exec_post(file@, r),
    ;
}

/// Runs the interactive loop until the user leaves it.
pub trait Repl {
    /// The outcomes that an interactive session may end with. Any outcome
    /// unless an impl narrows it; `run` hands back one that meets it.
    open spec fn start_post(&self, r: Result<(), String>) -> bool {
        true
    }

    fn start(&self) -> (r: Result<(), String>)
        ensures
            self.start_post(r),
    ;
}

/// The front end's entry point: more than one argument shows usage, exactly
/// one runs that file, none starts the interactive loop. Exactly one
/// collaborator is called, and what it returns is returned as it is.
pub fn run(args: &[String], usage: &impl Usage, file_exec: &impl FileExec, repl: &impl Repl) -> (r:
    Result<(), String>)
    ensures
        mode_for(args@.len()) == Mode::Usage ==> usage.show_post(r),
        mode_for(args@.len()) == Mode::File ==> file_exec.exec_post(args@[0]@, r),
        mode_for(args@.len()) == Mode::Repl ==> repl.start_post(r),
{
    match select_mode(args.len()) {
        Mode::Usage => usage.show(),
        Mode::File => file_exec.exec(args[0].as_str()),
        Mode::Repl => repl.start(),
    }
}

/// Routing looks at the number of arguments and nothing else: two argument
/// lists of the same length, equal ones included, select the same mode, so
/// `run` calls the same collaborator for both, whatever they hold and
/// whatever the collaborators return.
pub proof fn lemma_mode_depends_on_count_only(a: Seq<String>, b: Seq<String>)
    requires
        a.len() == b.len(),
    ensures
        mode_for(a.len()) == mode_for(b.len()),
{
}

/// Outcomes pass through `run` untouched: where the collaborator that the
/// argument count selects can end with one outcome only (a given failure
/// message, or success), any result that `run` may return is that very
/// outcome, with nothing substituted, wrapped or cut.
pub proof fn lemma_fixed_outcome_passes_through<U: Usage, F: FileExec, R: Repl>(
    args: Seq<String>,
    usage: U,
    file_exec: F,
    repl: R,
    expected: Result<(), String>,
    r: Result<(), String>,
)
    requires
        mode_for(args.len()) == Mode::Usage ==> usage.show_post(r),
        mode_for(args.len()) == Mode::File ==> file_exec.exec_post(args[0]@, r),
        mode_for(args.len()) == Mode::Repl ==> repl.start_post(r),
        mode_for(args.len()) == Mode::Usage ==> forall|x: Result<(), String>|
            #[trigger] usage.show_post(x) ==> x == expected,
        mode_for(args.len()) == Mode::File ==> forall|x: Result<(), String>|
            #[trigger] file_exec.exec_post(args[0]@, x) ==> x == expected,
        mode_for(args.len()) == Mode::Repl ==> forall|x: Result<(), String>|
            #[trigger] repl.start_post(x) ==> x == expected,
    ensures
        r == expected,
{
}

/// Process exit status after a normal end.
pub const EXIT_OK: i32 = 0;

/// Process exit status after usage was shown or a mode failed (`EX_USAGE`).
pub const EXIT_USAGE: i32 = 64;

/// The process exit status for a dispatch outcome: success exits with 0, any
/// failure with the usage-error code.
pub fn exit_status(outcome: &Result<(), String>) -> (code: i32)
    ensures
        outcome is Ok ==> code == EXIT_OK,
        outcome is Err ==> code == EXIT_USAGE,
{
    match outcome {
        Ok(()) => EXIT_OK,
        Err(_) => EXIT_USAGE,
    }
}

} // verus!
