//! Command lines as plain values: a program and its arguments.
//!
//! A [`Command`] only records what is to be run, so that it can be inspected,
//! logged or dry-run; starting the process is the caller's part. How the
//! process ended comes back as an [`Exit`], and what went wrong is told by a
//! [`CommandError`].

use vstd::prelude::*;
use vstd::string::*;
use crate::text::{signed_decimal, signed_decimal_string};

verus! {

/// A program and the arguments to run it with.
#[derive(Debug)]
pub struct Command<'a> {
    /// The program to run.
    program: &'a str,
    /// The arguments to give it, in order.
    args: Vec<String>,
}

/// What a [`Command`] stands for.
pub struct CommandView {
    pub program: Seq<char>,
    pub args: Seq<Seq<char>>,
}

impl<'a> View for Command<'a> {
    type V = CommandView;

    closed spec fn view(&self) -> CommandView {
        CommandView { program: self.program@, args: self.args.deep_view() }
    }
}

impl<'a> Command<'a> {
    /// A command that runs `program` without arguments.
    pub fn new(program: &'a str) -> (r: Command<'a>)
        ensures
            r@ == (CommandView { program: program@, args: Seq::<Seq<char>>::empty() }),
    {
        let r = Command { program, args: Vec::new() };
        assert(r.args.deep_view() =~= Seq::<Seq<char>>::empty());
        r
    }

    /// Adds one argument at the end of the argument list.
    pub fn arg(&mut self, arg: &str) -> (r: &mut Self)
        ensures
            r@ == (CommandView { program: old(self)@.program, args: old(self)@.args.push(arg@) }),
            *final(self) == *final(r),
    {
        self.args.push(arg.to_owned());
        assert(self.args.deep_view() =~= old(self).args.deep_view().push(arg@));
        self
    }

    /// Adds arguments at the end of the argument list, in their order.
    pub fn args(&mut self, args: &Vec<String>) -> (r: &mut Self)
        ensures
            r@ == (CommandView {
                program: old(self)@.program,
                args: old(self)@.args + args.deep_view(),
            }),
            *final(self) == *final(r),
    {
        let ghost before = self.args.deep_view();
        let ghost added = args.deep_view();
        let mut i: usize = 0;
        assert(before + added.take(0) =~= before);
        while i < args.len()
            invariant
                i <= args.len(),
                added == args.deep_view(),
                self.program == old(self).program,
                self.args.deep_view() == before + added.take(i as int),
            decreases args.len() - i,
        {
            let ghost so_far = self.args.deep_view();
            self.args.push(args[i].clone());
            i += 1;
            assert(self.args.deep_view() =~= so_far.push(added[i - 1]));
            assert(added.take(i as int) =~= added.take(i - 1).push(added[i - 1]));
            assert(self.args.deep_view() =~= before + added.take(i as int));
        }
        assert(added.take(i as int) =~= added);
        self
    }

    /// The program to run.
    pub fn program(&self) -> (r: &'a str)
        ensures
            r@ == self@.program,
    {
        self.program
    }

    /// The arguments, in order.
    pub fn arguments(&self) -> (r: &Vec<String>)
        ensures
            r.deep_view() == self@.args,
    {
        &self.args
    }
}

/// How a process ended: with an exit code, or killed by a signal.
#[derive(Clone, Copy, Debug, PartialEq, Eq)]
pub struct Exit {
    /// The exit code, if the process ended by itself.
    pub code: Option<i32>,
    /// The signal that ended the process, if one did.
    pub signal: Option<i32>,
}

impl Exit {
    /// The process ended by itself, with exit code 0.
    pub open spec fn succeeded(self) -> bool {
        self.code == Some(0i32)
    }

    /// Why the process counts as failed, in words.
    pub open spec fn reason(self) -> Seq<char> {
        match self.code {
            Some(code) => "non-zero exit code "@ + signed_decimal(code as int),
            None => match self.signal {
                Some(signal) => "killed by signal "@ + signed_decimal(signal as int),
                None => "unknown reason"@,
            },
        }
    }

    /// Whether the process ended by itself, with exit code 0.
    pub fn success(&self) -> (r: bool)
        ensures
            r == self.succeeded(),
    {
        match self.code {
            Some(code) => code == 0,
            None => false,
        }
    }
}

/// How running a command failed.
#[derive(Debug)]
pub enum CommandError {
    /// The process could not be run at all.
    Io {
        /// What the system said.
        source: String,
        /// The command that failed.
        command: String,
    },
    /// The process ended with an exit code other than 0, or was killed by a
    /// signal.
    BadExit {
        /// The command that failed.
        command: String,
        /// How it ended.
        exit: Exit,
    },
    /// What the process printed is not valid UTF-8.
    Utf8 {
        /// What the decoder said.
        source: String,
    },
}

/// What a [`CommandError`] stands for.
pub enum CommandErrorView {
    Io { source: Seq<char>, command: Seq<char> },
    BadExit { command: Seq<char>, exit: Exit },
    Utf8 { source: Seq<char> },
}

impl View for CommandError {
    type V = CommandErrorView;

    open spec fn view(&self) -> CommandErrorView {
        match self {
            CommandError::Io { source, command } => CommandErrorView::Io {
                source: source@,
                command: command@,
            },
            CommandError::BadExit { command, exit } => CommandErrorView::BadExit {
                command: command@,
                exit: *exit,
            },
            CommandError::Utf8 { source } => CommandErrorView::Utf8 { source: source@ },
        }
    }
}

impl CommandErrorView {
    /// The text shown to the user for this error.
    pub open spec fn message(self) -> Seq<char> {
        match self {
            CommandErrorView::Io { source, command } => "Failed to run "@ + command + ": "@
                + source,
            CommandErrorView::BadExit { command, exit } => command + " exited unsuccessfully: "@
                + exit.reason(),
            CommandErrorView::Utf8 { source } => "UTF-8 error: "@ + source,
        }
    }
}

/// Says in words why a process that did not succeed counts as failed: by its
/// exit code, else by the signal that killed it.
pub fn exit_status_reason(status: Exit) -> (r: String)
    ensures
        r@ == status.reason(),
{
    match status.code {
        Some(code) => {
            let mut r = String::from_str("non-zero exit code ");
            let number = signed_decimal_string(code);
            r.append(number.as_str());
            r
        },
        None => match status.signal {
            Some(signal) => {
                let mut r = String::from_str("killed by signal ");
                let number = signed_decimal_string(signal);
                r.append(number.as_str());
                r
            },
            None => String::from_str("unknown reason"),
        },
    }
}

/// Turns the way a process ended into a result: the exit itself where the
/// process succeeded, else a [`CommandError::BadExit`] that names `command`.
pub fn status_result(status: Exit, command: &str) -> (r: Result<Exit, CommandError>)
    ensures
        status.succeeded() ==> (r matches Ok(exit) && exit == status),
        !status.succeeded() ==> (r matches Err(e) && e@ == (CommandErrorView::BadExit {
            command: command@,
            exit: status,
        })),
{
    if status.success() {
        Ok(status)
    } else {
        Err(CommandError::BadExit { command: String::from_str(command), exit: status })
    }
}

impl CommandError {
    /// Renders the error for the user.
    pub fn message(&self) -> (r: String)
        ensures
            r@ == self@.message(),
    {
        match self {
            CommandError::Io { source, command } => {
                let mut r = String::from_str("Failed to run ");
                r.append(command.as_str());
                r.append(": ");
                r.append(source.as_str());
                r
            },
            CommandError::BadExit { command, exit } => {
                let mut r = command.clone();
                r.append(" exited unsuccessfully: ");
                let reason = exit_status_reason(*exit);
                r.append(reason.as_str());
                r
            },
            CommandError::Utf8 { source } => {
                let mut r = String::from_str("UTF-8 error: ");
                r.append(source.as_str());
                r
            },
        }
    }
}

} // verus!
