use vstd::prelude::*;
use crate::env::{env_value, Environment};
use crate::text::{space_separated, split_spaces};

verus! {

/// A local program to run on each notification; the text of the notification
/// is passed as its last argument.
#[derive(Debug, Clone, PartialEq, Eq)]
pub struct Command {
    pub program: String,
    pub arguments: Vec<String>,
}

/// The value of a `Command` configuration.
pub struct CommandView {
    pub program: Seq<char>,
    pub arguments: Seq<Seq<char>>,
}

impl View for Command {
    type V = CommandView;

    open spec fn view(&self) -> CommandView {
        CommandView { program: self.program@, arguments: self.arguments.deep_view() }
    }
}

/// The command that an environment describes: `PLING_COMMAND_PROGRAM` is
/// needed; `PLING_COMMAND_ARGS` is split at its spaces, and no arguments are
/// given where it is unset.
pub open spec fn command_config(env: Seq<(Seq<char>, Seq<char>)>) -> Option<CommandView> {
    match env_value(env, "PLING_COMMAND_PROGRAM"@) {
        None => None,
        Some(program) => Some(
            CommandView {
                program,
                arguments: match env_value(env, "PLING_COMMAND_ARGS"@) {
                    Some(args) => space_separated(args),
                    None => seq![],
                },
            },
        ),
    }
}

/// Why running the command did not succeed.
#[derive(Debug, Clone, Copy, PartialEq, Eq, Structural)]
pub enum CommandError {
    /// The program ran and reported failure through its exit status.
    UnsuccessfulExit,
}

impl CommandError {
    /// A description of the error.
    pub fn message(self) -> &'static str {
        "Command exited unsuccessfully"
    }
}

/// The outcome of a run of the command, from whether its exit status
/// reported success.
pub fn exit_result(success: bool) -> (r: Result<(), CommandError>)
    ensures
        success ==> r is Ok,
        !success ==> r == Err::<(), CommandError>(CommandError::UnsuccessfulExit),
{
    if success {
        Ok(())
    } else {
        Err(CommandError::UnsuccessfulExit)
    }
}

impl Command {
    /// Loads the command from `PLING_COMMAND_PROGRAM` and
    /// `PLING_COMMAND_ARGS`; `None` where the program is unset.
    pub fn from_env(env: &Environment) -> (r: Option<Command>)
        ensures
            match command_config(env@) {
                Some(c) => r matches Some(t) && t@ == c,
                None => r is None,
            },
    {
        let program = match env.get("PLING_COMMAND_PROGRAM") {
            Some(p) => p,
            None => return None,
        };
        let arguments = match env.get("PLING_COMMAND_ARGS") {
            Some(args) => split_spaces(args.as_str()),
            None => {
                let v: Vec<String> = Vec::new();
                assert(v.deep_view() =~= Seq::<Seq<char>>::empty());
                v
            },
        };
        Some(Command { program, arguments })
    }

    /// The arguments that the program is run with to send `text`: the
    /// configured ones, then `text`.
    pub fn arguments_for(&self, text: &str) -> (r: Vec<String>)
        ensures
            r.deep_view() == self.arguments.deep_view().push(text@),
    {
        let mut r: Vec<String> = Vec::new();
        let mut i: usize = 0;
        while i < self.arguments.len()
            invariant
                i <= self.arguments@.len(),
                r.deep_view() == self.arguments.deep_view().take(i as int),
            decreases self.arguments@.len() - i,
        {
            let ghost before = r.deep_view();
            r.push(self.arguments[i].clone());
            assert(self.arguments.deep_view()[i as int] == self.arguments@[i as int]@);
            assert(r.deep_view() =~= before.push(self.arguments@[i as int]@));
            assert(r.deep_view() =~= self.arguments.deep_view().take(i + 1));
            i = i + 1;
        }
        let ghost before = r.deep_view();
        r.push(text.to_owned());
        assert(self.arguments.deep_view().take(i as int) =~= self.arguments.deep_view());
        assert(r.deep_view() =~= self.arguments.deep_view().push(text@));
        r
    }

    /// A copy of this command.
    pub fn duplicate(&self) -> (r: Command)
        ensures
            r@ == self@,
    {
        let mut arguments: Vec<String> = Vec::new();
        let mut i: usize = 0;
        while i < self.arguments.len()
            invariant
                i <= self.arguments@.len(),
                arguments.deep_view() == self.arguments.deep_view().take(i as int),
            decreases self.arguments@.len() - i,
        {
            let ghost before = arguments.deep_view();
            arguments.push(self.arguments[i].clone());
            assert(self.arguments.deep_view()[i as int] == self.arguments@[i as int]@);
            assert(arguments.deep_view() =~= before.push(self.arguments@[i as int]@));
            assert(arguments.deep_view() =~= self.arguments.deep_view().take(i + 1));
            i = i + 1;
        }
        assert(self.arguments.deep_view().take(i as int) =~= self.arguments.deep_view());
        Command { program: self.program.clone(), arguments }
    }
}

} // verus!
