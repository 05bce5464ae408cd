//! What every command builder offers, and what builders read their defaults
//! from.

use crate::command::{descriptor, Command};
use vstd::prelude::*;

verus! {

/// A source of connection and installation defaults.
///
/// Nothing is assumed of an implementation: a builder that is seeded from
/// settings holds whatever the five accessors returned, see [`supplies`].
pub trait Settings {
    /// The directory that holds the program binaries.
    fn get_binary_dir(&self) -> String;

    /// The database server host or socket directory.
    fn get_host(&self) -> String;

    /// The database server port.
    fn get_port(&self) -> u16;

    /// The user name to connect as.
    fn get_username(&self) -> String;

    /// The password of that user.
    fn get_password(&self) -> String;
}

/// The settings may return these five values: each is a possible result of
/// its accessor, called on `settings`.
pub open spec fn supplies<S: Settings + ?Sized>(
    settings: &S,
    binary_dir: String,
    host: String,
    port: u16,
    username: String,
    password: String,
) -> bool {
    &&& call_ensures(S::get_binary_dir, (settings,), binary_dir)
    &&& call_ensures(S::get_host, (settings,), host)
    &&& call_ensures(S::get_port, (settings,), port)
    &&& call_ensures(S::get_username, (settings,), username)
    &&& call_ensures(S::get_password, (settings,), password)
}

/// The surface that an executor needs of a builder: which program, where it
/// lives, its arguments and the environment to run it in.
pub trait CommandBuilder: Sized {
    /// The fixed name of the program.
    spec fn spec_program(&self) -> Seq<char>;

    /// The directory of the program binary, if one was configured.
    spec fn spec_program_dir(&self) -> Option<Seq<char>>;

    /// The argument list that the current configuration stands for.
    spec fn spec_args(&self) -> Seq<Seq<char>>;

    /// The environment variables to set or override for the program.
    spec fn spec_envs(&self) -> Seq<(Seq<char>, Seq<char>)>;

    /// Get the program name
    fn get_program(&self) -> (program: &'static str)
        ensures
            program@ == self.spec_program(),
    ;

    /// Location of the program binary
    fn get_program_dir(&self) -> (dir: &Option<String>)
        ensures
            dir.deep_view() == self.spec_program_dir(),
    ;

    /// Get the arguments for the command
    fn get_args(&self) -> (args: Vec<String>)
        ensures
            args.deep_view() == self.spec_args(),
    ;

    /// Get the environment variables for the command
    fn get_envs(&self) -> (envs: Vec<(String, String)>)
        ensures
            envs.deep_view() == self.spec_envs(),
    ;

    /// Build the command: the path of the program, its arguments and its
    /// environment, as configured.
    fn build(self) -> (command: Command)
        ensures
            command@ == descriptor(
                self.spec_program_dir(),
                self.spec_program(),
                self.spec_args(),
                self.spec_envs(),
            ),
    {
        let program = crate::command::program_file(self.get_program_dir(), self.get_program());
        let args = self.get_args();
        let envs = self.get_envs();
        Command::new(program, args, envs)
    }
}

/// Building is repeatable: the command is a function of what the builder
/// holds, so building the same configuration twice gives two commands that
/// agree in every character of program, arguments and environment, and
/// render to the same line.
pub proof fn lemma_build_is_repeatable<B: CommandBuilder>(
    builder: B,
    first: Command,
    second: Command,
)
    requires
        first@ == descriptor(
            builder.spec_program_dir(),
            builder.spec_program(),
            builder.spec_args(),
            builder.spec_envs(),
        ),
        second@ == descriptor(
            builder.spec_program_dir(),
            builder.spec_program(),
            builder.spec_args(),
            builder.spec_envs(),
        ),
    ensures
        first@ == second@,
        first.command_string() == second.command_string(),
{
}

/// Rendering of a command as one line of text, for logs and tests.
pub trait CommandToString {
    /// The line that the command renders to.
    spec fn command_string(&self) -> Seq<char>;

    /// Renders the command: each environment variable as `NAME="value"`, then
    /// the program and each argument in quotes, separated by single spaces.
    fn to_command_string(&self) -> (line: String)
        ensures
            line@ == self.command_string(),
    ;
}

} // verus!
