//! The finished command: program path, arguments and environment, and its
//! rendering as text.

use crate::traits::CommandToString;
use vstd::prelude::*;

verus! {

/// A command as plain values.
pub struct CommandView {
    /// The path of the executable.
    pub program: Seq<char>,
    /// The arguments, in order.
    pub args: Seq<Seq<char>>,
    /// The environment variables to set, as pairs of name and value.
    pub envs: Seq<(Seq<char>, Seq<char>)>,
}

/// A command ready to be run: the path of the executable, its arguments and
/// the environment variables to set for it.
#[derive(Debug)]
pub struct Command {
    program: String,
    args: Vec<String>,
    envs: Vec<(String, String)>,
}

impl View for Command {
    type V = CommandView;

    closed spec fn view(&self) -> CommandView {
        CommandView {
            program: self.program@,
            args: self.args.deep_view(),
            envs: self.envs.deep_view(),
        }
    }
}

/// The path of a program in a directory: the directory and the program name
/// with one `/` between them, unless the directory is empty or already ends
/// in `/`.  Without a directory it is the bare program name, which is then
/// looked up on the caller's search path.
pub open spec fn executable_path(dir: Option<Seq<char>>, program: Seq<char>) -> Seq<char> {
    match dir {
        None => program,
        Some(d) => if d.len() == 0 || d.last() == '/' {
            d + program
        } else {
            d + seq!['/'] + program
        },
    }
}

/// The command that a builder stands for.
pub open spec fn descriptor(
    dir: Option<Seq<char>>,
    program: Seq<char>,
    args: Seq<Seq<char>>,
    envs: Seq<(Seq<char>, Seq<char>)>,
) -> CommandView {
    CommandView { program: executable_path(dir, program), args, envs }
}

/// The path of `program` in `dir`.
pub fn program_file(dir: &Option<String>, program: &str) -> (path: String)
    ensures
        path@ == executable_path(dir.deep_view(), program@),
{
    match dir {
        None => program.to_owned(),
        Some(d) => {
            let n = d.as_str().unicode_len();
            let mut path = d.clone();
            if n > 0 && d.as_str().get_char(n - 1) != '/' {
                proof {
                    reveal_strlit("/");
                }
                path.append("/");
                assert(path@ =~= d@ + seq!['/']);
            }
            path.append(program);
            path
        },
    }
}

/// The pieces of a line joined by single spaces.
pub open spec fn spaced(pieces: Seq<Seq<char>>) -> Seq<char>
    decreases pieces.len(),
{
    if pieces.len() == 0 {
        Seq::empty()
    } else if pieces.len() == 1 {
        pieces[0]
    } else {
        spaced(pieces.drop_last()) + seq![' '] + pieces.last()
    }
}

/// An environment variable as it is written in front of a command.
pub open spec fn assignment(pair: (Seq<char>, Seq<char>)) -> Seq<char> {
    pair.0 + seq!['='] + pair.1
}

/// The line for a command whose parts are written as given: the assignments
/// first, then the program, then the arguments.
pub open spec fn command_line(
    envs: Seq<(Seq<char>, Seq<char>)>,
    program: Seq<char>,
    args: Seq<Seq<char>>,
) -> Seq<char> {
    spaced(envs.map_values(|pair: (Seq<char>, Seq<char>)| assignment(pair)) + seq![program] + args)
}

/// The text that Rust's `{:?}` formatting gives for a string: the string in
/// double quotes, with the characters that `str`'s `Debug` escapes escaped.
pub uninterp spec fn debug_quoted(text: Seq<char>) -> Seq<char>;

/// The line that a command renders to: its parts quoted, the names of the
/// environment variables left bare.
pub open spec fn rendered(command: CommandView) -> Seq<char> {
    command_line(
        command.envs.map_values(|pair: (Seq<char>, Seq<char>)| (pair.0, debug_quoted(pair.1))),
        debug_quoted(command.program),
        command.args.map_values(|arg: Seq<char>| debug_quoted(arg)),
    )
}

/// Formats a string with `format!("{:?}", ..)`, that is through `Debug` for
/// `str`.  Trusted: the result is a function of the string's characters
/// alone, which `debug_quoted` names; nothing else is claimed of it.
#[verifier::external_body]
fn quote(text: &str) -> (quoted: String)
    ensures
        quoted@ == debug_quoted(text@),
{
    format!("{:?}", text)
}

/// Joins the pieces of a line with single spaces.
pub fn join_spaced(pieces: &Vec<String>) -> (line: String)
    ensures
        line@ == spaced(pieces.deep_view()),
{
    let mut line = String::new();
    let mut i: usize = 0;
    proof {
        reveal_strlit(" ");
        assert(pieces.deep_view().take(0) =~= Seq::<Seq<char>>::empty());
    }
    while i < pieces.len()
        invariant
            0 <= i <= pieces.len(),
            line@ == spaced(pieces.deep_view().take(i as int)),
            " "@ == seq![' '],
        decreases pieces.len() - i,
    {
        let ghost before = pieces.deep_view().take(i as int);
        let ghost after = pieces.deep_view().take(i + 1);
        proof {
            assert(after.drop_last() =~= before);
            assert(after.last() == pieces[i as int]@);
        }
        if i > 0 {
            line.append(" ");
        }
        line.append(pieces[i].as_str());
        proof {
            if i == 0 {
                assert(line@ =~= pieces[0]@);
            }
        }
        i += 1;
    }
    proof {
        assert(pieces.deep_view().take(pieces.len() as int) =~= pieces.deep_view());
    }
    line
}

/// Writes a command line from parts that are already written as they are to
/// appear: `NAME=value` for each environment variable, then the program, then
/// each argument, with single spaces between them.
pub fn assemble(envs: &Vec<(String, String)>, program: &str, args: &Vec<String>) -> (line: String)
    ensures
        line@ == command_line(envs.deep_view(), program@, args.deep_view()),
{
    let ghost assignments = envs.deep_view().map_values(
        |pair: (Seq<char>, Seq<char>)| assignment(pair),
    );
    let mut pieces: Vec<String> = Vec::new();
    let mut i: usize = 0;
    proof {
        reveal_strlit("=");
    }
    while i < envs.len()
        invariant
            0 <= i <= envs.len(),
            assignments == envs.deep_view().map_values(
                |pair: (Seq<char>, Seq<char>)| assignment(pair),
            ),
            pieces.deep_view() == assignments.take(i as int),
            "="@ == seq!['='],
        decreases envs.len() - i,
    {
        let ghost before = pieces.deep_view();
        let mut piece = envs[i].0.clone();
        piece.append("=");
        piece.append(envs[i].1.as_str());
        pieces.push(piece);
        proof {
            assert(envs.deep_view()[i as int] == (envs[i as int].0@, envs[i as int].1@));
            assert(pieces.deep_view() =~= before.push(piece@));
            assert(before.push(piece@) =~= assignments.take(i + 1));
        }
        i += 1;
    }
    let ghost before = pieces.deep_view();
    pieces.push(program.to_owned());
    proof {
        assert(assignments.take(envs.len() as int) =~= assignments);
        assert(pieces.deep_view() =~= before.push(program@));
        assert(before.push(program@) =~= assignments + seq![program@]);
    }
    let ghost head = pieces.deep_view();
    let mut j: usize = 0;
    while j < args.len()
        invariant
            0 <= j <= args.len(),
            pieces.deep_view() == head + args.deep_view().take(j as int),
        decreases args.len() - j,
    {
        let ghost before = pieces.deep_view();
        pieces.push(args[j].clone());
        proof {
            assert(pieces.deep_view() =~= before.push(args[j as int]@));
            assert(before.push(args[j as int]@) =~= head + args.deep_view().take(j + 1));
        }
        j += 1;
    }
    proof {
        assert(args.deep_view().take(args.len() as int) =~= args.deep_view());
    }
    join_spaced(&pieces)
}

impl Command {
    /// A command from its parts.
    pub fn new(program: String, args: Vec<String>, envs: Vec<(String, String)>) -> (command: Self)
        ensures
            command@ == (CommandView {
                program: program@,
                args: args.deep_view(),
                envs: envs.deep_view(),
            }),
    {
        Command { program, args, envs }
    }

    /// The path of the executable.
    pub fn get_program(&self) -> (program: &str)
        ensures
            program@ == self@.program,
    {
        self.program.as_str()
    }

    /// The arguments, in order.
    pub fn get_args(&self) -> (args: &Vec<String>)
        ensures
            args.deep_view() == self@.args,
    {
        &self.args
    }

    /// The environment variables to set, in order.
    pub fn get_envs(&self) -> (envs: &Vec<(String, String)>)
        ensures
            envs.deep_view() == self@.envs,
    {
        &self.envs
    }
}

impl CommandToString for Command {
    open spec fn command_string(&self) -> Seq<char> {
        rendered(self@)
    }

    fn to_command_string(&self) -> (line: String) {
        let ghost quoted_envs = self@.envs.map_values(
            |pair: (Seq<char>, Seq<char>)| (pair.0, debug_quoted(pair.1)),
        );
        let ghost quoted_args = self@.args.map_values(|arg: Seq<char>| debug_quoted(arg));
        let mut envs: Vec<(String, String)> = Vec::new();
        let mut i: usize = 0;
        while i < self.envs.len()
            invariant
                0 <= i <= self.envs.len(),
                quoted_envs == self@.envs.map_values(
                    |pair: (Seq<char>, Seq<char>)| (pair.0, debug_quoted(pair.1)),
                ),
                envs.deep_view() == quoted_envs.take(i as int),
            decreases self.envs.len() - i,
        {
            let ghost before = envs.deep_view();
            let name = self.envs[i].0.clone();
            let value = quote(self.envs[i].1.as_str());
            envs.push((name, value));
            proof {
                assert(self@.envs[i as int] == (self.envs[i as int].0@, self.envs[i as int].1@));
                assert(envs.deep_view() =~= before.push((name@, value@)));
                assert(before.push((name@, value@)) =~= quoted_envs.take(i + 1));
            }
            i += 1;
        }
        let program = quote(self.program.as_str());
        let mut args: Vec<String> = Vec::new();
        let mut j: usize = 0;
        while j < self.args.len()
            invariant
                0 <= j <= self.args.len(),
                quoted_args == self@.args.map_values(|arg: Seq<char>| debug_quoted(arg)),
                args.deep_view() == quoted_args.take(j as int),
            decreases self.args.len() - j,
        {
            let ghost before = args.deep_view();
            let quoted = quote(self.args[j].as_str());
            args.push(quoted);
            proof {
                assert(args.deep_view() =~= before.push(debug_quoted(self.args[j as int]@)));
                assert(before.push(debug_quoted(self.args[j as int]@)) =~= quoted_args.take(
                    j + 1,
                ));
            }
            j += 1;
        }
        proof {
            assert(quoted_envs.take(self.envs.len() as int) =~= quoted_envs);
            assert(quoted_args.take(self.args.len() as int) =~= quoted_args);
        }
        assemble(&envs, program.as_str(), &args)
    }
}

} // verus!
