//! Builder for `vacuumlo`, which removes unreferenced large objects from
//! databases.

use crate::argument::{emitted, names_distinct, no_value_reads, position, Argument, ArgumentList};
use crate::argument::{lemma_flag_contributes_name, lemma_name_occurs_once, lemma_nothing_set};
use crate::argument::{lemma_unset_contributes_nothing, lemma_value_contributes_pair};
use crate::command::executable_path;
use crate::decimal::{decimal_text, u16_number, u16_text, usize_number, usize_text};
use crate::traits::{supplies, CommandBuilder, Settings};
use vstd::prelude::*;

verus! {

/// The configuration of a [`VacuumLoBuilder`] as plain values.
pub struct VacuumLoView {
    pub program_dir: Option<Seq<char>>,
    pub limit: Option<nat>,
    pub dry_run: bool,
    pub verbose: bool,
    pub version: bool,
    pub help: bool,
    pub host: Option<Seq<char>>,
    pub port: Option<nat>,
    pub username: Option<Seq<char>>,
    pub no_password: bool,
    pub password: bool,
    pub pg_password: Option<Seq<char>>,
}

impl VacuumLoView {
    /// The configuration in which nothing is set.
    pub open spec fn empty() -> Self {
        VacuumLoView {
            program_dir: None,
            limit: None,
            dry_run: false,
            verbose: false,
            version: false,
            help: false,
            host: None,
            port: None,
            username: None,
            no_password: false,
            password: false,
            pg_password: None,
        }
    }

    /// The options of `vacuumlo` with their settings, in the order in which
    /// they are emitted.  Opaque, so that only the proofs that look into the
    /// table carry its entries.
    #[verifier::opaque]
    pub open spec fn table(self) -> Seq<Argument> {
        Seq::empty()
            .push(Argument::Value { name: "--limit"@, value: decimal_text(self.limit) })
            .push(Argument::Flag { name: "--dry-run"@, on: self.dry_run })
            .push(Argument::Flag { name: "--verbose"@, on: self.verbose })
            .push(Argument::Flag { name: "--version"@, on: self.version })
            .push(Argument::Flag { name: "--help"@, on: self.help })
            .push(Argument::Value { name: "--host"@, value: self.host })
            .push(Argument::Value { name: "--port"@, value: decimal_text(self.port) })
            .push(Argument::Value { name: "--username"@, value: self.username })
            .push(Argument::Flag { name: "--no-password"@, on: self.no_password })
            .push(Argument::Flag { name: "--password"@, on: self.password })
    }

    /// The argument list.  The password is no part of it.
    pub open spec fn arguments(self) -> Seq<Seq<char>> {
        emitted(self.table())
    }

    /// The environment: `PGPASSWORD` with the password, if one is set, and
    /// nothing else.
    pub open spec fn environment(self) -> Seq<(Seq<char>, Seq<char>)> {
        match self.pg_password {
            Some(password) => seq![("PGPASSWORD"@, password)],
            None => Seq::empty(),
        }
    }
}

/// vacuumlo removes unreferenced large objects from databases.
#[derive(Debug)]
pub struct VacuumLoBuilder {
    program_dir: Option<String>,
    limit: Option<usize>,
    dry_run: bool,
    verbose: bool,
    version: bool,
    help: bool,
    host: Option<String>,
    port: Option<u16>,
    username: Option<String>,
    no_password: bool,
    password: bool,
    pg_password: Option<String>,
}

impl View for VacuumLoBuilder {
    type V = VacuumLoView;

    closed spec fn view(&self) -> VacuumLoView {
        VacuumLoView {
            program_dir: self.program_dir.deep_view(),
            limit: usize_number(self.limit),
            dry_run: self.dry_run,
            verbose: self.verbose,
            version: self.version,
            help: self.help,
            host: self.host.deep_view(),
            port: u16_number(self.port),
            username: self.username.deep_view(),
            no_password: self.no_password,
            password: self.password,
            pg_password: self.pg_password.deep_view(),
        }
    }
}

impl Default for VacuumLoBuilder {
    fn default() -> (builder: Self)
        ensures
            builder@ == VacuumLoView::empty(),
    {
        VacuumLoBuilder {
            program_dir: None,
            limit: None,
            dry_run: false,
            verbose: false,
            version: false,
            help: false,
            host: None,
            port: None,
            username: None,
            no_password: false,
            password: false,
            pg_password: None,
        }
    }
}

impl Clone for VacuumLoBuilder {
    fn clone(&self) -> (copy: Self)
        ensures
            copy@ == self@,
    {
        VacuumLoBuilder {
            program_dir: crate::argument::clone_text(&self.program_dir),
            limit: self.limit,
            dry_run: self.dry_run,
            verbose: self.verbose,
            version: self.version,
            help: self.help,
            host: crate::argument::clone_text(&self.host),
            port: self.port,
            username: crate::argument::clone_text(&self.username),
            no_password: self.no_password,
            password: self.password,
            pg_password: crate::argument::clone_text(&self.pg_password),
        }
    }
}

impl VacuumLoBuilder {
    /// Create a new [`VacuumLoBuilder`]
    pub fn new() -> (builder: Self)
        ensures
            builder@ == VacuumLoView::empty(),
    {
        Self::default()
    }

    /// Create a new [`VacuumLoBuilder`] from [`Settings`]: the program
    /// directory, host, port, user name and password are set to what the
    /// settings return, and nothing else is set.
    pub fn from<S: Settings + ?Sized>(settings: &S) -> (builder: Self)
        ensures
            exists|dir: String, host: String, port: u16, username: String, password: String|
                #[trigger] supplies(settings, dir, host, port, username, password) && builder@ == (
                VacuumLoView {
                    program_dir: Some(dir@),
                    host: Some(host@),
                    port: Some(port as nat),
                    username: Some(username@),
                    pg_password: Some(password@),
                    ..VacuumLoView::empty()
                }),
    {
        let program_dir = settings.get_binary_dir();
        let host = settings.get_host();
        let port = settings.get_port();
        let username = settings.get_username();
        let password = settings.get_password();
        assert(supplies(settings, program_dir, host, port, username, password));
        Self::from_values(
            program_dir.as_str(),
            host.as_str(),
            port,
            username.as_str(),
            password.as_str(),
        )
    }

    /// Create a new [`VacuumLoBuilder`] with the program directory and the
    /// connection parameters given, and nothing else set.
    pub fn from_values(
        program_dir: &str,
        host: &str,
        port: u16,
        username: &str,
        password: &str,
    ) -> (builder: Self)
        ensures
            builder@ == (VacuumLoView {
                program_dir: Some(program_dir@),
                host: Some(host@),
                port: Some(port as nat),
                username: Some(username@),
                pg_password: Some(password@),
                ..VacuumLoView::empty()
            }),
    {
        Self::new().program_dir(program_dir).host(host).port(port).username(username).pg_password(
            password,
        )
    }

    /// Location of the program binary
    pub fn program_dir(self, path: &str) -> (builder: Self)
        ensures
            builder@ == (VacuumLoView { program_dir: Some(path@), ..self@ }),
    {
        let mut builder = self;
        builder.program_dir = Some(path.to_owned());
        builder
    }

    /// commit after removing each LIMIT large objects
    pub fn limit(self, limit: usize) -> (builder: Self)
        ensures
            builder@ == (VacuumLoView { limit: Some(limit as nat), ..self@ }),
    {
        let mut builder = self;
        builder.limit = Some(limit);
        builder
    }

    /// don't remove large objects, just show what would be done
    pub fn dry_run(self) -> (builder: Self)
        ensures
            builder@ == (VacuumLoView { dry_run: true, ..self@ }),
    {
        let mut builder = self;
        builder.dry_run = true;
        builder
    }

    /// write a lot of progress messages
    pub fn verbose(self) -> (builder: Self)
        ensures
            builder@ == (VacuumLoView { verbose: true, ..self@ }),
    {
        let mut builder = self;
        builder.verbose = true;
        builder
    }

    /// output version information, then exit
    pub fn version(self) -> (builder: Self)
        ensures
            builder@ == (VacuumLoView { version: true, ..self@ }),
    {
        let mut builder = self;
        builder.version = true;
        builder
    }

    /// show help, then exit
    pub fn help(self) -> (builder: Self)
        ensures
            builder@ == (VacuumLoView { help: true, ..self@ }),
    {
        let mut builder = self;
        builder.help = true;
        builder
    }

    /// database server host or socket directory
    pub fn host(self, host: &str) -> (builder: Self)
        ensures
            builder@ == (VacuumLoView { host: Some(host@), ..self@ }),
    {
        let mut builder = self;
        builder.host = Some(host.to_owned());
        builder
    }

    /// database server port
    pub fn port(self, port: u16) -> (builder: Self)
        ensures
            builder@ == (VacuumLoView { port: Some(port as nat), ..self@ }),
    {
        let mut builder = self;
        builder.port = Some(port);
        builder
    }

    /// user name to connect as
    pub fn username(self, username: &str) -> (builder: Self)
        ensures
            builder@ == (VacuumLoView { username: Some(username@), ..self@ }),
    {
        let mut builder = self;
        builder.username = Some(username.to_owned());
        builder
    }

    /// never prompt for password
    pub fn no_password(self) -> (builder: Self)
        ensures
            builder@ == (VacuumLoView { no_password: true, ..self@ }),
    {
        let mut builder = self;
        builder.no_password = true;
        builder
    }

    /// force password prompt
    pub fn password(self) -> (builder: Self)
        ensures
            builder@ == (VacuumLoView { password: true, ..self@ }),
    {
        let mut builder = self;
        builder.password = true;
        builder
    }

    /// user password
    pub fn pg_password(self, pg_password: &str) -> (builder: Self)
        ensures
            builder@ == (VacuumLoView { pg_password: Some(pg_password@), ..self@ }),
    {
        let mut builder = self;
        builder.pg_password = Some(pg_password.to_owned());
        builder
    }
}

impl CommandBuilder for VacuumLoBuilder {
    open spec fn spec_program(&self) -> Seq<char> {
        "vacuumlo"@
    }

    open spec fn spec_program_dir(&self) -> Option<Seq<char>> {
        self@.program_dir
    }

    open spec fn spec_args(&self) -> Seq<Seq<char>> {
        self@.arguments()
    }

    open spec fn spec_envs(&self) -> Seq<(Seq<char>, Seq<char>)> {
        self@.environment()
    }

    /// Get the program name
    fn get_program(&self) -> (program: &'static str) {
        "vacuumlo"
    }

    /// Location of the program binary
    fn get_program_dir(&self) -> (dir: &Option<String>) {
        &self.program_dir
    }

    /// Get the arguments for the command
    fn get_args(&self) -> (args: Vec<String>) {
        let limit = usize_text(self.limit);
        let port = u16_text(self.port);
        let list = ArgumentList::new()
            .value("--limit", &limit)
            .flag("--dry-run", self.dry_run)
            .flag("--verbose", self.verbose)
            .flag("--version", self.version)
            .flag("--help", self.help)
            .value("--host", &self.host)
            .value("--port", &port)
            .value("--username", &self.username)
            .flag("--no-password", self.no_password)
            .flag("--password", self.password);
        proof {
            reveal(VacuumLoView::table);
        }
        list.into_tokens()
    }

    /// Get the environment variables for the command
    fn get_envs(&self) -> (envs: Vec<(String, String)>) {
        let mut envs: Vec<(String, String)> = Vec::new();
        if let Some(password) = &self.pg_password {
            envs.push(("PGPASSWORD".to_owned(), password.clone()));
            assert(envs.deep_view() =~= seq![("PGPASSWORD"@, password@)]);
        } else {
            assert(envs.deep_view() =~= Seq::empty());
        }
        envs
    }
}

/// The option names of `vacuumlo` differ from one another.
pub proof fn lemma_names_distinct(config: VacuumLoView)
    ensures
        config.table().len() == 10,
        names_distinct(config.table()),
{
    reveal_strlit("--limit");
    reveal_strlit("--dry-run");
    reveal_strlit("--verbose");
    reveal_strlit("--version");
    reveal_strlit("--help");
    reveal_strlit("--host");
    reveal_strlit("--port");
    reveal_strlit("--username");
    reveal_strlit("--no-password");
    reveal_strlit("--password");
    reveal(VacuumLoView::table);
    let table = config.table();
    assert forall|i: int, j: int|
        0 <= i < table.len() && 0 <= j < table.len() && i != j implies #[trigger] table[i].name()
        != #[trigger] table[j].name() by {
        // Two names of one length differ in one of these characters.
        let a = table[i].name();
        let b = table[j].name();
        assert(a.len() != b.len() || a[4] != b[4] || a[5] != b[5]);
    }
}

/// A builder on which nothing was configured yields no arguments and no
/// environment, and the bare program name as the path of the executable.
pub proof fn lemma_unconfigured_is_bare()
    ensures
        VacuumLoView::empty().arguments() == Seq::<Seq<char>>::empty(),
        VacuumLoView::empty().environment() == Seq::<(Seq<char>, Seq<char>)>::empty(),
        executable_path(VacuumLoView::empty().program_dir, "vacuumlo"@) == "vacuumlo"@,
{
    reveal(VacuumLoView::table);
    lemma_nothing_set(VacuumLoView::empty().table());
}

/// A presence flag that is on shows in the argument list as exactly one
/// token, its name, at the position that the options before it determine:
/// what else is configured, and in which order the configuration was made,
/// does not matter.  The name stands nowhere else in the list, unless a
/// configured value reads like it.
pub proof fn lemma_flag_in_place(config: VacuumLoView, i: int)
    requires
        0 <= i < config.table().len(),
        config.table()[i] is Flag,
        config.table()[i].is_set(),
    ensures
        config.arguments() == emitted(config.table().take(i)) + seq![config.table()[i].name()]
            + emitted(config.table().skip(i + 1)),
        config.arguments()[position(config.table(), i)] == config.table()[i].name(),
        no_value_reads(config.table(), config.table()[i].name()) ==> forall|k: int|
            0 <= k < config.arguments().len() ==> (#[trigger] config.arguments()[k]
                == config.table()[i].name() <==> k == position(config.table(), i)),
{
    lemma_flag_contributes_name(config.table(), i);
    if no_value_reads(config.table(), config.table()[i].name()) {
        lemma_names_distinct(config);
        lemma_name_occurs_once(config.table(), i);
    }
}

/// A value flag that is set shows in the argument list as exactly two
/// adjacent tokens, its name and then its value, at the position that the
/// options before it determine.  The name stands nowhere else in the list,
/// unless a configured value reads like it.
pub proof fn lemma_value_in_place(config: VacuumLoView, i: int)
    requires
        0 <= i < config.table().len(),
        config.table()[i] matches Argument::Value { value: Some(_), .. },
    ensures
        config.arguments() == emitted(config.table().take(i)) + seq![
            config.table()[i].name(),
            config.table()[i]->value->0,
        ] + emitted(config.table().skip(i + 1)),
        config.arguments()[position(config.table(), i)] == config.table()[i].name(),
        config.arguments()[position(config.table(), i) + 1] == config.table()[i]->value->0,
        no_value_reads(config.table(), config.table()[i].name()) ==> forall|k: int|
            0 <= k < config.arguments().len() ==> (#[trigger] config.arguments()[k]
                == config.table()[i].name() <==> k == position(config.table(), i)),
{
    lemma_value_contributes_pair(config.table(), i);
    if no_value_reads(config.table(), config.table()[i].name()) {
        lemma_names_distinct(config);
        lemma_name_occurs_once(config.table(), i);
    }
}

/// An option that is not set contributes no token: the argument list is that
/// of the options before it followed by that of the options after it.
pub proof fn lemma_unset_is_absent(config: VacuumLoView, i: int)
    requires
        0 <= i < config.table().len(),
        !config.table()[i].is_set(),
    ensures
        config.arguments() == emitted(config.table().take(i)) + emitted(
            config.table().skip(i + 1),
        ),
{
    lemma_unset_contributes_nothing(config.table(), i);
}

/// The password never reaches the argument list: configuring one leaves the
/// arguments as they were, and makes the environment hold `PGPASSWORD` with
/// exactly that password, and nothing else.
pub proof fn lemma_password_goes_to_environment(config: VacuumLoView, password: Seq<char>)
    ensures
        (VacuumLoView { pg_password: Some(password), ..config }).arguments() == config.arguments(),
        (VacuumLoView { pg_password: Some(password), ..config }).environment() == seq![
            ("PGPASSWORD"@, password),
        ],
{
    reveal(VacuumLoView::table);
}

} // verus!
