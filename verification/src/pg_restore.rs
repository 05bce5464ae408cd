//! Builder for `pg_restore`, which restores a PostgreSQL database from an
//! archive created by `pg_dump`.

use crate::argument::{emitted, names_distinct, no_value_reads, position};
use crate::argument::{lemma_flag_contributes_name, lemma_name_occurs_once, lemma_nothing_set};
use crate::argument::{lemma_unset_contributes_nothing, lemma_value_contributes_pair};
use crate::argument::{clone_text, Argument, ArgumentList};
use crate::command::executable_path;
use crate::decimal::{decimal_text, u16_number, u16_text};
use crate::traits::CommandBuilder;
use vstd::prelude::*;

verus! {

/// The configuration of a [`PgRestoreBuilder`] as plain values.
pub struct PgRestoreView {
    pub program_dir: Option<Seq<char>>,
    pub dbname: Option<Seq<char>>,
    pub file: Option<Seq<char>>,
    pub format: Option<Seq<char>>,
    pub list: bool,
    pub verbose: bool,
    pub version: bool,
    pub help: bool,
    pub data_only: bool,
    pub clean: bool,
    pub create: bool,
    pub exit_on_error: bool,
    pub index: Option<Seq<char>>,
    pub jobs: Option<Seq<char>>,
    pub use_list: Option<Seq<char>>,
    pub schema: Option<Seq<char>>,
    pub exclude_schema: Option<Seq<char>>,
    pub no_owner: bool,
    pub function: Option<Seq<char>>,
    pub schema_only: bool,
    pub superuser: Option<Seq<char>>,
    pub table: Option<Seq<char>>,
    pub trigger: Option<Seq<char>>,
    pub no_privileges: bool,
    pub single_transaction: bool,
    pub disable_triggers: bool,
    pub enable_row_security: bool,
    pub if_exists: bool,
    pub no_comments: bool,
    pub no_data_for_failed_tables: bool,
    pub no_publications: bool,
    pub no_security_labels: bool,
    pub no_subscriptions: bool,
    pub no_table_access_method: bool,
    pub no_tablespaces: bool,
    pub section: Option<Seq<char>>,
    pub strict_names: bool,
    pub use_set_session_authorization: bool,
    pub host: Option<Seq<char>>,
    pub port: Option<nat>,
    pub username: Option<Seq<char>>,
    pub no_password: bool,
    pub password: bool,
    pub role: Option<Seq<char>>,
    pub pg_password: Option<Seq<char>>,
}

impl PgRestoreView {
    /// The configuration in which nothing is set.
    pub open spec fn empty() -> Self {
        PgRestoreView {
            program_dir: None,
            dbname: None,
            file: None,
            format: None,
            list: false,
            verbose: false,
            version: false,
            help: false,
            data_only: false,
            clean: false,
            create: false,
            exit_on_error: false,
            index: None,
            jobs: None,
            use_list: None,
            schema: None,
            exclude_schema: None,
            no_owner: false,
            function: None,
            schema_only: false,
            superuser: None,
            table: None,
            trigger: None,
            no_privileges: false,
            single_transaction: false,
            disable_triggers: false,
            enable_row_security: false,
            if_exists: false,
            no_comments: false,
            no_data_for_failed_tables: false,
            no_publications: false,
            no_security_labels: false,
            no_subscriptions: false,
            no_table_access_method: false,
            no_tablespaces: false,
            section: None,
            strict_names: false,
            use_set_session_authorization: false,
            host: None,
            port: None,
            username: None,
            no_password: false,
            password: false,
            role: None,
            pg_password: None,
        }
    }

    /// The options of `pg_restore` with their settings, in the order in which
    /// they are emitted.  Opaque, so that only the proofs that look into the
    /// table carry its entries: they are those of [`Self::listing`].
    #[verifier::opaque]
    pub open spec fn table(self) -> Seq<Argument> {
        self.listing()
    }

    /// The entries of the table.
    #[verifier::inline]
    pub open spec fn listing(self) -> Seq<Argument> {
        Seq::empty()
            .push(Argument::Value { name: "--dbname"@, value: self.dbname })
            .push(Argument::Value { name: "--file"@, value: self.file })
            .push(Argument::Value { name: "--format"@, value: self.format })
            .push(Argument::Flag { name: "--list"@, on: self.list })
            .push(Argument::Flag { name: "--verbose"@, on: self.verbose })
            .push(Argument::Flag { name: "--version"@, on: self.version })
            .push(Argument::Flag { name: "--help"@, on: self.help })
            .push(Argument::Flag { name: "--data-only"@, on: self.data_only })
            .push(Argument::Flag { name: "--clean"@, on: self.clean })
            .push(Argument::Flag { name: "--create"@, on: self.create })
            .push(Argument::Flag { name: "--exit-on-error"@, on: self.exit_on_error })
            .push(Argument::Value { name: "--index"@, value: self.index })
            .push(Argument::Value { name: "--jobs"@, value: self.jobs })
            .push(Argument::Value { name: "--use-list"@, value: self.use_list })
            .push(Argument::Value { name: "--schema"@, value: self.schema })
            .push(Argument::Value { name: "--exclude-schema"@, value: self.exclude_schema })
            .push(Argument::Flag { name: "--no-owner"@, on: self.no_owner })
            .push(Argument::Value { name: "--function"@, value: self.function })
            .push(Argument::Flag { name: "--schema-only"@, on: self.schema_only })
            .push(Argument::Value { name: "--superuser"@, value: self.superuser })
            .push(Argument::Value { name: "--table"@, value: self.table })
            .push(Argument::Value { name: "--trigger"@, value: self.trigger })
            .push(Argument::Flag { name: "--no-privileges"@, on: self.no_privileges })
            .push(Argument::Flag { name: "--single-transaction"@, on: self.single_transaction })
            .push(Argument::Flag { name: "--disable-triggers"@, on: self.disable_triggers })
            .push(Argument::Flag { name: "--enable-row-security"@, on: self.enable_row_security })
            .push(Argument::Flag { name: "--if-exists"@, on: self.if_exists })
            .push(Argument::Flag { name: "--no-comments"@, on: self.no_comments })
            .push(
                Argument::Flag {
                    name: "--no-data-for-failed-tables"@,
                    on: self.no_data_for_failed_tables,
                },
            )
            .push(Argument::Flag { name: "--no-publications"@, on: self.no_publications })
            .push(Argument::Flag { name: "--no-security-labels"@, on: self.no_security_labels })
            .push(Argument::Flag { name: "--no-subscriptions"@, on: self.no_subscriptions })
            .push(
                Argument::Flag {
                    name: "--no-table-access-method"@,
                    on: self.no_table_access_method,
                },
            )
            .push(Argument::Flag { name: "--no-tablespaces"@, on: self.no_tablespaces })
            .push(Argument::Value { name: "--section"@, value: self.section })
            .push(Argument::Flag { name: "--strict-names"@, on: self.strict_names })
            .push(
                Argument::Flag {
                    name: "--use-set-session-authorization"@,
                    on: self.use_set_session_authorization,
                },
            )
            .push(Argument::Value { name: "--host"@, value: self.host })
            .push(Argument::Value { name: "--port"@, value: decimal_text(self.port) })
            .push(Argument::Value { name: "--username"@, value: self.username })
            .push(Argument::Flag { name: "--no-password"@, on: self.no_password })
            .push(Argument::Flag { name: "--password"@, on: self.password })
            .push(Argument::Value { name: "--role"@, value: self.role })
    }

    /// The argument list.  The password is no part of it.
    pub open spec fn arguments(self) -> Seq<Seq<char>> {
        emitted(self.table())
    }

    /// The environment: `PGPASSWORD` with the password, if one is set, and
    /// nothing else.
    pub open spec fn environment(self) -> Seq<(Seq<char>, Seq<char>)> {
        match self.pg_password {
            Some(password) => seq![("PGPASSWORD"@, password)],
            None => Seq::empty(),
        }
    }
}

/// A presence flag as the builder holds it.  A record of this many bare
/// booleans is costly for the solver; one of switches is not.
#[derive(Clone, Copy, Debug)]
struct Switch {
    on: bool,
}

/// pg_restore restores a PostgreSQL database from an archive created by pg_dump.
#[derive(Debug)]
pub struct PgRestoreBuilder {
    program_dir: Option<String>,
    dbname: Option<String>,
    file: Option<String>,
    format: Option<String>,
    list: Switch,
    verbose: Switch,
    version: Switch,
    help: Switch,
    data_only: Switch,
    clean: Switch,
    create: Switch,
    exit_on_error: Switch,
    index: Option<String>,
    jobs: Option<String>,
    use_list: Option<String>,
    schema: Option<String>,
    exclude_schema: Option<String>,
    no_owner: Switch,
    function: Option<String>,
    schema_only: Switch,
    superuser: Option<String>,
    table: Option<String>,
    trigger: Option<String>,
    no_privileges: Switch,
    single_transaction: Switch,
    disable_triggers: Switch,
    enable_row_security: Switch,
    if_exists: Switch,
    no_comments: Switch,
    no_data_for_failed_tables: Switch,
    no_publications: Switch,
    no_security_labels: Switch,
    no_subscriptions: Switch,
    no_table_access_method: Switch,
    no_tablespaces: Switch,
    section: Option<String>,
    strict_names: Switch,
    use_set_session_authorization: Switch,
    host: Option<String>,
    port: Option<u16>,
    username: Option<String>,
    no_password: Switch,
    password: Switch,
    role: Option<String>,
    pg_password: Option<String>,
}

impl View for PgRestoreBuilder {
    type V = PgRestoreView;

    closed spec fn view(&self) -> PgRestoreView {
        PgRestoreView {
            program_dir: self.program_dir.deep_view(),
            dbname: self.dbname.deep_view(),
            file: self.file.deep_view(),
            format: self.format.deep_view(),
            list: self.list.on,
            verbose: self.verbose.on,
            version: self.version.on,
            help: self.help.on,
            data_only: self.data_only.on,
            clean: self.clean.on,
            create: self.create.on,
            exit_on_error: self.exit_on_error.on,
            index: self.index.deep_view(),
            jobs: self.jobs.deep_view(),
            use_list: self.use_list.deep_view(),
            schema: self.schema.deep_view(),
            exclude_schema: self.exclude_schema.deep_view(),
            no_owner: self.no_owner.on,
            function: self.function.deep_view(),
            schema_only: self.schema_only.on,
            superuser: self.superuser.deep_view(),
            table: self.table.deep_view(),
            trigger: self.trigger.deep_view(),
            no_privileges: self.no_privileges.on,
            single_transaction: self.single_transaction.on,
            disable_triggers: self.disable_triggers.on,
            enable_row_security: self.enable_row_security.on,
            if_exists: self.if_exists.on,
            no_comments: self.no_comments.on,
            no_data_for_failed_tables: self.no_data_for_failed_tables.on,
            no_publications: self.no_publications.on,
            no_security_labels: self.no_security_labels.on,
            no_subscriptions: self.no_subscriptions.on,
            no_table_access_method: self.no_table_access_method.on,
            no_tablespaces: self.no_tablespaces.on,
            section: self.section.deep_view(),
            strict_names: self.strict_names.on,
            use_set_session_authorization: self.use_set_session_authorization.on,
            host: self.host.deep_view(),
            port: u16_number(self.port),
            username: self.username.deep_view(),
            no_password: self.no_password.on,
            password: self.password.on,
            role: self.role.deep_view(),
            pg_password: self.pg_password.deep_view(),
        }
    }
}

impl Default for PgRestoreBuilder {
    fn default() -> (builder: Self)
        ensures
            builder@ == PgRestoreView::empty(),
    {
        PgRestoreBuilder {
            program_dir: None,
            dbname: None,
            file: None,
            format: None,
            list: Switch { on: false },
            verbose: Switch { on: false },
            version: Switch { on: false },
            help: Switch { on: false },
            data_only: Switch { on: false },
            clean: Switch { on: false },
            create: Switch { on: false },
            exit_on_error: Switch { on: false },
            index: None,
            jobs: None,
            use_list: None,
            schema: None,
            exclude_schema: None,
            no_owner: Switch { on: false },
            function: None,
            schema_only: Switch { on: false },
            superuser: None,
            table: None,
            trigger: None,
            no_privileges: Switch { on: false },
            single_transaction: Switch { on: false },
            disable_triggers: Switch { on: false },
            enable_row_security: Switch { on: false },
            if_exists: Switch { on: false },
            no_comments: Switch { on: false },
            no_data_for_failed_tables: Switch { on: false },
            no_publications: Switch { on: false },
            no_security_labels: Switch { on: false },
            no_subscriptions: Switch { on: false },
            no_table_access_method: Switch { on: false },
            no_tablespaces: Switch { on: false },
            section: None,
            strict_names: Switch { on: false },
            use_set_session_authorization: Switch { on: false },
            host: None,
            port: None,
            username: None,
            no_password: Switch { on: false },
            password: Switch { on: false },
            role: None,
            pg_password: None,
        }
    }
}

impl Clone for PgRestoreBuilder {
    #[verifier::spinoff_prover]
    fn clone(&self) -> (copy: Self)
        ensures
            copy@ == self@,
    {
        PgRestoreBuilder {
            program_dir: clone_text(&self.program_dir),
            dbname: clone_text(&self.dbname),
            file: clone_text(&self.file),
            format: clone_text(&self.format),
            list: self.list,
            verbose: self.verbose,
            version: self.version,
            help: self.help,
            data_only: self.data_only,
            clean: self.clean,
            create: self.create,
            exit_on_error: self.exit_on_error,
            index: clone_text(&self.index),
            jobs: clone_text(&self.jobs),
            use_list: clone_text(&self.use_list),
            schema: clone_text(&self.schema),
            exclude_schema: clone_text(&self.exclude_schema),
            no_owner: self.no_owner,
            function: clone_text(&self.function),
            schema_only: self.schema_only,
            superuser: clone_text(&self.superuser),
            table: clone_text(&self.table),
            trigger: clone_text(&self.trigger),
            no_privileges: self.no_privileges,
            single_transaction: self.single_transaction,
            disable_triggers: self.disable_triggers,
            enable_row_security: self.enable_row_security,
            if_exists: self.if_exists,
            no_comments: self.no_comments,
            no_data_for_failed_tables: self.no_data_for_failed_tables,
            no_publications: self.no_publications,
            no_security_labels: self.no_security_labels,
            no_subscriptions: self.no_subscriptions,
            no_table_access_method: self.no_table_access_method,
            no_tablespaces: self.no_tablespaces,
            section: clone_text(&self.section),
            strict_names: self.strict_names,
            use_set_session_authorization: self.use_set_session_authorization,
            host: clone_text(&self.host),
            port: self.port,
            username: clone_text(&self.username),
            no_password: self.no_password,
            password: self.password,
            role: clone_text(&self.role),
            pg_password: clone_text(&self.pg_password),
        }
    }
}

impl PgRestoreBuilder {
    /// Create a new [`PgRestoreBuilder`]
    pub fn new() -> (builder: Self)
        ensures
            builder@ == PgRestoreView::empty(),
    {
        Self::default()
    }

    /// Location of the program binary
    pub fn program_dir(self, path: &str) -> (builder: Self)
        ensures
            builder@ == (PgRestoreView { program_dir: Some(path@), ..self@ }),
    {
        let mut builder = self;
        builder.program_dir = Some(path.to_owned());
        builder
    }

    /// connect to database name
    pub fn dbname(self, name: &str) -> (builder: Self)
        ensures
            builder@ == (PgRestoreView { dbname: Some(name@), ..self@ }),
    {
        let mut builder = self;
        builder.dbname = Some(name.to_owned());
        builder
    }

    /// output file name (- for stdout)
    pub fn file(self, filename: &str) -> (builder: Self)
        ensures
            builder@ == (PgRestoreView { file: Some(filename@), ..self@ }),
    {
        let mut builder = self;
        builder.file = Some(filename.to_owned());
        builder
    }

    /// backup file format (should be automatic)
    pub fn format(self, format: &str) -> (builder: Self)
        ensures
            builder@ == (PgRestoreView { format: Some(format@), ..self@ }),
    {
        let mut builder = self;
        builder.format = Some(format.to_owned());
        builder
    }

    /// print summarized TOC of the archive
    pub fn list(self) -> (builder: Self)
        ensures
            builder@ == (PgRestoreView { list: true, ..self@ }),
    {
        let mut builder = self;
        builder.list = Switch { on: true };
        builder
    }

    /// verbose mode
    pub fn verbose(self) -> (builder: Self)
        ensures
            builder@ == (PgRestoreView { verbose: true, ..self@ }),
    {
        let mut builder = self;
        builder.verbose = Switch { on: true };
        builder
    }

    /// output version information, then exit
    pub fn version(self) -> (builder: Self)
        ensures
            builder@ == (PgRestoreView { version: true, ..self@ }),
    {
        let mut builder = self;
        builder.version = Switch { on: true };
        builder
    }

    /// show help, then exit
    pub fn help(self) -> (builder: Self)
        ensures
            builder@ == (PgRestoreView { help: true, ..self@ }),
    {
        let mut builder = self;
        builder.help = Switch { on: true };
        builder
    }

    /// restore only the data, no schema
    pub fn data_only(self) -> (builder: Self)
        ensures
            builder@ == (PgRestoreView { data_only: true, ..self@ }),
    {
        let mut builder = self;
        builder.data_only = Switch { on: true };
        builder
    }

    /// clean (drop) database objects before recreating
    pub fn clean(self) -> (builder: Self)
        ensures
            builder@ == (PgRestoreView { clean: true, ..self@ }),
    {
        let mut builder = self;
        builder.clean = Switch { on: true };
        builder
    }

    /// create the target database
    pub fn create(self) -> (builder: Self)
        ensures
            builder@ == (PgRestoreView { create: true, ..self@ }),
    {
        let mut builder = self;
        builder.create = Switch { on: true };
        builder
    }

    /// exit on error, default is to continue
    pub fn exit_on_error(self) -> (builder: Self)
        ensures
            builder@ == (PgRestoreView { exit_on_error: true, ..self@ }),
    {
        let mut builder = self;
        builder.exit_on_error = Switch { on: true };
        builder
    }

    /// restore named index
    pub fn index(self, name: &str) -> (builder: Self)
        ensures
            builder@ == (PgRestoreView { index: Some(name@), ..self@ }),
    {
        let mut builder = self;
        builder.index = Some(name.to_owned());
        builder
    }

    /// use this many parallel jobs to restore
    pub fn jobs(self, num: &str) -> (builder: Self)
        ensures
            builder@ == (PgRestoreView { jobs: Some(num@), ..self@ }),
    {
        let mut builder = self;
        builder.jobs = Some(num.to_owned());
        builder
    }

    /// use table of contents from this file for selecting/ordering output
    pub fn use_list(self, filename: &str) -> (builder: Self)
        ensures
            builder@ == (PgRestoreView { use_list: Some(filename@), ..self@ }),
    {
        let mut builder = self;
        builder.use_list = Some(filename.to_owned());
        builder
    }

    /// restore only objects in this schema
    pub fn schema(self, name: &str) -> (builder: Self)
        ensures
            builder@ == (PgRestoreView { schema: Some(name@), ..self@ }),
    {
        let mut builder = self;
        builder.schema = Some(name.to_owned());
        builder
    }

    /// do not restore objects in this schema
    pub fn exclude_schema(self, name: &str) -> (builder: Self)
        ensures
            builder@ == (PgRestoreView { exclude_schema: Some(name@), ..self@ }),
    {
        let mut builder = self;
        builder.exclude_schema = Some(name.to_owned());
        builder
    }

    /// skip restoration of object ownership
    pub fn no_owner(self) -> (builder: Self)
        ensures
            builder@ == (PgRestoreView { no_owner: true, ..self@ }),
    {
        let mut builder = self;
        builder.no_owner = Switch { on: true };
        builder
    }

    /// restore named function
    pub fn function(self, name: &str) -> (builder: Self)
        ensures
            builder@ == (PgRestoreView { function: Some(name@), ..self@ }),
    {
        let mut builder = self;
        builder.function = Some(name.to_owned());
        builder
    }

    /// restore only the schema, no data
    pub fn schema_only(self) -> (builder: Self)
        ensures
            builder@ == (PgRestoreView { schema_only: true, ..self@ }),
    {
        let mut builder = self;
        builder.schema_only = Switch { on: true };
        builder
    }

    /// superuser user name to use for disabling triggers
    pub fn superuser(self, name: &str) -> (builder: Self)
        ensures
            builder@ == (PgRestoreView { superuser: Some(name@), ..self@ }),
    {
        let mut builder = self;
        builder.superuser = Some(name.to_owned());
        builder
    }

    /// restore named relation (table, view, etc.)
    pub fn table(self, name: &str) -> (builder: Self)
        ensures
            builder@ == (PgRestoreView { table: Some(name@), ..self@ }),
    {
        let mut builder = self;
        builder.table = Some(name.to_owned());
        builder
    }

    /// restore named trigger
    pub fn trigger(self, name: &str) -> (builder: Self)
        ensures
            builder@ == (PgRestoreView { trigger: Some(name@), ..self@ }),
    {
        let mut builder = self;
        builder.trigger = Some(name.to_owned());
        builder
    }

    /// skip restoration of access privileges (grant/revoke)
    pub fn no_privileges(self) -> (builder: Self)
        ensures
            builder@ == (PgRestoreView { no_privileges: true, ..self@ }),
    {
        let mut builder = self;
        builder.no_privileges = Switch { on: true };
        builder
    }

    /// restore as a single transaction
    pub fn single_transaction(self) -> (builder: Self)
        ensures
            builder@ == (PgRestoreView { single_transaction: true, ..self@ }),
    {
        let mut builder = self;
        builder.single_transaction = Switch { on: true };
        builder
    }

    /// disable triggers during data-only restore
    pub fn disable_triggers(self) -> (builder: Self)
        ensures
            builder@ == (PgRestoreView { disable_triggers: true, ..self@ }),
    {
        let mut builder = self;
        builder.disable_triggers = Switch { on: true };
        builder
    }

    /// enable row security
    pub fn enable_row_security(self) -> (builder: Self)
        ensures
            builder@ == (PgRestoreView { enable_row_security: true, ..self@ }),
    {
        let mut builder = self;
        builder.enable_row_security = Switch { on: true };
        builder
    }

    /// use IF EXISTS when dropping objects
    pub fn if_exists(self) -> (builder: Self)
        ensures
            builder@ == (PgRestoreView { if_exists: true, ..self@ }),
    {
        let mut builder = self;
        builder.if_exists = Switch { on: true };
        builder
    }

    /// do not restore comments
    pub fn no_comments(self) -> (builder: Self)
        ensures
            builder@ == (PgRestoreView { no_comments: true, ..self@ }),
    {
        let mut builder = self;
        builder.no_comments = Switch { on: true };
        builder
    }

    /// do not restore data of tables that could not be created
    pub fn no_data_for_failed_tables(self) -> (builder: Self)
        ensures
            builder@ == (PgRestoreView { no_data_for_failed_tables: true, ..self@ }),
    {
        let mut builder = self;
        builder.no_data_for_failed_tables = Switch { on: true };
        builder
    }

    /// do not restore publications
    pub fn no_publications(self) -> (builder: Self)
        ensures
            builder@ == (PgRestoreView { no_publications: true, ..self@ }),
    {
        let mut builder = self;
        builder.no_publications = Switch { on: true };
        builder
    }

    /// do not restore security labels
    pub fn no_security_labels(self) -> (builder: Self)
        ensures
            builder@ == (PgRestoreView { no_security_labels: true, ..self@ }),
    {
        let mut builder = self;
        builder.no_security_labels = Switch { on: true };
        builder
    }

    /// do not restore subscriptions
    pub fn no_subscriptions(self) -> (builder: Self)
        ensures
            builder@ == (PgRestoreView { no_subscriptions: true, ..self@ }),
    {
        let mut builder = self;
        builder.no_subscriptions = Switch { on: true };
        builder
    }

    /// do not restore table access methods
    pub fn no_table_access_method(self) -> (builder: Self)
        ensures
            builder@ == (PgRestoreView { no_table_access_method: true, ..self@ }),
    {
        let mut builder = self;
        builder.no_table_access_method = Switch { on: true };
        builder
    }

    /// do not restore tablespace assignments
    pub fn no_tablespaces(self) -> (builder: Self)
        ensures
            builder@ == (PgRestoreView { no_tablespaces: true, ..self@ }),
    {
        let mut builder = self;
        builder.no_tablespaces = Switch { on: true };
        builder
    }

    /// restore named section (pre-data, data, or post-data)
    pub fn section(self, section: &str) -> (builder: Self)
        ensures
            builder@ == (PgRestoreView { section: Some(section@), ..self@ }),
    {
        let mut builder = self;
        builder.section = Some(section.to_owned());
        builder
    }

    /// require table and/or schema include patterns to match at least one entity each
    pub fn strict_names(self) -> (builder: Self)
        ensures
            builder@ == (PgRestoreView { strict_names: true, ..self@ }),
    {
        let mut builder = self;
        builder.strict_names = Switch { on: true };
        builder
    }

    /// use SET SESSION AUTHORIZATION commands instead of ALTER OWNER commands to set ownership
    pub fn use_set_session_authorization(self) -> (builder: Self)
        ensures
            builder@ == (PgRestoreView { use_set_session_authorization: true, ..self@ }),
    {
        let mut builder = self;
        builder.use_set_session_authorization = Switch { on: true };
        builder
    }

    /// database server host or socket directory
    pub fn host(self, hostname: &str) -> (builder: Self)
        ensures
            builder@ == (PgRestoreView { host: Some(hostname@), ..self@ }),
    {
        let mut builder = self;
        builder.host = Some(hostname.to_owned());
        builder
    }

    /// database server port number
    pub fn port(self, port: u16) -> (builder: Self)
        ensures
            builder@ == (PgRestoreView { port: Some(port as nat), ..self@ }),
    {
        let mut builder = self;
        builder.port = Some(port);
        builder
    }

    /// connect as specified database user
    pub fn username(self, name: &str) -> (builder: Self)
        ensures
            builder@ == (PgRestoreView { username: Some(name@), ..self@ }),
    {
        let mut builder = self;
        builder.username = Some(name.to_owned());
        builder
    }

    /// never prompt for password
    pub fn no_password(self) -> (builder: Self)
        ensures
            builder@ == (PgRestoreView { no_password: true, ..self@ }),
    {
        let mut builder = self;
        builder.no_password = Switch { on: true };
        builder
    }

    /// force password prompt (should happen automatically)
    pub fn password(self) -> (builder: Self)
        ensures
            builder@ == (PgRestoreView { password: true, ..self@ }),
    {
        let mut builder = self;
        builder.password = Switch { on: true };
        builder
    }

    /// do SET ROLE before restore
    pub fn role(self, rolename: &str) -> (builder: Self)
        ensures
            builder@ == (PgRestoreView { role: Some(rolename@), ..self@ }),
    {
        let mut builder = self;
        builder.role = Some(rolename.to_owned());
        builder
    }

    /// user password
    pub fn pg_password(self, pg_password: &str) -> (builder: Self)
        ensures
            builder@ == (PgRestoreView { pg_password: Some(pg_password@), ..self@ }),
    {
        let mut builder = self;
        builder.pg_password = Some(pg_password.to_owned());
        builder
    }

    /// The entries of the table, read off the builder's own fields.  The walk
    /// over the options is proved against these entries, and the step from
    /// the fields to the view apart from it: together the two are more than
    /// the solver takes in one piece.
    #[verifier::inline]
    spec fn options(&self) -> Seq<Argument> {
        Seq::empty()
            .push(Argument::Value { name: "--dbname"@, value: self.dbname.deep_view() })
            .push(Argument::Value { name: "--file"@, value: self.file.deep_view() })
            .push(Argument::Value { name: "--format"@, value: self.format.deep_view() })
            .push(Argument::Flag { name: "--list"@, on: self.list.on })
            .push(Argument::Flag { name: "--verbose"@, on: self.verbose.on })
            .push(Argument::Flag { name: "--version"@, on: self.version.on })
            .push(Argument::Flag { name: "--help"@, on: self.help.on })
            .push(Argument::Flag { name: "--data-only"@, on: self.data_only.on })
            .push(Argument::Flag { name: "--clean"@, on: self.clean.on })
            .push(Argument::Flag { name: "--create"@, on: self.create.on })
            .push(Argument::Flag { name: "--exit-on-error"@, on: self.exit_on_error.on })
            .push(Argument::Value { name: "--index"@, value: self.index.deep_view() })
            .push(Argument::Value { name: "--jobs"@, value: self.jobs.deep_view() })
            .push(Argument::Value { name: "--use-list"@, value: self.use_list.deep_view() })
            .push(Argument::Value { name: "--schema"@, value: self.schema.deep_view() })
            .push(
                Argument::Value {
                    name: "--exclude-schema"@,
                    value: self.exclude_schema.deep_view(),
                },
            )
            .push(Argument::Flag { name: "--no-owner"@, on: self.no_owner.on })
            .push(Argument::Value { name: "--function"@, value: self.function.deep_view() })
            .push(Argument::Flag { name: "--schema-only"@, on: self.schema_only.on })
            .push(Argument::Value { name: "--superuser"@, value: self.superuser.deep_view() })
            .push(Argument::Value { name: "--table"@, value: self.table.deep_view() })
            .push(Argument::Value { name: "--trigger"@, value: self.trigger.deep_view() })
            .push(Argument::Flag { name: "--no-privileges"@, on: self.no_privileges.on })
            .push(Argument::Flag { name: "--single-transaction"@, on: self.single_transaction.on })
            .push(Argument::Flag { name: "--disable-triggers"@, on: self.disable_triggers.on })
            .push(
                Argument::Flag {
                    name: "--enable-row-security"@,
                    on: self.enable_row_security.on,
                },
            )
            .push(Argument::Flag { name: "--if-exists"@, on: self.if_exists.on })
            .push(Argument::Flag { name: "--no-comments"@, on: self.no_comments.on })
            .push(
                Argument::Flag {
                    name: "--no-data-for-failed-tables"@,
                    on: self.no_data_for_failed_tables.on,
                },
            )
            .push(Argument::Flag { name: "--no-publications"@, on: self.no_publications.on })
            .push(Argument::Flag { name: "--no-security-labels"@, on: self.no_security_labels.on })
            .push(Argument::Flag { name: "--no-subscriptions"@, on: self.no_subscriptions.on })
            .push(
                Argument::Flag {
                    name: "--no-table-access-method"@,
                    on: self.no_table_access_method.on,
                },
            )
            .push(Argument::Flag { name: "--no-tablespaces"@, on: self.no_tablespaces.on })
            .push(Argument::Value { name: "--section"@, value: self.section.deep_view() })
            .push(Argument::Flag { name: "--strict-names"@, on: self.strict_names.on })
            .push(
                Argument::Flag {
                    name: "--use-set-session-authorization"@,
                    on: self.use_set_session_authorization.on,
                },
            )
            .push(Argument::Value { name: "--host"@, value: self.host.deep_view() })
            .push(Argument::Value { name: "--port"@, value: decimal_text(u16_number(self.port)) })
            .push(Argument::Value { name: "--username"@, value: self.username.deep_view() })
            .push(Argument::Flag { name: "--no-password"@, on: self.no_password.on })
            .push(Argument::Flag { name: "--password"@, on: self.password.on })
            .push(Argument::Value { name: "--role"@, value: self.role.deep_view() })
    }

    /// The fields of the builder give the entries of its view.
    #[verifier::spinoff_prover]
    proof fn lemma_options_are_listing(&self)
        ensures
            self.options() == self@.listing(),
    {
    }

    /// The fields of the builder give the table of its view.
    proof fn lemma_options_are_table(&self)
        ensures
            self.options() == self@.table(),
    {
        self.lemma_options_are_listing();
        lemma_table_is_listing(self@);
    }

    /// Walks the options in the order of the table and collects their tokens.
    #[verifier::spinoff_prover]
    fn collect_args(&self) -> (args: Vec<String>)
        ensures
            args.deep_view() == emitted(self.options()),
    {
        let port = u16_text(self.port);
        let list = ArgumentList::new()
            .value("--dbname", &self.dbname)
            .value("--file", &self.file)
            .value("--format", &self.format)
            .flag("--list", self.list.on)
            .flag("--verbose", self.verbose.on)
            .flag("--version", self.version.on)
            .flag("--help", self.help.on)
            .flag("--data-only", self.data_only.on)
            .flag("--clean", self.clean.on)
            .flag("--create", self.create.on)
            .flag("--exit-on-error", self.exit_on_error.on)
            .value("--index", &self.index)
            .value("--jobs", &self.jobs)
            .value("--use-list", &self.use_list)
            .value("--schema", &self.schema)
            .value("--exclude-schema", &self.exclude_schema)
            .flag("--no-owner", self.no_owner.on)
            .value("--function", &self.function)
            .flag("--schema-only", self.schema_only.on)
            .value("--superuser", &self.superuser)
            .value("--table", &self.table)
            .value("--trigger", &self.trigger)
            .flag("--no-privileges", self.no_privileges.on)
            .flag("--single-transaction", self.single_transaction.on)
            .flag("--disable-triggers", self.disable_triggers.on)
            .flag("--enable-row-security", self.enable_row_security.on)
            .flag("--if-exists", self.if_exists.on)
            .flag("--no-comments", self.no_comments.on)
            .flag("--no-data-for-failed-tables", self.no_data_for_failed_tables.on)
            .flag("--no-publications", self.no_publications.on)
            .flag("--no-security-labels", self.no_security_labels.on)
            .flag("--no-subscriptions", self.no_subscriptions.on)
            .flag("--no-table-access-method", self.no_table_access_method.on)
            .flag("--no-tablespaces", self.no_tablespaces.on)
            .value("--section", &self.section)
            .flag("--strict-names", self.strict_names.on)
            .flag("--use-set-session-authorization", self.use_set_session_authorization.on)
            .value("--host", &self.host)
            .value("--port", &port)
            .value("--username", &self.username)
            .flag("--no-password", self.no_password.on)
            .flag("--password", self.password.on)
            .value("--role", &self.role);
        list.into_tokens()
    }
}

impl CommandBuilder for PgRestoreBuilder {
    open spec fn spec_program(&self) -> Seq<char> {
        "pg_restore"@
    }

    open spec fn spec_program_dir(&self) -> Option<Seq<char>> {
        self@.program_dir
    }

    open spec fn spec_args(&self) -> Seq<Seq<char>> {
        self@.arguments()
    }

    open spec fn spec_envs(&self) -> Seq<(Seq<char>, Seq<char>)> {
        self@.environment()
    }

    /// Get the program name
    fn get_program(&self) -> (program: &'static str) {
        "pg_restore"
    }

    /// Location of the program binary
    fn get_program_dir(&self) -> (dir: &Option<String>) {
        &self.program_dir
    }

    /// Get the arguments for the command
    fn get_args(&self) -> (args: Vec<String>) {
        proof {
            self.lemma_options_are_table();
        }
        self.collect_args()
    }

    /// Get the environment variables for the command
    fn get_envs(&self) -> (envs: Vec<(String, String)>) {
        let mut envs: Vec<(String, String)> = Vec::new();
        if let Some(password) = &self.pg_password {
            envs.push(("PGPASSWORD".to_owned(), password.clone()));
            assert(envs.deep_view() =~= seq![("PGPASSWORD"@, password@)]);
        } else {
            assert(envs.deep_view() =~= Seq::empty());
        }
        envs
    }
}

/// The table holds the entries listed.
#[verifier::spinoff_prover]
pub proof fn lemma_table_is_listing(config: PgRestoreView)
    ensures
        config.table() == config.listing(),
{
    reveal(PgRestoreView::table);
}

/// The option names of `pg_restore` differ from one another.
#[verifier::spinoff_prover]
pub proof fn lemma_names_distinct(config: PgRestoreView)
    ensures
        config.table().len() == 43,
        names_distinct(config.table()),
{
    reveal_strlit("--dbname");
    reveal_strlit("--file");
    reveal_strlit("--format");
    reveal_strlit("--list");
    reveal_strlit("--verbose");
    reveal_strlit("--version");
    reveal_strlit("--help");
    reveal_strlit("--data-only");
    reveal_strlit("--clean");
    reveal_strlit("--create");
    reveal_strlit("--exit-on-error");
    reveal_strlit("--index");
    reveal_strlit("--jobs");
    reveal_strlit("--use-list");
    reveal_strlit("--schema");
    reveal_strlit("--exclude-schema");
    reveal_strlit("--no-owner");
    reveal_strlit("--function");
    reveal_strlit("--schema-only");
    reveal_strlit("--superuser");
    reveal_strlit("--table");
    reveal_strlit("--trigger");
    reveal_strlit("--no-privileges");
    reveal_strlit("--single-transaction");
    reveal_strlit("--disable-triggers");
    reveal_strlit("--enable-row-security");
    reveal_strlit("--if-exists");
    reveal_strlit("--no-comments");
    reveal_strlit("--no-data-for-failed-tables");
    reveal_strlit("--no-publications");
    reveal_strlit("--no-security-labels");
    reveal_strlit("--no-subscriptions");
    reveal_strlit("--no-table-access-method");
    reveal_strlit("--no-tablespaces");
    reveal_strlit("--section");
    reveal_strlit("--strict-names");
    reveal_strlit("--use-set-session-authorization");
    reveal_strlit("--host");
    reveal_strlit("--port");
    reveal_strlit("--username");
    reveal_strlit("--no-password");
    reveal_strlit("--password");
    reveal_strlit("--role");
    reveal(PgRestoreView::table);
    let table = config.table();
    assert forall|i: int, j: int|
        0 <= i < table.len() && 0 <= j < table.len() && i != j implies #[trigger] table[i].name()
        != #[trigger] table[j].name() by {
        // Two names of one length differ in one of these characters.
        let a = table[i].name();
        let b = table[j].name();
        assert(a.len() != b.len() || a[2] != b[2] || a[5] != b[5]);
    }
}

/// A builder on which nothing was configured yields no arguments and no
/// environment, and the bare program name as the path of the executable.
#[verifier::spinoff_prover]
pub proof fn lemma_unconfigured_is_bare()
    ensures
        PgRestoreView::empty().arguments() == Seq::<Seq<char>>::empty(),
        PgRestoreView::empty().environment() == Seq::<(Seq<char>, Seq<char>)>::empty(),
        executable_path(PgRestoreView::empty().program_dir, "pg_restore"@) == "pg_restore"@,
{
    reveal(PgRestoreView::table);
    lemma_nothing_set(PgRestoreView::empty().table());
}

/// A presence flag that is on shows in the argument list as exactly one
/// token, its name, at the position that the options before it determine:
/// what else is configured, and in which order the configuration was made,
/// does not matter.  The name stands nowhere else in the list, unless a
/// configured value reads like it.
pub proof fn lemma_flag_in_place(config: PgRestoreView, i: int)
    requires
        0 <= i < config.table().len(),
        config.table()[i] is Flag,
        config.table()[i].is_set(),
    ensures
        config.arguments() == emitted(config.table().take(i)) + seq![config.table()[i].name()]
            + emitted(config.table().skip(i + 1)),
        config.arguments()[position(config.table(), i)] == config.table()[i].name(),
        no_value_reads(config.table(), config.table()[i].name()) ==> forall|k: int|
            0 <= k < config.arguments().len() ==> (#[trigger] config.arguments()[k]
                == config.table()[i].name() <==> k == position(config.table(), i)),
{
    lemma_flag_contributes_name(config.table(), i);
    if no_value_reads(config.table(), config.table()[i].name()) {
        lemma_names_distinct(config);
        lemma_name_occurs_once(config.table(), i);
    }
}

/// A value flag that is set shows in the argument list as exactly two
/// adjacent tokens, its name and then its value, at the position that the
/// options before it determine.  The name stands nowhere else in the list,
/// unless a configured value reads like it.
pub proof fn lemma_value_in_place(config: PgRestoreView, i: int)
    requires
        0 <= i < config.table().len(),
        config.table()[i] matches Argument::Value { value: Some(_), .. },
    ensures
        config.arguments() == emitted(config.table().take(i)) + seq![
            config.table()[i].name(),
            config.table()[i]->value->0,
        ] + emitted(config.table().skip(i + 1)),
        config.arguments()[position(config.table(), i)] == config.table()[i].name(),
        config.arguments()[position(config.table(), i) + 1] == config.table()[i]->value->0,
        no_value_reads(config.table(), config.table()[i].name()) ==> forall|k: int|
            0 <= k < config.arguments().len() ==> (#[trigger] config.arguments()[k]
                == config.table()[i].name() <==> k == position(config.table(), i)),
{
    lemma_value_contributes_pair(config.table(), i);
    if no_value_reads(config.table(), config.table()[i].name()) {
        lemma_names_distinct(config);
        lemma_name_occurs_once(config.table(), i);
    }
}

/// An option that is not set contributes no token: the argument list is that
/// of the options before it followed by that of the options after it.
pub proof fn lemma_unset_is_absent(config: PgRestoreView, i: int)
    requires
        0 <= i < config.table().len(),
        !config.table()[i].is_set(),
    ensures
        config.arguments() == emitted(config.table().take(i)) + emitted(
            config.table().skip(i + 1),
        ),
{
    lemma_unset_contributes_nothing(config.table(), i);
}

/// The password never reaches the argument list: configuring one leaves the
/// arguments as they were, and makes the environment hold `PGPASSWORD` with
/// exactly that password, and nothing else.
#[verifier::spinoff_prover]
pub proof fn lemma_password_goes_to_environment(config: PgRestoreView, password: Seq<char>)
    ensures
        (PgRestoreView { pg_password: Some(password), ..config }).arguments() == config.arguments(),
        (PgRestoreView { pg_password: Some(password), ..config }).environment() == seq![
            ("PGPASSWORD"@, password),
        ],
{
    reveal(PgRestoreView::table);
}

} // verus!
