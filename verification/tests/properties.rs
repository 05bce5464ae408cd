use postgresql_commands::argument::ArgumentList;
use postgresql_commands::command::{assemble, join_spaced, program_file, Command};
use postgresql_commands::decimal::{to_decimal, u16_text, usize_text};
use postgresql_commands::pg_restore::PgRestoreBuilder;
use postgresql_commands::traits::{CommandBuilder, CommandToString};
use postgresql_commands::vacuumlo::VacuumLoBuilder;

fn strings(items: &[&str]) -> Vec<String> {
    items.iter().map(|s| s.to_string()).collect()
}

#[test]
fn unconfigured_vacuumlo_is_bare() {
    let builder = VacuumLoBuilder::new();
    assert_eq!(builder.get_program(), "vacuumlo");
    assert_eq!(builder.get_program_dir(), &None);
    assert!(builder.get_args().is_empty());
    assert!(builder.get_envs().is_empty());
    let command = builder.build();
    assert_eq!(command.get_program(), "vacuumlo");
    assert!(command.get_args().is_empty());
    assert!(command.get_envs().is_empty());
}

#[test]
fn unconfigured_pg_restore_is_bare() {
    let builder = PgRestoreBuilder::new();
    assert_eq!(builder.get_program(), "pg_restore");
    assert_eq!(builder.get_program_dir(), &None);
    assert!(builder.get_args().is_empty());
    assert!(builder.get_envs().is_empty());
    let command = builder.build();
    assert_eq!(command.get_program(), "pg_restore");
    assert!(command.get_args().is_empty());
    assert!(command.get_envs().is_empty());
}

#[test]
fn default_is_new() {
    assert!(VacuumLoBuilder::default().get_args().is_empty());
    assert!(PgRestoreBuilder::default().get_args().is_empty());
}

#[test]
fn presence_flag_gives_one_token() {
    let args = VacuumLoBuilder::new().verbose().get_args();
    assert_eq!(args, strings(&["--verbose"]));
    let args = PgRestoreBuilder::new().no_owner().get_args();
    assert_eq!(args, strings(&["--no-owner"]));
}

#[test]
fn presence_flag_set_twice_gives_one_token() {
    let args = VacuumLoBuilder::new().dry_run().dry_run().get_args();
    assert_eq!(args, strings(&["--dry-run"]));
}

#[test]
fn presence_flag_keeps_its_place_whatever_the_call_order() {
    let forward = VacuumLoBuilder::new()
        .limit(7)
        .verbose()
        .host("db")
        .password()
        .get_args();
    let backward = VacuumLoBuilder::new()
        .password()
        .host("db")
        .verbose()
        .limit(7)
        .get_args();
    let expected = strings(&["--limit", "7", "--verbose", "--host", "db", "--password"]);
    assert_eq!(forward, expected);
    assert_eq!(backward, expected);
    assert_eq!(forward.iter().filter(|t| *t == "--verbose").count(), 1);
    assert_eq!(forward.iter().position(|t| t == "--verbose"), Some(2));
}

#[test]
fn restore_flags_keep_their_place_whatever_the_call_order() {
    let forward = PgRestoreBuilder::new()
        .dbname("db")
        .clean()
        .schema("public")
        .if_exists()
        .role("admin")
        .get_args();
    let backward = PgRestoreBuilder::new()
        .role("admin")
        .if_exists()
        .schema("public")
        .clean()
        .dbname("db")
        .get_args();
    let expected = strings(&[
        "--dbname",
        "db",
        "--clean",
        "--schema",
        "public",
        "--if-exists",
        "--role",
        "admin",
    ]);
    assert_eq!(forward, expected);
    assert_eq!(backward, expected);
}

#[test]
fn value_flag_gives_name_then_value() {
    let args = VacuumLoBuilder::new().username("postgres").get_args();
    assert_eq!(args, strings(&["--username", "postgres"]));
    let args = PgRestoreBuilder::new().jobs("4").get_args();
    assert_eq!(args, strings(&["--jobs", "4"]));
}

#[test]
fn value_flag_set_again_keeps_the_last_value() {
    let args = VacuumLoBuilder::new().host("a").host("b").get_args();
    assert_eq!(args, strings(&["--host", "b"]));
}

#[test]
fn value_that_reads_like_a_flag_is_passed_through() {
    let args = VacuumLoBuilder::new().verbose().host("--verbose").get_args();
    assert_eq!(args, strings(&["--verbose", "--host", "--verbose"]));
}

#[test]
fn numbers_are_written_in_decimal() {
    let args = VacuumLoBuilder::new().limit(0).port(65535).get_args();
    assert_eq!(args, strings(&["--limit", "0", "--port", "65535"]));
    let args = PgRestoreBuilder::new().port(1).get_args();
    assert_eq!(args, strings(&["--port", "1"]));
}

#[test]
fn decimal_numerals() {
    assert_eq!(to_decimal(0), "0");
    assert_eq!(to_decimal(9), "9");
    assert_eq!(to_decimal(10), "10");
    assert_eq!(to_decimal(100), "100");
    assert_eq!(to_decimal(5432), "5432");
    assert_eq!(to_decimal(1234567890), "1234567890");
    assert_eq!(to_decimal(u64::MAX), "18446744073709551615");
    assert_eq!(to_decimal(u64::MAX), u64::MAX.to_string());
    assert_eq!(u16_text(Some(5432)), Some("5432".to_string()));
    assert_eq!(u16_text(None), None);
    assert_eq!(usize_text(Some(usize::MAX)), Some(usize::MAX.to_string()));
    assert_eq!(usize_text(None), None);
}

#[test]
fn password_goes_to_the_environment_only() {
    let builder = VacuumLoBuilder::new().host("localhost").pg_password("s3cret");
    assert_eq!(builder.get_args(), strings(&["--host", "localhost"]));
    assert_eq!(
        builder.get_envs(),
        vec![("PGPASSWORD".to_string(), "s3cret".to_string())]
    );
    let builder = PgRestoreBuilder::new().host("localhost").pg_password("s3cret");
    assert_eq!(builder.get_args(), strings(&["--host", "localhost"]));
    assert_eq!(
        builder.get_envs(),
        vec![("PGPASSWORD".to_string(), "s3cret".to_string())]
    );
}

#[test]
fn password_is_taken_verbatim() {
    let password = " p\"a ss\\wörd\n";
    let command = PgRestoreBuilder::new().pg_password(password).build();
    assert!(command.get_args().is_empty());
    assert_eq!(
        command.get_envs(),
        &vec![("PGPASSWORD".to_string(), password.to_string())]
    );
}

#[test]
fn password_set_again_gives_one_entry() {
    let envs = VacuumLoBuilder::new().pg_password("a").pg_password("b").get_envs();
    assert_eq!(envs, vec![("PGPASSWORD".to_string(), "b".to_string())]);
}

#[test]
fn conflicting_flags_are_passed_through() {
    let args = VacuumLoBuilder::new().no_password().password().get_args();
    assert_eq!(args, strings(&["--no-password", "--password"]));
    let args = PgRestoreBuilder::new().schema_only().data_only().get_args();
    assert_eq!(args, strings(&["--data-only", "--schema-only"]));
}

#[test]
fn building_twice_gives_the_same_command() {
    let builder = VacuumLoBuilder::new()
        .program_dir("/opt/pg/bin")
        .limit(10)
        .host("localhost")
        .pg_password("password");
    let first = builder.clone().build();
    let second = builder.build();
    assert_eq!(first.get_program(), second.get_program());
    assert_eq!(first.get_args(), second.get_args());
    assert_eq!(first.get_envs(), second.get_envs());
    assert_eq!(first.to_command_string(), second.to_command_string());

    let builder = PgRestoreBuilder::new().dbname("db").clean().pg_password("password");
    let first = builder.clone().build();
    let second = builder.build();
    assert_eq!(first.get_program(), second.get_program());
    assert_eq!(first.get_args(), second.get_args());
    assert_eq!(first.get_envs(), second.get_envs());
    assert_eq!(first.to_command_string(), second.to_command_string());
}

#[test]
fn clone_keeps_the_configuration() {
    let builder = VacuumLoBuilder::new().verbose().port(5432).pg_password("pw");
    let copy = builder.clone();
    assert_eq!(copy.get_args(), builder.get_args());
    assert_eq!(copy.get_envs(), builder.get_envs());
    assert_eq!(copy.get_program_dir(), builder.get_program_dir());
}

#[test]
fn clone_keeps_every_restore_setting() {
    let builder = PgRestoreBuilder::new()
        .program_dir("/usr/bin")
        .dbname("db")
        .list()
        .clean()
        .jobs("4")
        .no_owner()
        .if_exists()
        .section("data")
        .use_set_session_authorization()
        .host("localhost")
        .port(5432)
        .no_password()
        .role("admin")
        .pg_password("pw");
    let copy = builder.clone();
    assert_eq!(copy.get_program_dir(), builder.get_program_dir());
    assert_eq!(copy.get_args(), builder.get_args());
    assert_eq!(copy.get_envs(), builder.get_envs());
    assert_eq!(
        copy.get_args(),
        strings(&[
            "--dbname",
            "db",
            "--list",
            "--clean",
            "--jobs",
            "4",
            "--no-owner",
            "--if-exists",
            "--section",
            "data",
            "--use-set-session-authorization",
            "--host",
            "localhost",
            "--port",
            "5432",
            "--no-password",
            "--role",
            "admin",
        ])
    );
    let bare = PgRestoreBuilder::new().clone();
    assert!(bare.get_args().is_empty());
    assert!(bare.get_envs().is_empty());
    assert_eq!(bare.get_program_dir(), &None);
}

#[test]
fn program_path_is_joined_with_one_slash() {
    assert_eq!(program_file(&None, "vacuumlo"), "vacuumlo");
    assert_eq!(program_file(&Some(".".to_string()), "vacuumlo"), "./vacuumlo");
    assert_eq!(
        program_file(&Some("/usr/bin".to_string()), "pg_restore"),
        "/usr/bin/pg_restore"
    );
    assert_eq!(
        program_file(&Some("/usr/bin/".to_string()), "pg_restore"),
        "/usr/bin/pg_restore"
    );
    assert_eq!(program_file(&Some("/".to_string()), "pg_restore"), "/pg_restore");
    assert_eq!(program_file(&Some(String::new()), "pg_restore"), "pg_restore");
    assert_eq!(
        program_file(&Some("données".to_string()), "pg_restore"),
        "données/pg_restore"
    );
}

#[test]
fn program_dir_is_kept_and_used() {
    let builder = PgRestoreBuilder::new().program_dir("/usr/local/pgsql/bin");
    assert_eq!(
        builder.get_program_dir(),
        &Some("/usr/local/pgsql/bin".to_string())
    );
    assert_eq!(builder.build().get_program(), "/usr/local/pgsql/bin/pg_restore");
}

#[test]
fn pieces_are_joined_by_single_spaces() {
    assert_eq!(join_spaced(&Vec::new()), "");
    assert_eq!(join_spaced(&strings(&["a"])), "a");
    assert_eq!(join_spaced(&strings(&["a", "b", "c"])), "a b c");
    assert_eq!(join_spaced(&strings(&["", ""])), " ");
}

#[test]
fn line_is_assembled_from_written_parts() {
    let envs = vec![
        ("A".to_string(), "1".to_string()),
        ("B".to_string(), "2".to_string()),
    ];
    assert_eq!(assemble(&envs, "prog", &strings(&["x", "y"])), "A=1 B=2 prog x y");
    assert_eq!(assemble(&Vec::new(), "prog", &Vec::new()), "prog");
    assert_eq!(assemble(&Vec::new(), "prog", &strings(&["x"])), "prog x");
    assert_eq!(assemble(&envs, "prog", &Vec::new()), "A=1 B=2 prog");
}

#[test]
fn rendering_quotes_and_escapes() {
    let command = Command::new(
        "my prog".to_string(),
        strings(&["plain", "with \"quotes\"", "back\\slash", "new\nline", ""]),
        vec![("NAME".to_string(), "va\"lue".to_string())],
    );
    assert_eq!(
        command.to_command_string(),
        r#"NAME="va\"lue" "my prog" "plain" "with \"quotes\"" "back\\slash" "new\nline" """#
    );
}

#[test]
fn rendering_puts_the_environment_first() {
    let command = Command::new(
        "prog".to_string(),
        strings(&["a"]),
        vec![
            ("ONE".to_string(), "1".to_string()),
            ("TWO".to_string(), "2".to_string()),
        ],
    );
    assert_eq!(command.to_command_string(), r#"ONE="1" TWO="2" "prog" "a""#);
}

#[test]
fn command_keeps_its_parts() {
    let command = Command::new(
        "prog".to_string(),
        strings(&["a", "b"]),
        vec![("K".to_string(), "v".to_string())],
    );
    assert_eq!(command.get_program(), "prog");
    assert_eq!(command.get_args(), &strings(&["a", "b"]));
    assert_eq!(command.get_envs(), &vec![("K".to_string(), "v".to_string())]);
}

#[test]
fn argument_list_collects_in_order() {
    let tokens = ArgumentList::new()
        .flag("--first", true)
        .flag("--second", false)
        .value("--third", &Some("3".to_string()))
        .value("--fourth", &None)
        .flag("--fifth", true)
        .into_tokens();
    assert_eq!(tokens, strings(&["--first", "--third", "3", "--fifth"]));
    assert!(ArgumentList::new().into_tokens().is_empty());
}

#[test]
fn seeded_builder_holds_the_values_given() {
    let builder = VacuumLoBuilder::from_values("/bin", "db.example", 6543, "me", "pw");
    assert_eq!(builder.get_program_dir(), &Some("/bin".to_string()));
    assert_eq!(
        builder.get_args(),
        strings(&["--host", "db.example", "--port", "6543", "--username", "me"])
    );
    assert_eq!(
        builder.get_envs(),
        vec![("PGPASSWORD".to_string(), "pw".to_string())]
    );
}

#[test]
fn vacuumlo_renders_under_its_directory() {
    let command = VacuumLoBuilder::new().program_dir(".").build();
    assert_eq!(command.to_command_string(), r#""./vacuumlo""#);
    assert!(command.get_args().is_empty());
}

#[test]
fn vacuumlo_renders_connection_settings() {
    let command = VacuumLoBuilder::new()
        .host("localhost")
        .port(5432)
        .username("postgres")
        .pg_password("password")
        .build();
    assert_eq!(
        command.to_command_string(),
        r#"PGPASSWORD="password" "vacuumlo" "--host" "localhost" "--port" "5432" "--username" "postgres""#
    );
}
