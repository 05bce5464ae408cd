use postgresql_commands::pg_restore::PgRestoreBuilder;
use postgresql_commands::traits::{CommandBuilder, CommandToString};

#[test]
fn pg_restore_test_builder_new() {
    let command = PgRestoreBuilder::new().build();

    assert_eq!(r#""pg_restore""#, command.to_command_string());
}

#[test]
fn pg_restore_test_builder() {
    let command = PgRestoreBuilder::new()
        .program_dir("/usr/bin")
        .dbname("test")
        .file("test")
        .format("test")
        .list()
        .verbose()
        .version()
        .help()
        .data_only()
        .clean()
        .create()
        .exit_on_error()
        .index("test")
        .jobs("test")
        .use_list("test")
        .schema("test")
        .exclude_schema("test")
        .no_owner()
        .function("test")
        .schema_only()
        .superuser("test")
        .table("test")
        .trigger("test")
        .no_privileges()
        .single_transaction()
        .disable_triggers()
        .enable_row_security()
        .if_exists()
        .no_comments()
        .no_data_for_failed_tables()
        .no_publications()
        .no_security_labels()
        .no_subscriptions()
        .no_table_access_method()
        .no_tablespaces()
        .section("test")
        .strict_names()
        .use_set_session_authorization()
        .host("localhost")
        .port(5432)
        .username("test")
        .no_password()
        .password()
        .role("test")
        .build();

    assert_eq!(
        r#""/usr/bin/pg_restore" "--dbname" "test" "--file" "test" "--format" "test" "--list" "--verbose" "--version" "--help" "--data-only" "--clean" "--create" "--exit-on-error" "--index" "test" "--jobs" "test" "--use-list" "test" "--schema" "test" "--exclude-schema" "test" "--no-owner" "--function" "test" "--schema-only" "--superuser" "test" "--table" "test" "--trigger" "test" "--no-privileges" "--single-transaction" "--disable-triggers" "--enable-row-security" "--if-exists" "--no-comments" "--no-data-for-failed-tables" "--no-publications" "--no-security-labels" "--no-subscriptions" "--no-table-access-method" "--no-tablespaces" "--section" "test" "--strict-names" "--use-set-session-authorization" "--host" "localhost" "--port" "5432" "--username" "test" "--no-password" "--password" "--role" "test""#,
        command.to_command_string()
    );
}
