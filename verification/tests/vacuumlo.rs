use postgresql_commands::traits::{CommandBuilder, CommandToString, Settings};
use postgresql_commands::vacuumlo::VacuumLoBuilder;

struct TestSettings;

impl Settings for TestSettings {
    fn get_binary_dir(&self) -> String {
        ".".to_string()
    }

    fn get_host(&self) -> String {
        "localhost".to_string()
    }

    fn get_port(&self) -> u16 {
        5432
    }

    fn get_username(&self) -> String {
        "postgres".to_string()
    }

    fn get_password(&self) -> String {
        "password".to_string()
    }
}

#[test]
fn vacuumlo_test_builder_new() {
    let command = VacuumLoBuilder::new().program_dir(".").build();
    assert_eq!(
        std::path::PathBuf::from(".").join("vacuumlo"),
        std::path::PathBuf::from(command.to_command_string().replace('"', ""))
    );
}

#[test]
fn test_builder_from() {
    let command = VacuumLoBuilder::from(&TestSettings).build();
    assert_eq!(
        r#"PGPASSWORD="password" "./vacuumlo" "--host" "localhost" "--port" "5432" "--username" "postgres""#,
        command.to_command_string()
    )
}

#[test]
fn vacuumlo_test_builder() {
    let command = VacuumLoBuilder::new()
        .limit(100)
        .dry_run()
        .verbose()
        .version()
        .help()
        .host("localhost")
        .port(5432)
        .username("postgres")
        .no_password()
        .password()
        .pg_password("password")
        .build();

    assert_eq!(
        r#"PGPASSWORD="password" "vacuumlo" "--limit" "100" "--dry-run" "--verbose" "--version" "--help" "--host" "localhost" "--port" "5432" "--username" "postgres" "--no-password" "--password""#,
        command.to_command_string()
    );
}

struct OtherSettings {
    port: u16,
}

impl Settings for OtherSettings {
    fn get_binary_dir(&self) -> String {
        "/opt/pg/bin/".to_string()
    }

    fn get_host(&self) -> String {
        "db.example.org".to_string()
    }

    fn get_port(&self) -> u16 {
        self.port
    }

    fn get_username(&self) -> String {
        "admin".to_string()
    }

    fn get_password(&self) -> String {
        "p w".to_string()
    }
}

#[test]
fn builder_from_takes_each_value_from_its_accessor() {
    let builder = VacuumLoBuilder::from(&OtherSettings { port: 6543 });
    assert_eq!(builder.get_program_dir(), &Some("/opt/pg/bin/".to_string()));
    assert_eq!(
        builder.get_args(),
        vec![
            "--host".to_string(),
            "db.example.org".to_string(),
            "--port".to_string(),
            "6543".to_string(),
            "--username".to_string(),
            "admin".to_string(),
        ]
    );
    assert_eq!(
        builder.get_envs(),
        vec![("PGPASSWORD".to_string(), "p w".to_string())]
    );
    assert_eq!(
        builder.build().to_command_string(),
        r#"PGPASSWORD="p w" "/opt/pg/bin/vacuumlo" "--host" "db.example.org" "--port" "6543" "--username" "admin""#
    );
}

#[test]
fn builder_from_takes_a_trait_object() {
    let settings: Box<dyn Settings> = Box::new(OtherSettings { port: 1 });
    let by_object = VacuumLoBuilder::from(settings.as_ref());
    let by_value = VacuumLoBuilder::from(&OtherSettings { port: 1 });
    assert_eq!(by_object.get_args(), by_value.get_args());
    assert_eq!(by_object.get_envs(), by_value.get_envs());
    assert_eq!(by_object.get_program_dir(), by_value.get_program_dir());
}
