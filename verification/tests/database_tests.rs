use lekstack::database::{
    account_done_message, users_from_output, account_outcome, account_statement, db_engine, init_failure_message, mariadb_client_args,
    mariadb_install_args, mariadb_list_args, parse_mariadb_users, parse_postgres_users,
    postgres_client_args, postgres_init_args, postgres_list_args, DbAction, DbEngine,
};

fn pairs(users: Vec<lekstack::database::DbUser>) -> Vec<(String, String)> {
    users.into_iter().map(|u| (u.username, u.host)).collect()
}

#[test]
fn mariadb_output_is_read() {
    let out = "root\tlocalhost\napp\t%\n\nlonely\n  spaced   host  extra\r\n";
    assert_eq!(
        pairs(parse_mariadb_users(out)),
        vec![
            ("root".to_string(), "localhost".to_string()),
            ("app".to_string(), "%".to_string()),
            ("spaced".to_string(), "host".to_string()),
        ]
    );
    assert!(parse_mariadb_users("").is_empty());
}

#[test]
fn postgres_output_is_read() {
    let out = " postgres\n app \n\n   \n";
    assert_eq!(
        pairs(parse_postgres_users(out)),
        vec![
            ("postgres".to_string(), "localhost".to_string()),
            ("app".to_string(), "localhost".to_string()),
        ]
    );
}

#[test]
fn engines() {
    assert!(matches!(db_engine("mariadb"), Some(DbEngine::MariaDb)));
    assert!(matches!(db_engine("postgresql"), Some(DbEngine::Postgresql)));
    assert!(db_engine("mysql").is_none());
}

#[test]
fn statements() {
    assert_eq!(
        account_statement(&DbEngine::MariaDb, &DbAction::Create, "bob", "pw"),
        "CREATE USER 'bob'@'%' IDENTIFIED BY 'pw'; GRANT ALL PRIVILEGES ON *.* TO 'bob'@'%' WITH GRANT OPTION; FLUSH PRIVILEGES;"
    );
    assert_eq!(
        account_statement(&DbEngine::Postgresql, &DbAction::Create, "bob", "pw"),
        "CREATE ROLE \"bob\" WITH LOGIN PASSWORD 'pw' SUPERUSER;"
    );
    assert_eq!(
        account_statement(&DbEngine::MariaDb, &DbAction::Delete, "bob", ""),
        "DROP USER IF EXISTS 'bob'@'%'; DROP USER IF EXISTS 'bob'@'localhost';"
    );
    assert_eq!(account_statement(&DbEngine::Postgresql, &DbAction::Delete, "bob", ""), "DROP ROLE \"bob\";");
    assert_eq!(
        account_statement(&DbEngine::MariaDb, &DbAction::ChangePassword, "bob", "new"),
        "ALTER USER 'bob'@'%' IDENTIFIED BY 'new'; FLUSH PRIVILEGES;"
    );
    assert_eq!(
        account_statement(&DbEngine::Postgresql, &DbAction::ChangePassword, "bob", "new"),
        "ALTER ROLE \"bob\" WITH PASSWORD 'new';"
    );
}

#[test]
fn outcomes() {
    assert_eq!(account_outcome(&DbEngine::MariaDb, &DbAction::Create, true), Ok("User created".to_string()));
    assert_eq!(account_outcome(&DbEngine::Postgresql, &DbAction::Delete, true), Ok("User deleted".to_string()));
    assert_eq!(
        account_outcome(&DbEngine::MariaDb, &DbAction::ChangePassword, true),
        Ok("Password updated".to_string())
    );
    assert_eq!(
        account_outcome(&DbEngine::MariaDb, &DbAction::Create, false),
        Err("Failed to create MariaDB user".to_string())
    );
    assert_eq!(
        account_outcome(&DbEngine::Postgresql, &DbAction::Create, false),
        Err("Failed to create PostgreSQL user".to_string())
    );
    assert_eq!(
        account_outcome(&DbEngine::MariaDb, &DbAction::Delete, false),
        Err("Failed to delete MariaDB user".to_string())
    );
    assert_eq!(
        account_outcome(&DbEngine::Postgresql, &DbAction::Delete, false),
        Err("Failed to delete PostgreSQL user".to_string())
    );
    assert_eq!(
        account_outcome(&DbEngine::MariaDb, &DbAction::ChangePassword, false),
        Err("Failed to change MariaDB password".to_string())
    );
    assert_eq!(
        account_outcome(&DbEngine::Postgresql, &DbAction::ChangePassword, false),
        Err("Failed to change PostgreSQL password".to_string())
    );
    assert_eq!(init_failure_message(&DbEngine::MariaDb, "boom"), "MariaDB init failed: boom");
    assert_eq!(init_failure_message(&DbEngine::Postgresql, "boom"), "Postgres init failed: boom");
}

#[test]
fn client_command_lines() {
    assert_eq!(mariadb_client_args("/s", "SQL"), vec!["-u", "root", "--socket", "/s", "-e", "SQL"]);
    assert_eq!(
        mariadb_list_args("/s"),
        vec!["-u", "root", "--socket", "/s", "-s", "-N", "-e", "SELECT User, Host FROM mysql.user"]
    );
    assert_eq!(
        postgres_client_args(5433, "SQL"),
        vec!["-h", "127.0.0.1", "-p", "5433", "-U", "postgres", "-c", "SQL"]
    );
    assert_eq!(
        postgres_list_args(5432),
        vec!["-h", "127.0.0.1", "-p", "5432", "-U", "postgres", "-t", "-c", "SELECT usename FROM pg_user"]
    );
    assert_eq!(
        mariadb_install_args("/d", "/b"),
        vec!["--datadir=/d", "--basedir=/b", "--auth-root-authentication-method=normal"]
    );
    assert_eq!(postgres_init_args("/d"), vec!["-D", "/d", "-U", "postgres", "-E", "UTF8", "--locale=C"]);
}

#[test]
fn listing_depends_on_client_success() {
    assert!(users_from_output(&DbEngine::MariaDb, false, "root localhost").is_empty());
    assert_eq!(pairs(users_from_output(&DbEngine::MariaDb, true, "root localhost")).len(), 1);
    assert_eq!(
        pairs(users_from_output(&DbEngine::Postgresql, true, " app ")),
        vec![("app".to_string(), "localhost".to_string())]
    );
    assert_eq!(account_done_message(&DbAction::Delete), "User deleted");
}
