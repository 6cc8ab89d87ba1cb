//! Database users: the statements that manage them, the command lines of the
//! database clients, and the reading of the clients' output.

use vstd::prelude::*;
use crate::templates::{fill, interleave, str_views};
use crate::text::{
    decimal, decimal_string, is_ws, lines, split_lines, split_words, text_eq, trim, trimmed, views,
    words,
};

verus! {

/// A database account.
pub struct DbUser {
    pub username: String,
    pub host: String,
}

impl View for DbUser {
    type V = (Seq<char>, Seq<char>);

    open spec fn view(&self) -> (Seq<char>, Seq<char>) {
        (self.username@, self.host@)
    }
}

/// The contents of a list of accounts.
pub open spec fn user_views(v: Seq<DbUser>) -> Seq<(Seq<char>, Seq<char>)> {
    v.map_values(|u: DbUser| u@)
}

/// The database servers whose accounts the stack manages.
pub enum DbEngine {
    MariaDb,
    Postgresql,
}

/// What is done to an account.
pub enum DbAction {
    Create,
    Delete,
    ChangePassword,
}

/// The engine the runtime name `runtime` stands for, if any.
pub fn db_engine(runtime: &str) -> (r: Option<DbEngine>)
    ensures
        r == if runtime@ == "mariadb"@ {
            Some(DbEngine::MariaDb)
        } else if runtime@ == "postgresql"@ {
            Some(DbEngine::Postgresql)
        } else {
            None
        },
{
    if text_eq(runtime, "mariadb") {
        Some(DbEngine::MariaDb)
    } else if text_eq(runtime, "postgresql") {
        Some(DbEngine::Postgresql)
    } else {
        None
    }
}

// ---------------------------------------------------------------------------
// Reading the clients' output
// ---------------------------------------------------------------------------

/// The accounts listed by `mysql -s -N`: each line with at least two words
/// gives the account of its first word at the host of its second.
pub open spec fn mariadb_users_of(ls: Seq<Seq<char>>) -> Seq<(Seq<char>, Seq<char>)>
    decreases ls.len(),
{
    if ls.len() == 0 {
        Seq::empty()
    } else {
        let prev = mariadb_users_of(ls.drop_last());
        let ws = words(ls.last());
        if ws.len() >= 2 {
            prev.push((ws[0], ws[1]))
        } else {
            prev
        }
    }
}

/// The accounts listed by `psql -t`: each line that is not blank gives the
/// account of its trimmed text, at `localhost`.
pub open spec fn postgres_users_of(ls: Seq<Seq<char>>) -> Seq<(Seq<char>, Seq<char>)>
    decreases ls.len(),
{
    if ls.len() == 0 {
        Seq::empty()
    } else {
        let prev = postgres_users_of(ls.drop_last());
        let u = trimmed(ls.last());
        if u.len() > 0 {
            prev.push((u, "localhost"@))
        } else {
            prev
        }
    }
}

/// The accounts in the output of the MariaDB client.
pub fn parse_mariadb_users(output: &str) -> (r: Vec<DbUser>)
    ensures
        user_views(r@) == mariadb_users_of(lines(output@)),
{
    let ls = split_lines(output);
    let ghost all = views(ls@);
    let mut users: Vec<DbUser> = Vec::new();
    let mut i: usize = 0;
    assert(all.take(0) =~= Seq::<Seq<char>>::empty());
    while i < ls.len()
        invariant
            all == views(ls@),
            all == lines(output@),
            i <= ls.len(),
            user_views(users@) == mariadb_users_of(all.take(i as int)),
        decreases ls.len() - i,
    {
        proof {
            assert(all.take(i + 1).drop_last() =~= all.take(i as int));
            assert(all.take(i + 1).last() == ls@[i as int]@);
        }
        let parts = split_words(ls[i].as_str());
        let ghost before = user_views(users@);
        if parts.len() >= 2 {
            let u = DbUser { username: parts[0].clone(), host: parts[1].clone() };
            users.push(u);
            proof {
                assert(views(parts@)[0] == parts@[0]@);
                assert(views(parts@)[1] == parts@[1]@);
                assert(user_views(users@) =~= before.push((parts@[0]@, parts@[1]@)));
            }
        }
        i = i + 1;
    }
    assert(all.take(ls.len() as int) =~= all);
    users
}

/// The accounts in the output of the PostgreSQL client.
pub fn parse_postgres_users(output: &str) -> (r: Vec<DbUser>)
    ensures
        user_views(r@) == postgres_users_of(lines(output@)),
{
    let ls = split_lines(output);
    let ghost all = views(ls@);
    let mut users: Vec<DbUser> = Vec::new();
    let mut i: usize = 0;
    assert(all.take(0) =~= Seq::<Seq<char>>::empty());
    while i < ls.len()
        invariant
            all == views(ls@),
            all == lines(output@),
            i <= ls.len(),
            user_views(users@) == postgres_users_of(all.take(i as int)),
        decreases ls.len() - i,
    {
        proof {
            assert(all.take(i + 1).drop_last() =~= all.take(i as int));
            assert(all.take(i + 1).last() == ls@[i as int]@);
        }
        let name = trim(ls[i].as_str());
        let ghost before = user_views(users@);
        if !name.as_str().is_empty() {
            let u = DbUser { username: name, host: "localhost".to_owned() };
            users.push(u);
            proof {
                assert(user_views(users@) =~= before.push((trimmed(all[i as int]), "localhost"@)));
            }
        }
        i = i + 1;
    }
    assert(all.take(ls.len() as int) =~= all);
    users
}

/// Every account read from the MariaDB client's output has a non-empty
/// name and host without whitespace.
pub proof fn law_mariadb_users_are_words(ls: Seq<Seq<char>>)
    ensures
        forall|i: int|
            0 <= i < mariadb_users_of(ls).len() ==> {
                let u = #[trigger] mariadb_users_of(ls)[i];
                &&& u.0.len() > 0
                &&& u.1.len() > 0
                &&& forall|k: int| 0 <= k < u.0.len() ==> !is_ws(u.0[k])
                &&& forall|k: int| 0 <= k < u.1.len() ==> !is_ws(u.1[k])
            },
    decreases ls.len(),
{
    if ls.len() > 0 {
        law_mariadb_users_are_words(ls.drop_last());
        let ws = words(ls.last());
        crate::text::law_words_are_clean(ls.last());
        let prev = mariadb_users_of(ls.drop_last());
        if ws.len() >= 2 {
            assert forall|i: int| 0 <= i < mariadb_users_of(ls).len() implies {
                let u = #[trigger] mariadb_users_of(ls)[i];
                &&& u.0.len() > 0
                &&& u.1.len() > 0
                &&& forall|k: int| 0 <= k < u.0.len() ==> !is_ws(u.0[k])
                &&& forall|k: int| 0 <= k < u.1.len() ==> !is_ws(u.1[k])
            } by {
                if i < prev.len() {
                    assert(mariadb_users_of(ls)[i] == prev[i]);
                } else {
                    let u = mariadb_users_of(ls)[i];
                    assert(u == (ws[0], ws[1]));
                    assert(ws[0].len() > 0);
                    assert(ws[1].len() > 0);
                    assert forall|k: int| 0 <= k < u.0.len() implies !is_ws(u.0[k]) by {
                        assert(!is_ws(ws[0][k]));
                    }
                    assert forall|k: int| 0 <= k < u.1.len() implies !is_ws(u.1[k]) by {
                        assert(!is_ws(ws[1][k]));
                    }
                }
            }
        }
    }
}

/// Every account read from the PostgreSQL client's output is at
/// `localhost` and has a non-empty name without surrounding whitespace.
pub proof fn law_postgres_users_are_trimmed(ls: Seq<Seq<char>>)
    ensures
        forall|i: int|
            0 <= i < postgres_users_of(ls).len() ==> {
                let u = #[trigger] postgres_users_of(ls)[i];
                &&& u.1 == "localhost"@
                &&& u.0.len() > 0
                &&& !is_ws(u.0[0])
                &&& !is_ws(u.0.last())
            },
    decreases ls.len(),
{
    if ls.len() > 0 {
        law_postgres_users_are_trimmed(ls.drop_last());
        crate::text::law_trim_is_clean(ls.last());
        let prev = postgres_users_of(ls.drop_last());
        assert forall|i: int| 0 <= i < postgres_users_of(ls).len() implies {
            let u = #[trigger] postgres_users_of(ls)[i];
            &&& u.1 == "localhost"@
            &&& u.0.len() > 0
            &&& !is_ws(u.0[0])
            &&& !is_ws(u.0.last())
        } by {
            if i < prev.len() {
                assert(postgres_users_of(ls)[i] == prev[i]);
            }
        }
    }
}

/// Each line of the MariaDB client's output stands for itself: a line with
/// at least two words gives exactly one account, of its first word at the
/// host of its second, whatever came before it; any other line gives none.
/// The accounts of a whole output are those of its parts, in order.
pub proof fn law_mariadb_users_by_line(ls: Seq<Seq<char>>, more: Seq<Seq<char>>, l: Seq<char>)
    ensures
        words(l).len() >= 2 ==> mariadb_users_of(ls.push(l)) == mariadb_users_of(ls).push(
            (words(l)[0], words(l)[1]),
        ),
        words(l).len() < 2 ==> mariadb_users_of(ls.push(l)) == mariadb_users_of(ls),
        mariadb_users_of(ls + more) == mariadb_users_of(ls) + mariadb_users_of(more),
    decreases more.len(),
{
    assert(ls.push(l).drop_last() =~= ls);
    if more.len() == 0 {
        assert(ls + more =~= ls);
        assert(mariadb_users_of(ls) + mariadb_users_of(more) =~= mariadb_users_of(ls));
    } else {
        law_mariadb_users_by_line(ls, more.drop_last(), l);
        assert((ls + more).drop_last() =~= ls + more.drop_last());
        assert((ls + more).last() == more.last());
        let w = words(more.last());
        if w.len() >= 2 {
            assert(mariadb_users_of(ls) + mariadb_users_of(more.drop_last()).push((w[0], w[1]))
                =~= (mariadb_users_of(ls) + mariadb_users_of(more.drop_last())).push((w[0], w[1])));
        }
    }
}

/// Whether a line of the MariaDB client's output names an account: it has
/// at least two words.
pub open spec fn mariadb_account_line() -> spec_fn(Seq<char>) -> bool {
    |l: Seq<char>| words(l).len() >= 2
}

/// The MariaDB client's output lists one account per line of at least two
/// words, in the order of those lines, each the line's first word at the
/// host of its second word; every other line lists none. So there are as
/// many accounts as such lines, two of which may share a user name.
pub proof fn law_mariadb_one_account_per_line(ls: Seq<Seq<char>>)
    ensures
        mariadb_users_of(ls).len() == ls.filter(mariadb_account_line()).len(),
        forall|i: int|
            0 <= i < mariadb_users_of(ls).len() ==> #[trigger] mariadb_users_of(ls)[i] == (
                words(ls.filter(mariadb_account_line())[i])[0],
                words(ls.filter(mariadb_account_line())[i])[1],
            ),
    decreases ls.len(),
{
    let p = mariadb_account_line();
    if ls.len() == 0 {
        reveal(Seq::filter);
        assert(ls.filter(p) =~= Seq::<Seq<char>>::empty());
    } else {
        let init = ls.drop_last();
        law_mariadb_one_account_per_line(init);
        assert(init.push(ls.last()) =~= ls);
        init.lemma_filter_push(ls.last(), p);
        let prev = mariadb_users_of(init);
        assert(mariadb_users_of(ls) == if words(ls.last()).len() >= 2 {
            prev.push((words(ls.last())[0], words(ls.last())[1]))
        } else {
            prev
        });
        assert forall|i: int| 0 <= i < mariadb_users_of(ls).len() implies #[trigger] mariadb_users_of(ls)[i] == (
            words(ls.filter(p)[i])[0],
            words(ls.filter(p)[i])[1],
        ) by {
            if i < prev.len() {
                assert(mariadb_users_of(ls)[i] == prev[i]);
                assert(ls.filter(p)[i] == init.filter(p)[i]);
            }
        }
    }
}

/// Each line of the PostgreSQL client's output stands for itself: a line
/// that is not blank gives exactly one account, of its trimmed text at
/// `localhost`, whatever came before it; a blank line gives none. The
/// accounts of a whole output are those of its parts, in order.
pub proof fn law_postgres_users_by_line(ls: Seq<Seq<char>>, more: Seq<Seq<char>>, l: Seq<char>)
    ensures
        trimmed(l).len() > 0 ==> postgres_users_of(ls.push(l)) == postgres_users_of(ls).push(
            (trimmed(l), "localhost"@),
        ),
        trimmed(l).len() == 0 ==> postgres_users_of(ls.push(l)) == postgres_users_of(ls),
        postgres_users_of(ls + more) == postgres_users_of(ls) + postgres_users_of(more),
    decreases more.len(),
{
    assert(ls.push(l).drop_last() =~= ls);
    if more.len() == 0 {
        assert(ls + more =~= ls);
        assert(postgres_users_of(ls) + postgres_users_of(more) =~= postgres_users_of(ls));
    } else {
        law_postgres_users_by_line(ls, more.drop_last(), l);
        assert((ls + more).drop_last() =~= ls + more.drop_last());
        assert((ls + more).last() == more.last());
        let u = trimmed(more.last());
        if u.len() > 0 {
            assert(postgres_users_of(ls) + postgres_users_of(more.drop_last()).push(
                (u, "localhost"@),
            ) =~= (postgres_users_of(ls) + postgres_users_of(more.drop_last())).push(
                (u, "localhost"@),
            ));
        }
    }
}

// ---------------------------------------------------------------------------
// Statements
// ---------------------------------------------------------------------------

pub const MARIADB_CREATE_0: &'static str = "CREATE USER '";
pub const MARIADB_CREATE_1: &'static str = "'@'%' IDENTIFIED BY '";
pub const MARIADB_CREATE_2: &'static str = "'; GRANT ALL PRIVILEGES ON *.* TO '";
pub const MARIADB_CREATE_3: &'static str = "'@'%' WITH GRANT OPTION; FLUSH PRIVILEGES;";
pub const POSTGRES_CREATE_0: &'static str = "CREATE ROLE \"";
pub const POSTGRES_CREATE_1: &'static str = "\" WITH LOGIN PASSWORD '";
pub const POSTGRES_CREATE_2: &'static str = "' SUPERUSER;";
pub const MARIADB_DROP_0: &'static str = "DROP USER IF EXISTS '";
pub const MARIADB_DROP_1: &'static str = "'@'%'; DROP USER IF EXISTS '";
pub const MARIADB_DROP_2: &'static str = "'@'localhost';";
pub const POSTGRES_DROP_0: &'static str = "DROP ROLE \"";
pub const POSTGRES_DROP_1: &'static str = "\";";
pub const MARIADB_ALTER_0: &'static str = "ALTER USER '";
pub const MARIADB_ALTER_1: &'static str = "'@'%' IDENTIFIED BY '";
pub const MARIADB_ALTER_2: &'static str = "'; FLUSH PRIVILEGES;";
pub const POSTGRES_ALTER_0: &'static str = "ALTER ROLE \"";
pub const POSTGRES_ALTER_1: &'static str = "\" WITH PASSWORD '";
pub const POSTGRES_ALTER_2: &'static str = "';";

/// The statement that does `action` to the account `user` (with password
/// `pass` where one is set), for `engine`. The texts are put in as given.
pub open spec fn statement_text(
    engine: DbEngine,
    action: DbAction,
    user: Seq<char>,
    pass: Seq<char>,
) -> Seq<char> {
    match (engine, action) {
        (DbEngine::MariaDb, DbAction::Create) => interleave(
            seq![MARIADB_CREATE_0@, MARIADB_CREATE_1@, MARIADB_CREATE_2@, MARIADB_CREATE_3@],
            seq![user, pass, user],
        ),
        (DbEngine::Postgresql, DbAction::Create) => interleave(
            seq![POSTGRES_CREATE_0@, POSTGRES_CREATE_1@, POSTGRES_CREATE_2@],
            seq![user, pass],
        ),
        (DbEngine::MariaDb, DbAction::Delete) => interleave(
            seq![MARIADB_DROP_0@, MARIADB_DROP_1@, MARIADB_DROP_2@],
            seq![user, user],
        ),
        (DbEngine::Postgresql, DbAction::Delete) => interleave(
            seq![POSTGRES_DROP_0@, POSTGRES_DROP_1@],
            seq![user],
        ),
        (DbEngine::MariaDb, DbAction::ChangePassword) => interleave(
            seq![MARIADB_ALTER_0@, MARIADB_ALTER_1@, MARIADB_ALTER_2@],
            seq![user, pass],
        ),
        (DbEngine::Postgresql, DbAction::ChangePassword) => interleave(
            seq![POSTGRES_ALTER_0@, POSTGRES_ALTER_1@, POSTGRES_ALTER_2@],
            seq![user, pass],
        ),
    }
}

/// The statement that does `action` to the account `user`.
pub fn account_statement(engine: &DbEngine, action: &DbAction, user: &str, pass: &str) -> (r:
    String)
    ensures
        r@ == statement_text(*engine, *action, user@, pass@),
{
    let (pieces, values): (Vec<&str>, Vec<&str>) = match (engine, action) {
        (DbEngine::MariaDb, DbAction::Create) => (
            vec![MARIADB_CREATE_0, MARIADB_CREATE_1, MARIADB_CREATE_2, MARIADB_CREATE_3],
            vec![user, pass, user],
        ),
        (DbEngine::Postgresql, DbAction::Create) => (
            vec![POSTGRES_CREATE_0, POSTGRES_CREATE_1, POSTGRES_CREATE_2],
            vec![user, pass],
        ),
        (DbEngine::MariaDb, DbAction::Delete) => (
            vec![MARIADB_DROP_0, MARIADB_DROP_1, MARIADB_DROP_2],
            vec![user, user],
        ),
        (DbEngine::Postgresql, DbAction::Delete) => (
            vec![POSTGRES_DROP_0, POSTGRES_DROP_1],
            vec![user],
        ),
        (DbEngine::MariaDb, DbAction::ChangePassword) => (
            vec![MARIADB_ALTER_0, MARIADB_ALTER_1, MARIADB_ALTER_2],
            vec![user, pass],
        ),
        (DbEngine::Postgresql, DbAction::ChangePassword) => (
            vec![POSTGRES_ALTER_0, POSTGRES_ALTER_1, POSTGRES_ALTER_2],
            vec![user, pass],
        ),
    };
    proof {
        match (engine, action) {
            (DbEngine::MariaDb, DbAction::Create) => {
                assert(str_views(pieces@) =~= seq![
                    MARIADB_CREATE_0@,
                    MARIADB_CREATE_1@,
                    MARIADB_CREATE_2@,
                    MARIADB_CREATE_3@,
                ]);
                assert(str_views(values@) =~= seq![user@, pass@, user@]);
            },
            (DbEngine::Postgresql, DbAction::Create) => {
                assert(str_views(pieces@) =~= seq![
                    POSTGRES_CREATE_0@,
                    POSTGRES_CREATE_1@,
                    POSTGRES_CREATE_2@,
                ]);
                assert(str_views(values@) =~= seq![user@, pass@]);
            },
            (DbEngine::MariaDb, DbAction::Delete) => {
                assert(str_views(pieces@) =~= seq![
                    MARIADB_DROP_0@,
                    MARIADB_DROP_1@,
                    MARIADB_DROP_2@,
                ]);
                assert(str_views(values@) =~= seq![user@, user@]);
            },
            (DbEngine::Postgresql, DbAction::Delete) => {
                assert(str_views(pieces@) =~= seq![POSTGRES_DROP_0@, POSTGRES_DROP_1@]);
                assert(str_views(values@) =~= seq![user@]);
            },
            (DbEngine::MariaDb, DbAction::ChangePassword) => {
                assert(str_views(pieces@) =~= seq![
                    MARIADB_ALTER_0@,
                    MARIADB_ALTER_1@,
                    MARIADB_ALTER_2@,
                ]);
                assert(str_views(values@) =~= seq![user@, pass@]);
            },
            (DbEngine::Postgresql, DbAction::ChangePassword) => {
                assert(str_views(pieces@) =~= seq![
                    POSTGRES_ALTER_0@,
                    POSTGRES_ALTER_1@,
                    POSTGRES_ALTER_2@,
                ]);
                assert(str_views(values@) =~= seq![user@, pass@]);
            },
        }
    }
    fill(&pieces, &values)
}

/// What a command on an account answers: its success message, or the
/// failure message of the engine and action when the client failed.
pub open spec fn outcome_text(engine: DbEngine, action: DbAction, succeeded: bool) -> Result<
    Seq<char>,
    Seq<char>,
> {
    if succeeded {
        Ok(
            match action {
                DbAction::Create => "User created"@,
                DbAction::Delete => "User deleted"@,
                DbAction::ChangePassword => "Password updated"@,
            },
        )
    } else {
        Err(
            match (engine, action) {
                (DbEngine::MariaDb, DbAction::Create) => "Failed to create MariaDB user"@,
                (DbEngine::Postgresql, DbAction::Create) => "Failed to create PostgreSQL user"@,
                (DbEngine::MariaDb, DbAction::Delete) => "Failed to delete MariaDB user"@,
                (DbEngine::Postgresql, DbAction::Delete) => "Failed to delete PostgreSQL user"@,
                (DbEngine::MariaDb, DbAction::ChangePassword) => "Failed to change MariaDB password"@,
                (DbEngine::Postgresql, DbAction::ChangePassword) =>
                    "Failed to change PostgreSQL password"@,
            },
        )
    }
}

/// The answer to a command on an account, given whether the client
/// succeeded.
pub fn account_outcome(engine: &DbEngine, action: &DbAction, succeeded: bool) -> (r: Result<
    String,
    String,
>)
    ensures
        match (r, outcome_text(*engine, *action, succeeded)) {
            (Ok(m), Ok(t)) => m@ == t,
            (Err(m), Err(t)) => m@ == t,
            _ => false,
        },
{
    if succeeded {
        Ok(
            match action {
                DbAction::Create => "User created".to_owned(),
                DbAction::Delete => "User deleted".to_owned(),
                DbAction::ChangePassword => "Password updated".to_owned(),
            },
        )
    } else {
        Err(
            match (engine, action) {
                (DbEngine::MariaDb, DbAction::Create) => "Failed to create MariaDB user".to_owned(),
                (DbEngine::Postgresql, DbAction::Create) =>
                    "Failed to create PostgreSQL user".to_owned(),
                (DbEngine::MariaDb, DbAction::Delete) => "Failed to delete MariaDB user".to_owned(),
                (DbEngine::Postgresql, DbAction::Delete) =>
                    "Failed to delete PostgreSQL user".to_owned(),
                (DbEngine::MariaDb, DbAction::ChangePassword) =>
                    "Failed to change MariaDB password".to_owned(),
                (DbEngine::Postgresql, DbAction::ChangePassword) =>
                    "Failed to change PostgreSQL password".to_owned(),
            },
        )
    }
}

/// The message of a command on an account that went through (or that had
/// nothing to do, for a runtime without accounts).
pub fn account_done_message(action: &DbAction) -> (r: String)
    ensures
        outcome_text(DbEngine::MariaDb, *action, true) == Ok::<Seq<char>, Seq<char>>(r@),
        outcome_text(DbEngine::Postgresql, *action, true) == Ok::<Seq<char>, Seq<char>>(r@),
{
    match action {
        DbAction::Create => "User created".to_owned(),
        DbAction::Delete => "User deleted".to_owned(),
        DbAction::ChangePassword => "Password updated".to_owned(),
    }
}

/// The accounts the client of `engine` listed: none when it failed,
/// otherwise those read from its output.
pub fn users_from_output(engine: &DbEngine, succeeded: bool, output: &str) -> (r: Vec<DbUser>)
    ensures
        user_views(r@) == if !succeeded {
            Seq::empty()
        } else {
            match engine {
                DbEngine::MariaDb => mariadb_users_of(lines(output@)),
                DbEngine::Postgresql => postgres_users_of(lines(output@)),
            }
        },
{
    if !succeeded {
        let r: Vec<DbUser> = Vec::new();
        assert(user_views(r@) =~= Seq::<(Seq<char>, Seq<char>)>::empty());
        r
    } else {
        match engine {
            DbEngine::MariaDb => parse_mariadb_users(output),
            DbEngine::Postgresql => parse_postgres_users(output),
        }
    }
}

// ---------------------------------------------------------------------------
// Command lines of the clients
// ---------------------------------------------------------------------------

/// The arguments of `mysql` that run `sql` as root over `socket`.
pub fn mariadb_client_args(socket: &str, sql: &str) -> (r: Vec<String>)
    ensures
        views(r@) == seq!["-u"@, "root"@, "--socket"@, socket@, "-e"@, sql@],
{
    let r = vec![
        "-u".to_owned(),
        "root".to_owned(),
        "--socket".to_owned(),
        socket.to_owned(),
        "-e".to_owned(),
        sql.to_owned(),
    ];
    assert(views(r@) =~= seq!["-u"@, "root"@, "--socket"@, socket@, "-e"@, sql@]);
    r
}

/// The arguments of `mysql` that list the accounts, without headers.
pub fn mariadb_list_args(socket: &str) -> (r: Vec<String>)
    ensures
        views(r@) == seq![
            "-u"@,
            "root"@,
            "--socket"@,
            socket@,
            "-s"@,
            "-N"@,
            "-e"@,
            "SELECT User, Host FROM mysql.user"@,
        ],
{
    let r = vec![
        "-u".to_owned(),
        "root".to_owned(),
        "--socket".to_owned(),
        socket.to_owned(),
        "-s".to_owned(),
        "-N".to_owned(),
        "-e".to_owned(),
        "SELECT User, Host FROM mysql.user".to_owned(),
    ];
    assert(views(r@) =~= seq![
        "-u"@,
        "root"@,
        "--socket"@,
        socket@,
        "-s"@,
        "-N"@,
        "-e"@,
        "SELECT User, Host FROM mysql.user"@,
    ]);
    r
}

/// The arguments of `psql` that run `sql` as `postgres` on local `port`.
pub fn postgres_client_args(port: u16, sql: &str) -> (r: Vec<String>)
    ensures
        views(r@) == seq![
            "-h"@,
            "127.0.0.1"@,
            "-p"@,
            decimal(port as nat),
            "-U"@,
            "postgres"@,
            "-c"@,
            sql@,
        ],
{
    let r = vec![
        "-h".to_owned(),
        "127.0.0.1".to_owned(),
        "-p".to_owned(),
        decimal_string(port as u64),
        "-U".to_owned(),
        "postgres".to_owned(),
        "-c".to_owned(),
        sql.to_owned(),
    ];
    assert(views(r@) =~= seq![
        "-h"@,
        "127.0.0.1"@,
        "-p"@,
        decimal(port as nat),
        "-U"@,
        "postgres"@,
        "-c"@,
        sql@,
    ]);
    r
}

/// The arguments of `psql` that list the accounts, tuples only.
pub fn postgres_list_args(port: u16) -> (r: Vec<String>)
    ensures
        views(r@) == seq![
            "-h"@,
            "127.0.0.1"@,
            "-p"@,
            decimal(port as nat),
            "-U"@,
            "postgres"@,
            "-t"@,
            "-c"@,
            "SELECT usename FROM pg_user"@,
        ],
{
    let r = vec![
        "-h".to_owned(),
        "127.0.0.1".to_owned(),
        "-p".to_owned(),
        decimal_string(port as u64),
        "-U".to_owned(),
        "postgres".to_owned(),
        "-t".to_owned(),
        "-c".to_owned(),
        "SELECT usename FROM pg_user".to_owned(),
    ];
    assert(views(r@) =~= seq![
        "-h"@,
        "127.0.0.1"@,
        "-p"@,
        decimal(port as nat),
        "-U"@,
        "postgres"@,
        "-t"@,
        "-c"@,
        "SELECT usename FROM pg_user"@,
    ]);
    r
}

/// The arguments of `mysql_install_db` for a fresh data directory.
pub fn mariadb_install_args(data_dir: &str, base_dir: &str) -> (r: Vec<String>)
    ensures
        views(r@) == seq![
            "--datadir="@ + data_dir@,
            "--basedir="@ + base_dir@,
            "--auth-root-authentication-method=normal"@,
        ],
{
    let mut d = "--datadir=".to_owned();
    d.append(data_dir);
    let mut b = "--basedir=".to_owned();
    b.append(base_dir);
    let r = vec![d, b, "--auth-root-authentication-method=normal".to_owned()];
    assert(views(r@) =~= seq![
        "--datadir="@ + data_dir@,
        "--basedir="@ + base_dir@,
        "--auth-root-authentication-method=normal"@,
    ]);
    r
}

/// The arguments of `initdb` for a fresh data directory.
pub fn postgres_init_args(data_dir: &str) -> (r: Vec<String>)
    ensures
        views(r@) == seq!["-D"@, data_dir@, "-U"@, "postgres"@, "-E"@, "UTF8"@, "--locale=C"@],
{
    let r = vec![
        "-D".to_owned(),
        data_dir.to_owned(),
        "-U".to_owned(),
        "postgres".to_owned(),
        "-E".to_owned(),
        "UTF8".to_owned(),
        "--locale=C".to_owned(),
    ];
    assert(views(r@) =~= seq!["-D"@, data_dir@, "-U"@, "postgres"@, "-E"@, "UTF8"@, "--locale=C"@]);
    r
}

/// The message of a failed data directory initialisation, with the
/// client's error output.
pub fn init_failure_message(engine: &DbEngine, stderr: &str) -> (r: String)
    ensures
        r@ == match engine {
            DbEngine::MariaDb => "MariaDB init failed: "@ + stderr@,
            DbEngine::Postgresql => "Postgres init failed: "@ + stderr@,
        },
{
    let mut r = match engine {
        DbEngine::MariaDb => "MariaDB init failed: ".to_owned(),
        DbEngine::Postgresql => "Postgres init failed: ".to_owned(),
    };
    r.append(stderr);
    r
}

} // verus!
