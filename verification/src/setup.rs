//! The database: how it is reached and how it is put back to its first state.
use crate::model::{CommentRowView, PostRowView, UserView};
use crate::reply::{status_reply, Reply, OK};
use crate::text::{parse_u16, u16_text};
use vstd::prelude::*;
use vstd::string::*;

verus! {

/// The statement that each new connection starts with: times are exchanged in UTC.
pub const CONNECT_STATEMENT: &'static str = "SET time_zone = '+00:00'";

/// How the database is reached.
#[derive(Debug)]
pub struct DbConfig {
    pub host: String,
    pub port: u16,
    pub user: String,
    pub password: String,
    pub name: String,
}

pub struct DbConfigView {
    pub host: Seq<char>,
    pub port: u16,
    pub user: Seq<char>,
    pub password: Seq<char>,
    pub name: Seq<char>,
}

impl DeepView for DbConfig {
    type V = DbConfigView;

    open spec fn deep_view(&self) -> DbConfigView {
        DbConfigView {
            host: self.host@,
            port: self.port,
            user: self.user@,
            password: self.password@,
            name: self.name@,
        }
    }
}

/// A setting, or what holds where it is not made.
pub open spec fn setting(value: Option<Seq<char>>, default: Seq<char>) -> Seq<char> {
    match value {
        Some(v) => v,
        None => default,
    }
}

/// The port in a setting. One that is not a port number counts as not made.
pub open spec fn port_setting(value: Option<Seq<char>>) -> u16 {
    match value {
        Some(v) => match u16_text(v) {
            Some(port) => port,
            None => 3306,
        },
        None => 3306,
    }
}

fn setting_or(value: Option<String>, default: &str) -> (r: String)
    ensures
        r@ == setting(value.deep_view(), default@),
{
    match value {
        Some(v) => v,
        None => default.to_owned(),
    }
}

/// How the database is reached, given the settings that are made.
pub fn db_config(
    host: Option<String>,
    port: Option<String>,
    user: Option<String>,
    password: Option<String>,
    name: Option<String>,
) -> (r: DbConfig)
    ensures
        r.deep_view() == (DbConfigView {
            host: setting(host.deep_view(), "localhost"@),
            port: port_setting(port.deep_view()),
            user: setting(user.deep_view(), "root"@),
            password: setting(password.deep_view(), ""@),
            name: setting(name.deep_view(), "isuconp"@),
        }),
{
    let port: u16 = match port {
        Some(text) => match parse_u16(text.as_str()) {
            Some(port) => port,
            None => 3306,
        },
        None => 3306,
    };
    DbConfig {
        host: setting_or(host, "localhost"),
        port,
        user: setting_or(user, "root"),
        password: setting_or(password, ""),
        name: setting_or(name, "isuconp"),
    }
}

/// The statements that put the database back to its first state, in order: rows that were added
/// are removed, and one user in fifty is banned.
pub open spec fn initialize_statements() -> Seq<Seq<char>> {
    seq![
        "DELETE FROM users WHERE id > 1000"@,
        "DELETE FROM posts WHERE id > 10000"@,
        "DELETE FROM comments WHERE id > 100000"@,
        "UPDATE users SET del_flg = 0"@,
        "UPDATE users SET del_flg = 1 WHERE id % 50 = 0"@,
    ]
}

/// What a request to put the database back leads to: statements, each carried out whether or not
/// the ones before it succeeded, and the reply that follows them.
#[derive(Debug)]
pub struct Initialize {
    pub statements: Vec<&'static str>,
    pub reply: Reply,
}

/// Takes a request to put the database back to its first state.
pub fn get_initialize() -> (r: Initialize)
    ensures
        r.statements.deep_view() == initialize_statements(),
        r.reply.deep_view() == status_reply(OK),
{
    let statements: Vec<&'static str> = vec![
        "DELETE FROM users WHERE id > 1000",
        "DELETE FROM posts WHERE id > 10000",
        "DELETE FROM comments WHERE id > 100000",
        "UPDATE users SET del_flg = 0",
        "UPDATE users SET del_flg = 1 WHERE id % 50 = 0",
    ];
    assert(statements.deep_view() =~= initialize_statements());
    Initialize { statements, reply: Reply::status(OK) }
}

// ---------- laws ----------

/// The rows of the three tables, by their numbers.
pub struct Tables {
    pub users: Map<i32, UserView>,
    pub posts: Map<i32, PostRowView>,
    pub comments: Map<i32, CommentRowView>,
}

/// The rows whose number is at most `limit`.
pub open spec fn up_to<T>(rows: Map<i32, T>, limit: int) -> Map<i32, T> {
    rows.restrict(Set::new(|id: i32| id <= limit))
}

/// The users after those for whom `chosen` holds have been given the flag `flg`.
pub open spec fn flagged(
    users: Map<i32, UserView>,
    chosen: spec_fn(i32) -> bool,
    flg: i8,
) -> Map<i32, UserView> {
    users.map_entries(
        |id: i32, u: UserView|
            if chosen(id) {
                UserView { del_flg: flg, ..u }
            } else {
                u
            },
    )
}

/// What one of the statements does to the tables.
pub open spec fn carried_out(statement: Seq<char>, t: Tables) -> Tables {
    if statement == "DELETE FROM users WHERE id > 1000"@ {
        Tables { users: up_to(t.users, 1000), ..t }
    } else if statement == "DELETE FROM posts WHERE id > 10000"@ {
        Tables { posts: up_to(t.posts, 10000), ..t }
    } else if statement == "DELETE FROM comments WHERE id > 100000"@ {
        Tables { comments: up_to(t.comments, 100000), ..t }
    } else if statement == "UPDATE users SET del_flg = 0"@ {
        Tables { users: flagged(t.users, |id: i32| true, 0), ..t }
    } else if statement == "UPDATE users SET del_flg = 1 WHERE id % 50 = 0"@ {
        Tables { users: flagged(t.users, |id: i32| id as int % 50 == 0, 1), ..t }
    } else {
        t
    }
}

/// What the statements do to the tables, one after the other.
pub open spec fn all_carried_out(statements: Seq<Seq<char>>, t: Tables) -> Tables
    decreases statements.len(),
{
    if statements.len() == 0 {
        t
    } else {
        carried_out(statements.last(), all_carried_out(statements.drop_last(), t))
    }
}

/// A user is banned in the first state if and only if the user's number is a multiple of fifty.
pub open spec fn first_flag(id: i32) -> i8 {
    if id as int % 50 == 0 {
        1
    } else {
        0
    }
}

/// The first state of the tables: rows above the limits are gone, the others are kept, and of the
/// users only the flag is set anew.
pub open spec fn first_state(t: Tables) -> Tables {
    Tables {
        users: up_to(t.users, 1000).map_entries(
            |id: i32, u: UserView| UserView { del_flg: first_flag(id), ..u },
        ),
        posts: up_to(t.posts, 10000),
        comments: up_to(t.comments, 100000),
    }
}

/// Where all statements succeed, they put the tables back to their first state.
pub proof fn law_initialize(t: Tables)
    ensures
        all_carried_out(initialize_statements(), t) == first_state(t),
{
    reveal_strlit("DELETE FROM users WHERE id > 1000");
    reveal_strlit("DELETE FROM posts WHERE id > 10000");
    reveal_strlit("DELETE FROM comments WHERE id > 100000");
    reveal_strlit("UPDATE users SET del_flg = 0");
    reveal_strlit("UPDATE users SET del_flg = 1 WHERE id % 50 = 0");
    reveal_with_fuel(all_carried_out, 6);
    let s = initialize_statements();
    let t1 = carried_out(s[0], t);
    let t2 = carried_out(s[1], t1);
    let t3 = carried_out(s[2], t2);
    let t4 = carried_out(s[3], t3);
    let t5 = carried_out(s[4], t4);
    assert(all_carried_out(s, t) == t5);
    assert(s[0].len() < s[1].len() < s[2].len() < s[4].len() && s[3].len() < s[0].len());
    let kept = up_to(t.users, 1000);
    let unflagged = flagged(kept, |id: i32| true, 0);
    assert(t4.users == unflagged);
    assert(t5.users == flagged(unflagged, |id: i32| id as int % 50 == 0, 1));
    assert forall|id: i32| kept.contains_key(id) implies #[trigger] t5.users[id] == first_state(
        t,
    ).users[id] by {
        assert(unflagged[id] == (UserView { del_flg: 0, ..kept[id] }));
    }
    assert(t5.users =~= first_state(t).users);
}

/// In the first state there are no rows above the limits, the rows up to the limits are there, and
/// each user's flag is 1 if the user's number is a multiple of fifty and 0 otherwise.
pub proof fn law_first_state(t: Tables)
    ensures
        ({
            let f = first_state(t);
            &&& forall|id: i32| #[trigger]
                f.users.contains_key(id) <==> t.users.contains_key(id) && id <= 1000
            &&& forall|id: i32| #[trigger]
                f.users.contains_key(id) ==> f.users[id] == (UserView {
                    del_flg: if id as int % 50 == 0 {
                        1
                    } else {
                        0
                    },
                    ..t.users[id]
                })
            &&& forall|id: i32| #[trigger]
                f.posts.contains_key(id) <==> t.posts.contains_key(id) && id <= 10000
            &&& forall|id: i32| #[trigger]
                f.posts.contains_key(id) ==> f.posts[id] == t.posts[id]
            &&& forall|id: i32| #[trigger]
                f.comments.contains_key(id) <==> t.comments.contains_key(id) && id <= 100000
            &&& forall|id: i32| #[trigger]
                f.comments.contains_key(id) ==> f.comments[id] == t.comments[id]
        }),
{
}

/// Putting the database back twice is putting it back once.
pub proof fn law_initialize_twice(t: Tables)
    ensures
        all_carried_out(initialize_statements(), all_carried_out(initialize_statements(), t))
            == all_carried_out(initialize_statements(), t),
{
    law_initialize(t);
    law_initialize(first_state(t));
    let once = first_state(t);
    let twice = first_state(once);
    assert(twice.users =~= once.users);
    assert(twice.posts =~= once.posts);
    assert(twice.comments =~= once.comments);
}

/// What is known of how the database is reached is all of it.
pub proof fn law_config_view(c: DbConfig)
    ensures
        c.deep_view().host == c.host@,
        c.deep_view().port == c.port,
        c.deep_view().user == c.user@,
        c.deep_view().password == c.password@,
        c.deep_view().name == c.name@,
{
}

/// A setting that is made counts as it is, and a port that is a port number counts as that number;
/// else the default counts.
pub proof fn law_settings(value: Seq<char>, default: Seq<char>)
    ensures
        setting(Some(value), default) == value,
        setting(None, default) == default,
        u16_text(value) matches Some(port) ==> port_setting(Some(value)) == port,
        u16_text(value) is None ==> port_setting(Some(value)) == 3306,
        port_setting(None) == 3306,
{
}

} // verus!
