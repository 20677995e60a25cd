use iscogram::admin::{
    ban_form, banned_page, get_admin_banned, judge_bans, post_admin_banned, BanStep,
};
use iscogram::model::User;
use iscogram::query::Arg;
use iscogram::reply::{failure, redirect, Body, Page, Reply, Step};
use iscogram::session::{sign_in, SessionStore};
use iscogram::setup::{db_config, get_initialize, CONNECT_STATEMENT};

fn store() -> SessionStore {
    let mut store = SessionStore::new();
    sign_in(&mut store, "s", 1, "secret".to_string());
    store
}

fn user(id: i32, authority: i8) -> User {
    User { id, authority, ..User::empty() }
}

fn banned(step: BanStep) -> Vec<String> {
    match step {
        BanStep::Ban { queries, reply } => {
            let (status, headers, _) = reply.into_parts();
            assert_eq!(status, 302);
            assert_eq!(headers, vec![("location".to_string(), "/admin/banned".to_string())]);
            let mut uids = Vec::new();
            for q in queries {
                assert_eq!(q.sql, "UPDATE `users` SET `del_flg` = ? WHERE `id` = ?");
                match &q.args[..] {
                    [Arg::Int(1), Arg::Text(uid)] => uids.push(uid.clone()),
                    other => panic!("{:?}", other),
                }
            }
            uids
        }
        BanStep::Reply(reply) => panic!("{:?}", reply),
    }
}

fn status_of(step: BanStep) -> u16 {
    match step {
        BanStep::Reply(reply) => reply.into_parts().0,
        BanStep::Ban { queries, .. } => panic!("{:?}", queries),
    }
}

fn pairs(list: &[(&str, &str)]) -> Vec<(String, String)> {
    list.iter().map(|(k, v)| (k.to_string(), v.to_string())).collect()
}

#[test]
fn the_ban_page_is_for_those_with_authority() {
    let reply = |me: &User| match get_admin_banned(me) {
        Step::Reply(reply) => reply.into_parts(),
        Step::Query(q) => panic!("{}", q.sql),
    };
    let (status, headers, _) = reply(&User::empty());
    assert_eq!(status, 302);
    assert_eq!(headers, vec![("location".to_string(), "/".to_string())]);
    assert_eq!(reply(&user(1, 0)).0, 403);
    match get_admin_banned(&user(1, 1)) {
        Step::Query(q) => {
            assert_eq!(
                q.sql,
                "SELECT * FROM `users` WHERE `authority` = 0 AND `del_flg` = 0 ORDER BY \
                 `created_at` DESC"
            );
            assert!(q.args.is_empty());
        }
        Step::Reply(reply) => panic!("{:?}", reply),
    }
}

#[test]
fn the_ban_page_lists_users() {
    match banned_page(&store(), "s", user(1, 1), vec![user(4, 0), user(3, 0)]).into_parts() {
        (200, _, Body::Html(Page::Banned { me, users, csrf_token })) => {
            assert_eq!((me.id, users[0].id, users[1].id), (1, 4, 3));
            assert_eq!(csrf_token, "secret");
        }
        other => panic!("{:?}", other),
    }
}

#[test]
fn ban_forms_name_users() {
    let form = ban_form(&pairs(&[
        ("uid[]", "3"),
        ("csrf_token", "a"),
        ("uid", "4"),
        ("uid[]", "x y"),
        ("csrf_token", "b"),
        ("uid[]", "3"),
    ]));
    assert_eq!(form.csrf_token, "b");
    assert_eq!(form.uids, vec!["3".to_string(), "x y".to_string(), "3".to_string()]);
    let empty = ban_form(&Vec::new());
    assert_eq!((empty.csrf_token.as_str(), empty.uids.len()), ("", 0));
}

#[test]
fn named_users_are_banned() {
    let form = pairs(&[("uid[]", "3"), ("csrf_token", "secret"), ("uid[]", "9")]);
    let step = judge_bans(&store(), "s", &user(1, 1), &form);
    assert_eq!(banned(step), vec!["3".to_string(), "9".to_string()]);
    let form = pairs(&[("csrf_token", "secret")]);
    assert!(banned(judge_bans(&store(), "s", &user(1, 1), &form)).is_empty());
}

#[test]
fn bans_need_authority_and_a_token() {
    let form = pairs(&[("uid[]", "3"), ("csrf_token", "secret")]);
    assert_eq!(status_of(judge_bans(&store(), "s", &User::empty(), &form)), 302);
    assert_eq!(status_of(judge_bans(&store(), "s", &user(1, 0), &form)), 403);
    assert_eq!(status_of(judge_bans(&store(), "t", &user(1, 1), &form)), 422);
    let form = pairs(&[("uid[]", "3")]);
    assert_eq!(status_of(judge_bans(&store(), "s", &user(1, 1), &form)), 422);
    assert_eq!(status_of(judge_bans(&store(), "s", &user(1, 0), &form)), 403);
}

#[test]
fn ban_forms_are_decoded() {
    let body = b"uid%5B%5D=3&csrf_token=secret&uid[]=a+b%26c&x=1";
    let step = post_admin_banned(&store(), "s", &user(1, 1), body);
    assert_eq!(banned(step), vec!["3".to_string(), "a b&c".to_string()]);
    assert_eq!(status_of(post_admin_banned(&store(), "s", &user(1, 1), b"")), 422);
    assert_eq!(status_of(post_admin_banned(&store(), "s", &user(1, 0), body)), 403);
}

#[test]
fn replies_have_parts() {
    let (status, headers, body) = failure().into_parts();
    assert_eq!((status, headers.len()), (500, 0));
    assert!(matches!(body, Body::Empty));
    let (status, headers, _) =
        redirect("/x").with_header("set-cookie", "a=b".to_string()).into_parts();
    assert_eq!(status, 302);
    assert_eq!(
        headers,
        vec![
            ("location".to_string(), "/x".to_string()),
            ("set-cookie".to_string(), "a=b".to_string()),
        ]
    );
    assert_eq!(Reply::status(404).into_parts().0, 404);
}

#[test]
fn database_settings_have_defaults() {
    let c = db_config(None, None, None, None, None);
    assert_eq!((c.host.as_str(), c.port, c.user.as_str()), ("localhost", 3306, "root"));
    assert_eq!((c.password.as_str(), c.name.as_str()), ("", "isuconp"));
    let some = |s: &str| Some(s.to_string());
    let c = db_config(some("db"), some("3307"), some("u"), some("p"), some("n"));
    assert_eq!((c.host.as_str(), c.port, c.user.as_str()), ("db", 3307, "u"));
    assert_eq!((c.password.as_str(), c.name.as_str()), ("p", "n"));
    for port in ["", "x", "65536", "-1"] {
        assert_eq!(db_config(None, some(port), None, None, None).port, 3306);
    }
    assert_eq!(db_config(some(""), None, None, None, None).host, "");
}

#[test]
fn the_database_is_put_back() {
    let initialize = get_initialize();
    assert_eq!(initialize.reply.into_parts().0, 200);
    assert_eq!(
        initialize.statements,
        vec![
            "DELETE FROM users WHERE id > 1000",
            "DELETE FROM posts WHERE id > 10000",
            "DELETE FROM comments WHERE id > 100000",
            "UPDATE users SET del_flg = 0",
            "UPDATE users SET del_flg = 1 WHERE id % 50 = 0",
        ]
    );
    assert_eq!(CONNECT_STATEMENT, "SET time_zone = '+00:00'");
}
