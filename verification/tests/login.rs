use iscogram::clock::LocalTime;
use iscogram::login::{
    finish_login, finish_register, get_login, get_logout, get_register, post_login,
    post_login_drawn, post_login_found, post_register, post_register_checked, post_register_drawn,
    post_register_inserted, LoginForm, INVALID_USER, NAME_TAKEN, WRONG_LOGIN,
};
use iscogram::model::{is_login, User};
use iscogram::query::Arg;
use iscogram::reply::{Body, Page, Reply, Step};
use iscogram::secret::{calculate_passhash, EntropyError};
use iscogram::session::{
    csrf_token, get_flash, leave_notice, session_get, session_layer, SessionStore,
};

fn user(id: i32, name: &str, password: &str) -> User {
    User {
        id,
        account_name: name.to_string(),
        passhash: calculate_passhash(name, password),
        authority: 0,
        del_flg: 0,
        created_at: LocalTime::epoch(),
    }
}

fn form(name: &str, password: &str) -> LoginForm {
    LoginForm { account_name: name.to_string(), password: password.to_string() }
}

fn assert_redirect(reply: Reply, location: &str) {
    let (status, headers, body) = reply.into_parts();
    assert_eq!(status, 302);
    assert_eq!(headers, vec![("location".to_string(), location.to_string())]);
    assert!(matches!(body, Body::Empty));
}

fn reply_of(step: Step) -> Reply {
    match step {
        Step::Reply(r) => r,
        Step::Query(q) => panic!("{}", q.sql),
    }
}

fn texts_of(step: Step) -> (String, Vec<String>) {
    match step {
        Step::Reply(_) => panic!("a statement was expected"),
        Step::Query(q) => {
            let mut texts = Vec::new();
            for a in q.args {
                match a {
                    Arg::Text(t) => texts.push(t),
                    _ => panic!("a text was expected"),
                }
            }
            (q.sql, texts)
        }
    }
}

#[test]
fn sign_in_page_shows_the_notice_once() {
    let mut store = SessionStore::new();
    leave_notice(&mut store, "s", "hello");
    for wanted in ["hello", ""] {
        let (status, headers, body) = get_login(&mut store, "s", User::empty()).into_parts();
        assert_eq!((status, headers.len()), (200, 0));
        match body {
            Body::Html(Page::Login { me, flash }) => {
                assert!(!is_login(&me));
                assert_eq!(flash, wanted);
            }
            _ => panic!("the sign-in page was expected"),
        }
    }
}

#[test]
fn signed_in_visitors_skip_the_forms() {
    let mut store = SessionStore::new();
    leave_notice(&mut store, "s", "kept");
    let me = user(1, "mary", "marymary");
    let f = form("x", "y");
    assert_redirect(get_login(&mut store, "s", user(1, "mary", "marymary")), "/");
    assert_redirect(get_register(&mut store, "s", &me), "/");
    assert_redirect(reply_of(post_login(&me, &f)), "/");
    assert_redirect(reply_of(post_register(&mut store, "s", &me, &f)), "/");
    assert_eq!(get_flash(&mut store, "s"), "kept");
}

#[test]
fn signing_in_looks_the_account_up() {
    let (sql, texts) = texts_of(post_login(&User::empty(), &form("mary", "pw")));
    assert_eq!(sql, "SELECT * FROM users WHERE account_name = ? AND del_flg = 0");
    assert_eq!(texts, vec!["mary".to_string()]);
}

#[test]
fn the_right_password_signs_in() {
    let mut store = SessionStore::new();
    let found = Some(user(7, "mary", "marymary"));
    let r = post_login_found(&mut store, "s", &found, &form("mary", "marymary")).unwrap();
    assert_redirect(r, "/");
    assert_eq!(session_get(&store, "s").user_id, Some(7));
    assert_eq!(csrf_token(&store, "s").len(), 32);
    assert_eq!(get_flash(&mut store, "s"), "");
}

#[test]
fn a_wrong_password_earns_a_notice() {
    let mut store = SessionStore::new();
    let found = Some(user(7, "mary", "marymary"));
    let r = post_login_found(&mut store, "s", &found, &form("mary", "wrong")).unwrap();
    assert_redirect(r, "/login");
    assert_eq!(session_get(&store, "s").user_id, None);
    assert_eq!(csrf_token(&store, "s"), "");
    assert_eq!(get_flash(&mut store, "s"), WRONG_LOGIN);
    assert_eq!(WRONG_LOGIN, "アカウント名かパスワードが間違っています");
}

#[test]
fn an_unknown_account_earns_a_notice() {
    let mut store = SessionStore::new();
    let r = post_login_found(&mut store, "s", &None, &form("mary", "marymary")).unwrap();
    assert_redirect(r, "/login");
    assert_eq!(session_get(&store, "s").user_id, None);
    assert_eq!(get_flash(&mut store, "s"), WRONG_LOGIN);
}

#[test]
fn the_hash_decides() {
    let mut store = SessionStore::new();
    let mut u = user(7, "mary", "marymary");
    u.passhash = "abc".to_string();
    let found = Some(u);
    assert_redirect(finish_login(&mut store, "s", &found, "abd", "t".to_string()), "/login");
    assert_redirect(finish_login(&mut store, "s", &None, "", "t".to_string()), "/login");
    assert_eq!(csrf_token(&store, "s"), "");
    assert_redirect(finish_login(&mut store, "s", &found, "abc", "t".to_string()), "/");
    assert_eq!(csrf_token(&store, "s"), "t");
}

#[test]
fn signing_in_needs_a_token() {
    let mut store = SessionStore::new();
    let mut u = user(7, "mary", "marymary");
    u.passhash = "abc".to_string();
    let found = Some(u);
    let r = post_login_drawn(&mut store, "s", &found, "abc", Err(EntropyError));
    assert!(matches!(r, Err(EntropyError)));
    assert!(!store.contains("s"));
    for drawn in [Err(EntropyError), Ok("t".to_string())] {
        let r = post_login_drawn(&mut store, "s", &found, "abd", drawn);
        assert_redirect(r.unwrap(), "/login");
        assert_eq!(get_flash(&mut store, "s"), WRONG_LOGIN);
        assert_eq!(csrf_token(&store, "s"), "");
    }
    let r = post_login_drawn(&mut store, "s", &found, "abc", Ok("t".to_string()));
    assert_redirect(r.unwrap(), "/");
    assert_eq!(session_get(&store, "s").user_id, Some(7));
    assert_eq!(csrf_token(&store, "s"), "t");
}

#[test]
fn registration_page_shows_the_notice() {
    let mut store = SessionStore::new();
    leave_notice(&mut store, "s", "hello");
    match get_register(&mut store, "s", &User::empty()).into_parts() {
        (200, _, Body::Html(Page::Register { me, flash })) => {
            assert!(!is_login(&me));
            assert_eq!(flash, "hello");
        }
        _ => panic!("the registration page was expected"),
    }
    assert_eq!(get_flash(&mut store, "s"), "");
}

#[test]
fn names_and_passwords_that_may_not_be_registered() {
    for (name, password) in [("ab", "abcdef"), ("abc", "abcde"), ("a-c", "abcdef"), ("abc", "あいうえおか")] {
        let mut store = SessionStore::new();
        let step = post_register(&mut store, "s", &User::empty(), &form(name, password));
        assert_redirect(reply_of(step), "/register");
        assert_eq!(get_flash(&mut store, "s"), INVALID_USER);
    }
    assert_eq!(
        INVALID_USER,
        "アカウント名は3文字以上、パスワードは6文字以上である必要があります"
    );
}

#[test]
fn a_name_that_is_taken_earns_a_notice() {
    let mut store = SessionStore::new();
    let f = form("mary", "marymary");
    let (sql, texts) = texts_of(post_register(&mut store, "s", &User::empty(), &f));
    assert_eq!(sql, "SELECT 1 FROM users WHERE `account_name` = ?");
    assert_eq!(texts, vec!["mary".to_string()]);
    assert!(!store.contains("s"));
    let step = post_register_checked(&mut store, "s", Some(1), &f);
    assert_redirect(reply_of(step), "/register");
    assert_eq!(get_flash(&mut store, "s"), NAME_TAKEN);
    assert_eq!(NAME_TAKEN, "アカウント名がすでに使われています");
}

#[test]
fn whoever_registers_can_sign_in() {
    let mut store = SessionStore::new();
    let f = form("mary", "marymary");
    let (sql, texts) = texts_of(post_register_checked(&mut store, "s", None, &f));
    assert_eq!(sql, "INSERT INTO `users` (`account_name`, `passhash`) VALUES (?,?)");
    assert_eq!(texts.len(), 2);
    assert_eq!(texts[0], "mary");
    assert_redirect(post_register_inserted(&mut store, "s", 1001).unwrap(), "/");
    assert_eq!(session_get(&store, "s").user_id, Some(1001));
    assert_eq!(csrf_token(&store, "s").len(), 32);

    let stored = User {
        id: 1001,
        account_name: texts[0].clone(),
        passhash: texts[1].clone(),
        authority: 0,
        del_flg: 0,
        created_at: LocalTime::epoch(),
    };
    assert_redirect(post_login_found(&mut store, "t", &Some(stored), &f).unwrap(), "/");
    assert_eq!(session_get(&store, "t").user_id, Some(1001));
}

#[test]
fn a_registration_needs_a_token_to_sign_in() {
    let mut store = SessionStore::new();
    let r = post_register_drawn(&mut store, "s", 9, Err(EntropyError));
    assert!(matches!(r, Err(EntropyError)));
    assert!(!store.contains("s"));
    let r = post_register_drawn(&mut store, "s", 9, Ok("t".to_string()));
    assert_redirect(r.unwrap(), "/");
    assert_eq!(session_get(&store, "s").user_id, Some(9));
    assert_eq!(csrf_token(&store, "s"), "t");
}

#[test]
fn account_numbers_are_cut_to_their_type() {
    let mut store = SessionStore::new();
    finish_register(&mut store, "s", 0x1_0000_0005, "t".to_string());
    assert_eq!(session_get(&store, "s").user_id, Some(5));
}

#[test]
fn signing_out_forgets_the_session() {
    let mut store = SessionStore::new();
    finish_register(&mut store, "s", 5, "t".to_string());
    let (status, headers, body) = get_logout(&mut store, "s").into_parts();
    assert_eq!(status, 302);
    assert_eq!(
        headers,
        vec![
            ("location".to_string(), "/".to_string()),
            ("set-cookie".to_string(), "session=; Path=/; Max-Age=0; HttpOnly".to_string()),
        ]
    );
    assert!(matches!(body, Body::Empty));
    assert!(!store.contains("s"));
    let o = session_layer(&mut store, Some(b"session=s")).unwrap();
    assert!(o.is_new);
}
