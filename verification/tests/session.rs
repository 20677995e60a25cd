use iscogram::cookie::{cookie_value, set_session_cookie};
use iscogram::session::{
    csrf_token, current_user, current_user_query, get_flash, leave_notice, new_session_cookie,
    open_session, session_drawn, session_get, session_layer, session_set, sign_in, SessionEdit,
    SessionStore,
};
use iscogram::model::User;
use iscogram::query::Arg;
use iscogram::secret::EntropyError;

fn cookie(header: &str, name: &str) -> Option<String> {
    cookie_value(Some(header.as_bytes()), name)
}

#[test]
fn cookies_are_read() {
    assert_eq!(cookie("session=abc", "session"), Some("abc".to_string()));
    assert_eq!(cookie("a=1; session=abc ;b=2", "session"), Some("abc".to_string()));
    assert_eq!(cookie("a=1;\tsession=x=y\t", "session"), Some("x=y".to_string()));
    assert_eq!(cookie("session=1; session=2", "session"), Some("1".to_string()));
    assert_eq!(cookie("session=", "session"), Some(String::new()));
    assert_eq!(cookie("", "session"), None);
    assert_eq!(cookie(";;", "session"), None);
    assert_eq!(cookie("xsession=abc", "session"), None);
    assert_eq!(cookie("session =abc", "session"), None);
    assert_eq!(cookie("sessio", "session"), None);
    assert_eq!(cookie_value(None, "session"), None);
}

#[test]
fn header_must_be_visible_ascii() {
    assert_eq!(cookie("session=あ", "session"), None);
    assert_eq!(cookie_value(Some(b"session=a\n"), "session"), None);
    assert_eq!(cookie_value(Some(b"session=a\x7f"), "session"), None);
    assert_eq!(cookie_value(Some(b"session=a\xff"), "session"), None);
    assert_eq!(cookie_value(Some(b"session=~"), "session"), Some("~".to_string()));
}

#[test]
fn session_cookie_reads_back() {
    let set = set_session_cookie("0123abcd");
    assert_eq!(set, "session=0123abcd; Path=/; HttpOnly");
    assert_eq!(cookie("session=0123abcd", "session"), Some("0123abcd".to_string()));
    assert_eq!(cookie(&set, "session"), Some("0123abcd".to_string()));
    let among_others = "a=session=x; sessions=y;\tsession=0123abcd ; session=z; b";
    assert_eq!(cookie(among_others, "session"), Some("0123abcd".to_string()));
}

#[test]
fn unknown_sessions_are_empty() {
    let store = SessionStore::new();
    let s = session_get(&store, "x");
    assert_eq!((s.user_id, s.csrf_token, s.notice), (None, None, None));
    assert_eq!(csrf_token(&store, "x"), "");
    assert!(current_user_query(&store, "x").is_none());
    assert!(!store.contains("x"));
}

#[test]
fn notices_are_shown_once() {
    let mut store = SessionStore::new();
    assert_eq!(get_flash(&mut store, "x"), "");
    assert!(!store.contains("x"));
    leave_notice(&mut store, "x", "first");
    leave_notice(&mut store, "x", "second");
    assert_eq!(get_flash(&mut store, "y"), "");
    assert_eq!(get_flash(&mut store, "x"), "second");
    assert_eq!(get_flash(&mut store, "x"), "");
    assert!(store.contains("x"));
}

#[test]
fn sign_in_is_remembered_in_its_session_only() {
    let mut store = SessionStore::new();
    leave_notice(&mut store, "x", "hello");
    sign_in(&mut store, "x", 7, "token".to_string());
    assert_eq!(csrf_token(&store, "x"), "token");
    assert_eq!(csrf_token(&store, "y"), "");
    let q = current_user_query(&store, "x").unwrap();
    assert_eq!(q.sql, "SELECT * FROM `users` WHERE `id` = ?");
    assert!(matches!(q.args[..], [Arg::Int(7)]));
    assert!(current_user_query(&store, "y").is_none());
    assert_eq!(get_flash(&mut store, "x"), "hello");
    assert_eq!(csrf_token(&store, "x"), "token");
}

#[test]
fn edits_make_sessions_known() {
    let mut store = SessionStore::new();
    session_set(&mut store, "x", SessionEdit::Nothing);
    assert!(store.contains("x"));
    session_set(&mut store, "x", SessionEdit::Notice("n".to_string()));
    assert_eq!(session_get(&store, "x").notice, Some("n".to_string()));
    let edit = SessionEdit::SignIn { user_id: 3, csrf_token: "t".to_string() };
    session_set(&mut store, "x", edit);
    let s = session_get(&store, "x");
    assert_eq!(s.user_id, Some(3));
    assert_eq!(s.clone().notice, Some("n".to_string()));
}

#[test]
fn forgotten_sessions_are_gone() {
    let mut store = SessionStore::new();
    sign_in(&mut store, "x", 7, "token".to_string());
    sign_in(&mut store, "y", 8, "other".to_string());
    store.forget("x");
    assert!(!store.contains("x"));
    assert_eq!(csrf_token(&store, "x"), "");
    assert_eq!(csrf_token(&store, "y"), "other");
}

#[test]
fn nobody_is_the_empty_user() {
    assert_eq!(current_user::<()>(Ok(Some(User { id: 4, ..User::empty() }))).id, 4);
    assert_eq!(current_user(Err("the lookup failed")).id, 0);
    let nobody = current_user::<()>(Ok(None));
    assert_eq!(nobody.id, 0);
    assert_eq!(nobody.account_name, "");
    assert_eq!(nobody.passhash, "");
    assert_eq!((nobody.authority, nobody.del_flg), (0, 0));
    assert_eq!(nobody.created_at.iso(), "1970-01-01T00:00:00");
}

#[test]
fn new_visitors_get_a_session() {
    let mut store = SessionStore::new();
    let o = open_session(&mut store, None, "fresh".to_string());
    assert!(o.is_new);
    assert_eq!(o.sid, "fresh");
    assert!(store.contains("fresh"));
    assert_eq!(new_session_cookie(&o), Some("session=fresh; Path=/; HttpOnly".to_string()));
}

#[test]
fn known_visitors_keep_their_session() {
    let mut store = SessionStore::new();
    sign_in(&mut store, "mine", 7, "token".to_string());
    let o = open_session(&mut store, Some(b"a=b; session=mine"), "fresh".to_string());
    assert!(!o.is_new);
    assert_eq!(o.sid, "mine");
    assert!(!store.contains("fresh"));
    assert_eq!(csrf_token(&store, "mine"), "token");
    assert_eq!(new_session_cookie(&o), None);
}

#[test]
fn a_drawn_name_is_needed_only_for_a_new_session() {
    let mut store = SessionStore::new();
    assert_eq!(session_drawn(&mut store, None, Err(EntropyError)).unwrap_err(), EntropyError);
    let o = session_drawn(&mut store, None, Ok("fresh".to_string())).unwrap();
    assert!(o.is_new && store.contains("fresh"));
    assert_eq!(o.sid, "fresh");
    let o = session_drawn(&mut store, Some(b"session=fresh"), Err(EntropyError)).unwrap();
    assert!(!o.is_new);
    assert_eq!(o.sid, "fresh");
    let o = session_drawn(&mut store, Some(b"session=fresh"), Ok("x".to_string())).unwrap();
    assert_eq!(o.sid, "fresh");
    assert!(!store.contains("x"));
}

#[test]
fn unknown_session_names_are_not_taken_over() {
    let mut store = SessionStore::new();
    let o = session_layer(&mut store, Some(b"session=chosen")).unwrap();
    assert!(o.is_new);
    assert_eq!(o.sid.len(), 32);
    assert!(!store.contains("chosen"));
    let header = format!("session={}", o.sid);
    let again = session_layer(&mut store, Some(header.as_bytes())).unwrap();
    assert!(!again.is_new);
    assert_eq!(again.sid, o.sid);
}
