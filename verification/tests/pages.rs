use iscogram::clock::LocalTime;
use iscogram::model::{is_login, with_offset, Comment, Post, PostRow, User};
use iscogram::pages::{
    account_found, account_posts, account_query, get_index, get_posts, get_posts_id,
    get_posts_until, index_page, post_page, posts_page, single_post, AccountCommented, AccountPosts,
    FrontPosts, OlderPosts, SinglePost,
};
use iscogram::query::{Arg, Query};
use iscogram::reply::{Body, Page, Reply};
use iscogram::session::{get_flash, leave_notice, sign_in, SessionStore};
use iscogram::timeline::{Finished, MakePosts};

fn user(id: i32) -> User {
    User { id, ..User::empty() }
}

fn post(id: i32, mime: &str) -> Post {
    Post {
        id,
        user: user(1),
        body: "body".to_string(),
        mime: mime.to_string(),
        created_at: LocalTime::new(1451735181, 500_000_000).unwrap(),
        comment_count: 1,
        comments: vec![Comment { comment: "nice".to_string(), user: user(2) }],
        csrf_token: "t".to_string(),
    }
}

fn row(id: i32) -> PostRow {
    PostRow {
        id,
        user_id: 1,
        body: String::new(),
        mime: String::new(),
        created_at: LocalTime::epoch(),
    }
}

fn page_of(reply: Reply) -> Page {
    match reply.into_parts() {
        (200, headers, Body::Html(page)) if headers.is_empty() => page,
        other => panic!("{:?}", other),
    }
}

fn assert_status(reply: Reply, wanted: u16) {
    let (status, headers, body) = reply.into_parts();
    assert_eq!(status, wanted);
    assert!(headers.is_empty());
    assert!(matches!(body, Body::Empty));
}

fn id_in(query: &Query<'_>) -> i32 {
    match query.args[..] {
        [Arg::Int(id)] => id,
        _ => panic!("one number is bound"),
    }
}

fn until(param: Option<&str>) -> Option<LocalTime> {
    match get_posts(param) {
        Ok(page) => {
            let q = page.query();
            assert_eq!(
                q.sql,
                "SELECT `id`, `user_id`, `body`, `mime`, `created_at` FROM `posts` WHERE \
                 `created_at` <= ? ORDER BY `created_at` DESC"
            );
            match q.args[..] {
                [Arg::Time(t)] => Some(t),
                _ => panic!("one time is bound"),
            }
        }
        Err(reply) => {
            assert_status(reply, 200);
            None
        }
    }
}

#[test]
fn image_addresses() {
    assert_eq!(post(7, "image/jpeg").image_url(), "/image/7.jpg");
    assert_eq!(post(10001, "image/png").image_url(), "/image/10001.png");
    assert_eq!(post(-3, "image/gif").image_url(), "/image/-3.gif");
    assert_eq!(post(7, "text/html").image_url(), "/image/7");
    assert_eq!(post(7, "image/jpeg ").image_url(), "/image/7");
}

#[test]
fn post_times_are_shown_with_their_offset() {
    assert_eq!(with_offset("2016-01-02T11:46:21"), "2016-01-02T11:46:21+09:00");
    let p = post(7, "image/png");
    assert_eq!(p.created_at_iso(), "2016-01-02T11:46:21+09:00");
    assert_eq!(until(Some(&p.created_at_iso())), LocalTime::new(1451735181, 0));
}

#[test]
fn front_page() {
    let q = get_index(user(9)).query();
    assert_eq!(
        q.sql,
        "SELECT `id`, `user_id`, `body`, `mime`, `created_at` FROM `posts` ORDER BY `created_at` \
         DESC"
    );
    assert!(q.args.is_empty());
    let mut store = SessionStore::new();
    leave_notice(&mut store, "s", "hello");
    let posts = vec![post(1, "image/png"), post(2, "image/png")];
    let context = FrontPosts { me: user(9), csrf_token: "token".to_string() };
    match page_of(index_page(&mut store, "s", Finished { context, posts })) {
        Page::Index { me, posts, csrf_token, flash } => {
            assert_eq!((me.id, posts.len()), (9, 2));
            assert_eq!((csrf_token.as_str(), flash.as_str()), ("token", "hello"));
        }
        _ => panic!("the front page was expected"),
    }
    assert_eq!(get_flash(&mut store, "s"), "");
}

/// Puts posts without comments together; gives what comes out and whether comments were limited.
fn complete<C>(work: MakePosts<C>) -> (Finished<C>, bool) {
    let mut work = work;
    let mut limited = false;
    loop {
        work = match work {
            MakePosts::Count(s) => s.answer(0),
            MakePosts::Comments(s) => {
                limited = s.query().sql.ends_with(" LIMIT 3");
                s.answer(Vec::new())
            }
            MakePosts::Commenter(s) => s.answer(user(2)),
            MakePosts::Author(s) => s.answer(user(1)),
            MakePosts::Done(done) => return (done, limited),
        };
    }
}

#[test]
fn pages_are_made_of_their_rows_and_the_visitors_token() {
    let mut store = SessionStore::new();
    sign_in(&mut store, "s", 9, "mine".to_string());
    sign_in(&mut store, "t", 8, "other".to_string());
    let rows = || vec![row(4), row(3)];
    let shown = |posts: &Vec<Post>| {
        assert!(posts.iter().all(|p| p.csrf_token == "mine"));
        posts.iter().map(|p| p.id).collect::<Vec<i32>>()
    };

    let (done, limited) = complete(get_index(user(9)).answer(&store, "s", rows()));
    assert!(limited);
    assert_eq!((done.context.me.id, done.context.csrf_token.as_str()), (9, "mine"));
    assert_eq!(shown(&done.posts), vec![4, 3]);
    match page_of(index_page(&mut store, "s", done)) {
        Page::Index { me, posts, csrf_token, flash } => {
            assert_eq!((me.id, csrf_token.as_str(), flash.as_str()), (9, "mine", ""));
            assert_eq!(shown(&posts), vec![4, 3]);
        }
        _ => panic!("the front page was expected"),
    }

    let (done, limited) = complete(AccountPosts { user: user(5) }.answer(&store, "s", rows()));
    assert!(limited);
    assert_eq!(done.context.user.id, 5);
    assert_eq!(shown(&account_posts(done).posts), vec![4, 3]);

    let older = OlderPosts { until: LocalTime::epoch() };
    let (done, limited) = complete(older.answer(&store, "s", rows()));
    assert!(limited);
    assert_eq!(shown(&done.posts), vec![4, 3]);

    let (done, limited) = complete(get_posts_id(4).answer(&store, "s", vec![row(4)]));
    assert!(!limited);
    assert_eq!(done.context.id, 4);
    assert_eq!(single_post(done).unwrap().csrf_token, "mine");
}

#[test]
fn an_unknown_account_has_no_page() {
    let q = account_query("mary");
    assert_eq!(q.sql, "SELECT * FROM `users` WHERE `account_name` = ? AND `del_flg` = 0");
    assert!(matches!(&q.args[..], [Arg::Text(t)] if t == "mary"));
    match account_found(None) {
        Err(reply) => assert_status(reply, 404),
        Ok(_) => panic!("there is no account"),
    }
}

#[test]
fn an_account_page_counts_posts_and_comments() {
    let page = account_found(Some(user(5))).unwrap();
    assert_eq!(id_in(&page.query()), 5);
    assert_eq!(
        page.query().sql,
        "SELECT `id`, `user_id`, `body`, `mime`, `created_at` FROM `posts` WHERE `user_id` = ? \
         ORDER BY `created_at` DESC"
    );
    let page = account_posts(Finished { context: page, posts: vec![post(1, "image/png")] });
    assert_eq!(id_in(&page.query()), 5);
    assert_eq!(page.query().sql, "SELECT COUNT(*) AS count FROM `comments` WHERE `user_id` = ?");
    let page = page.answer(12);
    assert_eq!(id_in(&page.query()), 5);
    assert_eq!(page.query().sql, "SELECT `id` FROM `posts` WHERE `user_id` = ?");
    let page = page.answer(vec![31, 32, 33]);
    let q = page.query().unwrap();
    assert_eq!(q.sql, "SELECT COUNT(*) AS count FROM `comments` WHERE `post_id` IN (?, ?, ?)");
    assert!(matches!(q.args[..], [Arg::Int(31), Arg::Int(32), Arg::Int(33)]));
    match page_of(page.answer(Some(40)).page(user(9))) {
        Page::User { me, user, posts, post_count, comment_count, commented_count } => {
            assert_eq!((me.id, user.id, posts.len()), (9, 5, 1));
            assert_eq!((post_count, comment_count, commented_count), (3, 12, 40));
        }
        _ => panic!("an account page was expected"),
    }
}

#[test]
fn an_account_without_posts_has_no_comments_on_them() {
    let page = AccountCommented {
        user: user(5),
        posts: Vec::new(),
        comment_count: 2,
        post_ids: Vec::new(),
    };
    assert!(page.query().is_none());
    assert_eq!(page.answer(Some(4)).commented_count, 0);
    let page = AccountCommented {
        user: user(5),
        posts: Vec::new(),
        comment_count: 2,
        post_ids: Vec::new(),
    };
    match page_of(page.answer(None).page(User::empty())) {
        Page::User { me, post_count, commented_count, .. } => {
            assert!(!is_login(&me));
            assert_eq!((post_count, commented_count), (0, 0));
        }
        _ => panic!("an account page was expected"),
    }
}

#[test]
fn a_single_placeholder_has_no_comma() {
    let page = AccountCommented {
        user: user(5),
        posts: Vec::new(),
        comment_count: 0,
        post_ids: vec![8],
    };
    let q = page.query().unwrap();
    assert_eq!(q.sql, "SELECT COUNT(*) AS count FROM `comments` WHERE `post_id` IN (?)");
    assert_eq!(id_in(&q), 8);
}

#[test]
fn older_posts_are_asked_for_by_time() {
    assert_eq!(until(Some("2016-01-02T11:46:21+09:00")), LocalTime::new(1451735181, 0));
    assert_eq!(until(Some("2016-01-02T11:46:21Z")), LocalTime::new(1451735181, 0));
    assert_eq!(until(Some("2016-01-02")), None);
    assert_eq!(until(Some("")), None);
    assert_eq!(until(None), None);
    assert_status(get_posts_until(None).unwrap_err(), 200);
    assert_eq!(get_posts_until(Some(LocalTime::epoch())).unwrap().until, LocalTime::epoch());
}

#[test]
fn older_posts_are_shown_if_there_are_any() {
    let done = |posts| Finished { context: OlderPosts { until: LocalTime::epoch() }, posts };
    assert_status(posts_page(done(Vec::new())), 404);
    match page_of(posts_page(done(vec![post(1, "image/png")]))) {
        Page::Posts { posts } => assert_eq!(posts[0].id, 1),
        _ => panic!("a page of posts was expected"),
    }
}

#[test]
fn a_post_has_a_page() {
    let q = get_posts_id(42).query();
    assert_eq!(
        q.sql,
        "SELECT `id`, `user_id`, `body`, `mime`, `created_at` FROM `posts` WHERE `id` = ?"
    );
    assert_eq!(id_in(&q), 42);
    let done = |posts| Finished { context: SinglePost { id: 1 }, posts };
    match single_post(done(Vec::new())) {
        Err(reply) => assert_status(reply, 404),
        Ok(_) => panic!("there is no post"),
    }
    let p = single_post(done(vec![post(1, "image/png"), post(2, "image/png")])).unwrap();
    match page_of(post_page(user(9), p)) {
        Page::PostId { me, post } => assert_eq!((me.id, post.id), (9, 1)),
        _ => panic!("the page of a post was expected"),
    }
}
