use iscogram::clock::LocalTime;
use iscogram::model::{CommentRow, Post, PostRow, User};
use iscogram::query::{Arg, Query};
use iscogram::timeline::{make_posts, MakePosts, POSTS_PER_PAGE};

const COUNT: &str = "SELECT COUNT(*) AS `count` FROM `comments` WHERE `post_id` = ?";
const ALL: &str = "SELECT * FROM `comments` WHERE `post_id` = ? ORDER BY `created_at` DESC";
const LATEST: &str =
    "SELECT * FROM `comments` WHERE `post_id` = ? ORDER BY `created_at` DESC LIMIT 3";
const USER: &str = "SELECT * FROM `users` WHERE `id` = ?";

fn user(id: i32) -> User {
    User {
        id,
        account_name: format!("user{}", id),
        passhash: "hash".to_string(),
        authority: 0,
        del_flg: if id % 50 == 0 { 1 } else { 0 },
        created_at: LocalTime::epoch(),
    }
}

fn row(id: i32, user_id: i32) -> PostRow {
    PostRow {
        id,
        user_id,
        body: format!("body{}", id),
        mime: "image/png".to_string(),
        created_at: LocalTime::new(id as i64, 0).unwrap(),
    }
}

/// The comments on a post, newest first: four on each post.
fn comments(post_id: i32, limited: bool) -> Vec<CommentRow> {
    let mut rows = Vec::new();
    for n in [4, 3, 2, 1] {
        rows.push(CommentRow {
            id: post_id * 10 + n,
            post_id,
            user_id: 100 + n,
            comment: format!("comment{}", n),
            created_at: LocalTime::epoch(),
        });
    }
    if limited {
        rows.truncate(3);
    }
    rows
}

fn id_in(query: &Query<'_>) -> i32 {
    match query.args[..] {
        [Arg::Int(id)] => id,
        _ => panic!("one number is bound"),
    }
}

/// Puts posts together from an imagined database; gives the posts and the number of questions.
fn run(rows: Vec<PostRow>, all_comments: bool) -> (Vec<Post>, usize) {
    let mut state = make_posts(rows, "token", all_comments, "context");
    let mut asked = 0;
    loop {
        state = match state {
            MakePosts::Count(s) => {
                assert_eq!(s.query().sql, COUNT);
                let count = 1000 + id_in(&s.query()) as i64;
                s.answer(count)
            }
            MakePosts::Comments(s) => {
                let q = s.query();
                assert_eq!(q.sql, if all_comments { ALL } else { LATEST });
                let id = id_in(&q);
                s.answer(comments(id, !all_comments))
            }
            MakePosts::Commenter(s) => {
                assert_eq!(s.query().sql, USER);
                let id = id_in(&s.query());
                s.answer(user(id))
            }
            MakePosts::Author(s) => {
                assert_eq!(s.query().sql, USER);
                let id = id_in(&s.query());
                s.answer(user(id))
            }
            MakePosts::Done(done) => {
                assert_eq!(done.context, "context");
                return (done.posts, asked);
            }
        };
        asked += 1;
    }
}

#[test]
fn no_rows_give_no_posts() {
    let (posts, asked) = run(Vec::new(), false);
    assert!(posts.is_empty());
    assert_eq!(asked, 0);
}

#[test]
fn posts_show_authors_and_comments() {
    let (posts, asked) = run(vec![row(7, 3)], false);
    assert_eq!(asked, 6);
    assert_eq!(posts.len(), 1);
    let p = &posts[0];
    assert_eq!((p.id, p.user.id, p.comment_count), (7, 3, 1007));
    assert_eq!((p.body.as_str(), p.mime.as_str()), ("body7", "image/png"));
    assert_eq!(p.csrf_token, "token");
    assert_eq!(p.created_at, LocalTime::new(7, 0).unwrap());
    let shown: Vec<(&str, i32)> =
        p.comments.iter().map(|c| (c.comment.as_str(), c.user.id)).collect();
    assert_eq!(shown, vec![("comment2", 102), ("comment3", 103), ("comment4", 104)]);
}

#[test]
fn a_single_post_shows_all_comments_oldest_first() {
    let (posts, asked) = run(vec![row(7, 3)], true);
    assert_eq!(asked, 7);
    let shown: Vec<&str> = posts[0].comments.iter().map(|c| c.comment.as_str()).collect();
    assert_eq!(shown, vec!["comment1", "comment2", "comment3", "comment4"]);
}

#[test]
fn the_latest_comments_end_the_full_list() {
    let rows = || vec![row(1, 1), row(2, 50), row(3, 3)];
    let short = run(rows(), false).0;
    let full = run(rows(), true).0;
    assert_eq!((short.len(), full.len()), (2, 2));
    for (s, f) in short.iter().zip(full.iter()) {
        assert_eq!((s.id, s.comment_count, s.user.id), (f.id, f.comment_count, f.user.id));
        let s: Vec<&str> = s.comments.iter().map(|c| c.comment.as_str()).collect();
        let f: Vec<&str> = f.comments.iter().map(|c| c.comment.as_str()).collect();
        assert_eq!(s, f[f.len() - 3..].to_vec());
    }
}

#[test]
fn nothing_is_asked_once_the_page_is_full() {
    // Any question about the row after the one that fills the page would show in the count.
    let (posts, asked) = run((1..=21).map(|i| row(i, i)).collect(), true);
    assert_eq!((posts.len(), asked), (20, 20 * 7));
}

#[test]
fn an_unanswered_question_leaves_no_list() {
    let state = make_posts(vec![row(7, 3)], "token", false, ());
    assert!(matches!(&state, MakePosts::Count(_)));
    let state = match state {
        MakePosts::Count(s) => s.answer(0),
        other => other,
    };
    assert!(matches!(&state, MakePosts::Comments(_)));
    let state = match state {
        MakePosts::Comments(s) => s.answer(Vec::new()),
        other => other,
    };
    assert!(matches!(state, MakePosts::Author(_)));
}

#[test]
fn posts_of_banned_users_are_left_out() {
    let (posts, _) = run(vec![row(1, 50), row(2, 2), row(3, 100), row(4, 4)], false);
    let ids: Vec<i32> = posts.iter().map(|p| p.id).collect();
    assert_eq!(ids, vec![2, 4]);
    assert!(posts.iter().all(|p| p.user.del_flg == 0));
}

#[test]
fn a_page_has_at_most_twenty_posts() {
    let (posts, asked) = run((1..=30).map(|i| row(i, i)).collect(), false);
    assert_eq!(POSTS_PER_PAGE, 20);
    assert_eq!(posts.len(), 20);
    assert_eq!(posts[19].id, 20);
    assert_eq!(asked, 20 * 6);
    let exact = run((1..=20).map(|i| row(i, i)).collect(), false).0;
    assert_eq!(exact.len(), 20);
}

#[test]
fn banned_users_do_not_use_up_the_page() {
    let rows = (1..=25).map(|i| row(i, if i <= 5 { 50 } else { i })).collect();
    let (posts, _) = run(rows, false);
    let ids: Vec<i32> = posts.iter().map(|p| p.id).collect();
    assert_eq!(ids, (6..=25).collect::<Vec<i32>>());
}
