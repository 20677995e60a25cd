//! Putting the posts of a page together.
//!
//! The rows of the page's posts are at hand; the comments and the users are in the database. The
//! work alternates between asking the database and using its answers, so it is a machine with one
//! state for each kind of question. A state knows its question; the answer leads to the next
//! state.
use crate::model::{
    image_path, image_suffix, Comment, CommentRow, CommentRowView, CommentView, Post, PostRow, PostRowView, PostView, User,
    UserView,
};
use crate::query::{bound_query, Arg, ArgView, Query, QueryView};
use crate::session::user_by_id;
use crate::text::decimal;
use vstd::prelude::*;
use vstd::string::*;

verus! {

/// How many posts a page shows at most.
pub const POSTS_PER_PAGE: usize = 20;

// ---------- model ----------

/// What is settled while posts are put together: the rows to come, the posts that are complete,
/// the form token that each post carries, and whether a post shows all its comments.
pub struct ProgressView {
    pub rows: Seq<PostRowView>,
    pub posts: Seq<PostView>,
    pub csrf: Seq<char>,
    pub all_comments: bool,
}

/// The states of the work.
pub enum MakePostsView {
    Count { p: ProgressView, row: PostRowView },
    Comments { p: ProgressView, row: PostRowView, count: i64 },
    Commenter {
        p: ProgressView,
        row: PostRowView,
        count: i64,
        done: Seq<CommentView>,
        comment: CommentRowView,
        pending: Seq<CommentRowView>,
    },
    Author { p: ProgressView, row: PostRowView, count: i64, comments: Seq<CommentView> },
    Done { posts: Seq<PostView> },
}

/// The work turns to the next row, unless the page is full or there is none.
pub open spec fn next_row(p: ProgressView) -> MakePostsView {
    if p.posts.len() >= POSTS_PER_PAGE || p.rows.len() == 0 {
        MakePostsView::Done { posts: p.posts }
    } else {
        MakePostsView::Count { p: ProgressView { rows: p.rows.skip(1), ..p }, row: p.rows[0] }
    }
}

/// The work turns to the next comment of a row, or to its author when all comments are done.
/// Comments come newest first and are shown oldest first.
pub open spec fn next_comment(
    p: ProgressView,
    row: PostRowView,
    count: i64,
    done: Seq<CommentView>,
    pending: Seq<CommentRowView>,
) -> MakePostsView {
    if pending.len() == 0 {
        MakePostsView::Author { p, row, count, comments: done.reverse() }
    } else {
        MakePostsView::Commenter {
            p,
            row,
            count,
            done,
            comment: pending[0],
            pending: pending.skip(1),
        }
    }
}

/// A row with its author and comments.
pub open spec fn shown_post(
    row: PostRowView,
    author: UserView,
    count: i64,
    comments: Seq<CommentView>,
    csrf: Seq<char>,
) -> PostView {
    PostView {
        id: row.id,
        user: author,
        body: row.body,
        mime: row.mime,
        created_at: row.created_at,
        comment_count: count,
        comments,
        csrf_token: csrf,
    }
}

/// The work after the author of a row is known. A banned author's post is left out.
pub open spec fn after_author(
    p: ProgressView,
    row: PostRowView,
    count: i64,
    comments: Seq<CommentView>,
    author: UserView,
) -> MakePostsView {
    if author.del_flg == 0 {
        next_row(
            ProgressView {
                posts: p.posts.push(shown_post(row, author, count, comments, p.csrf)),
                ..p
            },
        )
    } else {
        next_row(p)
    }
}

pub open spec fn comment_count_query(post_id: i32) -> QueryView {
    bound_query(
        "SELECT COUNT(*) AS `count` FROM `comments` WHERE `post_id` = ?"@,
        ArgView::Int(post_id),
    )
}

pub open spec fn comments_query(post_id: i32, all_comments: bool) -> QueryView {
    bound_query(
        if all_comments {
            "SELECT * FROM `comments` WHERE `post_id` = ? ORDER BY `created_at` DESC"@
        } else {
            "SELECT * FROM `comments` WHERE `post_id` = ? ORDER BY `created_at` DESC LIMIT 3"@
        },
        ArgView::Int(post_id),
    )
}

// ---------- the machine ----------

#[derive(Debug)]
struct Progress<C> {
    // The rows to come, the next one last.
    rows: Vec<PostRow>,
    posts: Vec<Post>,
    csrf: String,
    all_comments: bool,
    context: C,
}

impl<C> Progress<C> {
    spec fn progress(self) -> ProgressView {
        ProgressView {
            rows: self.rows.deep_view().reverse(),
            posts: self.posts.deep_view(),
            csrf: self.csrf@,
            all_comments: self.all_comments,
        }
    }

    fn next_row(self) -> (r: MakePosts<C>)
        ensures
            r.deep_view() == next_row(self.progress()),
            r.context() == self.context,
    {
        let ghost before = self.progress();
        let Progress { mut rows, posts, csrf, all_comments, context } = self;
        let ghost all = rows.deep_view();
        if posts.len() >= POSTS_PER_PAGE {
            return MakePosts::Done(Finished { context, posts });
        }
        match rows.pop() {
            Some(row) => {
                assert(rows.deep_view() =~= all.drop_last());
                assert(rows.deep_view().reverse() =~= before.rows.skip(1));
                MakePosts::Count(
                    CountStage { p: Progress { rows, posts, csrf, all_comments, context }, row },
                )
            },
            None => MakePosts::Done(Finished { context, posts }),
        }
    }

    fn next_comment(
        self,
        row: PostRow,
        count: i64,
        done: Vec<Comment>,
        pending: Vec<CommentRow>,
    ) -> (r: MakePosts<C>)
        ensures
            r.deep_view() == next_comment(
                self.progress(),
                row.deep_view(),
                count,
                done.deep_view(),
                pending.deep_view().reverse(),
            ),
            r.context() == self.context,
    {
        let mut pending = pending;
        let ghost all = pending.deep_view();
        match pending.pop() {
            Some(comment) => {
                assert(pending.deep_view() =~= all.drop_last());
                assert(pending.deep_view().reverse() =~= all.reverse().skip(1));
                MakePosts::Commenter(
                    CommenterStage { p: self, row, count, done, comment, pending },
                )
            },
            None => {
                let comments = reversed(done);
                assert(comments.deep_view() =~= done.deep_view().reverse());
                MakePosts::Author(AuthorStage { p: self, row, count, comments })
            },
        }
    }
}

/// The same elements in the opposite order.
fn reversed<T>(v: Vec<T>) -> (r: Vec<T>)
    ensures
        r@ == v@.reverse(),
{
    let mut rest = v;
    let mut r: Vec<T> = Vec::new();
    while rest.len() > 0
        invariant
            rest@.len() <= v@.len(),
            rest@ == v@.take(rest@.len() as int),
            r@ == v@.skip(rest@.len() as int).reverse(),
        decreases rest@.len(),
    {
        let ghost n = rest@.len() as int;
        if let Some(x) = rest.pop() {
            r.push(x);
            assert(x == v@[n - 1]);
        }
        assert(rest@ =~= v@.take(n - 1));
        assert(r@ =~= v@.skip(n - 1).reverse());
    }
    assert(v@.skip(0) =~= v@);
    r
}

/// Wanted: the number of comments of a post.
#[derive(Debug)]
pub struct CountStage<C> {
    p: Progress<C>,
    row: PostRow,
}

/// Wanted: comments of a post.
#[derive(Debug)]
pub struct CommentsStage<C> {
    p: Progress<C>,
    row: PostRow,
    count: i64,
}

/// Wanted: the author of a comment.
#[derive(Debug)]
pub struct CommenterStage<C> {
    p: Progress<C>,
    row: PostRow,
    count: i64,
    done: Vec<Comment>,
    comment: CommentRow,
    // The comments to come, the next one last.
    pending: Vec<CommentRow>,
}

/// Wanted: the author of a post.
#[derive(Debug)]
pub struct AuthorStage<C> {
    p: Progress<C>,
    row: PostRow,
    count: i64,
    comments: Vec<Comment>,
}

/// The posts of a page, complete, and what they were put together for.
#[derive(Debug)]
pub struct Finished<C> {
    pub context: C,
    pub posts: Vec<Post>,
}

/// The work of putting the posts of a page together, or its result. What is known of the page
/// otherwise goes along with the work as its context.
#[derive(Debug)]
pub enum MakePosts<C> {
    Count(CountStage<C>),
    Comments(CommentsStage<C>),
    Commenter(CommenterStage<C>),
    Author(AuthorStage<C>),
    Done(Finished<C>),
}

impl<C> MakePosts<C> {
    /// What the posts are put together for.
    pub open spec fn context(self) -> C {
        match self {
            MakePosts::Count(s) => s.context(),
            MakePosts::Comments(s) => s.context(),
            MakePosts::Commenter(s) => s.context(),
            MakePosts::Author(s) => s.context(),
            MakePosts::Done(f) => f.context,
        }
    }
}

impl<C> DeepView for CountStage<C> {
    type V = MakePostsView;

    closed spec fn deep_view(&self) -> MakePostsView {
        MakePostsView::Count { p: self.p.progress(), row: self.row.deep_view() }
    }
}

impl<C> DeepView for CommentsStage<C> {
    type V = MakePostsView;

    closed spec fn deep_view(&self) -> MakePostsView {
        MakePostsView::Comments {
            p: self.p.progress(),
            row: self.row.deep_view(),
            count: self.count,
        }
    }
}

impl<C> DeepView for CommenterStage<C> {
    type V = MakePostsView;

    closed spec fn deep_view(&self) -> MakePostsView {
        MakePostsView::Commenter {
            p: self.p.progress(),
            row: self.row.deep_view(),
            count: self.count,
            done: self.done.deep_view(),
            comment: self.comment.deep_view(),
            pending: self.pending.deep_view().reverse(),
        }
    }
}

impl<C> DeepView for AuthorStage<C> {
    type V = MakePostsView;

    closed spec fn deep_view(&self) -> MakePostsView {
        MakePostsView::Author {
            p: self.p.progress(),
            row: self.row.deep_view(),
            count: self.count,
            comments: self.comments.deep_view(),
        }
    }
}

impl<C> DeepView for MakePosts<C> {
    type V = MakePostsView;

    open spec fn deep_view(&self) -> MakePostsView {
        match self {
            MakePosts::Count(s) => s.deep_view(),
            MakePosts::Comments(s) => s.deep_view(),
            MakePosts::Commenter(s) => s.deep_view(),
            MakePosts::Author(s) => s.deep_view(),
            MakePosts::Done(f) => MakePostsView::Done { posts: f.posts.deep_view() },
        }
    }
}

/// Starts to put together the posts of `rows`, each with the form token `csrf`, for `context`.
pub fn make_posts<C>(rows: Vec<PostRow>, csrf: &str, all_comments: bool, context: C) -> (r:
    MakePosts<C>)
    ensures
        r.deep_view() == begin(rows.deep_view(), csrf@, all_comments),
        r.context() == context,
{
    let p = Progress {
        rows: reversed(rows),
        posts: Vec::new(),
        csrf: csrf.to_owned(),
        all_comments,
        context,
    };
    assert(p.progress().rows =~= rows.deep_view());
    assert(p.progress().posts =~= seq![]);
    p.next_row()
}

/// The state in which the work starts.
pub open spec fn begin(
    rows: Seq<PostRowView>,
    csrf: Seq<char>,
    all_comments: bool,
) -> MakePostsView {
    next_row(ProgressView { rows, posts: seq![], csrf, all_comments })
}

impl<C> CountStage<C> {
    /// What the posts are put together for.
    pub closed spec fn context(self) -> C {
        self.p.context
    }

    /// What is asked of the database.
    pub fn query(&self) -> (r: Query<'static>)
        ensures
            self.deep_view() matches MakePostsView::Count { p, row } && r.deep_view()
                == comment_count_query(row.id),
    {
        Query::bound(
            "SELECT COUNT(*) AS `count` FROM `comments` WHERE `post_id` = ?",
            Arg::Int(self.row.id),
        )
    }

    /// Goes on with the answer.
    pub fn answer(self, count: i64) -> (r: MakePosts<C>)
        ensures
            self.deep_view() matches MakePostsView::Count { p, row } && r.deep_view() == (
            MakePostsView::Comments { p, row, count }),
            r.context() == self.context(),
    {
        MakePosts::Comments(CommentsStage { p: self.p, row: self.row, count })
    }
}

impl<C> CommentsStage<C> {
    /// What the posts are put together for.
    pub closed spec fn context(self) -> C {
        self.p.context
    }

    /// What is asked of the database.
    pub fn query(&self) -> (r: Query<'static>)
        ensures
            self.deep_view() matches MakePostsView::Comments { p, row, count } && r.deep_view()
                == comments_query(row.id, p.all_comments),
    {
        let sql = if self.p.all_comments {
            "SELECT * FROM `comments` WHERE `post_id` = ? ORDER BY `created_at` DESC"
        } else {
            "SELECT * FROM `comments` WHERE `post_id` = ? ORDER BY `created_at` DESC LIMIT 3"
        };
        Query::bound(sql, Arg::Int(self.row.id))
    }

    /// Goes on with the answer.
    pub fn answer(self, rows: Vec<CommentRow>) -> (r: MakePosts<C>)
        ensures
            self.deep_view() matches MakePostsView::Comments { p, row, count } && r.deep_view()
                == next_comment(p, row, count, seq![], rows.deep_view()),
            r.context() == self.context(),
    {
        let done: Vec<Comment> = Vec::new();
        let pending = reversed(rows);
        assert(done.deep_view() =~= seq![]);
        assert(pending.deep_view().reverse() =~= rows.deep_view());
        self.p.next_comment(self.row, self.count, done, pending)
    }
}

impl<C> CommenterStage<C> {
    /// What the posts are put together for.
    pub closed spec fn context(self) -> C {
        self.p.context
    }

    /// What is asked of the database.
    pub fn query(&self) -> (r: Query<'static>)
        ensures
            self.deep_view() matches MakePostsView::Commenter {
                p,
                row,
                count,
                done,
                comment,
                pending,
            } && r.deep_view() == user_by_id(comment.user_id),
    {
        Query::bound("SELECT * FROM `users` WHERE `id` = ?", Arg::Int(self.comment.user_id))
    }

    /// Goes on with the answer.
    pub fn answer(self, user: User) -> (r: MakePosts<C>)
        ensures
            self.deep_view() matches MakePostsView::Commenter {
                p,
                row,
                count,
                done,
                comment,
                pending,
            } && r.deep_view() == next_comment(
                p,
                row,
                count,
                done.push(CommentView { comment: comment.comment, user: user.deep_view() }),
                pending,
            ),
            r.context() == self.context(),
    {
        let ghost before = self.done.deep_view();
        let CommenterStage { p, row, count, done, comment, pending } = self;
        let mut done = done;
        done.push(Comment { comment: comment.comment, user });
        assert(done.deep_view() =~= before.push(
            CommentView { comment: comment.comment@, user: user.deep_view() },
        ));
        p.next_comment(row, count, done, pending)
    }
}

impl<C> AuthorStage<C> {
    /// What the posts are put together for.
    pub closed spec fn context(self) -> C {
        self.p.context
    }

    /// What is asked of the database.
    pub fn query(&self) -> (r: Query<'static>)
        ensures
            self.deep_view() matches MakePostsView::Author { p, row, count, comments }
                && r.deep_view() == user_by_id(row.user_id),
    {
        Query::bound("SELECT * FROM `users` WHERE `id` = ?", Arg::Int(self.row.user_id))
    }

    /// Goes on with the answer.
    pub fn answer(self, user: User) -> (r: MakePosts<C>)
        ensures
            self.deep_view() matches MakePostsView::Author { p, row, count, comments }
                && r.deep_view() == after_author(p, row, count, comments, user.deep_view()),
            r.context() == self.context(),
    {
        let AuthorStage { p, row, count, comments } = self;
        let ghost before = p.progress();
        let Progress { rows, posts, csrf, all_comments, context } = p;
        let mut posts = posts;
        if user.del_flg == 0 {
            posts.push(
                Post {
                    id: row.id,
                    user,
                    body: row.body,
                    mime: row.mime,
                    created_at: row.created_at,
                    comment_count: count,
                    comments,
                    csrf_token: csrf.clone(),
                },
            );
            assert(posts.deep_view() =~= before.posts.push(
                shown_post(
                    row.deep_view(),
                    user.deep_view(),
                    count,
                    comments.deep_view(),
                    before.csrf,
                ),
            ));
        }
        Progress { rows, posts, csrf, all_comments, context }.next_row()
    }
}

// ---------- laws ----------

/// A database, by what it answers to the questions of this work. A question whose read fails has
/// no answer.
pub struct Answers {
    pub comment_count: spec_fn(i32) -> Option<i64>,
    pub comments: spec_fn(i32, bool) -> Option<Seq<CommentRowView>>,
    pub user: spec_fn(i32) -> Option<UserView>,
}

/// The state after the one question of `state` has been answered, if it can be.
pub open spec fn answered(db: Answers, state: MakePostsView) -> Option<MakePostsView> {
    match state {
        MakePostsView::Count { p, row } => match (db.comment_count)(row.id) {
            Some(count) => Some(MakePostsView::Comments { p, row, count }),
            None => None,
        },
        MakePostsView::Comments { p, row, count } => match (db.comments)(row.id, p.all_comments) {
            Some(rows) => Some(next_comment(p, row, count, seq![], rows)),
            None => None,
        },
        MakePostsView::Commenter { p, row, count, done, comment, pending } => match (db.user)(
            comment.user_id,
        ) {
            Some(user) => Some(
                next_comment(
                    p,
                    row,
                    count,
                    done.push(CommentView { comment: comment.comment, user }),
                    pending,
                ),
            ),
            None => None,
        },
        MakePostsView::Author { p, row, count, comments } => match (db.user)(row.user_id) {
            Some(author) => Some(after_author(p, row, count, comments, author)),
            None => None,
        },
        MakePostsView::Done { posts } => Some(state),
    }
}

pub open spec fn rows_left(state: MakePostsView) -> nat {
    match state {
        MakePostsView::Count { p, row } => p.rows.len() + 1,
        MakePostsView::Comments { p, row, count } => p.rows.len() + 1,
        MakePostsView::Commenter { p, row, count, done, comment, pending } => p.rows.len() + 1,
        MakePostsView::Author { p, row, count, comments } => p.rows.len() + 1,
        MakePostsView::Done { posts } => 0,
    }
}

pub open spec fn questions_left(state: MakePostsView) -> nat {
    match state {
        MakePostsView::Count { p, row } => 3,
        MakePostsView::Comments { p, row, count } => 2,
        MakePostsView::Commenter { p, row, count, done, comment, pending } => 1,
        MakePostsView::Author { p, row, count, comments } => 0,
        MakePostsView::Done { posts } => 0,
    }
}

pub open spec fn comments_left(state: MakePostsView) -> nat {
    match state {
        MakePostsView::Commenter { p, row, count, done, comment, pending } => pending.len(),
        _ => 0,
    }
}

/// The posts that the work ends with when its questions are put to `db`; none where one of them
/// has no answer.
pub open spec fn result(db: Answers, state: MakePostsView) -> Option<Seq<PostView>>
    decreases rows_left(state), questions_left(state), comments_left(state),
{
    match state {
        MakePostsView::Done { posts } => Some(posts),
        _ => match answered(db, state) {
            Some(next) => result(db, next),
            None => None,
        },
    }
}

/// The author of a row is known and not banned.
pub open spec fn author_shown(db: Answers, row: PostRowView) -> bool {
    (db.user)(row.user_id) matches Some(u) && u.del_flg == 0
}

/// The authors of all these comments are known.
pub open spec fn commenters_known(db: Answers, comments: Seq<CommentRowView>) -> bool {
    forall|i: int| 0 <= i < comments.len() ==> (db.user)((#[trigger] comments[i]).user_id) is Some
}

/// Every question about a row has an answer.
pub open spec fn row_answered(db: Answers, row: PostRowView, all_comments: bool) -> bool {
    &&& (db.comment_count)(row.id) is Some
    &&& (db.comments)(row.id, all_comments) matches Some(comments) && commenters_known(db, comments)
    &&& (db.user)(row.user_id) is Some
}

/// How many posts of `rows` are shown.
pub open spec fn shown_count(db: Answers, rows: Seq<PostRowView>) -> nat {
    rows.filter(|r: PostRowView| author_shown(db, r)).len()
}

/// With `ready` posts on the page, every question has an answer about each row that the work comes
/// to: the rows up to the one that fills the page.
pub open spec fn reads_answered(
    db: Answers,
    ready: nat,
    rows: Seq<PostRowView>,
    all_comments: bool,
) -> bool {
    forall|i: int|
        0 <= i < rows.len() && ready + shown_count(db, rows.take(i)) < POSTS_PER_PAGE
            ==> row_answered(db, #[trigger] rows[i], all_comments)
}

/// A comment row with its author.
pub open spec fn with_author(db: Answers, c: CommentRowView) -> CommentView {
    CommentView { comment: c.comment, user: (db.user)(c.user_id)->0 }
}

/// A post row with its author and comments, oldest comment first.
pub open spec fn full_post(
    db: Answers,
    row: PostRowView,
    csrf: Seq<char>,
    all_comments: bool,
) -> PostView {
    shown_post(
        row,
        (db.user)(row.user_id)->0,
        (db.comment_count)(row.id)->0,
        (db.comments)(row.id, all_comments)->0.map_values(
            |c: CommentRowView| with_author(db, c),
        ).reverse(),
        csrf,
    )
}

/// The posts of `rows` whose authors are not banned.
pub open spec fn full_posts(
    db: Answers,
    rows: Seq<PostRowView>,
    csrf: Seq<char>,
    all_comments: bool,
) -> Seq<PostView> {
    rows.filter(|r: PostRowView| author_shown(db, r)).map_values(
        |r: PostRowView| full_post(db, r, csrf, all_comments),
    )
}

/// As many posts as a page shows.
pub open spec fn first_page(posts: Seq<PostView>) -> Seq<PostView> {
    if posts.len() <= POSTS_PER_PAGE {
        posts
    } else {
        posts.take(POSTS_PER_PAGE as int)
    }
}

proof fn lemma_comments(
    db: Answers,
    p: ProgressView,
    row: PostRowView,
    count: i64,
    done: Seq<CommentView>,
    pending: Seq<CommentRowView>,
)
    ensures
        result(db, next_comment(p, row, count, done, pending)) == if commenters_known(db, pending) {
            result(
                db,
                MakePostsView::Author {
                    p,
                    row,
                    count,
                    comments: (done + pending.map_values(
                        |c: CommentRowView| with_author(db, c),
                    )).reverse(),
                },
            )
        } else {
            None
        },
    decreases pending.len(),
{
    let f = |c: CommentRowView| with_author(db, c);
    if pending.len() == 0 {
        assert(done + pending.map_values(f) =~= done);
    } else {
        let rest = pending.skip(1);
        let done1 = done.push(with_author(db, pending[0]));
        lemma_comments(db, p, row, count, done1, rest);
        assert(done1 + rest.map_values(f) =~= done + pending.map_values(f));
        if commenters_known(db, pending) {
            assert forall|i: int| 0 <= i < rest.len() implies (db.user)(
                (#[trigger] rest[i]).user_id,
            ) is Some by {
                assert(rest[i] == pending[i + 1]);
            }
        } else if (db.user)(pending[0].user_id) is Some {
            let i = choose|i: int|
                0 <= i < pending.len() && (db.user)((#[trigger] pending[i]).user_id) is None;
            assert(rest[i - 1] == pending[i]);
        }
    }
}

/// The work after the first of its rows is settled.
spec fn past_row(db: Answers, p: ProgressView) -> ProgressView {
    let row = p.rows[0];
    ProgressView {
        rows: p.rows.skip(1),
        posts: if author_shown(db, row) {
            p.posts.push(full_post(db, row, p.csrf, p.all_comments))
        } else {
            p.posts
        },
        ..p
    }
}

proof fn lemma_row(db: Answers, p: ProgressView)
    requires
        p.posts.len() < POSTS_PER_PAGE,
        p.rows.len() > 0,
    ensures
        result(db, next_row(p)) == if row_answered(db, p.rows[0], p.all_comments) {
            result(db, next_row(past_row(db, p)))
        } else {
            None
        },
{
    let row = p.rows[0];
    let q = ProgressView { rows: p.rows.skip(1), ..p };
    let s0 = MakePostsView::Count { p: q, row };
    assert(next_row(p) == s0);
    if let Some(count) = (db.comment_count)(row.id) {
        let s1 = MakePostsView::Comments { p: q, row, count };
        assert(result(db, s0) == result(db, s1));
        if let Some(crows) = (db.comments)(row.id, p.all_comments) {
            let f = |c: CommentRowView| with_author(db, c);
            let s2 = next_comment(q, row, count, seq![], crows);
            let s3 = MakePostsView::Author {
                p: q,
                row,
                count,
                comments: crows.map_values(f).reverse(),
            };
            assert(result(db, s1) == result(db, s2));
            lemma_comments(db, q, row, count, seq![], crows);
            assert(Seq::<CommentView>::empty() + crows.map_values(f) =~= crows.map_values(f));
            if commenters_known(db, crows) {
                assert(result(db, s2) == result(db, s3));
            }
        }
    }
}

proof fn lemma_reads_answered(db: Answers, ready: nat, rows: Seq<PostRowView>, all_comments: bool)
    requires
        ready < POSTS_PER_PAGE,
        rows.len() > 0,
    ensures
        reads_answered(db, ready, rows, all_comments) <==> row_answered(db, rows[0], all_comments)
            && reads_answered(
            db,
            ready + if author_shown(db, rows[0]) {
                1nat
            } else {
                0nat
            },
            rows.skip(1),
            all_comments,
        ),
{
    let shown = |r: PostRowView| author_shown(db, r);
    let row = rows[0];
    let rest = rows.skip(1);
    let step: nat = if author_shown(db, row) {
        1nat
    } else {
        0nat
    };
    reveal(Seq::filter);
    assert(rows.take(0).filter(shown).len() == 0);
    assert forall|i: int| 0 <= i < rest.len() implies shown_count(db, rows.take(i + 1)) == step
        + #[trigger] shown_count(db, rest.take(i)) by {
        assert(rows.take(i + 1) =~= seq![row] + rest.take(i));
        Seq::filter_distributes_over_add(seq![row], rest.take(i), shown);
        reveal_with_fuel(Seq::filter, 2);
        assert(seq![row].drop_last() =~= Seq::empty());
        assert(seq![row].filter(shown).len() == step);
    }
    if reads_answered(db, ready, rows, all_comments) {
        assert(row_answered(db, rows[0], all_comments));
        assert forall|i: int|
            0 <= i < rest.len() && ready + step + shown_count(db, rest.take(i))
                < POSTS_PER_PAGE implies row_answered(db, #[trigger] rest[i], all_comments) by {
            assert(rest[i] == rows[i + 1]);
        }
    }
    if row_answered(db, rows[0], all_comments) && reads_answered(
        db,
        ready + step,
        rest,
        all_comments,
    ) {
        assert forall|i: int|
            0 <= i < rows.len() && ready + shown_count(db, rows.take(i))
                < POSTS_PER_PAGE implies row_answered(db, #[trigger] rows[i], all_comments) by {
            if i > 0 {
                assert(rest[i - 1] == rows[i]);
                assert(shown_count(db, rows.take(i)) == step + shown_count(db, rest.take(i - 1)));
            }
        }
    }
}

proof fn lemma_rows(db: Answers, p: ProgressView)
    requires
        p.posts.len() <= POSTS_PER_PAGE,
    ensures
        result(db, next_row(p)) == if reads_answered(db, p.posts.len(), p.rows, p.all_comments) {
            Some(first_page(p.posts + full_posts(db, p.rows, p.csrf, p.all_comments)))
        } else {
            None
        },
    decreases p.rows.len(),
{
    let visible = |r: PostRowView| author_shown(db, r);
    let f = |r: PostRowView| full_post(db, r, p.csrf, p.all_comments);
    let shown = full_posts(db, p.rows, p.csrf, p.all_comments);
    if p.posts.len() >= POSTS_PER_PAGE {
        assert(first_page(p.posts + shown) =~= p.posts);
    } else if p.rows.len() == 0 {
        reveal(Seq::filter);
        assert(p.posts + shown =~= p.posts);
    } else {
        let row = p.rows[0];
        let next = past_row(db, p);
        let rest = full_posts(db, next.rows, p.csrf, p.all_comments);
        lemma_row(db, p);
        lemma_reads_answered(db, p.posts.len(), p.rows, p.all_comments);
        lemma_rows(db, next);
        assert(p.rows =~= seq![row] + next.rows);
        Seq::filter_distributes_over_add(seq![row], next.rows, visible);
        reveal_with_fuel(Seq::filter, 2);
        assert(seq![row].drop_last() =~= Seq::empty());
        if author_shown(db, row) {
            assert(seq![row].filter(visible) =~= seq![row]);
            assert(shown =~= seq![f(row)] + rest);
        } else {
            assert(seq![row].filter(visible) =~= Seq::empty());
            assert(shown =~= rest);
        }
        assert(next.posts + rest =~= p.posts + shown);
    }
}

/// There is a list of posts if and only if every read is answered for the rows up to the one that
/// fills the page. The list then holds the posts of the rows, in their order, with their authors
/// and comments, without the posts of banned users, and at most as many as fit. Where one of these
/// reads fails there is no list.
pub proof fn law_make_posts(
    db: Answers,
    rows: Seq<PostRowView>,
    csrf: Seq<char>,
    all_comments: bool,
)
    ensures
        result(db, begin(rows, csrf, all_comments)) == if reads_answered(
            db,
            0,
            rows,
            all_comments,
        ) {
            Some(first_page(full_posts(db, rows, csrf, all_comments)))
        } else {
            None
        },
{
    lemma_rows(db, ProgressView { rows, posts: seq![], csrf, all_comments });
    assert(Seq::<PostView>::empty() + full_posts(db, rows, csrf, all_comments) =~= full_posts(
        db,
        rows,
        csrf,
        all_comments,
    ));
}

/// No page shows a banned user's post, nor more posts than fit, and every post carries the
/// visitor's form token.
pub proof fn law_page_of_posts(
    db: Answers,
    rows: Seq<PostRowView>,
    csrf: Seq<char>,
    all_comments: bool,
)
    ensures
        result(db, begin(rows, csrf, all_comments)) matches Some(posts) ==> {
            &&& posts.len() <= POSTS_PER_PAGE
            &&& forall|i: int|
                0 <= i < posts.len() ==> (#[trigger] posts[i]).user.del_flg == 0
                    && posts[i].csrf_token == csrf
        },
{
    law_make_posts(db, rows, csrf, all_comments);
    let visible = |r: PostRowView| author_shown(db, r);
    if let Some(posts) = result(db, begin(rows, csrf, all_comments)) {
        assert forall|i: int| 0 <= i < posts.len() implies (#[trigger] posts[i]).user.del_flg == 0
            && posts[i].csrf_token == csrf by {
            broadcast use vstd::seq_lib::group_filter_ensures;

            assert(posts[i] == full_posts(db, rows, csrf, all_comments)[i]);
            let kept = rows.filter(visible);
            assert(kept.contains(kept[i]));
            assert(visible(kept[i]));
        }
    }
}

/// A post shows the comments that the database gave for it, in the opposite order.
pub proof fn law_comments_are_reversed(
    db: Answers,
    row: PostRowView,
    csrf: Seq<char>,
    all_comments: bool,
    comments: Seq<CommentRowView>,
    i: int,
)
    requires
        (db.comments)(row.id, all_comments) == Some(comments),
        0 <= i < comments.len(),
    ensures
        full_post(db, row, csrf, all_comments).comments.len() == comments.len(),
        full_post(db, row, csrf, all_comments).comments[i] == with_author(
            db,
            comments[comments.len() - 1 - i],
        ),
{
}

/// For each of the rows, where both statements are answered, the one for the latest comments gives
/// the first three rows of the one for all comments.
pub open spec fn latest_are_first_three(db: Answers, rows: Seq<PostRowView>) -> bool {
    forall|i: int|
        0 <= i < rows.len() ==> match (
            (db.comments)((#[trigger] rows[i]).id, true),
            (db.comments)(rows[i].id, false),
        ) {
            (Some(all), Some(latest)) => latest == first_three(all),
            _ => true,
        }
}

pub open spec fn first_three(rows: Seq<CommentRowView>) -> Seq<CommentRowView> {
    if rows.len() <= 3 {
        rows
    } else {
        rows.take(3)
    }
}

pub open spec fn last_three(comments: Seq<CommentView>) -> Seq<CommentView> {
    if comments.len() <= 3 {
        comments
    } else {
        comments.skip(comments.len() - 3)
    }
}

/// `short` is `full` with only the last three comments of each post.
pub open spec fn shortened(full: Seq<PostView>, short: Seq<PostView>) -> bool {
    &&& full.len() == short.len()
    &&& forall|i: int|
        0 <= i < full.len() ==> #[trigger] short[i] == (PostView {
            comments: last_three(full[i].comments),
            ..full[i]
        })
}

proof fn lemma_shortened(db: Answers, full: ProgressView, short: ProgressView)
    requires
        latest_are_first_three(db, full.rows),
        full.rows == short.rows,
        full.csrf == short.csrf,
        full.all_comments,
        !short.all_comments,
        shortened(full.posts, short.posts),
    ensures
        result(db, next_row(full)) is Some && result(db, next_row(short)) is Some ==> shortened(
            result(db, next_row(full))->0,
            result(db, next_row(short))->0,
        ),
    decreases full.rows.len(),
{
    if full.posts.len() < POSTS_PER_PAGE && full.rows.len() > 0 {
        lemma_row(db, full);
        lemma_row(db, short);
        let row = full.rows[0];
        if row_answered(db, row, true) && row_answered(db, row, false) {
            let f = |c: CommentRowView| with_author(db, c);
            let all = (db.comments)(row.id, true)->0;
            let latest = (db.comments)(row.id, false)->0;
            let a = full_post(db, row, full.csrf, true);
            let b = full_post(db, row, full.csrf, false);
            assert(latest == first_three(all));
            assert(b.comments =~= last_three(a.comments));
            assert(b == (PostView { comments: last_three(a.comments), ..a }));
            assert forall|i: int| 0 <= i < full.rows.skip(1).len() implies #[trigger] full.rows.skip(
                1,
            )[i] == full.rows[i + 1] by {}
            lemma_shortened(db, past_row(db, full), past_row(db, short));
        }
    }
}

/// A page that shows the latest comments and a page that shows all differ only in this: where both
/// can be made of the same rows, they have the same posts, and each short list of comments is the
/// last three of the full one.
pub proof fn law_latest_comments_end_the_full_list(
    db: Answers,
    rows: Seq<PostRowView>,
    csrf: Seq<char>,
    full: Seq<PostView>,
    short: Seq<PostView>,
)
    requires
        latest_are_first_three(db, rows),
        result(db, begin(rows, csrf, true)) == Some(full),
        result(db, begin(rows, csrf, false)) == Some(short),
    ensures
        shortened(full, short),
{
    lemma_shortened(
        db,
        ProgressView { rows, posts: seq![], csrf, all_comments: true },
        ProgressView { rows, posts: seq![], csrf, all_comments: false },
    );
}

/// Every post of the finished list is its own row, shown whole: the post at each position is the row
/// at that position among those whose authors are known and not banned, with the row's number, text,
/// image type and time, its author, the number of its comments, and its comments from the last that
/// the database gave to the first. The list has all these rows, or the first twenty.
pub proof fn law_posts_show_their_rows(
    db: Answers,
    rows: Seq<PostRowView>,
    csrf: Seq<char>,
    all_comments: bool,
    posts: Seq<PostView>,
    i: int,
    k: int,
)
    requires
        result(db, begin(rows, csrf, all_comments)) == Some(posts),
    ensures
        ({
            let kept = rows.filter(
                |r: PostRowView|
                    (db.user)(r.user_id) is Some && (db.user)(r.user_id)->0.del_flg == 0,
            );
            let comments = (db.comments)(kept[i].id, all_comments)->0;
            &&& posts.len() == if kept.len() < 20 {
                kept.len()
            } else {
                20
            }
            &&& 0 <= i < posts.len() ==> {
                &&& posts[i].id == kept[i].id
                &&& posts[i].body == kept[i].body
                &&& posts[i].mime == kept[i].mime
                &&& posts[i].created_at == kept[i].created_at
                &&& posts[i].user == (db.user)(kept[i].user_id)->0
                &&& posts[i].comment_count == (db.comment_count)(kept[i].id)->0
                &&& posts[i].csrf_token == csrf
                &&& posts[i].comments.len() == comments.len()
                &&& 0 <= k < comments.len() ==> {
                    &&& posts[i].comments[k].comment == comments[comments.len() - 1 - k].comment
                    &&& posts[i].comments[k].user == (db.user)(
                        comments[comments.len() - 1 - k].user_id,
                    )->0
                }
            }
        }),
{
    law_make_posts(db, rows, csrf, all_comments);
    let kept_by = |r: PostRowView|
        (db.user)(r.user_id) is Some && (db.user)(r.user_id)->0.del_flg == 0;
    let shown_by = |r: PostRowView| author_shown(db, r);
    assert forall|r: PostRowView| kept_by(r) == #[trigger] shown_by(r) by {}
    assert(kept_by =~= shown_by);
    let kept = rows.filter(kept_by);
    let all = full_posts(db, rows, csrf, all_comments);
    assert(all.len() == kept.len());
    if 0 <= i < posts.len() {
        assert(posts[i] == all[i]);
        assert(all[i] == full_post(db, kept[i], csrf, all_comments));
    }
}

/// The image of a shown post is served at the address of its row's own number and type.
pub proof fn law_shown_image_address(
    db: Answers,
    rows: Seq<PostRowView>,
    csrf: Seq<char>,
    all_comments: bool,
    posts: Seq<PostView>,
    i: int,
)
    requires
        result(db, begin(rows, csrf, all_comments)) == Some(posts),
        0 <= i < posts.len(),
    ensures
        ({
            let row = rows.filter(
                |r: PostRowView|
                    (db.user)(r.user_id) is Some && (db.user)(r.user_id)->0.del_flg == 0,
            )[i];
            image_path(posts[i].id as int, posts[i].mime) == "/image/"@ + decimal(row.id as int)
                + image_suffix(row.mime)
        }),
{
    law_posts_show_their_rows(db, rows, csrf, all_comments, posts, i, 0);
}

/// The statements about a post bind its whole number; three comments are asked for where not all
/// are shown.
pub proof fn law_comment_statements(post_id: i32)
    ensures
        comment_count_query(post_id).sql
            == "SELECT COUNT(*) AS `count` FROM `comments` WHERE `post_id` = ?"@,
        comment_count_query(post_id).args == seq![ArgView::Int(post_id)],
        comments_query(post_id, true).sql
            == "SELECT * FROM `comments` WHERE `post_id` = ? ORDER BY `created_at` DESC"@,
        comments_query(post_id, true).args == seq![ArgView::Int(post_id)],
        comments_query(post_id, false).sql
            == "SELECT * FROM `comments` WHERE `post_id` = ? ORDER BY `created_at` DESC LIMIT 3"@,
        comments_query(post_id, false).args == seq![ArgView::Int(post_id)],
{
}

/// The finished work is known by all its posts.
pub proof fn law_finished_view<C>(done: Finished<C>)
    ensures
        MakePosts::Done(done).deep_view() == (MakePostsView::Done {
            posts: done.posts.deep_view(),
        }),
        MakePosts::Done(done).context() == done.context,
{
}

} // verus!
