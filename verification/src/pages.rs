//! The pages that show posts: the front page, a user's page, older posts and a single post.
use crate::clock::{rfc3339_local, LocalTime};
use crate::model::{Post, PostRow, PostView, User};
use crate::query::{bound_query, plain_query, Arg, ArgView, Query, QueryView};
use crate::reply::{
    page_reply, status_reply, BodyView, Page, PageView, Reply, ReplyView, NOT_FOUND, OK,
};
use crate::session::{
    csrf_token, flash_taken, get_flash, session_of, sound, token_of, SessionStore,
};
use crate::timeline::{begin, make_posts, Finished, MakePosts};
use vstd::prelude::*;
use vstd::string::*;

verus! {

// ---------- the front page ----------

/// The statement that fetches all posts, newest first.
pub open spec fn all_posts() -> QueryView {
    plain_query(
        "SELECT `id`, `user_id`, `body`, `mime`, `created_at` FROM `posts` ORDER BY `created_at` DESC"@,
    )
}

/// The front page, as `me` sees it, on which the posts are wanted.
#[derive(Debug)]
pub struct FrontPage {
    pub me: User,
}

/// The front page with the form token that it carries, while its posts are put together.
#[derive(Debug)]
pub struct FrontPosts {
    pub me: User,
    pub csrf_token: String,
}

/// Starts the front page.
pub fn get_index(me: User) -> (r: FrontPage)
    ensures
        r.me == me,
{
    FrontPage { me }
}

impl FrontPage {
    /// The statement that fetches the posts.
    pub fn query(&self) -> (r: Query<'static>)
        ensures
            r.deep_view() == all_posts(),
    {
        Query::plain(
            "SELECT `id`, `user_id`, `body`, `mime`, `created_at` FROM `posts` ORDER BY `created_at` DESC",
        )
    }

    /// Goes on with the rows of the posts. Each post shows its latest comments, and the page and
    /// its posts carry the form token of session `sid`.
    pub fn answer(self, store: &SessionStore, sid: &str, rows: Vec<PostRow>) -> (r: MakePosts<
        FrontPosts,
    >)
        ensures
            r.deep_view() == begin(rows.deep_view(), token_of(store@, sid@), false),
            r.context().me == self.me,
            r.context().csrf_token@ == token_of(store@, sid@),
    {
        let csrf = csrf_token(store, sid);
        let carried = csrf.clone();
        make_posts(rows, carried.as_str(), false, FrontPosts { me: self.me, csrf_token: csrf })
    }
}

/// The front page with its posts and the notice that was left for it.
pub fn index_page(store: &mut SessionStore, sid: &str, done: Finished<FrontPosts>) -> (r: Reply)
    ensures
        r.deep_view() == page_reply(
            PageView::Index {
                me: done.context.me.deep_view(),
                posts: done.posts.deep_view(),
                csrf_token: done.context.csrf_token@,
                flash: session_of(old(store)@, sid@).flash(),
            },
        ),
        final(store)@ == flash_taken(old(store)@, sid@),
        sound(old(store)@) ==> sound(final(store)@),
{
    let flash = get_flash(store, sid);
    let FrontPosts { me, csrf_token } = done.context;
    Reply::page(Page::Index { me, posts: done.posts, csrf_token, flash })
}

// ---------- a user's page ----------

/// The statement that looks an account up that is not banned.
pub open spec fn account(account_name: Seq<char>) -> QueryView {
    bound_query(
        "SELECT * FROM `users` WHERE `account_name` = ? AND `del_flg` = 0"@,
        ArgView::Text(account_name),
    )
}

/// The statement that fetches a user's posts, newest first.
pub open spec fn posts_of_user(id: i32) -> QueryView {
    bound_query(
        "SELECT `id`, `user_id`, `body`, `mime`, `created_at` FROM `posts` WHERE `user_id` = ? ORDER BY `created_at` DESC"@,
        ArgView::Int(id),
    )
}

/// The statement that counts a user's comments.
pub open spec fn comments_of_user(id: i32) -> QueryView {
    bound_query(
        "SELECT COUNT(*) AS count FROM `comments` WHERE `user_id` = ?"@,
        ArgView::Int(id),
    )
}

/// The statement that fetches the numbers of a user's posts.
pub open spec fn post_ids_of_user(id: i32) -> QueryView {
    bound_query("SELECT `id` FROM `posts` WHERE `user_id` = ?"@, ArgView::Int(id))
}

/// `n` placeholders, with commas between them.
pub open spec fn placeholders(n: nat) -> Seq<char>
    decreases n,
{
    if n == 0 {
        Seq::empty()
    } else if n == 1 {
        "?"@
    } else {
        placeholders((n - 1) as nat) + ", "@ + "?"@
    }
}

/// The statement that counts the comments on some posts.
pub open spec fn comments_on_posts(ids: Seq<i32>) -> QueryView {
    QueryView {
        sql: "SELECT COUNT(*) AS count FROM `comments` WHERE `post_id` IN ("@ + placeholders(
            ids.len(),
        ) + ")"@,
        args: ids.map_values(|id: i32| ArgView::Int(id)),
    }
}

/// The statement that looks up the account whose page is wanted.
pub fn account_query(account_name: &str) -> (r: Query<'static>)
    ensures
        r.deep_view() == account(account_name@),
{
    Query::bound(
        "SELECT * FROM `users` WHERE `account_name` = ? AND `del_flg` = 0",
        Arg::Text(account_name.to_owned()),
    )
}

/// A user's page on which the posts are wanted.
#[derive(Debug)]
pub struct AccountPosts {
    pub user: User,
}

/// A user's page on which the number of the user's comments is wanted.
#[derive(Debug)]
pub struct AccountComments {
    pub user: User,
    pub posts: Vec<Post>,
}

/// A user's page on which the numbers of the user's posts are wanted.
#[derive(Debug)]
pub struct AccountPostIds {
    pub user: User,
    pub posts: Vec<Post>,
    pub comment_count: i64,
}

/// A user's page on which the number of comments on the user's posts is wanted.
#[derive(Debug)]
pub struct AccountCommented {
    pub user: User,
    pub posts: Vec<Post>,
    pub comment_count: i64,
    pub post_ids: Vec<i32>,
}

/// A user's page that is complete but for the visitor who sees it.
#[derive(Debug)]
pub struct AccountReady {
    pub user: User,
    pub posts: Vec<Post>,
    pub post_count: i64,
    pub comment_count: i64,
    pub commented_count: i64,
}

/// Starts a user's page, given the account that was found. Without one there is no page.
pub fn account_found(user: Option<User>) -> (r: Result<AccountPosts, Reply>)
    ensures
        match user {
            Some(u) => r matches Ok(page) && page.user == u,
            None => r matches Err(reply) && reply.deep_view() == status_reply(NOT_FOUND),
        },
{
    match user {
        Some(user) => Ok(AccountPosts { user }),
        None => Err(Reply::status(NOT_FOUND)),
    }
}

impl AccountPosts {
    /// The statement that fetches the user's posts.
    pub fn query(&self) -> (r: Query<'static>)
        ensures
            r.deep_view() == posts_of_user(self.user.id),
    {
        Query::bound(
            "SELECT `id`, `user_id`, `body`, `mime`, `created_at` FROM `posts` WHERE `user_id` = ? ORDER BY `created_at` DESC",
            Arg::Int(self.user.id),
        )
    }

    /// Goes on with the rows of the posts. Each post shows its latest comments and carries the form
    /// token of session `sid`.
    pub fn answer(self, store: &SessionStore, sid: &str, rows: Vec<PostRow>) -> (r: MakePosts<
        AccountPosts,
    >)
        ensures
            r.deep_view() == begin(rows.deep_view(), token_of(store@, sid@), false),
            r.context() == self,
    {
        make_posts(rows, csrf_token(store, sid).as_str(), false, self)
    }
}

/// Goes on with a user's page when its posts are complete.
pub fn account_posts(done: Finished<AccountPosts>) -> (r: AccountComments)
    ensures
        r.user == done.context.user,
        r.posts == done.posts,
{
    AccountComments { user: done.context.user, posts: done.posts }
}

impl AccountComments {
    /// The statement that counts the user's comments.
    pub fn query(&self) -> (r: Query<'static>)
        ensures
            r.deep_view() == comments_of_user(self.user.id),
    {
        Query::bound(
            "SELECT COUNT(*) AS count FROM `comments` WHERE `user_id` = ?",
            Arg::Int(self.user.id),
        )
    }

    /// Goes on with the number of comments.
    pub fn answer(self, comment_count: i64) -> (r: AccountPostIds)
        ensures
            r.user == self.user,
            r.posts == self.posts,
            r.comment_count == comment_count,
    {
        AccountPostIds { user: self.user, posts: self.posts, comment_count }
    }
}

impl AccountPostIds {
    /// The statement that fetches the numbers of the user's posts.
    pub fn query(&self) -> (r: Query<'static>)
        ensures
            r.deep_view() == post_ids_of_user(self.user.id),
    {
        Query::bound("SELECT `id` FROM `posts` WHERE `user_id` = ?", Arg::Int(self.user.id))
    }

    /// Goes on with the numbers of the posts.
    pub fn answer(self, post_ids: Vec<i32>) -> (r: AccountCommented)
        ensures
            r.user == self.user,
            r.posts == self.posts,
            r.comment_count == self.comment_count,
            r.post_ids == post_ids,
    {
        AccountCommented {
            user: self.user,
            posts: self.posts,
            comment_count: self.comment_count,
            post_ids,
        }
    }
}

/// `n` placeholders, with commas between them.
fn placeholder_text(n: usize) -> (r: String)
    ensures
        r@ == placeholders(n as nat),
{
    let mut r = String::new();
    let mut i: usize = 0;
    while i < n
        invariant
            i <= n,
            r@ == placeholders(i as nat),
        decreases n - i,
    {
        if i > 0 {
            r.append(", ");
        }
        r.append("?");
        assert(i == 0 ==> r@ =~= "?"@);
        i += 1;
    }
    r
}

impl AccountCommented {
    /// The statement that counts the comments on the user's posts. Nothing is asked where there
    /// are no posts.
    pub fn query(&self) -> (r: Option<Query<'static>>)
        ensures
            r is Some <==> self.post_ids.len() as i64 > 0,
            r matches Some(q) ==> q.deep_view() == comments_on_posts(self.post_ids@),
    {
        let post_ids = &self.post_ids;
        if post_ids.len() as i64 <= 0 {
            return None;
        }
        let mut sql = "SELECT COUNT(*) AS count FROM `comments` WHERE `post_id` IN (".to_owned();
        sql.append(placeholder_text(post_ids.len()).as_str());
        sql.append(")");
        let mut args: Vec<Arg<'static>> = Vec::new();
        let mut i: usize = 0;
        while i < post_ids.len()
            invariant
                i <= post_ids@.len(),
                args.deep_view() == post_ids@.take(i as int).map_values(
                    |id: i32| ArgView::Int(id),
                ),
            decreases post_ids@.len() - i,
        {
            let ghost before = args.deep_view();
            args.push(Arg::Int(post_ids[i]));
            assert(args.deep_view() =~= before.push(ArgView::Int(post_ids@[i as int])));
            assert(post_ids@.take(i + 1) =~= post_ids@.take(i as int).push(post_ids@[i as int]));
            i += 1;
            assert(args.deep_view() =~= post_ids@.take(i as int).map_values(
                |id: i32| ArgView::Int(id),
            ));
        }
        assert(post_ids@.take(post_ids@.len() as int) =~= post_ids@);
        Some(Query { sql, args })
    }

    /// Goes on with the number of comments on the posts, where it was asked for. A user without
    /// posts has none.
    pub fn answer(self, commented: Option<i64>) -> (r: AccountReady)
        ensures
            r.user == self.user,
            r.posts == self.posts,
            r.post_count == self.post_ids.len() as i64,
            r.comment_count == self.comment_count,
            r.commented_count == match commented {
                Some(n) => if self.post_ids.len() as i64 > 0 {
                    n
                } else {
                    0
                },
                None => 0,
            },
    {
        let commented_count: i64 = match commented {
            Some(n) => if self.post_ids.len() as i64 > 0 {
                n
            } else {
                0
            },
            None => 0,
        };
        AccountReady {
            user: self.user,
            posts: self.posts,
            post_count: self.post_ids.len() as i64,
            comment_count: self.comment_count,
            commented_count,
        }
    }
}

impl AccountReady {
    /// The page, as `me` sees it.
    pub fn page(self, me: User) -> (r: Reply)
        ensures
            r.deep_view() == page_reply(
                PageView::User {
                    me: me.deep_view(),
                    user: self.user.deep_view(),
                    posts: self.posts.deep_view(),
                    post_count: self.post_count,
                    comment_count: self.comment_count,
                    commented_count: self.commented_count,
                },
            ),
    {
        Reply::page(
            Page::User {
                me,
                user: self.user,
                posts: self.posts,
                post_count: self.post_count,
                comment_count: self.comment_count,
                commented_count: self.commented_count,
            },
        )
    }
}

// ---------- older posts ----------

/// The statement that fetches the posts that are not newer than `t`, newest first.
pub open spec fn posts_until(t: LocalTime) -> QueryView {
    bound_query(
        "SELECT `id`, `user_id`, `body`, `mime`, `created_at` FROM `posts` WHERE `created_at` <= ? ORDER BY `created_at` DESC"@,
        ArgView::Time(t),
    )
}

/// The local reading in the parameter `max_created_at`, if it is there and is an RFC 3339 text.
pub open spec fn max_created_at(param: Option<Seq<char>>) -> Option<(i64, u32)> {
    match param {
        Some(text) => if text.len() > 0 {
            rfc3339_local(text)
        } else {
            None
        },
        None => None,
    }
}

/// A page of the posts that are not newer than `until`, on which the posts are wanted.
#[derive(Debug)]
pub struct OlderPosts {
    pub until: LocalTime,
}

/// Goes on with a request for older posts, given the reading in its parameter. Without one the
/// reply is empty.
pub fn get_posts_until(until: Option<LocalTime>) -> (r: Result<OlderPosts, Reply>)
    ensures
        match until {
            Some(t) => r matches Ok(page) && page.until == t,
            None => r matches Err(reply) && reply.deep_view() == status_reply(OK),
        },
{
    match until {
        Some(until) => Ok(OlderPosts { until }),
        None => Err(Reply::status(OK)),
    }
}

/// Takes a request for older posts, given its parameter `max_created_at`.
pub fn get_posts(param: Option<&str>) -> (r: Result<OlderPosts, Reply>)
    ensures
        match max_created_at(param.deep_view()) {
            Some((secs, nanos)) => r matches Ok(page) && page.until.spec_secs() == secs
                && page.until.spec_nanos() == nanos,
            None => r matches Err(reply) && reply.deep_view() == status_reply(OK),
        },
{
    let until = match param {
        Some(text) => if text.is_empty() {
            None
        } else {
            LocalTime::parse(text)
        },
        None => None,
    };
    get_posts_until(until)
}

impl OlderPosts {
    /// The statement that fetches the posts.
    pub fn query(&self) -> (r: Query<'static>)
        ensures
            r.deep_view() == posts_until(self.until),
    {
        Query::bound(
            "SELECT `id`, `user_id`, `body`, `mime`, `created_at` FROM `posts` WHERE `created_at` <= ? ORDER BY `created_at` DESC",
            Arg::Time(self.until),
        )
    }

    /// Goes on with the rows of the posts. Each post shows its latest comments and carries the form
    /// token of session `sid`.
    pub fn answer(self, store: &SessionStore, sid: &str, rows: Vec<PostRow>) -> (r: MakePosts<
        OlderPosts,
    >)
        ensures
            r.deep_view() == begin(rows.deep_view(), token_of(store@, sid@), false),
            r.context() == self,
    {
        make_posts(rows, csrf_token(store, sid).as_str(), false, self)
    }
}

/// What is shown of older posts: a page, if there are any.
pub open spec fn posts_reply(posts: Seq<PostView>) -> ReplyView {
    if posts.len() == 0 {
        status_reply(NOT_FOUND)
    } else {
        page_reply(PageView::Posts { posts })
    }
}

/// The page of older posts.
pub fn posts_page(done: Finished<OlderPosts>) -> (r: Reply)
    ensures
        r.deep_view() == posts_reply(done.posts.deep_view()),
{
    let posts = done.posts;
    if posts.is_empty() {
        return Reply::status(NOT_FOUND);
    }
    Reply::page(Page::Posts { posts })
}

// ---------- a single post ----------

/// The statement that fetches a post.
pub open spec fn post_by_id(id: i32) -> QueryView {
    bound_query(
        "SELECT `id`, `user_id`, `body`, `mime`, `created_at` FROM `posts` WHERE `id` = ?"@,
        ArgView::Int(id),
    )
}

/// The page of a post, on which the post is wanted.
#[derive(Debug)]
pub struct SinglePost {
    pub id: i32,
}

/// Takes a request for the page of a post.
pub fn get_posts_id(id: i32) -> (r: SinglePost)
    ensures
        r.id == id,
{
    SinglePost { id }
}

impl SinglePost {
    /// The statement that fetches the post.
    pub fn query(&self) -> (r: Query<'static>)
        ensures
            r.deep_view() == post_by_id(self.id),
    {
        Query::bound(
            "SELECT `id`, `user_id`, `body`, `mime`, `created_at` FROM `posts` WHERE `id` = ?",
            Arg::Int(self.id),
        )
    }

    /// Goes on with the row of the post. The post shows all its comments and carries the form token
    /// of session `sid`.
    pub fn answer(self, store: &SessionStore, sid: &str, rows: Vec<PostRow>) -> (r: MakePosts<
        SinglePost,
    >)
        ensures
            r.deep_view() == begin(rows.deep_view(), token_of(store@, sid@), true),
            r.context() == self,
    {
        make_posts(rows, csrf_token(store, sid).as_str(), true, self)
    }
}

/// The post to show, if there is one to be seen.
pub fn single_post(done: Finished<SinglePost>) -> (r: Result<Post, Reply>)
    ensures
        done.posts@.len() > 0 ==> (r matches Ok(post) && post == done.posts@[0]),
        done.posts@.len() == 0 ==> (r matches Err(reply) && reply.deep_view() == status_reply(
            NOT_FOUND,
        )),
{
    let mut posts = done.posts;
    if posts.is_empty() {
        return Err(Reply::status(NOT_FOUND));
    }
    Ok(posts.remove(0))
}

/// The page of a post.
pub fn post_page(me: User, post: Post) -> (r: Reply)
    ensures
        r.deep_view() == page_reply(
            PageView::PostId { me: me.deep_view(), post: post.deep_view() },
        ),
{
    Reply::page(Page::PostId { me, post })
}

// ---------- laws ----------

/// How often `c` occurs in `s`.
pub open spec fn occurrences(s: Seq<char>, c: char) -> nat
    decreases s.len(),
{
    if s.len() == 0 {
        0
    } else {
        occurrences(s.drop_last(), c) + if s.last() == c {
            1nat
        } else {
            0nat
        }
    }
}

proof fn lemma_occurrences_add(a: Seq<char>, b: Seq<char>, c: char)
    ensures
        occurrences(a + b, c) == occurrences(a, c) + occurrences(b, c),
    decreases b.len(),
{
    if b.len() == 0 {
        assert(a + b =~= a);
    } else {
        lemma_occurrences_add(a, b.drop_last(), c);
        assert((a + b).drop_last() =~= a + b.drop_last());
    }
}

proof fn lemma_no_occurrence(s: Seq<char>, c: char)
    requires
        forall|i: int| 0 <= i < s.len() ==> s[i] != c,
    ensures
        occurrences(s, c) == 0,
    decreases s.len(),
{
    if s.len() > 0 {
        lemma_no_occurrence(s.drop_last(), c);
    }
}

proof fn lemma_placeholders(n: nat)
    ensures
        occurrences(placeholders(n), '?') == n,
    decreases n,
{
    reveal_strlit("?");
    reveal_strlit(", ");
    reveal_with_fuel(occurrences, 2);
    assert("?"@.drop_last() =~= Seq::empty());
    assert(occurrences("?"@, '?') == 1);
    if n > 1 {
        let m = (n - 1) as nat;
        lemma_placeholders(m);
        lemma_no_occurrence(", "@, '?');
        lemma_occurrences_add(placeholders(m), ", "@, '?');
        lemma_occurrences_add(placeholders(m) + ", "@, "?"@, '?');
    }
}

/// The statement that counts the comments on some posts has one placeholder for each post, and a
/// value for each placeholder.
pub proof fn law_comments_on_posts_placeholders(ids: Seq<i32>)
    ensures
        occurrences(comments_on_posts(ids).sql, '?') == ids.len(),
        comments_on_posts(ids).args.len() == ids.len(),
{
    let head = "SELECT COUNT(*) AS count FROM `comments` WHERE `post_id` IN ("@;
    reveal_strlit("SELECT COUNT(*) AS count FROM `comments` WHERE `post_id` IN (");
    reveal_strlit(")");
    lemma_no_occurrence(head, '?');
    lemma_no_occurrence(")"@, '?');
    lemma_placeholders(ids.len());
    lemma_occurrences_add(head, placeholders(ids.len()), '?');
    lemma_occurrences_add(head + placeholders(ids.len()), ")"@, '?');
}

/// The page of older posts shows the whole list: as many posts, and at each position the same. Where
/// the list is empty there is no page.
pub proof fn law_older_posts_are_all_shown(posts: Seq<PostView>)
    ensures
        posts.len() == 0 ==> posts_reply(posts).status == 404 && posts_reply(posts).body
            == BodyView::Empty,
        posts.len() > 0 ==> {
            &&& posts_reply(posts).status == 200
            &&& posts_reply(posts).headers.len() == 0
            &&& posts_reply(posts).body matches BodyView::Html(PageView::Posts { posts: shown }) && {
                &&& shown.len() == posts.len()
                &&& forall|i: int| 0 <= i < posts.len() ==> #[trigger] shown[i] == posts[i]
            }
        },
{
}

/// Only a parameter that is there and holds something is read, and then it is read whole.
pub proof fn law_max_created_at(text: Seq<char>)
    ensures
        max_created_at(None) is None,
        max_created_at(Some(Seq::empty())) is None,
        text.len() > 0 ==> max_created_at(Some(text)) == rfc3339_local(text),
{
}

/// The statements of the pages bind what they are about, whole.
pub proof fn law_page_statements(name: Seq<char>, id: i32, t: LocalTime)
    ensures
        account(name).sql == "SELECT * FROM `users` WHERE `account_name` = ? AND `del_flg` = 0"@,
        account(name).args == seq![ArgView::Text(name)],
        posts_of_user(id).sql
            == "SELECT `id`, `user_id`, `body`, `mime`, `created_at` FROM `posts` WHERE `user_id` = ? ORDER BY `created_at` DESC"@,
        posts_of_user(id).args == seq![ArgView::Int(id)],
        comments_of_user(id).sql == "SELECT COUNT(*) AS count FROM `comments` WHERE `user_id` = ?"@,
        comments_of_user(id).args == seq![ArgView::Int(id)],
        post_ids_of_user(id).sql == "SELECT `id` FROM `posts` WHERE `user_id` = ?"@,
        post_ids_of_user(id).args == seq![ArgView::Int(id)],
        posts_until(t).sql
            == "SELECT `id`, `user_id`, `body`, `mime`, `created_at` FROM `posts` WHERE `created_at` <= ? ORDER BY `created_at` DESC"@,
        posts_until(t).args == seq![ArgView::Time(t)],
        post_by_id(id).sql
            == "SELECT `id`, `user_id`, `body`, `mime`, `created_at` FROM `posts` WHERE `id` = ?"@,
        post_by_id(id).args == seq![ArgView::Int(id)],
{
}

/// The statement that counts the comments on some posts asks for each of the posts, in order, and
/// has a placeholder for one more post behind those for the others.
pub proof fn law_comments_on_posts(ids: Seq<i32>, i: int, n: nat)
    ensures
        comments_on_posts(ids).args.len() == ids.len(),
        0 <= i < ids.len() ==> comments_on_posts(ids).args[i] == ArgView::Int(ids[i]),
        comments_on_posts(ids).sql
            == "SELECT COUNT(*) AS count FROM `comments` WHERE `post_id` IN ("@ + placeholders(
            ids.len(),
        ) + ")"@,
        placeholders(0).len() == 0,
        placeholders(1) == "?"@,
        n > 0 ==> placeholders(n + 1) == placeholders(n) + ", ?"@,
{
    reveal_strlit(", ");
    reveal_strlit("?");
    reveal_strlit(", ?");
    assert(", "@ + "?"@ =~= ", ?"@);
    if n > 0 {
        assert(placeholders(n) + ", "@ + "?"@ =~= placeholders(n) + (", "@ + "?"@));
    }
}

} // verus!
