//! Replies to requests.
use crate::model::{Post, PostView, User, UserView};
use crate::query::{Query, QueryView};
use vstd::prelude::*;
use vstd::string::*;

verus! {

pub const OK: u16 = 200;

pub const FOUND: u16 = 302;

pub const FORBIDDEN: u16 = 403;

pub const NOT_FOUND: u16 = 404;

pub const UNPROCESSABLE_ENTITY: u16 = 422;

pub const INTERNAL_SERVER_ERROR: u16 = 500;

/// A page and what it shows.
#[derive(Debug)]
pub enum Page {
    Index { me: User, posts: Vec<Post>, csrf_token: String, flash: String },
    Posts { posts: Vec<Post> },
    PostId { me: User, post: Post },
    User {
        me: User,
        user: User,
        posts: Vec<Post>,
        post_count: i64,
        comment_count: i64,
        commented_count: i64,
    },
    Login { me: User, flash: String },
    Register { me: User, flash: String },
    Banned { me: User, users: Vec<User>, csrf_token: String },
}

pub enum PageView {
    Index { me: UserView, posts: Seq<PostView>, csrf_token: Seq<char>, flash: Seq<char> },
    Posts { posts: Seq<PostView> },
    PostId { me: UserView, post: PostView },
    User {
        me: UserView,
        user: UserView,
        posts: Seq<PostView>,
        post_count: i64,
        comment_count: i64,
        commented_count: i64,
    },
    Login { me: UserView, flash: Seq<char> },
    Register { me: UserView, flash: Seq<char> },
    Banned { me: UserView, users: Seq<UserView>, csrf_token: Seq<char> },
}

impl DeepView for Page {
    type V = PageView;

    open spec fn deep_view(&self) -> PageView {
        match self {
            Page::Index { me, posts, csrf_token, flash } => PageView::Index {
                me: me.deep_view(),
                posts: posts.deep_view(),
                csrf_token: csrf_token@,
                flash: flash@,
            },
            Page::Posts { posts } => PageView::Posts { posts: posts.deep_view() },
            Page::PostId { me, post } => PageView::PostId {
                me: me.deep_view(),
                post: post.deep_view(),
            },
            Page::User { me, user, posts, post_count, comment_count, commented_count } =>
                PageView::User {
                me: me.deep_view(),
                user: user.deep_view(),
                posts: posts.deep_view(),
                post_count: *post_count,
                comment_count: *comment_count,
                commented_count: *commented_count,
            },
            Page::Login { me, flash } => PageView::Login { me: me.deep_view(), flash: flash@ },
            Page::Register { me, flash } => PageView::Register {
                me: me.deep_view(),
                flash: flash@,
            },
            Page::Banned { me, users, csrf_token } => PageView::Banned {
                me: me.deep_view(),
                users: users.deep_view(),
                csrf_token: csrf_token@,
            },
        }
    }
}

/// What a reply carries.
#[derive(Debug)]
pub enum Body {
    Empty,
    Html(Page),
    Bytes(Vec<u8>),
}

pub enum BodyView {
    Empty,
    Html(PageView),
    Bytes(Seq<u8>),
}

impl DeepView for Body {
    type V = BodyView;

    open spec fn deep_view(&self) -> BodyView {
        match self {
            Body::Empty => BodyView::Empty,
            Body::Html(page) => BodyView::Html(page.deep_view()),
            Body::Bytes(b) => BodyView::Bytes(b@),
        }
    }
}

/// A reply: its status, the headers that are set by name, and its body.
///
/// Every header value of a reply is one that may be sent.
#[derive(Debug)]
pub struct Reply {
    status: u16,
    headers: Vec<(String, String)>,
    body: Body,
}

pub struct ReplyView {
    pub status: u16,
    pub headers: Seq<(Seq<char>, Seq<char>)>,
    pub body: BodyView,
}

impl DeepView for Reply {
    type V = ReplyView;

    closed spec fn deep_view(&self) -> ReplyView {
        ReplyView {
            status: self.status,
            headers: self.headers.deep_view(),
            body: self.body.deep_view(),
        }
    }
}

/// A reply that is only a status.
pub open spec fn status_reply(status: u16) -> ReplyView {
    ReplyView { status, headers: seq![], body: BodyView::Empty }
}

/// A reply that sends the visitor elsewhere.
pub open spec fn redirect_reply(location: Seq<char>) -> ReplyView {
    ReplyView { status: FOUND, headers: seq![("location"@, location)], body: BodyView::Empty }
}

/// A reply that shows a page.
pub open spec fn page_reply(page: PageView) -> ReplyView {
    ReplyView { status: OK, headers: seq![], body: BodyView::Html(page) }
}

/// A reply that is an image.
pub open spec fn image_reply(mime: Seq<char>, data: Seq<u8>) -> ReplyView {
    ReplyView { status: OK, headers: seq![("content-type"@, mime)], body: BodyView::Bytes(data) }
}

/// A character that a header value may hold: any but the control characters, and the tab.
pub open spec fn is_header_char(c: char) -> bool {
    c >= ' ' && c != '\u{7f}' || c == '\t'
}

/// A text that may stand in a header.
pub open spec fn is_header_text(s: Seq<char>) -> bool {
    forall|i: int| 0 <= i < s.len() ==> is_header_char(#[trigger] s[i])
}

/// Every header of the reply may be sent.
pub open spec fn sendable(r: ReplyView) -> bool {
    forall|i: int| 0 <= i < r.headers.len() ==> is_header_text(#[trigger] r.headers[i].1)
}

impl Reply {
    #[verifier::type_invariant]
    spec fn well_formed(self) -> bool {
        sendable(self.deep_view())
    }

    /// The status, the headers and the body. Every header may be sent.
    pub fn into_parts(self) -> (r: (u16, Vec<(String, String)>, Body))
        ensures
            self.deep_view() == (ReplyView {
                status: r.0,
                headers: r.1.deep_view(),
                body: r.2.deep_view(),
            }),
            sendable(self.deep_view()),
    {
        proof {
            use_type_invariant(&self);
        }
        (self.status, self.headers, self.body)
    }

    /// A reply that is only a status.
    pub fn status(status: u16) -> (r: Reply)
        ensures
            r.deep_view() == status_reply(status),
    {
        let r = Reply { status, headers: Vec::new(), body: Body::Empty };
        assert(r.headers.deep_view() =~= seq![]);
        r
    }

    /// A reply that shows a page.
    pub fn page(page: Page) -> (r: Reply)
        ensures
            r.deep_view() == page_reply(page.deep_view()),
    {
        let r = Reply { status: OK, headers: Vec::new(), body: Body::Html(page) };
        assert(r.headers.deep_view() =~= seq![]);
        r
    }

    /// A reply that is an image.
    pub fn image(mime: String, data: Vec<u8>) -> (r: Reply)
        requires
            is_header_text(mime@),
        ensures
            r.deep_view() == image_reply(mime@, data@),
    {
        let r = Reply { status: OK, headers: Vec::new(), body: Body::Bytes(data) };
        assert(r.headers.deep_view() =~= seq![]);
        let r = r.with_header("content-type", mime);
        assert(r.deep_view().headers =~= seq![("content-type"@, mime@)]);
        r
    }

    /// The reply with one more header.
    pub fn with_header(self, name: &str, value: String) -> (r: Reply)
        requires
            is_header_text(value@),
        ensures
            r.deep_view() == (ReplyView {
                headers: self.deep_view().headers.push((name@, value@)),
                ..self.deep_view()
            }),
    {
        proof {
            use_type_invariant(&self);
        }
        let ghost before = self.deep_view().headers;
        let (status, mut headers, body) = (self.status, self.headers, self.body);
        headers.push((name.to_owned(), value));
        assert(headers.deep_view() =~= before.push((name@, value@)));
        assert forall|i: int| 0 <= i < headers@.len() implies is_header_text(
            #[trigger] headers.deep_view()[i].1,
        ) by {
            if i < before.len() {
                assert(is_header_text(before[i].1));
            }
        }
        Reply { status, headers, body }
    }
}

/// A reply that sends the visitor to `location`.
pub fn redirect(location: &str) -> (r: Reply)
    requires
        is_header_text(location@),
    ensures
        r.deep_view() == redirect_reply(location@),
{
    let r = Reply::status(FOUND).with_header("location", location.to_owned());
    assert(r.deep_view().headers =~= seq![("location"@, location@)]);
    r
}

/// What a request leads to: a reply, or a statement whose outcome decides on the reply.
#[derive(Debug)]
pub enum Step {
    Reply(Reply),
    Query(Query<'static>),
}

pub enum StepView {
    Reply(ReplyView),
    Query(QueryView),
}

impl DeepView for Step {
    type V = StepView;

    open spec fn deep_view(&self) -> StepView {
        match self {
            Step::Reply(r) => StepView::Reply(r.deep_view()),
            Step::Query(q) => StepView::Query(q.deep_view()),
        }
    }
}

/// The reply to a request that could not be carried out.
pub fn failure() -> (r: Reply)
    ensures
        r.deep_view() == status_reply(INTERNAL_SERVER_ERROR),
{
    Reply::status(INTERNAL_SERVER_ERROR)
}

// ---------- laws ----------

/// A body is known whole, and by its kind.
pub proof fn law_body_view(page: Page, b: Vec<u8>)
    ensures
        Body::Empty.deep_view() == BodyView::Empty,
        Body::Html(page).deep_view() == BodyView::Html(page.deep_view()),
        Body::Bytes(b).deep_view() == BodyView::Bytes(b@),
{
}

/// What is known of a page that shows posts is all that it shows.
pub proof fn law_posts_page_views(
    me: User,
    user: User,
    post: Post,
    posts: Vec<Post>,
    text: String,
    flash: String,
    n: (i64, i64, i64),
)
    ensures
        (Page::Index { me, posts, csrf_token: text, flash }).deep_view() == (PageView::Index {
            me: me.deep_view(),
            posts: posts.deep_view(),
            csrf_token: text@,
            flash: flash@,
        }),
        (Page::Posts { posts }).deep_view() == (PageView::Posts { posts: posts.deep_view() }),
        (Page::PostId { me, post }).deep_view() == (PageView::PostId {
            me: me.deep_view(),
            post: post.deep_view(),
        }),
        (Page::User {
            me,
            user,
            posts,
            post_count: n.0,
            comment_count: n.1,
            commented_count: n.2,
        }).deep_view() == (PageView::User {
            me: me.deep_view(),
            user: user.deep_view(),
            posts: posts.deep_view(),
            post_count: n.0,
            comment_count: n.1,
            commented_count: n.2,
        }),
{
}

/// What is known of a page with a form is all that it shows.
pub proof fn law_form_page_views(me: User, users: Vec<User>, text: String)
    ensures
        (Page::Login { me, flash: text }).deep_view() == (PageView::Login {
            me: me.deep_view(),
            flash: text@,
        }),
        (Page::Register { me, flash: text }).deep_view() == (PageView::Register {
            me: me.deep_view(),
            flash: text@,
        }),
        (Page::Banned { me, users, csrf_token: text }).deep_view() == (PageView::Banned {
            me: me.deep_view(),
            users: users.deep_view(),
            csrf_token: text@,
        }),
{
}

/// A step is known by its kind, and its reply or statement is known whole.
pub proof fn law_step_view(r: Reply, q: Query<'static>)
    ensures
        Step::Reply(r).deep_view() == StepView::Reply(r.deep_view()),
        Step::Query(q).deep_view() == StepView::Query(q.deep_view()),
{
}

/// A reply that is only a status has that status, no header and no content.
pub proof fn law_status_reply(status: u16)
    ensures
        status_reply(status).status == status,
        status_reply(status).headers.len() == 0,
        status_reply(status).body == BodyView::Empty,
{
}

/// A redirect has the status 302, one header with the whole address, and no content.
pub proof fn law_redirect_reply(location: Seq<char>)
    ensures
        redirect_reply(location).status == 302,
        redirect_reply(location).headers.len() == 1,
        redirect_reply(location).headers[0].0 == "location"@,
        redirect_reply(location).headers[0].1 == location,
        redirect_reply(location).body == BodyView::Empty,
{
}

/// A page is sent as it is, with the status 200.
pub proof fn law_page_reply(page: PageView)
    ensures
        page_reply(page).status == 200,
        page_reply(page).headers.len() == 0,
        page_reply(page).body == BodyView::Html(page),
{
}

/// An image is sent byte for byte, whatever its length: the parts of the reply are the status 200,
/// one header with the type, and all the data.
pub proof fn law_image_is_sent_whole(
    mime: Seq<char>,
    data: Seq<u8>,
    status: u16,
    headers: Vec<(String, String)>,
    body: Body,
)
    requires
        image_reply(mime, data) == (ReplyView {
            status,
            headers: headers.deep_view(),
            body: body.deep_view(),
        }),
    ensures
        status == 200,
        headers@.len() == 1,
        headers@[0].0@ == "content-type"@,
        headers@[0].1@ == mime,
        body matches Body::Bytes(b) && b@.len() == data.len() && forall|i: int|
            0 <= i < data.len() ==> #[trigger] b@[i] == data[i],
{
    let reply = image_reply(mime, data);
    let sent = headers.deep_view();
    assert(reply.headers == sent && reply.body == body.deep_view());
    assert(sent.len() == headers@.len());
    assert(sent[0] == headers@[0].deep_view());
}

/// Header values may hold every character but the control characters, and the tab.
pub proof fn law_header_text(s: Seq<char>)
    ensures
        is_header_text(s) <==> forall|i: int|
            0 <= i < s.len() ==> 32 <= #[trigger] s[i] as int && s[i] as int != 127 || s[i] as int
                == 9,
{
    if is_header_text(s) {
        assert forall|i: int| 0 <= i < s.len() implies 32 <= #[trigger] s[i] as int && s[i] as int
            != 127 || s[i] as int == 9 by {
            assert(is_header_char(s[i]));
        }
    }
}

} // verus!
