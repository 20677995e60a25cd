//! Commenting on a post.
use crate::login::to_login;
use crate::model::{is_login, PostRowView, PostView, User, UserView};
use crate::query::{Arg, ArgView, Query, QueryView};
use crate::reply::{
    redirect, redirect_reply, status_reply, Reply, ReplyView, OK, UNPROCESSABLE_ENTITY,
};
use crate::session::{
    csrf_token, law_signed_in_visitor_has_token, session_of, sound, token_of, SessionStore,
    Sessions,
};
use crate::text::{
    decimal, format_i32, i32_text, law_decimal_round_trip, parse_i32, text_eq,
};
use crate::timeline::{begin, law_page_of_posts, result, Answers};
use crate::upload::{lemma_post_path_is_header_text, post_path};
use vstd::prelude::*;
use vstd::string::*;

verus! {

/// A comment, as it was entered.
#[derive(Debug)]
pub struct CommentForm {
    pub comment: String,
    pub post_id: String,
    pub csrf_token: String,
}

pub struct CommentFormView {
    pub comment: Seq<char>,
    pub post_id: Seq<char>,
    pub csrf_token: Seq<char>,
}

impl DeepView for CommentForm {
    type V = CommentFormView;

    open spec fn deep_view(&self) -> CommentFormView {
        CommentFormView {
            comment: self.comment@,
            post_id: self.post_id@,
            csrf_token: self.csrf_token@,
        }
    }
}

/// What a comment leads to: a reply, or a statement that stores it and the reply that follows.
#[derive(Debug)]
pub enum CommentStep {
    Reply(Reply),
    Store { query: Query<'static>, reply: Reply },
}

pub enum CommentStepView {
    Reply(ReplyView),
    Store { query: QueryView, reply: ReplyView },
}

impl DeepView for CommentStep {
    type V = CommentStepView;

    open spec fn deep_view(&self) -> CommentStepView {
        match self {
            CommentStep::Reply(r) => CommentStepView::Reply(r.deep_view()),
            CommentStep::Store { query, reply } => CommentStepView::Store {
                query: query.deep_view(),
                reply: reply.deep_view(),
            },
        }
    }
}

/// The statement that adds a comment.
pub open spec fn insert_comment(post_id: i32, user_id: i32, comment: Seq<char>) -> QueryView {
    QueryView {
        sql: "INSERT INTO `comments` (`post_id`, `user_id`, `comment`) VALUES (?,?,?)"@,
        args: seq![ArgView::Int(post_id), ArgView::Int(user_id), ArgView::Text(comment)],
    }
}

/// What a comment leads to, for a visitor whose form token is `token`.
pub open spec fn comment_step(
    token: Seq<char>,
    me: UserView,
    form: CommentFormView,
) -> CommentStepView {
    if !me.logged_in() {
        CommentStepView::Reply(redirect_reply("/login"@))
    } else if form.csrf_token != token {
        CommentStepView::Reply(status_reply(UNPROCESSABLE_ENTITY))
    } else {
        match i32_text(form.post_id) {
            Some(id) => CommentStepView::Store {
                query: insert_comment(id, me.id, form.comment),
                reply: redirect_reply(post_path(id as int)),
            },
            None => CommentStepView::Reply(status_reply(OK)),
        }
    }
}

/// Takes a comment.
pub fn post_comment(store: &SessionStore, sid: &str, me: &User, form: &CommentForm) -> (r:
    CommentStep)
    ensures
        r.deep_view() == comment_step(
            token_of(store@, sid@),
            me.deep_view(),
            form.deep_view(),
        ),
{
    if !is_login(me) {
        return CommentStep::Reply(to_login());
    }
    let token = csrf_token(store, sid);
    if !text_eq(form.csrf_token.as_str(), token.as_str()) {
        return CommentStep::Reply(Reply::status(UNPROCESSABLE_ENTITY));
    }
    let post_id = match parse_i32(form.post_id.as_str()) {
        Some(id) => id,
        None => {
            return CommentStep::Reply(Reply::status(OK));
        },
    };
    let query = Query::bound(
        "INSERT INTO `comments` (`post_id`, `user_id`, `comment`) VALUES (?,?,?)",
        Arg::Int(post_id),
    ).bind(Arg::Int(me.id)).bind(Arg::Text(form.comment.clone()));
    assert(query.deep_view().args =~= insert_comment(post_id, me.id, form.comment@).args);
    let mut location = "/posts/".to_owned();
    location.append(format_i32(post_id).as_str());
    proof {
        lemma_post_path_is_header_text(post_id as int);
    }
    CommentStep::Store { query, reply: redirect(location.as_str()) }
}

// ---------- laws ----------

/// A comment is stored if and only if somebody is signed in, the form carries the visitor's token
/// and it names a post by its number.
pub proof fn law_when_comments_are_stored(token: Seq<char>, me: UserView, form: CommentFormView)
    ensures
        comment_step(token, me, form) is Store <==> me.logged_in() && form.csrf_token == token
            && i32_text(form.post_id) is Some,
{
}

/// The form that is shown with a post, filled in and sent by a signed-in visitor, stores a comment
/// on that post and leads back to it.
pub proof fn law_shown_form_is_accepted(
    token: Seq<char>,
    me: UserView,
    post_id: i32,
    comment: Seq<char>,
)
    requires
        me.logged_in(),
    ensures
        comment_step(
            token,
            me,
            CommentFormView { comment, post_id: decimal(post_id as int), csrf_token: token },
        ) == (CommentStepView::Store {
            query: insert_comment(post_id, me.id, comment),
            reply: redirect_reply(post_path(post_id as int)),
        }),
{
    law_decimal_round_trip(post_id as int);
}

/// Every post on a page that was put together for a signed-in visitor has a form that this visitor
/// can send: it stores a comment on the post and leads back to it.
pub proof fn law_forms_on_a_page_are_accepted(
    db: Answers,
    rows: Seq<PostRowView>,
    all_comments: bool,
    posts: Seq<PostView>,
    i: int,
    token: Seq<char>,
    me: UserView,
    comment: Seq<char>,
)
    requires
        me.logged_in(),
        result(db, begin(rows, token, all_comments)) == Some(posts),
        0 <= i < posts.len(),
    ensures
        comment_step(
            token,
            me,
            CommentFormView {
                comment,
                post_id: decimal(posts[i].id as int),
                csrf_token: posts[i].csrf_token,
            },
        ) == (CommentStepView::Store {
            query: insert_comment(posts[i].id, me.id, comment),
            reply: redirect_reply(post_path(posts[i].id as int)),
        }),
{
    law_page_of_posts(db, rows, token, all_comments);
    law_shown_form_is_accepted(token, me, posts[i].id, comment);
}

/// In sound sessions, a signed-in visitor's form without a token is refused.
pub proof fn law_missing_token_is_refused(
    sessions: Sessions,
    sid: Seq<char>,
    me: UserView,
    form: CommentFormView,
)
    requires
        sound(sessions),
        session_of(sessions, sid).user_id is Some,
        me.logged_in(),
        form.csrf_token.len() == 0,
    ensures
        comment_step(token_of(sessions, sid), me, form) == CommentStepView::Reply(
            status_reply(UNPROCESSABLE_ENTITY),
        ),
{
    law_signed_in_visitor_has_token(sessions, sid);
}

/// What is known of a comment's form is all that was entered, whole.
pub proof fn law_comment_form_view(form: CommentForm)
    ensures
        form.deep_view().comment == form.comment@,
        form.deep_view().post_id == form.post_id@,
        form.deep_view().csrf_token == form.csrf_token@,
{
}

/// A step is known by its kind, and its reply and statement are known whole.
pub proof fn law_comment_step_view(query: Query<'static>, reply: Reply)
    ensures
        CommentStep::Reply(reply).deep_view() == CommentStepView::Reply(reply.deep_view()),
        (CommentStep::Store { query, reply }).deep_view() == (CommentStepView::Store {
            query: query.deep_view(),
            reply: reply.deep_view(),
        }),
{
}

/// What is stored for a comment: the post that was named, the visitor, and the whole text; and the
/// visitor is sent to that post.
pub proof fn law_stored_comment(token: Seq<char>, me: UserView, form: CommentFormView)
    requires
        comment_step(token, me, form) is Store,
    ensures
        ({
            let step = comment_step(token, me, form);
            let query = step->query;
            let id = i32_text(form.post_id)->0;
            &&& query.sql
                == "INSERT INTO `comments` (`post_id`, `user_id`, `comment`) VALUES (?,?,?)"@
            &&& query.args.len() == 3
            &&& query.args[0] == ArgView::Int(id)
            &&& query.args[1] == ArgView::Int(me.id)
            &&& query.args[2] == ArgView::Text(form.comment)
            &&& step->Store_reply == redirect_reply("/posts/"@ + decimal(id as int))
        }),
{
}

/// What a comment that is not stored is answered: the sign-in page to whoever is not signed in, 422
/// where the token is not the visitor's, and an empty page where no post is named.
pub proof fn law_refused_comment(token: Seq<char>, me: UserView, form: CommentFormView)
    ensures
        me.id == 0 ==> comment_step(token, me, form) == CommentStepView::Reply(
            redirect_reply("/login"@),
        ),
        me.id != 0 && form.csrf_token != token ==> comment_step(token, me, form)
            == CommentStepView::Reply(status_reply(422)),
        me.id != 0 && form.csrf_token == token && i32_text(form.post_id) is None ==> comment_step(
            token,
            me,
            form,
        ) == CommentStepView::Reply(status_reply(200)),
{
}

} // verus!
