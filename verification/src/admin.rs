//! Banning users.
use crate::login::to_front;
use crate::model::{is_login, User, UserView};
use crate::query::{plain_query, Arg, ArgView, Query, QueryView};
use crate::reply::{
    page_reply, redirect, redirect_reply, status_reply, Page, PageView, Reply, ReplyView, Step,
    StepView, FORBIDDEN, UNPROCESSABLE_ENTITY,
};
use crate::session::{
    csrf_token, law_signed_in_visitor_has_token, session_of, sound, token_of, SessionStore,
    Sessions,
};
use crate::text::text_eq;
use vstd::prelude::*;
use vstd::string::*;

verus! {

// ---------- who may ban ----------

/// The reply to somebody who may not ban users; none to somebody who may.
pub open spec fn refusal(me: UserView) -> Option<ReplyView> {
    if !me.logged_in() {
        Some(redirect_reply("/"@))
    } else if me.authority == 0 {
        Some(status_reply(FORBIDDEN))
    } else {
        None
    }
}

/// The reply to somebody who may not ban users.
fn refused(me: &User) -> (r: Option<Reply>)
    ensures
        r.deep_view() == refusal(me.deep_view()),
{
    if !is_login(me) {
        return Some(to_front());
    }
    if me.authority == 0 {
        return Some(Reply::status(FORBIDDEN));
    }
    None
}

// ---------- the page ----------

/// The statement that fetches the users who can be banned, newest first.
pub open spec fn bannable_users() -> QueryView {
    plain_query(
        "SELECT * FROM `users` WHERE `authority` = 0 AND `del_flg` = 0 ORDER BY `created_at` DESC"@,
    )
}

/// Takes a request for the page on which users are banned.
pub fn get_admin_banned(me: &User) -> (r: Step)
    ensures
        r.deep_view() == match refusal(me.deep_view()) {
            Some(reply) => StepView::Reply(reply),
            None => StepView::Query(bannable_users()),
        },
{
    match refused(me) {
        Some(reply) => Step::Reply(reply),
        None => Step::Query(
            Query::plain(
                "SELECT * FROM `users` WHERE `authority` = 0 AND `del_flg` = 0 ORDER BY `created_at` DESC",
            ),
        ),
    }
}

/// The page on which users are banned.
pub fn banned_page(store: &SessionStore, sid: &str, me: User, users: Vec<User>) -> (r: Reply)
    ensures
        r.deep_view() == page_reply(
            PageView::Banned {
                me: me.deep_view(),
                users: users.deep_view(),
                csrf_token: token_of(store@, sid@),
            },
        ),
{
    let csrf = csrf_token(store, sid);
    Reply::page(Page::Banned { me, users, csrf_token: csrf })
}

// ---------- the form ----------

/// The names and values in a form, as `form_urlencoded` decodes them.
pub uninterp spec fn form_pairs(body: Seq<u8>) -> Seq<(Seq<char>, Seq<char>)>;

/// Decodes with `form_urlencoded::parse`. Claimed: the result is the named list of the body.
#[verifier::external_body]
fn parse_form(body: &[u8]) -> (r: Vec<(String, String)>)
    ensures
        r.deep_view() == form_pairs(body@),
{
    form_urlencoded::parse(body).into_owned().collect()
}

/// The form token in a form: the last one, if there are several, and empty if there is none.
pub open spec fn form_token(pairs: Seq<(Seq<char>, Seq<char>)>) -> Seq<char>
    decreases pairs.len(),
{
    if pairs.len() == 0 {
        Seq::empty()
    } else if pairs.last().0 == "csrf_token"@ {
        pairs.last().1
    } else {
        form_token(pairs.drop_last())
    }
}

/// The users whom a form names, in order.
pub open spec fn form_users(pairs: Seq<(Seq<char>, Seq<char>)>) -> Seq<Seq<char>> {
    pairs.filter(|p: (Seq<char>, Seq<char>)| p.0 == "uid[]"@).map_values(
        |p: (Seq<char>, Seq<char>)| p.1,
    )
}

/// What a form for banning users holds.
#[derive(Debug)]
pub struct BanForm {
    pub csrf_token: String,
    pub uids: Vec<String>,
}

/// What a form with these names and values holds.
pub fn ban_form(pairs: &Vec<(String, String)>) -> (r: BanForm)
    ensures
        r.csrf_token@ == form_token(pairs.deep_view()),
        r.uids.deep_view() == form_users(pairs.deep_view()),
{
    let ghost all = pairs.deep_view();
    let ghost wanted = |p: (Seq<char>, Seq<char>)| p.0 == "uid[]"@;
    let ghost value = |p: (Seq<char>, Seq<char>)| p.1;
    let mut csrf = String::new();
    let mut uids: Vec<String> = Vec::new();
    let mut i: usize = 0;
    proof {
        reveal(Seq::filter);
        assert(uids.deep_view() =~= form_users(all.take(0)));
        reveal_strlit("csrf_token");
        reveal_strlit("uid[]");
        assert("csrf_token"@.len() != "uid[]"@.len());
    }
    while i < pairs.len()
        invariant
            i <= pairs@.len(),
            all == pairs.deep_view(),
            wanted == (|p: (Seq<char>, Seq<char>)| p.0 == "uid[]"@),
            value == (|p: (Seq<char>, Seq<char>)| p.1),
            "csrf_token"@ != "uid[]"@,
            csrf@ == form_token(all.take(i as int)),
            uids.deep_view() == form_users(all.take(i as int)),
        decreases pairs@.len() - i,
    {
        let ghost before = uids.deep_view();
        let name = pairs[i].0.as_str();
        let v = &pairs[i].1;
        if text_eq(name, "csrf_token") {
            csrf = v.clone();
        } else if text_eq(name, "uid[]") {
            uids.push(v.clone());
        }
        proof {
            reveal(Seq::filter);
            let sofar = all.take(i as int);
            let now = all.take(i + 1);
            assert(now.drop_last() =~= sofar);
            assert(now.last() == all[i as int]);
            if wanted(all[i as int]) {
                assert(uids.deep_view() =~= before.push(all[i as int].1));
                assert(now.filter(wanted) =~= sofar.filter(wanted).push(all[i as int]));
                assert(form_users(now) =~= before.push(all[i as int].1));
            } else {
                assert(now.filter(wanted) == sofar.filter(wanted));
                assert(uids.deep_view() =~= before);
            }
        }
        i += 1;
    }
    assert(all.take(all.len() as int) =~= all);
    BanForm { csrf_token: csrf, uids }
}

// ---------- banning ----------

/// The statement that bans a user.
pub open spec fn ban_user(uid: Seq<char>) -> QueryView {
    QueryView {
        sql: "UPDATE `users` SET `del_flg` = ? WHERE `id` = ?"@,
        args: seq![ArgView::Int(1), ArgView::Text(uid)],
    }
}

/// What a form for banning users leads to: a reply, or statements and the reply that follows them
/// whether or not they succeed.
#[derive(Debug)]
pub enum BanStep {
    Reply(Reply),
    Ban { queries: Vec<Query<'static>>, reply: Reply },
}

pub enum BanStepView {
    Reply(ReplyView),
    Ban { queries: Seq<QueryView>, reply: ReplyView },
}

impl DeepView for BanStep {
    type V = BanStepView;

    open spec fn deep_view(&self) -> BanStepView {
        match self {
            BanStep::Reply(r) => BanStepView::Reply(r.deep_view()),
            BanStep::Ban { queries, reply } => BanStepView::Ban {
                queries: queries.deep_view(),
                reply: reply.deep_view(),
            },
        }
    }
}

/// What a form for banning users leads to, from a visitor whose form token is `token`.
pub open spec fn ban_step(
    token: Seq<char>,
    me: UserView,
    pairs: Seq<(Seq<char>, Seq<char>)>,
) -> BanStepView {
    match refusal(me) {
        Some(reply) => BanStepView::Reply(reply),
        None => if form_token(pairs) != token {
            BanStepView::Reply(status_reply(UNPROCESSABLE_ENTITY))
        } else {
            BanStepView::Ban {
                queries: form_users(pairs).map_values(|uid: Seq<char>| ban_user(uid)),
                reply: redirect_reply("/admin/banned"@),
            }
        },
    }
}

/// The statement that bans a user.
fn ban_query(uid: String) -> (r: Query<'static>)
    ensures
        r.deep_view() == ban_user(uid@),
{
    let r = Query::bound("UPDATE `users` SET `del_flg` = ? WHERE `id` = ?", Arg::Int(1)).bind(
        Arg::Text(uid),
    );
    assert(r.deep_view().args =~= ban_user(uid@).args);
    r
}

/// Judges a form for banning users, given its names and values.
pub fn judge_bans(store: &SessionStore, sid: &str, me: &User, pairs: &Vec<(String, String)>) -> (r:
    BanStep)
    ensures
        r.deep_view() == ban_step(token_of(store@, sid@), me.deep_view(), pairs.deep_view()),
{
    if let Some(reply) = refused(me) {
        return BanStep::Reply(reply);
    }
    let form = ban_form(pairs);
    let token = csrf_token(store, sid);
    if !text_eq(form.csrf_token.as_str(), token.as_str()) {
        return BanStep::Reply(Reply::status(UNPROCESSABLE_ENTITY));
    }
    let uids = form.uids;
    let ghost named = uids.deep_view();
    let mut queries: Vec<Query<'static>> = Vec::new();
    let mut i: usize = 0;
    while i < uids.len()
        invariant
            i <= uids@.len(),
            named == uids.deep_view(),
            queries.deep_view() == named.take(i as int).map_values(
                |uid: Seq<char>| ban_user(uid),
            ),
        decreases uids@.len() - i,
    {
        let ghost before = queries.deep_view();
        queries.push(ban_query(uids[i].clone()));
        assert(queries.deep_view() =~= before.push(ban_user(named[i as int])));
        assert(named.take(i + 1) =~= named.take(i as int).push(named[i as int]));
        i += 1;
        assert(queries.deep_view() =~= named.take(i as int).map_values(
            |uid: Seq<char>| ban_user(uid),
        ));
    }
    assert(named.take(named.len() as int) =~= named);
    proof {
        reveal_strlit("/admin/banned");
    }
    BanStep::Ban { queries, reply: redirect("/admin/banned") }
}

/// Takes a form for banning users, given the body of the request.
pub fn post_admin_banned(store: &SessionStore, sid: &str, me: &User, body: &[u8]) -> (r: BanStep)
    ensures
        r.deep_view() == ban_step(token_of(store@, sid@), me.deep_view(), form_pairs(body@)),
{
    let pairs = parse_form(body);
    judge_bans(store, sid, me, &pairs)
}

// ---------- laws ----------

/// Users are banned only by somebody who is signed in and has authority, with a form that carries
/// that visitor's token; and exactly the users whom the form names are banned.
pub proof fn law_who_bans_whom(
    token: Seq<char>,
    me: UserView,
    pairs: Seq<(Seq<char>, Seq<char>)>,
)
    ensures
        ban_step(token, me, pairs) is Ban <==> me.logged_in() && me.authority != 0 && form_token(
            pairs,
        ) == token,
        ban_step(token, me, pairs) matches BanStepView::Ban { queries, reply } ==> {
            &&& queries.len() == form_users(pairs).len()
            &&& forall|i: int|
                0 <= i < queries.len() ==> #[trigger] queries[i] == ban_user(form_users(pairs)[i])
        },
{
}

/// In sound sessions, a form without a token bans nobody, whoever sends it.
pub proof fn law_no_bans_without_token(
    sessions: Sessions,
    sid: Seq<char>,
    me: UserView,
    pairs: Seq<(Seq<char>, Seq<char>)>,
)
    requires
        sound(sessions),
        session_of(sessions, sid).user_id is Some,
        form_token(pairs).len() == 0,
    ensures
        ban_step(token_of(sessions, sid), me, pairs) is Reply,
{
    law_signed_in_visitor_has_token(sessions, sid);
}

/// Somebody signed in without authority is told so, whatever the form holds.
pub proof fn law_no_authority_is_forbidden(
    token: Seq<char>,
    me: UserView,
    pairs: Seq<(Seq<char>, Seq<char>)>,
)
    requires
        me.logged_in(),
        me.authority == 0,
    ensures
        ban_step(token, me, pairs) == BanStepView::Reply(status_reply(FORBIDDEN)),
        refusal(me) == Some(status_reply(FORBIDDEN)),
{
}

/// A step is known by its kind, and its reply and statements are known whole.
pub proof fn law_ban_step_view(queries: Vec<Query<'static>>, reply: Reply, i: int)
    ensures
        BanStep::Reply(reply).deep_view() == BanStepView::Reply(reply.deep_view()),
        ((BanStep::Ban { queries, reply }).deep_view() matches BanStepView::Ban {
            queries: known,
            reply: r,
        } && {
            &&& r == reply.deep_view()
            &&& known.len() == queries@.len()
            &&& 0 <= i < queries@.len() ==> known[i] == queries@[i].deep_view()
        }),
{
}

/// Who may ban: somebody signed in with authority. Others are sent to the front page or told that
/// they may not.
pub proof fn law_refusal(me: UserView)
    ensures
        refusal(me) is None <==> me.id != 0 && me.authority != 0,
        me.id == 0 ==> refusal(me) == Some(redirect_reply("/"@)),
        me.id != 0 && me.authority == 0 ==> refusal(me) == Some(status_reply(403)),
{
}

/// The form token is the whole value of the last pair of that name.
pub proof fn law_form_token(
    before: Seq<(Seq<char>, Seq<char>)>,
    token: Seq<char>,
    after: Seq<(Seq<char>, Seq<char>)>,
)
    requires
        forall|i: int| 0 <= i < after.len() ==> (#[trigger] after[i]).0 != "csrf_token"@,
    ensures
        form_token(before.push(("csrf_token"@, token)) + after) == token,
        form_token(after).len() == 0,
    decreases after.len(),
{
    let pairs = before.push(("csrf_token"@, token)) + after;
    if after.len() == 0 {
        assert(pairs.last() == ("csrf_token"@, token));
    } else {
        law_form_token(before, token, after.drop_last());
        assert(pairs.drop_last() =~= before.push(("csrf_token"@, token)) + after.drop_last());
        assert(pairs.last() == after.last());
    }
}

/// The users whom a form names are those of its pairs in order: a pair named `uid[]` names one user
/// by its whole value, and another pair names none.
pub proof fn law_form_users(
    a: Seq<(Seq<char>, Seq<char>)>,
    b: Seq<(Seq<char>, Seq<char>)>,
    name: Seq<char>,
    value: Seq<char>,
)
    ensures
        form_users(Seq::empty()).len() == 0,
        form_users(a + b) == form_users(a) + form_users(b),
        name == "uid[]"@ ==> form_users(seq![(name, value)]) == seq![value],
        name != "uid[]"@ ==> form_users(seq![(name, value)]).len() == 0,
{
    let wanted = |p: (Seq<char>, Seq<char>)| p.0 == "uid[]"@;
    let one = seq![(name, value)];
    Seq::filter_distributes_over_add(a, b, wanted);
    assert(form_users(a + b) =~= form_users(a) + form_users(b));
    reveal_with_fuel(Seq::filter, 2);
    assert(one.drop_last() =~= Seq::empty());
    if name == "uid[]"@ {
        assert(wanted(one.last()));
        assert(one.filter(wanted) =~= one);
        assert(form_users(one) =~= seq![value]);
    } else {
        assert(!wanted(one.last()));
        assert(one.filter(wanted) =~= Seq::empty());
    }
}

/// A ban sets the flag of the user whom the form names, by the whole of what it says.
pub proof fn law_ban_user(uid: Seq<char>)
    ensures
        ban_user(uid).sql == "UPDATE `users` SET `del_flg` = ? WHERE `id` = ?"@,
        ban_user(uid).args.len() == 2,
        ban_user(uid).args[0] == ArgView::Int(1),
        ban_user(uid).args[1] == ArgView::Text(uid),
{
}

/// What a form for banning is answered: to whoever may ban, 422 where the token is not the
/// visitor's, and else the page on which users are banned.
pub proof fn law_ban_replies(token: Seq<char>, me: UserView, pairs: Seq<(Seq<char>, Seq<char>)>)
    requires
        me.id != 0,
        me.authority != 0,
    ensures
        form_token(pairs) != token ==> ban_step(token, me, pairs) == BanStepView::Reply(
            status_reply(422),
        ),
        form_token(pairs) == token ==> (ban_step(token, me, pairs) matches BanStepView::Ban {
            queries,
            reply,
        } && reply == redirect_reply("/admin/banned"@)),
{
}

} // verus!
