//! Signing in, registering and signing out.
use crate::account::{valid_user, validate_user};
use crate::model::{is_login, User, UserView};
use crate::query::{bound_query, Arg, ArgView, Query, QueryView};
use crate::reply::{
    page_reply, redirect, redirect_reply, BodyView, Page, PageView, Reply, ReplyView, Step, StepView,
};
use crate::secret::{calculate_passhash, passhash_text, rand_hex, EntropyError};
use crate::session::{
    flash_taken, get_flash, is_token, leave_notice, noticed, session_of, sign_in, signed_in, sound,
    SessionStore,
};
use crate::text::text_eq;
use vstd::prelude::*;
use vstd::string::*;

verus! {

/// The notice after a name or password that does not fit.
pub const WRONG_LOGIN: &'static str = "アカウント名かパスワードが間違っています";

/// The notice after a name or password that may not be registered.
pub const INVALID_USER: &'static str =
    "アカウント名は3文字以上、パスワードは6文字以上である必要があります";

/// The notice after a name that is taken.
pub const NAME_TAKEN: &'static str = "アカウント名がすでに使われています";

/// A name and a password, as they were entered.
#[derive(Debug)]
pub struct LoginForm {
    pub account_name: String,
    pub password: String,
}

// ---------- replies ----------

/// Sends the visitor to the front page.
pub fn to_front() -> (r: Reply)
    ensures
        r.deep_view() == redirect_reply("/"@),
{
    proof {
        reveal_strlit("/");
    }
    redirect("/")
}

/// Sends the visitor to the sign-in page.
pub fn to_login() -> (r: Reply)
    ensures
        r.deep_view() == redirect_reply("/login"@),
{
    proof {
        reveal_strlit("/login");
    }
    redirect("/login")
}

/// Sends the visitor to the registration page.
fn to_register() -> (r: Reply)
    ensures
        r.deep_view() == redirect_reply("/register"@),
{
    proof {
        reveal_strlit("/register");
    }
    redirect("/register")
}

// ---------- signing in ----------

/// The sign-in page. Somebody who is signed in is sent to the front page instead.
pub fn get_login(store: &mut SessionStore, sid: &str, me: User) -> (r: Reply)
    ensures
        me.deep_view().logged_in() ==> r.deep_view() == redirect_reply("/"@) && final(store)@
            == old(store)@,
        !me.deep_view().logged_in() ==> {
            &&& r.deep_view() == page_reply(
                PageView::Login {
                    me: me.deep_view(),
                    flash: session_of(old(store)@, sid@).flash(),
                },
            )
            &&& final(store)@ == flash_taken(old(store)@, sid@)
        },
        sound(old(store)@) ==> sound(final(store)@),
{
    if is_login(&me) {
        return to_front();
    }
    let flash = get_flash(store, sid);
    Reply::page(Page::Login { me, flash })
}

/// The statement that looks up the account that is to be signed in to.
pub open spec fn login_query(account_name: Seq<char>) -> QueryView {
    bound_query(
        "SELECT * FROM users WHERE account_name = ? AND del_flg = 0"@,
        ArgView::Text(account_name),
    )
}

/// What an attempt to sign in leads to: the front page for somebody who is signed in, else the
/// lookup of the account.
pub open spec fn login_step(me: UserView, account_name: Seq<char>) -> StepView {
    if me.logged_in() {
        StepView::Reply(redirect_reply("/"@))
    } else {
        StepView::Query(login_query(account_name))
    }
}

/// Takes a sign-in form.
pub fn post_login(me: &User, form: &LoginForm) -> (r: Step)
    ensures
        r.deep_view() == login_step(me.deep_view(), form.account_name@),
{
    if is_login(me) {
        return Step::Reply(to_front());
    }
    Step::Query(
        Query::bound(
            "SELECT * FROM users WHERE account_name = ? AND del_flg = 0",
            Arg::Text(form.account_name.clone()),
        ),
    )
}

/// The account that was found has this password hash.
pub open spec fn hash_fits(found: Option<UserView>, passhash: Seq<char>) -> bool {
    match found {
        Some(u) => u.passhash == passhash,
        None => false,
    }
}

/// The password fits the account that was found.
pub open spec fn password_fits(found: Option<UserView>, password: Seq<char>) -> bool {
    match found {
        Some(u) => u.passhash == passhash_text(u.account_name, password),
        None => false,
    }
}

/// Completes an attempt to sign in, given the account that was found and the hash of the password
/// that was entered. Where they fit, the account's user is signed in with the form token `token`.
pub fn finish_login(
    store: &mut SessionStore,
    sid: &str,
    found: &Option<User>,
    passhash: &str,
    token: String,
) -> (r: Reply)
    ensures
        hash_fits(found.deep_view(), passhash@) ==> {
            &&& r.deep_view() == redirect_reply("/"@)
            &&& final(store)@ == signed_in(old(store)@, sid@, found->0.id, token@)
        },
        !hash_fits(found.deep_view(), passhash@) ==> {
            &&& r.deep_view() == redirect_reply("/login"@)
            &&& final(store)@ == noticed(old(store)@, sid@, WRONG_LOGIN@)
        },
        sound(old(store)@) && is_token(token@) ==> sound(final(store)@),
{
    match found {
        Some(u) => {
            if text_eq(passhash, u.passhash.as_str()) {
                sign_in(store, sid, u.id, token);
                return to_front();
            }
        },
        None => {},
    }
    leave_notice(store, sid, WRONG_LOGIN);
    to_login()
}

/// Whether the account that was found has this password hash.
fn hash_matches(found: &Option<User>, passhash: &str) -> (r: bool)
    ensures
        r == hash_fits(found.deep_view(), passhash@),
{
    match found {
        Some(u) => text_eq(passhash, u.passhash.as_str()),
        None => false,
    }
}

/// Completes an attempt to sign in, given the account that was found, the hash of the password that
/// was entered and the form token that was drawn. A token is needed only where the hash fits;
/// without one nobody is signed in.
pub fn post_login_drawn(
    store: &mut SessionStore,
    sid: &str,
    found: &Option<User>,
    passhash: &str,
    drawn: Result<String, EntropyError>,
) -> (r: Result<Reply, EntropyError>)
    ensures
        hash_fits(found.deep_view(), passhash@) ==> match drawn {
            Ok(token) => {
                &&& r matches Ok(reply) && reply.deep_view() == redirect_reply("/"@)
                &&& final(store)@ == signed_in(old(store)@, sid@, found->0.id, token@)
            },
            Err(_) => r is Err && final(store)@ == old(store)@,
        },
        !hash_fits(found.deep_view(), passhash@) ==> {
            &&& r matches Ok(reply) && reply.deep_view() == redirect_reply("/login"@)
            &&& final(store)@ == noticed(old(store)@, sid@, WRONG_LOGIN@)
        },
        sound(old(store)@) && (hash_fits(found.deep_view(), passhash@) ==> (drawn matches Ok(token)
            ==> is_token(token@))) ==> sound(final(store)@),
{
    match drawn {
        Ok(token) => Ok(finish_login(store, sid, found, passhash, token)),
        Err(e) => if hash_matches(found, passhash) {
            Err(e)
        } else {
            Ok(finish_login(store, sid, found, passhash, String::new()))
        },
    }
}

/// Completes an attempt to sign in, given the account that was found.
///
/// Fails only where the password fits and the operating system has no random bytes for the form
/// token.
pub fn post_login_found(
    store: &mut SessionStore,
    sid: &str,
    found: &Option<User>,
    form: &LoginForm,
) -> (r: Result<Reply, EntropyError>)
    ensures
        password_fits(found.deep_view(), form.password@) ==> match r {
            Ok(reply) => {
                &&& reply.deep_view() == redirect_reply("/"@)
                &&& exists|token: Seq<char>|
                    is_token(token) && final(store)@ == #[trigger] signed_in(
                        old(store)@,
                        sid@,
                        found->0.id,
                        token,
                    )
            },
            Err(_) => final(store)@ == old(store)@,
        },
        !password_fits(found.deep_view(), form.password@) ==> {
            &&& r matches Ok(reply) && reply.deep_view() == redirect_reply("/login"@)
            &&& final(store)@ == noticed(old(store)@, sid@, WRONG_LOGIN@)
        },
        sound(old(store)@) ==> sound(final(store)@),
{
    let computed = match found {
        Some(u) => calculate_passhash(u.account_name.as_str(), form.password.as_str()),
        None => String::new(),
    };
    let drawn = if hash_matches(found, computed.as_str()) {
        rand_hex(16)
    } else {
        // No token is needed: nobody is signed in.
        Ok(String::new())
    };
    post_login_drawn(store, sid, found, computed.as_str(), drawn)
}

// ---------- registering ----------

/// The registration page. Somebody who is signed in is sent to the front page instead.
pub fn get_register(store: &mut SessionStore, sid: &str, me: &User) -> (r: Reply)
    ensures
        me.deep_view().logged_in() ==> r.deep_view() == redirect_reply("/"@) && final(store)@
            == old(store)@,
        !me.deep_view().logged_in() ==> {
            &&& exists|nobody: UserView|
                nobody.is_empty() && r.deep_view() == #[trigger] register_page(
                    nobody,
                    session_of(old(store)@, sid@).flash(),
                )
            &&& final(store)@ == flash_taken(old(store)@, sid@)
        },
        sound(old(store)@) ==> sound(final(store)@),
{
    if is_login(me) {
        return to_front();
    }
    let flash = get_flash(store, sid);
    let nobody = User::empty();
    assert(register_page(nobody.deep_view(), flash@) == register_page(
        nobody.deep_view(),
        session_of(old(store)@, sid@).flash(),
    ));
    Reply::page(Page::Register { me: nobody, flash })
}

pub open spec fn register_page(me: UserView, flash: Seq<char>) -> ReplyView {
    page_reply(PageView::Register { me, flash })
}

/// The statement that looks for an account of this name.
pub open spec fn name_query(account_name: Seq<char>) -> QueryView {
    bound_query("SELECT 1 FROM users WHERE `account_name` = ?"@, ArgView::Text(account_name))
}

/// The statement that adds an account.
pub open spec fn insert_user(account_name: Seq<char>, passhash: Seq<char>) -> QueryView {
    QueryView {
        sql: "INSERT INTO `users` (`account_name`, `passhash`) VALUES (?,?)"@,
        args: seq![ArgView::Text(account_name), ArgView::Text(passhash)],
    }
}

/// What a registration form leads to, before the database is asked.
pub open spec fn register_step(
    me: UserView,
    account_name: Seq<char>,
    password: Seq<char>,
) -> StepView {
    if me.logged_in() {
        StepView::Reply(redirect_reply("/"@))
    } else if !valid_user(account_name, password) {
        StepView::Reply(redirect_reply("/register"@))
    } else {
        StepView::Query(name_query(account_name))
    }
}

/// Takes a registration form. A name or password that may not be registered earns a notice.
pub fn post_register(store: &mut SessionStore, sid: &str, me: &User, form: &LoginForm) -> (r: Step)
    ensures
        r.deep_view() == register_step(me.deep_view(), form.account_name@, form.password@),
        final(store)@ == if !me.deep_view().logged_in() && !valid_user(
            form.account_name@,
            form.password@,
        ) {
            noticed(old(store)@, sid@, INVALID_USER@)
        } else {
            old(store)@
        },
        sound(old(store)@) ==> sound(final(store)@),
{
    if is_login(me) {
        return Step::Reply(to_front());
    }
    if !validate_user(form.account_name.as_str(), form.password.as_str()) {
        leave_notice(store, sid, INVALID_USER);
        return Step::Reply(to_register());
    }
    Step::Query(
        Query::bound(
            "SELECT 1 FROM users WHERE `account_name` = ?",
            Arg::Text(form.account_name.clone()),
        ),
    )
}

/// The statement that adds an account with this password hash.
pub fn insert_user_query(account_name: &str, passhash: &str) -> (r: Query<'static>)
    ensures
        r.deep_view() == insert_user(account_name@, passhash@),
{
    let r = Query::bound(
        "INSERT INTO `users` (`account_name`, `passhash`) VALUES (?,?)",
        Arg::Text(account_name.to_owned()),
    ).bind(Arg::Text(passhash.to_owned()));
    assert(r.deep_view().args =~= insert_user(account_name@, passhash@).args);
    r
}

/// Goes on with a registration, given what the search for the name found. A name that is taken
/// earns a notice; another is added with the hash of its password.
pub fn post_register_checked(
    store: &mut SessionStore,
    sid: &str,
    found: Option<i32>,
    form: &LoginForm,
) -> (r: Step)
    ensures
        found is Some ==> {
            &&& r.deep_view() == StepView::Reply(redirect_reply("/register"@))
            &&& final(store)@ == noticed(old(store)@, sid@, NAME_TAKEN@)
        },
        found is None ==> {
            &&& r.deep_view() == StepView::Query(
                insert_user(
                    form.account_name@,
                    passhash_text(form.account_name@, form.password@),
                ),
            )
            &&& final(store)@ == old(store)@
        },
        sound(old(store)@) ==> sound(final(store)@),
{
    if found.is_some() {
        leave_notice(store, sid, NAME_TAKEN);
        return Step::Reply(to_register());
    }
    let passhash = calculate_passhash(form.account_name.as_str(), form.password.as_str());
    Step::Query(insert_user_query(form.account_name.as_str(), passhash.as_str()))
}

/// Completes a registration: the new account's user is signed in with the form token `token`.
pub fn finish_register(
    store: &mut SessionStore,
    sid: &str,
    last_insert_id: u64,
    token: String,
) -> (r: Reply)
    ensures
        r.deep_view() == redirect_reply("/"@),
        final(store)@ == signed_in(old(store)@, sid@, last_insert_id as i32, token@),
        sound(old(store)@) && is_token(token@) ==> sound(final(store)@),
{
    sign_in(store, sid, last_insert_id as i32, token);
    to_front()
}

/// Completes a registration, given the form token that was drawn. Without one nobody is signed in.
pub fn post_register_drawn(
    store: &mut SessionStore,
    sid: &str,
    last_insert_id: u64,
    drawn: Result<String, EntropyError>,
) -> (r: Result<Reply, EntropyError>)
    ensures
        match drawn {
            Ok(token) => {
                &&& r matches Ok(reply) && reply.deep_view() == redirect_reply("/"@)
                &&& final(store)@ == signed_in(old(store)@, sid@, last_insert_id as i32, token@)
            },
            Err(_) => r is Err && final(store)@ == old(store)@,
        },
        sound(old(store)@) && (drawn matches Ok(token) ==> is_token(token@)) ==> sound(
            final(store)@,
        ),
{
    match drawn {
        Ok(token) => Ok(finish_register(store, sid, last_insert_id, token)),
        Err(e) => Err(e),
    }
}

/// Completes a registration, given the number of the new account.
///
/// Fails only where the operating system has no random bytes for the form token.
pub fn post_register_inserted(store: &mut SessionStore, sid: &str, last_insert_id: u64) -> (r:
    Result<Reply, EntropyError>)
    ensures
        match r {
            Ok(reply) => {
                &&& reply.deep_view() == redirect_reply("/"@)
                &&& exists|token: Seq<char>|
                    is_token(token) && final(store)@ == #[trigger] signed_in(
                        old(store)@,
                        sid@,
                        last_insert_id as i32,
                        token,
                    )
            },
            Err(_) => final(store)@ == old(store)@,
        },
        sound(old(store)@) ==> sound(final(store)@),
{
    post_register_drawn(store, sid, last_insert_id, rand_hex(16))
}

// ---------- signing out ----------

/// The reply to somebody who signs out: to the front page, without the session cookie.
pub open spec fn logout_reply() -> ReplyView {
    ReplyView {
        headers: seq![
            ("location"@, "/"@),
            ("set-cookie"@, "session=; Path=/; Max-Age=0; HttpOnly"@),
        ],
        ..redirect_reply("/"@)
    }
}

/// Signs out: the session is forgotten.
pub fn get_logout(store: &mut SessionStore, sid: &str) -> (r: Reply)
    ensures
        r.deep_view() == logout_reply(),
        final(store)@ == old(store)@.remove(sid@),
        sound(old(store)@) ==> sound(final(store)@),
{
    store.forget(sid);
    proof {
        reveal_strlit("session=; Path=/; Max-Age=0; HttpOnly");
    }
    let r = to_front().with_header(
        "set-cookie",
        "session=; Path=/; Max-Age=0; HttpOnly".to_owned(),
    );
    assert(r.deep_view().headers =~= logout_reply().headers);
    r
}

// ---------- laws ----------

/// Whoever registers can sign in: the statement that adds an account stores a password hash, and
/// an account found with this name and hash is signed in to with the same password.
pub proof fn law_registered_user_can_sign_in(
    account_name: Seq<char>,
    password: Seq<char>,
    found: UserView,
)
    requires
        insert_user(account_name, passhash_text(account_name, password)).args == seq![
            ArgView::Text(found.account_name),
            ArgView::Text(found.passhash),
        ],
    ensures
        password_fits(Some(found), password),
{
    let stored = insert_user(account_name, passhash_text(account_name, password)).args;
    assert(stored[0] == ArgView::Text(found.account_name));
    assert(stored[1] == ArgView::Text(found.passhash));
}

/// Where no account is found, no password fits.
pub proof fn law_nobody_signs_in_without_account(password: Seq<char>)
    ensures
        !password_fits(None, password),
{
}

/// Signing in looks up the account of exactly the name that was entered, for whoever is not signed
/// in; others are sent to the front page.
pub proof fn law_login_step(me: UserView, account_name: Seq<char>)
    ensures
        me.id != 0 ==> login_step(me, account_name) == StepView::Reply(redirect_reply("/"@)),
        me.id == 0 ==> (login_step(me, account_name) matches StepView::Query(q) && {
            &&& q.sql == "SELECT * FROM users WHERE account_name = ? AND del_flg = 0"@
            &&& q.args.len() == 1
            &&& q.args[0] == ArgView::Text(account_name)
        }),
{
}

/// A password fits exactly where its hash, salted with the name of the account that was found, is
/// the stored one.
pub proof fn law_password_fits(u: UserView, password: Seq<char>, passhash: Seq<char>)
    ensures
        password_fits(Some(u), password) <==> hash_fits(
            Some(u),
            passhash_text(u.account_name, password),
        ),
        hash_fits(Some(u), passhash) <==> u.passhash == passhash,
        !hash_fits(None, passhash),
{
}

/// Registering: somebody who is signed in goes to the front page, a name or password that may not
/// be registered leads back to the form, and any other name is looked for.
pub proof fn law_register_step(me: UserView, account_name: Seq<char>, password: Seq<char>)
    ensures
        me.id != 0 ==> register_step(me, account_name, password) == StepView::Reply(
            redirect_reply("/"@),
        ),
        me.id == 0 && !valid_user(account_name, password) ==> register_step(
            me,
            account_name,
            password,
        ) == StepView::Reply(redirect_reply("/register"@)),
        me.id == 0 && valid_user(account_name, password) ==> (register_step(
            me,
            account_name,
            password,
        ) matches StepView::Query(q) && {
            &&& q.sql == "SELECT 1 FROM users WHERE `account_name` = ?"@
            &&& q.args.len() == 1
            &&& q.args[0] == ArgView::Text(account_name)
        }),
{
}

/// An account is stored with its whole name and its whole hash, in this order.
pub proof fn law_insert_user(account_name: Seq<char>, passhash: Seq<char>)
    ensures
        insert_user(account_name, passhash).sql
            == "INSERT INTO `users` (`account_name`, `passhash`) VALUES (?,?)"@,
        insert_user(account_name, passhash).args.len() == 2,
        insert_user(account_name, passhash).args[0] == ArgView::Text(account_name),
        insert_user(account_name, passhash).args[1] == ArgView::Text(passhash),
{
}

/// The registration page shows the notice whole.
pub proof fn law_register_page(me: UserView, flash: Seq<char>)
    ensures
        register_page(me, flash).status == 200,
        register_page(me, flash).headers.len() == 0,
        register_page(me, flash).body == BodyView::Html(PageView::Register { me, flash }),
{
}

/// Signing out leads to the front page and takes the cookie away.
pub proof fn law_logout_reply()
    ensures
        logout_reply().status == 302,
        logout_reply().headers.len() == 2,
        logout_reply().headers[0] == ("location"@, "/"@),
        logout_reply().headers[1] == ("set-cookie"@, "session=; Path=/; Max-Age=0; HttpOnly"@),
        logout_reply().body == BodyView::Empty,
{
}

} // verus!
