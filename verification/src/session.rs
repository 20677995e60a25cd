//! Sessions: what the server remembers of each visitor.
use crate::cookie::{
    carries_session, cookie, cookie_value, law_session_cookie_is_read_back, session_cookie,
    set_session_cookie,
};
use crate::model::User;
use crate::query::{bound_query, Arg, ArgView, Query, QueryView};
use crate::reply::is_header_text;
use crate::secret::{is_hex, is_hex_char, rand_hex, EntropyError};
use vstd::hash_map::StringHashMap;
use vstd::prelude::*;
use vstd::string::*;

verus! {

// ---------- data ----------

/// What the server remembers of a visitor: who is signed in, the token that the forms of this
/// visitor carry, and a notice to show on the next page.
#[derive(Debug)]
pub struct SessionData {
    pub user_id: Option<i32>,
    pub csrf_token: Option<String>,
    pub notice: Option<String>,
}

pub struct SessionView {
    pub user_id: Option<i32>,
    pub csrf_token: Option<Seq<char>>,
    pub notice: Option<Seq<char>>,
}

impl DeepView for SessionData {
    type V = SessionView;

    open spec fn deep_view(&self) -> SessionView {
        SessionView {
            user_id: self.user_id,
            csrf_token: self.csrf_token.deep_view(),
            notice: self.notice.deep_view(),
        }
    }
}

impl SessionView {
    /// What is remembered of a visitor who is not known.
    pub open spec fn empty() -> SessionView {
        SessionView { user_id: None, csrf_token: None, notice: None }
    }

    /// The token that this visitor's forms carry.
    pub open spec fn token(self) -> Seq<char> {
        match self.csrf_token {
            Some(t) => t,
            None => Seq::empty(),
        }
    }

    /// The notice for the next page.
    pub open spec fn flash(self) -> Seq<char> {
        match self.notice {
            Some(n) => n,
            None => Seq::empty(),
        }
    }
}

impl Default for SessionData {
    fn default() -> (r: SessionData)
        ensures
            r.deep_view() == SessionView::empty(),
    {
        SessionData { user_id: None, csrf_token: None, notice: None }
    }
}

impl Clone for SessionData {
    fn clone(&self) -> (r: SessionData)
        ensures
            r.deep_view() == self.deep_view(),
    {
        SessionData {
            user_id: self.user_id,
            csrf_token: self.csrf_token.clone(),
            notice: self.notice.clone(),
        }
    }
}

/// The sessions by name, as a mathematical map.
pub type Sessions = Map<Seq<char>, SessionView>;

/// What is remembered under the name `sid`; nothing if the name is not known.
pub open spec fn session_of(sessions: Sessions, sid: Seq<char>) -> SessionView {
    if sessions.contains_key(sid) {
        sessions[sid]
    } else {
        SessionView::empty()
    }
}

/// The token that the forms of session `sid` carry.
pub open spec fn token_of(sessions: Sessions, sid: Seq<char>) -> Seq<char> {
    session_of(sessions, sid).token()
}

/// The sessions after `sid` has been given a notice.
pub open spec fn noticed(sessions: Sessions, sid: Seq<char>, text: Seq<char>) -> Sessions {
    sessions.insert(sid, SessionView { notice: Some(text), ..session_of(sessions, sid) })
}

/// The sessions after the user `id` has signed in to `sid`, with a new token.
pub open spec fn signed_in(
    sessions: Sessions,
    sid: Seq<char>,
    id: i32,
    token: Seq<char>,
) -> Sessions {
    sessions.insert(
        sid,
        SessionView {
            user_id: Some(id),
            csrf_token: Some(token),
            ..session_of(sessions, sid)
        },
    )
}

/// The sessions after the notice of `sid` has been taken.
pub open spec fn flash_taken(sessions: Sessions, sid: Seq<char>) -> Sessions {
    if sessions.contains_key(sid) {
        sessions.insert(sid, SessionView { notice: None, ..sessions[sid] })
    } else {
        sessions
    }
}

/// The sessions after `sid` has been made known.
pub open spec fn opened(sessions: Sessions, sid: Seq<char>) -> Sessions {
    sessions.insert(sid, session_of(sessions, sid))
}

/// A form token or session name: sixteen random bytes in hexadecimal.
pub open spec fn is_token(t: Seq<char>) -> bool {
    t.len() == 32 && is_hex(t)
}

/// What holds of the sessions at all times: somebody is signed in to a session if and only if the
/// session has a form token, and form tokens are well formed.
pub open spec fn sound(sessions: Sessions) -> bool {
    forall|sid: Seq<char>| #[trigger]
        sessions.contains_key(sid) ==> {
            &&& sessions[sid].user_id is Some <==> sessions[sid].csrf_token is Some
            &&& sessions[sid].csrf_token matches Some(t) ==> is_token(t)
        }
}

// ---------- the store ----------

/// The sessions of all visitors.
pub struct SessionStore {
    map: StringHashMap<SessionData>,
}

impl View for SessionStore {
    type V = Sessions;

    closed spec fn view(&self) -> Sessions {
        self.map@.map_values(|d: SessionData| d.deep_view())
    }
}

impl SessionStore {
    /// A store that knows nobody.
    pub fn new() -> (r: SessionStore)
        ensures
            r@ == Map::<Seq<char>, SessionView>::empty(),
            sound(r@),
    {
        let r = SessionStore { map: StringHashMap::new() };
        assert(r@ =~= Map::<Seq<char>, SessionView>::empty());
        r
    }

    /// Whether the session `sid` is known.
    pub fn contains(&self, sid: &str) -> (r: bool)
        ensures
            r == self@.contains_key(sid@),
    {
        self.map.contains_key(sid)
    }

    fn put(&mut self, sid: &str, data: SessionData)
        ensures
            final(self)@ == old(self)@.insert(sid@, data.deep_view()),
    {
        self.map.insert(sid.to_owned(), data);
        assert(self@ =~= old(self)@.insert(sid@, data.deep_view()));
    }

    /// Forgets the session `sid`.
    pub fn forget(&mut self, sid: &str)
        ensures
            final(self)@ == old(self)@.remove(sid@),
            sound(old(self)@) ==> sound(final(self)@),
    {
        self.map.remove(sid);
        assert(self@ =~= old(self)@.remove(sid@));
    }
}

/// A copy of what is remembered under the name `sid`.
pub fn session_get(store: &SessionStore, sid: &str) -> (r: SessionData)
    ensures
        r.deep_view() == session_of(store@, sid@),
{
    match store.map.get(sid) {
        Some(data) => data.clone(),
        None => SessionData::default(),
    }
}

/// A change to a session.
#[derive(Debug)]
pub enum SessionEdit {
    SignIn { user_id: i32, csrf_token: String },
    Notice(String),
    Nothing,
}

/// The sessions after a change to `sid`. Any change makes the session known.
pub open spec fn edited(sessions: Sessions, sid: Seq<char>, edit: SessionEdit) -> Sessions {
    match edit {
        SessionEdit::SignIn { user_id, csrf_token } => signed_in(
            sessions,
            sid,
            user_id,
            csrf_token@,
        ),
        SessionEdit::Notice(text) => noticed(sessions, sid, text@),
        SessionEdit::Nothing => opened(sessions, sid),
    }
}

/// Changes the session `sid`, which is made known if it is not.
pub fn session_set(store: &mut SessionStore, sid: &str, edit: SessionEdit)
    ensures
        final(store)@ == edited(old(store)@, sid@, edit),
{
    let mut data = session_get(store, sid);
    match edit {
        SessionEdit::SignIn { user_id, csrf_token } => {
            data.user_id = Some(user_id);
            data.csrf_token = Some(csrf_token);
        },
        SessionEdit::Notice(text) => {
            data.notice = Some(text);
        },
        SessionEdit::Nothing => {},
    }
    store.put(sid, data);
}

/// Leaves a notice for the next page of session `sid`.
pub fn leave_notice(store: &mut SessionStore, sid: &str, text: &str)
    ensures
        final(store)@ == noticed(old(store)@, sid@, text@),
        sound(old(store)@) ==> sound(final(store)@),
{
    session_set(store, sid, SessionEdit::Notice(text.to_owned()));
}

/// Signs the user `id` in to session `sid`, with the form token `token`.
pub fn sign_in(store: &mut SessionStore, sid: &str, id: i32, token: String)
    ensures
        final(store)@ == signed_in(old(store)@, sid@, id, token@),
        sound(old(store)@) && is_token(token@) ==> sound(final(store)@),
{
    session_set(store, sid, SessionEdit::SignIn { user_id: id, csrf_token: token });
}

/// The token that the forms of session `sid` carry; empty where nobody is signed in.
pub fn csrf_token(store: &SessionStore, sid: &str) -> (r: String)
    ensures
        r@ == token_of(store@, sid@),
{
    match session_get(store, sid).csrf_token {
        Some(token) => token,
        None => String::new(),
    }
}

/// Takes the notice that was left for the next page of session `sid`.
pub fn get_flash(store: &mut SessionStore, sid: &str) -> (r: String)
    ensures
        r@ == session_of(old(store)@, sid@).flash(),
        final(store)@ == flash_taken(old(store)@, sid@),
        sound(old(store)@) ==> sound(final(store)@),
{
    if !store.contains(sid) {
        return String::new();
    }
    let mut data = session_get(store, sid);
    let notice = data.notice.take();
    store.put(sid, data);
    match notice {
        Some(text) => text,
        None => String::new(),
    }
}

// ---------- who is signed in ----------

/// The statement that looks a user up.
pub open spec fn user_by_id(id: i32) -> QueryView {
    bound_query("SELECT * FROM `users` WHERE `id` = ?"@, ArgView::Int(id))
}

/// The statement that looks up who is signed in to session `sid`, if anybody is.
pub fn current_user_query(store: &SessionStore, sid: &str) -> (r: Option<Query<'static>>)
    ensures
        r is Some <==> session_of(store@, sid@).user_id is Some,
        r matches Some(q) ==> q.deep_view() == user_by_id(session_of(store@, sid@).user_id->0),
{
    match session_get(store, sid).user_id {
        Some(id) => Some(Query::bound("SELECT * FROM `users` WHERE `id` = ?", Arg::Int(id))),
        None => None,
    }
}

/// Who is signed in, given the outcome of the lookup. Nobody is where nothing was looked up,
/// nothing was found or the lookup failed.
pub fn current_user<E>(found: Result<Option<User>, E>) -> (r: User)
    ensures
        match found {
            Ok(Some(u)) => r.deep_view() == u.deep_view(),
            _ => r.deep_view().is_empty(),
        },
{
    match found {
        Ok(Some(u)) => u,
        _ => User::empty(),
    }
}

// ---------- the session of a request ----------

/// The session of a request, and whether the visitor has yet to be told its name.
#[derive(Debug)]
pub struct Opened {
    pub sid: String,
    pub is_new: bool,
}

/// The session that a request's cookie names, if it is known.
pub open spec fn known_session(sessions: Sessions, header: Option<Seq<u8>>) -> Option<Seq<char>> {
    match cookie(header, "session"@) {
        Some(s) => if sessions.contains_key(s) {
            Some(s)
        } else {
            None
        },
        None => None,
    }
}

/// Gives a request its session: the one that its cookie names, if it is known, else a new one
/// under the name `fresh`.
pub fn open_session(store: &mut SessionStore, header: Option<&[u8]>, fresh: String) -> (r: Opened)
    ensures
        match known_session(old(store)@, header.deep_view()) {
            Some(s) => r.sid@ == s && !r.is_new && final(store)@ == old(store)@,
            None => r.sid@ == fresh@ && r.is_new && final(store)@ == opened(old(store)@, fresh@),
        },
        sound(old(store)@) ==> sound(final(store)@),
{
    let existing = find_session(store, header);
    let r = match existing {
        Some(sid) => Opened { sid, is_new: false },
        None => Opened { sid: fresh, is_new: true },
    };
    session_set(store, r.sid.as_str(), SessionEdit::Nothing);
    assert(!r.is_new ==> store@ =~= old(store)@);
    r
}

/// The session that a request's cookie names, if it is known.
fn find_session(store: &SessionStore, header: Option<&[u8]>) -> (r: Option<String>)
    ensures
        r.deep_view() == known_session(store@, header.deep_view()),
{
    match cookie_value(header, "session") {
        Some(s) => if store.contains(s.as_str()) {
            Some(s)
        } else {
            None
        },
        None => None,
    }
}

/// Gives a request its session, given the name that was drawn for a new one: the session that the
/// request's cookie names, if it is known, else a new one under the drawn name. Where that name is
/// needed and none could be drawn there is no session.
pub fn session_drawn(
    store: &mut SessionStore,
    header: Option<&[u8]>,
    drawn: Result<String, EntropyError>,
) -> (r: Result<Opened, EntropyError>)
    ensures
        match known_session(old(store)@, header.deep_view()) {
            Some(s) => r matches Ok(o) && o.sid@ == s && !o.is_new && final(store)@ == old(store)@,
            None => match drawn {
                Ok(fresh) => {
                    &&& r matches Ok(o) && o.sid@ == fresh@ && o.is_new
                    &&& final(store)@ == opened(old(store)@, fresh@)
                },
                Err(_) => r is Err && final(store)@ == old(store)@,
            },
        },
        sound(old(store)@) ==> sound(final(store)@),
{
    match drawn {
        Ok(fresh) => Ok(open_session(store, header, fresh)),
        Err(e) => match find_session(store, header) {
            Some(_) => Ok(open_session(store, header, String::new())),
            None => Err(e),
        },
    }
}

/// Gives a request its session: the one that its cookie names, if it is known, else a new one
/// under a random name.
///
/// Fails only where a name has to be drawn and the operating system has no random bytes to give.
pub fn session_layer(store: &mut SessionStore, header: Option<&[u8]>) -> (r: Result<
    Opened,
    EntropyError,
>)
    ensures
        match known_session(old(store)@, header.deep_view()) {
            Some(s) => r matches Ok(o) && o.sid@ == s && !o.is_new && final(store)@ == old(store)@,
            None => match r {
                Ok(o) => o.is_new && is_token(o.sid@) && final(store)@ == opened(
                    old(store)@,
                    o.sid@,
                ),
                Err(_) => final(store)@ == old(store)@,
            },
        },
        sound(old(store)@) ==> sound(final(store)@),
{
    match find_session(store, header) {
        // No name is needed: the session has one.
        Some(_) => session_drawn(store, header, Ok(String::new())),
        None => session_drawn(store, header, rand_hex(16)),
    }
}

/// The `Set-Cookie` value for the reply to a request, if the visitor has yet to be told the name
/// of the session.
pub fn new_session_cookie(opened: &Opened) -> (r: Option<String>)
    ensures
        r is Some <==> opened.is_new,
        r matches Some(c) ==> c@ == session_cookie(opened.sid@),
        r matches Some(c) ==> is_token(opened.sid@) ==> is_header_text(c@),
{
    if opened.is_new {
        proof {
            if is_token(opened.sid@) {
                assert forall|i: int| 0 <= i < opened.sid@.len() implies
                    crate::reply::is_header_char(#[trigger] opened.sid@[i]) by {
                    assert(is_hex_char(opened.sid@[i]));
                }
            }
        }
        Some(set_session_cookie(opened.sid.as_str()))
    } else {
        None
    }
}

// ---------- laws ----------

/// What is done to one session leaves all others as they are.
pub proof fn law_sessions_are_separate(
    sessions: Sessions,
    sid: Seq<char>,
    other: Seq<char>,
    id: i32,
    text: Seq<char>,
)
    requires
        sid != other,
    ensures
        session_of(noticed(sessions, sid, text), other) == session_of(sessions, other),
        session_of(signed_in(sessions, sid, id, text), other) == session_of(sessions, other),
        session_of(flash_taken(sessions, sid), other) == session_of(sessions, other),
        session_of(opened(sessions, sid), other) == session_of(sessions, other),
        session_of(sessions.remove(sid), other) == session_of(sessions, other),
{
}

/// A notice is shown once: the next page takes it, and the page after that has none.
pub proof fn law_flash_is_shown_once(sessions: Sessions, sid: Seq<char>, text: Seq<char>)
    ensures
        session_of(noticed(sessions, sid, text), sid).flash() == text,
        session_of(flash_taken(noticed(sessions, sid, text), sid), sid).flash() == Seq::<
            char,
        >::empty(),
        session_of(flash_taken(sessions, sid), sid).flash() == Seq::<char>::empty(),
{
}

/// A notice, shown or not, changes neither who is signed in nor the form token.
pub proof fn law_notices_keep_identity(sessions: Sessions, sid: Seq<char>, text: Seq<char>)
    ensures
        session_of(noticed(sessions, sid, text), sid).user_id == session_of(sessions, sid).user_id,
        token_of(noticed(sessions, sid, text), sid) == token_of(sessions, sid),
        session_of(flash_taken(sessions, sid), sid).user_id == session_of(sessions, sid).user_id,
        token_of(flash_taken(sessions, sid), sid) == token_of(sessions, sid),
{
}

/// Whoever signs in is signed in: the user and the form token are remembered, and a notice that
/// was left stays.
pub proof fn law_sign_in_is_remembered(
    sessions: Sessions,
    sid: Seq<char>,
    id: i32,
    token: Seq<char>,
)
    ensures
        session_of(signed_in(sessions, sid, id, token), sid).user_id == Some(id),
        token_of(signed_in(sessions, sid, id, token), sid) == token,
        session_of(signed_in(sessions, sid, id, token), sid).flash() == session_of(
            sessions,
            sid,
        ).flash(),
{
}

/// In sound sessions, the forms of a signed-in visitor carry a token of 32 characters, so no form
/// without a token passes for one of this visitor's.
pub proof fn law_signed_in_visitor_has_token(sessions: Sessions, sid: Seq<char>)
    requires
        sound(sessions),
        session_of(sessions, sid).user_id is Some,
    ensures
        is_token(token_of(sessions, sid)),
        token_of(sessions, sid) != Seq::<char>::empty(),
{
    assert(sessions.contains_key(sid));
}

/// Nothing is remembered of a session that was forgotten: nobody is signed in, there is no form
/// token and no notice, and a cookie that names the session no longer counts.
pub proof fn law_logout_forgets(sessions: Sessions, sid: Seq<char>, header: Option<Seq<u8>>)
    requires
        cookie(header, "session"@) == Some(sid),
    ensures
        session_of(sessions.remove(sid), sid) == SessionView::empty(),
        known_session(sessions.remove(sid), header) is None,
{
}

/// A visitor who was given a session and sends its cookie back, among whatever other cookies, is
/// in that session again, and coming back changes nothing that is remembered.
pub proof fn law_session_is_kept(sessions: Sessions, sid: Seq<char>, header: Seq<u8>, at: int)
    requires
        carries_session(header, sid, at),
    ensures
        known_session(opened(sessions, sid), Some(header)) == Some(sid),
        session_of(opened(sessions, sid), sid) == session_of(sessions, sid),
{
    law_session_cookie_is_read_back(sid, header, at);
}

/// The sessions stay sound, whatever is done to them.
pub proof fn law_sessions_stay_sound(
    sessions: Sessions,
    sid: Seq<char>,
    id: i32,
    token: Seq<char>,
    text: Seq<char>,
)
    requires
        sound(sessions),
        is_token(token),
    ensures
        sound(noticed(sessions, sid, text)),
        sound(signed_in(sessions, sid, id, token)),
        sound(flash_taken(sessions, sid)),
        sound(opened(sessions, sid)),
        sound(sessions.remove(sid)),
{
}

/// What is known of a session is all that it holds, whole.
pub proof fn law_session_view(d: SessionData)
    ensures
        d.deep_view().user_id == d.user_id,
        d.csrf_token is None <==> d.deep_view().csrf_token is None,
        d.csrf_token matches Some(t) ==> d.deep_view().csrf_token == Some(t@),
        d.notice is None <==> d.deep_view().notice is None,
        d.notice matches Some(t) ==> d.deep_view().notice == Some(t@),
        d.deep_view().token() == (match d.csrf_token {
            Some(t) => t@,
            None => Seq::empty(),
        }),
        d.deep_view().flash() == (match d.notice {
            Some(t) => t@,
            None => Seq::empty(),
        }),
{
}

/// A session that is known holds what is stored; one that is not known holds nothing.
pub proof fn law_session_of(sessions: Sessions, sid: Seq<char>)
    ensures
        sessions.contains_key(sid) ==> session_of(sessions, sid) == sessions[sid],
        !sessions.contains_key(sid) ==> session_of(sessions, sid).user_id is None,
        !sessions.contains_key(sid) ==> session_of(sessions, sid).csrf_token is None,
        !sessions.contains_key(sid) ==> session_of(sessions, sid).notice is None,
        session_of(sessions, sid).csrf_token matches Some(t) ==> token_of(sessions, sid) == t,
        session_of(sessions, sid).csrf_token is None ==> token_of(sessions, sid).len() == 0,
        session_of(sessions, sid).notice matches Some(n) ==> session_of(sessions, sid).flash() == n,
        session_of(sessions, sid).notice is None ==> session_of(sessions, sid).flash().len() == 0,
{
}

/// Which sessions are known: a notice, signing in and opening make the session known, showing a
/// notice makes none known, and no other session becomes known or unknown.
pub proof fn law_known_sessions(
    sessions: Sessions,
    sid: Seq<char>,
    any: Seq<char>,
    id: i32,
    text: Seq<char>,
)
    ensures
        noticed(sessions, sid, text).contains_key(any) <==> sessions.contains_key(any) || any == sid,
        signed_in(sessions, sid, id, text).contains_key(any) <==> sessions.contains_key(any) || any
            == sid,
        opened(sessions, sid).contains_key(any) <==> sessions.contains_key(any) || any == sid,
        flash_taken(sessions, sid).contains_key(any) <==> sessions.contains_key(any),
        session_of(opened(sessions, sid), any) == session_of(sessions, any),
{
}

/// A change does what its kind says, with the whole of what it brings.
pub proof fn law_edited(sessions: Sessions, sid: Seq<char>, id: i32, text: String)
    ensures
        ({
            let after = session_of(
                edited(sessions, sid, SessionEdit::SignIn { user_id: id, csrf_token: text }),
                sid,
            );
            &&& after.user_id == Some(id)
            &&& after.csrf_token == Some(text@)
            &&& after.notice == session_of(sessions, sid).notice
        }),
        ({
            let after = session_of(edited(sessions, sid, SessionEdit::Notice(text)), sid);
            &&& after.user_id == session_of(sessions, sid).user_id
            &&& after.csrf_token == session_of(sessions, sid).csrf_token
            &&& after.notice == Some(text@)
        }),
        session_of(edited(sessions, sid, SessionEdit::Nothing), sid) == session_of(sessions, sid),
        edited(sessions, sid, SessionEdit::Nothing).contains_key(sid),
{
}

/// A change of one session changes no other.
pub proof fn law_edits_are_separate(
    sessions: Sessions,
    sid: Seq<char>,
    other: Seq<char>,
    edit: SessionEdit,
)
    requires
        sid != other,
    ensures
        session_of(edited(sessions, sid, edit), other) == session_of(sessions, other),
        edited(sessions, sid, edit).contains_key(other) <==> sessions.contains_key(other),
{
}

/// A request is in a known session exactly where its cookie names one that is known.
pub proof fn law_known_session(sessions: Sessions, header: Option<Seq<u8>>, sid: Seq<char>)
    ensures
        known_session(sessions, header) == Some(sid) <==> cookie(header, "session"@) == Some(sid)
            && sessions.contains_key(sid),
{
}

/// A token is 32 lower-case hexadecimal digits.
pub proof fn law_token(t: Seq<char>)
    ensures
        is_token(t) <==> t.len() == 32 && forall|i: int|
            0 <= i < t.len() ==> 48 <= #[trigger] t[i] as int <= 57 || 97 <= t[i] as int <= 102,
{
    if is_token(t) {
        assert forall|i: int| 0 <= i < t.len() implies 48 <= #[trigger] t[i] as int <= 57 || 97
            <= t[i] as int <= 102 by {
            assert(is_hex_char(t[i]));
        }
    }
}

/// A user is looked up by the whole number.
pub proof fn law_user_by_id(id: i32)
    ensures
        user_by_id(id).sql == "SELECT * FROM `users` WHERE `id` = ?"@,
        user_by_id(id).args.len() == 1,
        user_by_id(id).args[0] == ArgView::Int(id),
{
}

} // verus!
