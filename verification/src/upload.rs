//! Posting an image.
use crate::login::{to_front, to_login};
use crate::model::{image_path, is_login, suffix_of, User, UserView};
use crate::query::{Arg, ArgView, Query, QueryView};
use crate::reply::{
    is_header_char, is_header_text, redirect, redirect_reply, status_reply, Reply, ReplyView,
    UNPROCESSABLE_ENTITY,
};
use crate::session::{
    csrf_token, law_signed_in_visitor_has_token, leave_notice, noticed, session_of, sound, token_of,
    SessionStore, Sessions,
};
use crate::text::{contains_text, decimal, format_u64, text_contains, text_eq};
use vstd::prelude::*;
use vstd::string::*;

verus! {

/// The greatest size of an image, in bytes.
pub const UPLOAD_LIMIT: usize = 10 * 1024 * 1024;

/// The directory of the files that are served as they are.
pub const PUBLIC_DIR: &'static str = "/home/isucon/private_isu/webapp/public";

/// The notice after a form without an image.
pub const IMAGE_REQUIRED: &'static str = "画像が必須です";

/// The notice after an image of a type that is not shown.
pub const WRONG_TYPE: &'static str = "投稿できる画像形式はjpgとpngとgifだけです";

/// The notice after an image that is too large.
pub const TOO_LARGE: &'static str = "ファイルサイズが大きすぎます";

// ---------- the form ----------

/// What a field of the form is for.
#[derive(Debug, Clone, Copy, PartialEq, Eq, Structural)]
pub enum FieldKind {
    File,
    Body,
    CsrfToken,
    Other,
}

pub open spec fn kind_of_name(name: Seq<char>) -> FieldKind {
    if name == "file"@ {
        FieldKind::File
    } else if name == "body"@ {
        FieldKind::Body
    } else if name == "csrf_token"@ {
        FieldKind::CsrfToken
    } else {
        FieldKind::Other
    }
}

/// What the field of this name is for. A field may have no name.
pub fn field_kind(name: Option<&str>) -> (r: FieldKind)
    ensures
        r == match name {
            Some(n) => kind_of_name(n@),
            None => FieldKind::Other,
        },
{
    match name {
        Some(n) => if text_eq(n, "file") {
            FieldKind::File
        } else if text_eq(n, "body") {
            FieldKind::Body
        } else if text_eq(n, "csrf_token") {
            FieldKind::CsrfToken
        } else {
            FieldKind::Other
        },
        None => FieldKind::Other,
    }
}

/// A field of the form with its content.
#[derive(Debug)]
pub enum Field {
    File { content_type: Option<String>, data: Vec<u8> },
    Body(String),
    CsrfToken(String),
    Other,
}

pub enum FieldView {
    File { content_type: Option<Seq<char>>, data: Seq<u8> },
    Body(Seq<char>),
    CsrfToken(Seq<char>),
    Other,
}

impl DeepView for Field {
    type V = FieldView;

    open spec fn deep_view(&self) -> FieldView {
        match self {
            Field::File { content_type, data } => FieldView::File {
                content_type: content_type.deep_view(),
                data: data@,
            },
            Field::Body(text) => FieldView::Body(text@),
            Field::CsrfToken(text) => FieldView::CsrfToken(text@),
            Field::Other => FieldView::Other,
        }
    }
}

/// What a form holds: the image, if there is one, its type, the text and the form token.
#[derive(Debug)]
pub struct Upload {
    pub file: Option<Vec<u8>>,
    pub content_type: String,
    pub body: String,
    pub csrf_token: String,
}

pub struct UploadView {
    pub file: Option<Seq<u8>>,
    pub content_type: Seq<char>,
    pub body: Seq<char>,
    pub csrf_token: Seq<char>,
}

impl DeepView for Upload {
    type V = UploadView;

    open spec fn deep_view(&self) -> UploadView {
        UploadView {
            file: match self.file {
                Some(data) => Some(data@),
                None => None,
            },
            content_type: self.content_type@,
            body: self.body@,
            csrf_token: self.csrf_token@,
        }
    }
}

pub open spec fn text_or_empty(text: Option<Seq<char>>) -> Seq<char> {
    match text {
        Some(t) => t,
        None => Seq::empty(),
    }
}

/// The form after one more field. A later field takes the place of an earlier one.
pub open spec fn with_field(form: UploadView, field: FieldView) -> UploadView {
    match field {
        FieldView::File { content_type, data } => UploadView {
            file: Some(data),
            content_type: text_or_empty(content_type),
            ..form
        },
        FieldView::Body(text) => UploadView { body: text, ..form },
        FieldView::CsrfToken(text) => UploadView { csrf_token: text, ..form },
        FieldView::Other => form,
    }
}

/// What a form with these fields holds.
pub open spec fn form_of(fields: Seq<FieldView>) -> UploadView
    decreases fields.len(),
{
    if fields.len() == 0 {
        UploadView {
            file: None,
            content_type: Seq::empty(),
            body: Seq::empty(),
            csrf_token: Seq::empty(),
        }
    } else {
        with_field(form_of(fields.drop_last()), fields.last())
    }
}

impl Upload {
    /// A form without fields.
    pub fn new() -> (r: Upload)
        ensures
            r.deep_view() == form_of(seq![]),
    {
        Upload {
            file: None,
            content_type: String::new(),
            body: String::new(),
            csrf_token: String::new(),
        }
    }

    /// Takes one more field.
    pub fn take_field(&mut self, field: Field)
        ensures
            final(self).deep_view() == with_field(old(self).deep_view(), field.deep_view()),
    {
        match field {
            Field::File { content_type, data } => {
                self.content_type =
                match content_type {
                    Some(t) => t,
                    None => String::new(),
                };
                self.file = Some(data);
            },
            Field::Body(text) => {
                self.body = text;
            },
            Field::CsrfToken(text) => {
                self.csrf_token = text;
            },
            Field::Other => {},
        }
    }
}

// ---------- the decision ----------

/// The image type that is stored for what the form calls the type of the image.
pub open spec fn image_type(content_type: Seq<char>) -> Option<Seq<char>> {
    if contains_text(content_type, "jpeg"@) {
        Some("image/jpeg"@)
    } else if contains_text(content_type, "png"@) {
        Some("image/png"@)
    } else if contains_text(content_type, "gif"@) {
        Some("image/gif"@)
    } else {
        None
    }
}

/// The image type that is stored for what the form calls the type of the image.
fn image_type_of(content_type: &str) -> (r: Option<&'static str>)
    ensures
        r.deep_view() == image_type(content_type@),
{
    if text_contains(content_type, "jpeg") {
        Some("image/jpeg")
    } else if text_contains(content_type, "png") {
        Some("image/png")
    } else if text_contains(content_type, "gif") {
        Some("image/gif")
    } else {
        None
    }
}

/// What becomes of a form.
pub enum Verdict {
    /// It does not carry the visitor's form token.
    Forged,
    /// It is turned down with a notice.
    TurnedDown(Seq<char>),
    /// Its image is stored with this type.
    Stored(Seq<char>),
}

/// What becomes of a form from a visitor whose form token is `token`.
pub open spec fn verdict(token: Seq<char>, form: UploadView) -> Verdict {
    if form.csrf_token != token {
        Verdict::Forged
    } else if form.file is None || form.file->0.len() == 0 {
        Verdict::TurnedDown(IMAGE_REQUIRED@)
    } else if image_type(form.content_type) is None {
        Verdict::TurnedDown(WRONG_TYPE@)
    } else if form.file->0.len() > UPLOAD_LIMIT {
        Verdict::TurnedDown(TOO_LARGE@)
    } else {
        Verdict::Stored(image_type(form.content_type)->0)
    }
}

/// The statement that adds a post.
pub open spec fn insert_post(
    user_id: i32,
    mime: Seq<char>,
    data: Seq<u8>,
    body: Seq<char>,
) -> QueryView {
    QueryView {
        sql: "INSERT INTO `posts` (`user_id`, `mime`, `imgdata`, `body`) VALUES (?,?,?,?)"@,
        args: seq![
            ArgView::Int(user_id),
            ArgView::Text(mime),
            ArgView::Bytes(data),
            ArgView::Text(body),
        ],
    }
}

/// A post that is to be stored.
#[derive(Debug)]
pub struct NewPost {
    pub user_id: i32,
    pub mime: String,
    pub data: Vec<u8>,
    pub body: String,
}

pub struct NewPostView {
    pub user_id: i32,
    pub mime: Seq<char>,
    pub data: Seq<u8>,
    pub body: Seq<char>,
}

impl DeepView for NewPost {
    type V = NewPostView;

    open spec fn deep_view(&self) -> NewPostView {
        NewPostView {
            user_id: self.user_id,
            mime: self.mime@,
            data: self.data@,
            body: self.body@,
        }
    }
}

impl NewPost {
    /// The statement that stores the post.
    pub fn query(&self) -> (r: Query<'_>)
        ensures
            r.deep_view() == insert_post(self.user_id, self.mime@, self.data@, self.body@),
    {
        let r = Query::bound(
            "INSERT INTO `posts` (`user_id`, `mime`, `imgdata`, `body`) VALUES (?,?,?,?)",
            Arg::Int(self.user_id),
        ).bind(Arg::Text(self.mime.clone())).bind(Arg::Bytes(self.data.as_slice())).bind(
            Arg::Text(self.body.clone()),
        );
        assert(r.deep_view().args =~= insert_post(
            self.user_id,
            self.mime@,
            self.data@,
            self.body@,
        ).args);
        r
    }

    /// The file that the image is also written to, given the number of the post.
    pub fn image_file(&self, pid: u64) -> (r: String)
        ensures
            r@ == image_file(pid as int, self.mime@),
    {
        let mut r = PUBLIC_DIR.to_owned();
        r.append("/image/");
        r.append(format_u64(pid).as_str());
        r.append(suffix_of(self.mime.as_str()));
        assert(r@ =~= image_file(pid as int, self.mime@));
        r
    }
}

/// What a form leads to: a reply, or a post that is to be stored.
#[derive(Debug)]
pub enum UploadStep {
    Reply(Reply),
    Store(NewPost),
}

pub enum UploadStepView {
    Reply(ReplyView),
    Store(NewPostView),
}

impl DeepView for UploadStep {
    type V = UploadStepView;

    open spec fn deep_view(&self) -> UploadStepView {
        match self {
            UploadStep::Reply(r) => UploadStepView::Reply(r.deep_view()),
            UploadStep::Store(p) => UploadStepView::Store(p.deep_view()),
        }
    }
}

/// What a form from `me` leads to.
pub open spec fn upload_step(token: Seq<char>, me: UserView, form: UploadView) -> UploadStepView {
    if !me.logged_in() {
        UploadStepView::Reply(redirect_reply("/login"@))
    } else {
        match verdict(token, form) {
            Verdict::Forged => UploadStepView::Reply(status_reply(UNPROCESSABLE_ENTITY)),
            Verdict::TurnedDown(_) => UploadStepView::Reply(redirect_reply("/"@)),
            Verdict::Stored(mime) => UploadStepView::Store(
                NewPostView { user_id: me.id, mime, data: form.file->0, body: form.body },
            ),
        }
    }
}

/// The sessions after a form from `me` has been judged.
pub open spec fn after_upload(
    sessions: Sessions,
    sid: Seq<char>,
    me: UserView,
    form: UploadView,
) -> Sessions {
    if !me.logged_in() {
        sessions
    } else {
        match verdict(token_of(sessions, sid), form) {
            Verdict::TurnedDown(text) => noticed(sessions, sid, text),
            _ => sessions,
        }
    }
}

/// The reply to somebody who may not post at all, before the form is read.
pub fn post_index(me: &User) -> (r: Option<Reply>)
    ensures
        r is None <==> me.deep_view().logged_in(),
        r matches Some(reply) ==> reply.deep_view() == redirect_reply("/login"@),
{
    if is_login(me) {
        None
    } else {
        Some(to_login())
    }
}

/// Judges a form from `me`.
pub fn post_index_form(store: &mut SessionStore, sid: &str, me: &User, form: Upload) -> (r:
    UploadStep)
    ensures
        r.deep_view() == upload_step(
            token_of(old(store)@, sid@),
            me.deep_view(),
            form.deep_view(),
        ),
        final(store)@ == after_upload(old(store)@, sid@, me.deep_view(), form.deep_view()),
        sound(old(store)@) ==> sound(final(store)@),
{
    if let Some(reply) = post_index(me) {
        return UploadStep::Reply(reply);
    }
    let token = csrf_token(store, sid);
    if !text_eq(form.csrf_token.as_str(), token.as_str()) {
        return UploadStep::Reply(Reply::status(UNPROCESSABLE_ENTITY));
    }
    let Upload { file, content_type, body, csrf_token: _ } = form;
    let data = match file {
        Some(data) => data,
        None => {
            leave_notice(store, sid, IMAGE_REQUIRED);
            return UploadStep::Reply(to_front());
        },
    };
    if data.is_empty() {
        leave_notice(store, sid, IMAGE_REQUIRED);
        return UploadStep::Reply(to_front());
    }
    let mime = match image_type_of(content_type.as_str()) {
        Some(mime) => mime,
        None => {
            leave_notice(store, sid, WRONG_TYPE);
            return UploadStep::Reply(to_front());
        },
    };
    if data.len() > UPLOAD_LIMIT {
        leave_notice(store, sid, TOO_LARGE);
        return UploadStep::Reply(to_front());
    }
    UploadStep::Store(NewPost { user_id: me.id, mime: mime.to_owned(), data, body })
}

/// The path of the page of a post.
pub open spec fn post_path(id: int) -> Seq<char> {
    "/posts/"@ + decimal(id)
}

/// A decimal number may stand in a header.
pub proof fn lemma_decimal_is_header_text(n: nat)
    ensures
        is_header_text(crate::text::decimal_nat(n)),
    decreases n,
{
    if n >= 10 {
        lemma_decimal_is_header_text(n / 10);
        assert forall|i: int| 0 <= i < crate::text::decimal_nat(n).len() implies is_header_char(
            #[trigger] crate::text::decimal_nat(n)[i],
        ) by {
            if i < crate::text::decimal_nat(n / 10).len() {
                assert(is_header_char(crate::text::decimal_nat(n / 10)[i]));
            }
        }
    }
}

/// The path of a post's page may stand in a header.
pub proof fn lemma_post_path_is_header_text(id: int)
    ensures
        is_header_text(post_path(id)),
{
    reveal_strlit("/posts/");
    let n = "/posts/"@.len() as int;
    let d = decimal(id);
    let m = (if id < 0 {
        -id
    } else {
        id
    }) as nat;
    lemma_decimal_is_header_text(m);
    assert forall|i: int| 0 <= i < d.len() implies is_header_char(#[trigger] d[i]) by {
        if id < 0 {
            if i > 0 {
                assert(d[i] == crate::text::decimal_nat(m)[i - 1]);
            }
        } else {
            assert(d[i] == crate::text::decimal_nat(m)[i]);
        }
    }
    assert forall|i: int| 0 <= i < post_path(id).len() implies is_header_char(
        #[trigger] post_path(id)[i],
    ) by {
        if i >= n {
            assert(post_path(id)[i] == d[i - n]);
        }
    }
}

/// Sends the visitor to the post that was added.
pub fn post_index_done(pid: u64) -> (r: Reply)
    ensures
        r.deep_view() == redirect_reply(post_path(pid as int)),
{
    let mut location = "/posts/".to_owned();
    location.append(format_u64(pid).as_str());
    proof {
        lemma_post_path_is_header_text(pid as int);
    }
    redirect(location.as_str())
}

/// The file that an image is also written to, so that it can be served as it is.
pub open spec fn image_file(id: int, mime: Seq<char>) -> Seq<char> {
    PUBLIC_DIR@ + image_path(id, mime)
}

// ---------- laws ----------

/// A form whose token is not the visitor's is refused and changes nothing.
pub proof fn law_forged_upload_is_refused(
    sessions: Sessions,
    sid: Seq<char>,
    me: UserView,
    form: UploadView,
)
    requires
        me.logged_in(),
        form.csrf_token != token_of(sessions, sid),
    ensures
        upload_step(token_of(sessions, sid), me, form) == UploadStepView::Reply(
            status_reply(UNPROCESSABLE_ENTITY),
        ),
        after_upload(sessions, sid, me, form) == sessions,
{
}

/// In sound sessions, a signed-in visitor's form without a token is refused.
pub proof fn law_upload_without_token_is_refused(
    sessions: Sessions,
    sid: Seq<char>,
    me: UserView,
    form: UploadView,
)
    requires
        sound(sessions),
        session_of(sessions, sid).user_id is Some,
        me.logged_in(),
        form.csrf_token.len() == 0,
    ensures
        upload_step(token_of(sessions, sid), me, form) == UploadStepView::Reply(
            status_reply(UNPROCESSABLE_ENTITY),
        ),
{
    law_signed_in_visitor_has_token(sessions, sid);
}

/// What is stored has one of the three image types, is not empty and is not too large; it is the
/// content of a form that carries the visitor's token, and belongs to somebody who is signed in.
pub proof fn law_stored_image(token: Seq<char>, me: UserView, form: UploadView, post: NewPostView)
    requires
        upload_step(token, me, form) == UploadStepView::Store(post),
    ensures
        me.logged_in(),
        post.mime == "image/jpeg"@ || post.mime == "image/png"@ || post.mime == "image/gif"@,
        0 < post.data.len() <= UPLOAD_LIMIT,
        form.file == Some(post.data),
        post.body == form.body,
        post.user_id == me.id,
        form.csrf_token == token,
{
}

/// Taking a form's fields one by one gives what the form holds: each field is taken into what the
/// fields before it hold.
pub proof fn law_fields_are_taken_in_turn(fields: Seq<FieldView>, field: FieldView)
    ensures
        form_of(fields.push(field)) == with_field(form_of(fields), field),
{
    assert(fields.push(field).drop_last() =~= fields);
}

/// The fields that hold an image.
pub open spec fn file_fields(fields: Seq<FieldView>) -> Seq<FieldView> {
    fields.filter(|f: FieldView| f is File)
}

/// The fields that hold a text.
pub open spec fn body_fields(fields: Seq<FieldView>) -> Seq<FieldView> {
    fields.filter(|f: FieldView| f is Body)
}

/// The fields that hold a form token.
pub open spec fn token_fields(fields: Seq<FieldView>) -> Seq<FieldView> {
    fields.filter(|f: FieldView| f is CsrfToken)
}

/// Of several fields of a kind, the last one counts: a form holds the image and type of the last
/// image field, the text of the last text field and the token of the last token field, and is
/// empty where there is none of a kind.
pub proof fn law_last_field_counts(fields: Seq<FieldView>)
    ensures
        ({
            let files = file_fields(fields);
            let bodies = body_fields(fields);
            let tokens = token_fields(fields);
            form_of(fields) == (UploadView {
                file: if files.len() > 0 {
                    Some(files.last()->data)
                } else {
                    None
                },
                content_type: if files.len() > 0 {
                    text_or_empty(files.last()->content_type)
                } else {
                    Seq::empty()
                },
                body: if bodies.len() > 0 {
                    bodies.last()->Body_0
                } else {
                    Seq::empty()
                },
                csrf_token: if tokens.len() > 0 {
                    tokens.last()->CsrfToken_0
                } else {
                    Seq::empty()
                },
            })
        }),
    decreases fields.len(),
{
    reveal(Seq::filter);
    if fields.len() > 0 {
        law_last_field_counts(fields.drop_last());
    }
}

/// Neither the order of fields of different kinds nor other fields matter: forms with the same
/// image fields, the same text fields and the same token fields hold the same.
pub proof fn law_field_order_is_free(a: Seq<FieldView>, b: Seq<FieldView>)
    requires
        file_fields(a) == file_fields(b),
        body_fields(a) == body_fields(b),
        token_fields(a) == token_fields(b),
    ensures
        form_of(a) == form_of(b),
{
    law_last_field_counts(a);
    law_last_field_counts(b);
}

/// What is known of a field, of a form and of a new post is all that they hold, whole.
pub proof fn law_upload_views(
    content_type: Option<String>,
    data: Vec<u8>,
    text: String,
    form: Upload,
    post: NewPost,
)
    ensures
        (Field::File { content_type, data }).deep_view() == (FieldView::File {
            content_type: content_type.deep_view(),
            data: data@,
        }),
        Field::Body(text).deep_view() == FieldView::Body(text@),
        Field::CsrfToken(text).deep_view() == FieldView::CsrfToken(text@),
        Field::Other.deep_view() == FieldView::Other,
        form.file is None <==> form.deep_view().file is None,
        form.file matches Some(d) ==> form.deep_view().file == Some(d@),
        form.deep_view().content_type == form.content_type@,
        form.deep_view().body == form.body@,
        form.deep_view().csrf_token == form.csrf_token@,
        post.deep_view().user_id == post.user_id,
        post.deep_view().mime == post.mime@,
        post.deep_view().data == post.data@,
        post.deep_view().body == post.body@,
{
}

/// A step is known by its kind, and its reply or post is known whole.
pub proof fn law_upload_step_view(r: Reply, p: NewPost)
    ensures
        UploadStep::Reply(r).deep_view() == UploadStepView::Reply(r.deep_view()),
        UploadStep::Store(p).deep_view() == UploadStepView::Store(p.deep_view()),
{
}

/// Three names have a meaning in the form.
pub proof fn law_field_names(name: Seq<char>)
    ensures
        kind_of_name(name) == FieldKind::File <==> name == "file"@,
        kind_of_name(name) == FieldKind::Body <==> name == "body"@,
        kind_of_name(name) == FieldKind::CsrfToken <==> name == "csrf_token"@,
{
    reveal_strlit("file");
    reveal_strlit("body");
    reveal_strlit("csrf_token");
    assert("file"@[0] != "body"@[0]);
    assert("file"@.len() != "csrf_token"@.len());
    assert("body"@.len() != "csrf_token"@.len());
}

/// A field sets its own part of the form, whole, and no other part.
pub proof fn law_with_field(
    form: UploadView,
    content_type: Option<Seq<char>>,
    data: Seq<u8>,
    text: Seq<char>,
)
    ensures
        ({
            let after = with_field(form, FieldView::File { content_type, data });
            &&& after.file == Some(data)
            &&& content_type matches Some(t) ==> after.content_type == t
            &&& content_type is None ==> after.content_type.len() == 0
            &&& after.body == form.body
            &&& after.csrf_token == form.csrf_token
        }),
        ({
            let after = with_field(form, FieldView::Body(text));
            &&& after.body == text
            &&& after.file == form.file
            &&& after.content_type == form.content_type
            &&& after.csrf_token == form.csrf_token
        }),
        ({
            let after = with_field(form, FieldView::CsrfToken(text));
            &&& after.csrf_token == text
            &&& after.file == form.file
            &&& after.content_type == form.content_type
            &&& after.body == form.body
        }),
        with_field(form, FieldView::Other) == form,
{
}

/// The statement that stores a post binds, in the order of its columns, exactly the post's own user
/// number, image type, data and text.
pub proof fn law_insert_post(user_id: i32, mime: Seq<char>, data: Seq<u8>, body: Seq<char>)
    ensures
        insert_post(user_id, mime, data, body).sql
            == "INSERT INTO `posts` (`user_id`, `mime`, `imgdata`, `body`) VALUES (?,?,?,?)"@,
        insert_post(user_id, mime, data, body).args.len() == 4,
        insert_post(user_id, mime, data, body).args[0] == ArgView::Int(user_id),
        insert_post(user_id, mime, data, body).args[1] == ArgView::Text(mime),
        insert_post(user_id, mime, data, body).args[2] == ArgView::Bytes(data),
        insert_post(user_id, mime, data, body).args[3] == ArgView::Text(body),
{
}

/// An image is stored if and only if somebody is signed in, the form carries the visitor's token,
/// the image has a byte or more and ten mebibytes or fewer, and what the form calls its type holds
/// one of three words.
pub proof fn law_when_images_are_stored(token: Seq<char>, me: UserView, form: UploadView)
    ensures
        upload_step(token, me, form) is Store <==> {
            &&& me.id != 0
            &&& form.csrf_token == token
            &&& form.file is Some
            &&& 1 <= form.file->0.len() <= 10485760
            &&& contains_text(form.content_type, "jpeg"@) || contains_text(
                form.content_type,
                "png"@,
            ) || contains_text(form.content_type, "gif"@)
        },
{
}

/// What the database is given for a form that is stored: the number of the user, the image type
/// that the form names, and the whole image and text.
pub proof fn law_stored_form(token: Seq<char>, me: UserView, form: UploadView, post: NewPostView)
    requires
        upload_step(token, me, form) == UploadStepView::Store(post),
    ensures
        ({
            let args = insert_post(post.user_id, post.mime, post.data, post.body).args;
            &&& args.len() == 4
            &&& args[0] == ArgView::Int(me.id)
            &&& contains_text(form.content_type, "jpeg"@) ==> args[1] == ArgView::Text(
                "image/jpeg"@,
            )
            &&& !contains_text(form.content_type, "jpeg"@) && contains_text(
                form.content_type,
                "png"@,
            ) ==> args[1] == ArgView::Text("image/png"@)
            &&& !contains_text(form.content_type, "jpeg"@) && !contains_text(
                form.content_type,
                "png"@,
            ) ==> args[1] == ArgView::Text("image/gif"@)
            &&& form.file == Some(args[2]->Bytes_0)
            &&& args[3] == ArgView::Text(form.body)
        }),
{
}

/// A form that carries the visitor's token and is not stored leads to the front page and leaves a
/// notice that says why; no form changes anything else.
pub proof fn law_turned_down_uploads(
    sessions: Sessions,
    sid: Seq<char>,
    me: UserView,
    form: UploadView,
)
    requires
        me.id != 0,
        form.csrf_token == token_of(sessions, sid),
    ensures
        ({
            let step = upload_step(token_of(sessions, sid), me, form);
            let after = after_upload(sessions, sid, me, form);
            let missing = form.file is None || form.file->0.len() == 0;
            let typed = contains_text(form.content_type, "jpeg"@) || contains_text(
                form.content_type,
                "png"@,
            ) || contains_text(form.content_type, "gif"@);
            let large = form.file->0.len() > 10485760;
            &&& step is Store ==> after == sessions
            &&& step is Reply ==> step == UploadStepView::Reply(redirect_reply("/"@))
            &&& missing ==> after == noticed(sessions, sid, "画像が必須です"@)
            &&& !missing && !typed ==> after == noticed(
                sessions,
                sid,
                "投稿できる画像形式はjpgとpngとgifだけです"@,
            )
            &&& !missing && typed && large ==> after == noticed(
                sessions,
                sid,
                "ファイルサイズが大きすぎます"@,
            )
        }),
{
}

/// Somebody who is not signed in is sent to the sign-in page, and nothing changes.
pub proof fn law_upload_needs_sign_in(
    sessions: Sessions,
    sid: Seq<char>,
    me: UserView,
    form: UploadView,
)
    requires
        me.id == 0,
    ensures
        upload_step(token_of(sessions, sid), me, form) == UploadStepView::Reply(
            redirect_reply("/login"@),
        ),
        after_upload(sessions, sid, me, form) == sessions,
{
}

/// The path of a post's page names the post by its whole number.
pub proof fn law_post_path(id: int)
    ensures
        post_path(id).take(7) == "/posts/"@,
        post_path(id).skip(7) == decimal(id),
{
    reveal_strlit("/posts/");
    assert(post_path(id).take(7) =~= "/posts/"@);
    assert(post_path(id).skip(7) =~= decimal(id));
}

/// The file of an image lies in the public directory under the image's address.
pub proof fn law_image_file(id: int, mime: Seq<char>)
    ensures
        image_file(id, mime) == "/home/isucon/private_isu/webapp/public"@ + image_path(id, mime),
{
}

} // verus!
