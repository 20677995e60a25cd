//! What the site stores and shows: users, posts and comments.
//!
//! Each type has a mathematical counterpart, its `deep_view`, in which texts are sequences of
//! characters.
use crate::clock::{four_digit_year, iso_seconds, rfc3339_local, whole_second, LocalTime};
use crate::pages::max_created_at;
use crate::text::{decimal, format_i32, text_eq};
use vstd::prelude::*;
use vstd::string::*;

verus! {

// ---------- users ----------

/// A row of the users table.
#[derive(Debug)]
pub struct User {
    pub id: i32,
    pub account_name: String,
    pub passhash: String,
    pub authority: i8,
    pub del_flg: i8,
    pub created_at: LocalTime,
}

pub struct UserView {
    pub id: i32,
    pub account_name: Seq<char>,
    pub passhash: Seq<char>,
    pub authority: i8,
    pub del_flg: i8,
    pub created_at: LocalTime,
}

impl DeepView for User {
    type V = UserView;

    open spec fn deep_view(&self) -> UserView {
        UserView {
            id: self.id,
            account_name: self.account_name@,
            passhash: self.passhash@,
            authority: self.authority,
            del_flg: self.del_flg,
            created_at: self.created_at,
        }
    }
}

impl UserView {
    /// Somebody is signed in: the user is not the empty one.
    pub open spec fn logged_in(self) -> bool {
        self.id != 0
    }

    /// The user who stands for nobody.
    pub open spec fn is_empty(self) -> bool {
        &&& self.id == 0
        &&& self.account_name == Seq::<char>::empty()
        &&& self.passhash == Seq::<char>::empty()
        &&& self.authority == 0
        &&& self.del_flg == 0
        &&& self.created_at.spec_secs() == 0
        &&& self.created_at.spec_nanos() == 0
    }
}

impl User {
    /// The user who stands for nobody.
    pub fn empty() -> (r: User)
        ensures
            r.deep_view().is_empty(),
    {
        User {
            id: 0,
            account_name: String::new(),
            passhash: String::new(),
            authority: 0,
            del_flg: 0,
            created_at: LocalTime::epoch(),
        }
    }
}

/// Whether the user is somebody.
pub fn is_login(u: &User) -> (r: bool)
    ensures
        r == u.deep_view().logged_in(),
{
    u.id != 0
}

// ---------- rows ----------

/// A row of the posts table, without its image.
#[derive(Debug)]
pub struct PostRow {
    pub id: i32,
    pub user_id: i32,
    pub body: String,
    pub mime: String,
    pub created_at: LocalTime,
}

pub struct PostRowView {
    pub id: i32,
    pub user_id: i32,
    pub body: Seq<char>,
    pub mime: Seq<char>,
    pub created_at: LocalTime,
}

impl DeepView for PostRow {
    type V = PostRowView;

    open spec fn deep_view(&self) -> PostRowView {
        PostRowView {
            id: self.id,
            user_id: self.user_id,
            body: self.body@,
            mime: self.mime@,
            created_at: self.created_at,
        }
    }
}

/// A row of the comments table.
#[derive(Debug)]
pub struct CommentRow {
    pub id: i32,
    pub post_id: i32,
    pub user_id: i32,
    pub comment: String,
    pub created_at: LocalTime,
}

pub struct CommentRowView {
    pub id: i32,
    pub post_id: i32,
    pub user_id: i32,
    pub comment: Seq<char>,
    pub created_at: LocalTime,
}

impl DeepView for CommentRow {
    type V = CommentRowView;

    open spec fn deep_view(&self) -> CommentRowView {
        CommentRowView {
            id: self.id,
            post_id: self.post_id,
            user_id: self.user_id,
            comment: self.comment@,
            created_at: self.created_at,
        }
    }
}

// ---------- what is shown ----------

/// A comment with its author.
#[derive(Debug)]
pub struct Comment {
    pub comment: String,
    pub user: User,
}

pub struct CommentView {
    pub comment: Seq<char>,
    pub user: UserView,
}

impl DeepView for Comment {
    type V = CommentView;

    open spec fn deep_view(&self) -> CommentView {
        CommentView { comment: self.comment@, user: self.user.deep_view() }
    }
}

/// A post with its author and comments, as it is shown to a visitor.
#[derive(Debug)]
pub struct Post {
    pub id: i32,
    pub user: User,
    pub body: String,
    pub mime: String,
    pub created_at: LocalTime,
    pub comment_count: i64,
    pub comments: Vec<Comment>,
    pub csrf_token: String,
}

pub struct PostView {
    pub id: i32,
    pub user: UserView,
    pub body: Seq<char>,
    pub mime: Seq<char>,
    pub created_at: LocalTime,
    pub comment_count: i64,
    pub comments: Seq<CommentView>,
    pub csrf_token: Seq<char>,
}

impl DeepView for Post {
    type V = PostView;

    open spec fn deep_view(&self) -> PostView {
        PostView {
            id: self.id,
            user: self.user.deep_view(),
            body: self.body@,
            mime: self.mime@,
            created_at: self.created_at,
            comment_count: self.comment_count,
            comments: self.comments.deep_view(),
            csrf_token: self.csrf_token@,
        }
    }
}

/// The file name extension of an image type, with its dot; nothing for another type.
pub open spec fn image_suffix(mime: Seq<char>) -> Seq<char> {
    if mime == "image/jpeg"@ {
        ".jpg"@
    } else if mime == "image/png"@ {
        ".png"@
    } else if mime == "image/gif"@ {
        ".gif"@
    } else {
        ""@
    }
}

/// The path under which a post's image is served.
pub open spec fn image_path(id: int, mime: Seq<char>) -> Seq<char> {
    "/image/"@ + decimal(id) + image_suffix(mime)
}

/// The file name extension of an image type, with its dot.
pub fn suffix_of(mime: &str) -> (r: &'static str)
    ensures
        r@ == image_suffix(mime@),
{
    if text_eq(mime, "image/jpeg") {
        ".jpg"
    } else if text_eq(mime, "image/png") {
        ".png"
    } else if text_eq(mime, "image/gif") {
        ".gif"
    } else {
        ""
    }
}

/// A clock reading with the offset of the site's zone.
pub fn with_offset(reading: &str) -> (r: String)
    ensures
        r@ == reading@ + "+09:00"@,
{
    let mut r = reading.to_owned();
    r.append("+09:00");
    r
}

impl Post {
    /// The path under which the post's image is served.
    pub fn image_url(&self) -> (r: String)
        ensures
            r@ == image_path(self.id as int, self.mime@),
    {
        let mut r = "/image/".to_owned();
        r.append(format_i32(self.id).as_str());
        r.append(suffix_of(self.mime.as_str()));
        r
    }

    /// When the post was made, in the form `2026-01-02T03:04:05+09:00`.
    ///
    /// While years have four digits, this is an RFC 3339 text that reads back as the second in
    /// which the post was made; so it can stand in a request for the posts up to this one.
    pub fn created_at_iso(&self) -> (r: String)
        ensures
            r@ == iso_seconds(self.created_at.spec_secs(), self.created_at.spec_nanos())
                + "+09:00"@,
            four_digit_year(self.created_at.spec_secs() as int) ==> rfc3339_local(r@) == Some(
                whole_second(self.created_at.spec_secs(), self.created_at.spec_nanos()),
            ),
            four_digit_year(self.created_at.spec_secs() as int) ==> max_created_at(Some(r@))
                == Some(whole_second(self.created_at.spec_secs(), self.created_at.spec_nanos())),
    {
        proof {
            reveal_strlit("+09:00");
        }
        with_offset(self.created_at.iso().as_str())
    }
}

// ---------- laws ----------

/// What is known of a user is every column of the user's row, whole.
pub proof fn law_user_view(u: User)
    ensures
        u.deep_view().id == u.id,
        u.deep_view().account_name == u.account_name@,
        u.deep_view().passhash == u.passhash@,
        u.deep_view().authority == u.authority,
        u.deep_view().del_flg == u.del_flg,
        u.deep_view().created_at == u.created_at,
{
}

/// What is known of a post or a comment that was read is every column of its row, whole.
pub proof fn law_row_views(p: PostRow, c: CommentRow)
    ensures
        p.deep_view().id == p.id,
        p.deep_view().user_id == p.user_id,
        p.deep_view().body == p.body@,
        p.deep_view().mime == p.mime@,
        p.deep_view().created_at == p.created_at,
        c.deep_view().id == c.id,
        c.deep_view().post_id == c.post_id,
        c.deep_view().user_id == c.user_id,
        c.deep_view().comment == c.comment@,
        c.deep_view().created_at == c.created_at,
{
}

/// What is known of a post or a comment that is shown is all that it shows.
pub proof fn law_shown_views(p: Post, c: Comment, i: int)
    ensures
        p.deep_view().id == p.id,
        p.deep_view().user == p.user.deep_view(),
        p.deep_view().body == p.body@,
        p.deep_view().mime == p.mime@,
        p.deep_view().created_at == p.created_at,
        p.deep_view().comment_count == p.comment_count,
        p.deep_view().comments.len() == p.comments@.len(),
        0 <= i < p.comments@.len() ==> p.deep_view().comments[i] == p.comments@[i].deep_view(),
        p.deep_view().csrf_token == p.csrf_token@,
        c.deep_view().comment == c.comment@,
        c.deep_view().user == c.user.deep_view(),
{
}

/// Exactly the user with the number zero is nobody.
pub proof fn law_logged_in(u: UserView)
    ensures
        u.logged_in() <==> u.id != 0,
        u.is_empty() ==> !u.logged_in() && u.authority == 0 && u.del_flg == 0,
        u.is_empty() ==> u.account_name.len() == 0 && u.passhash.len() == 0,
        u.is_empty() ==> u.created_at.spec_secs() == 0 && u.created_at.spec_nanos() == 0,
{
}

/// The address of an image is `/image/`, the whole number of the post and the extension of its type;
/// only the three image types have one.
pub proof fn law_image_path(id: int, mime: Seq<char>)
    ensures
        image_path(id, mime).take(7) == "/image/"@,
        image_path(id, mime).subrange(7, 7int + decimal(id).len()) == decimal(id),
        image_path(id, mime).skip(7int + decimal(id).len()) == image_suffix(mime),
        mime == "image/jpeg"@ ==> image_suffix(mime) == ".jpg"@,
        mime == "image/png"@ ==> image_suffix(mime) == ".png"@,
        mime == "image/gif"@ ==> image_suffix(mime) == ".gif"@,
        mime != "image/jpeg"@ && mime != "image/png"@ && mime != "image/gif"@ ==> image_suffix(
            mime,
        ).len() == 0,
{
    reveal_strlit("/image/");
    reveal_strlit("");
    reveal_strlit("image/jpeg");
    reveal_strlit("image/png");
    reveal_strlit("image/gif");
    assert("image/jpeg"@.len() != "image/png"@.len());
    assert("image/png"@[6] != "image/gif"@[6]);
    assert(image_path(id, mime).take(7) =~= "/image/"@);
    assert(image_path(id, mime).subrange(7, 7int + decimal(id).len()) =~= decimal(id));
    assert(image_path(id, mime).skip(7int + decimal(id).len()) =~= image_suffix(mime));
}

} // verus!
