//! Serving images.
use crate::model::{image_path, image_suffix, suffix_of};
use crate::query::{bound_query, Arg, ArgView, Query, QueryView};
use crate::reply::{image_reply, status_reply, Reply, NOT_FOUND};
use crate::text::{
    decimal, format_i32, i32_text, law_decimal_round_trip, law_rsplit, law_rsplit_without, parse_i32,
    rsplit, rsplit_once, text_eq,
};
use crate::upload::{image_file, PUBLIC_DIR};
use vstd::prelude::*;
use vstd::string::*;

verus! {

/// The post and the extension that the name of an image file stands for: a number and an
/// extension with a dot between them.
pub open spec fn image_name(filename: Seq<char>) -> Option<(i32, Seq<char>)> {
    match rsplit(filename, '.') {
        Some((number, ext)) => match i32_text(number) {
            Some(id) => Some((id, ext)),
            None => None,
        },
        None => None,
    }
}

/// The statement that fetches the image of a post.
pub open spec fn image_of_post(id: i32) -> QueryView {
    bound_query("SELECT `mime`, `imgdata` FROM `posts` WHERE `id` = ?"@, ArgView::Int(id))
}

/// An image of type `mime` is served under the extension `ext`.
pub open spec fn extension_fits(ext: Seq<char>, mime: Seq<char>) -> bool {
    ||| ext == "jpg"@ && mime == "image/jpeg"@
    ||| ext == "png"@ && mime == "image/png"@
    ||| ext == "gif"@ && mime == "image/gif"@
}

/// An image that was asked for.
#[derive(Debug)]
pub struct WantedImage {
    pub id: i32,
    pub ext: String,
}

/// The image that a file name stands for. For another name the reply is that there is none.
pub fn get_image(filename: &str) -> (r: Result<WantedImage, Reply>)
    ensures
        match image_name(filename@) {
            Some((id, ext)) => r matches Ok(w) && w.id == id && w.ext@ == ext,
            None => r matches Err(reply) && reply.deep_view() == status_reply(NOT_FOUND),
        },
{
    match rsplit_once(filename, '.') {
        Some((number, ext)) => match parse_i32(number.as_str()) {
            Some(id) => Ok(WantedImage { id, ext }),
            None => Err(Reply::status(NOT_FOUND)),
        },
        None => Err(Reply::status(NOT_FOUND)),
    }
}

/// The reply to a request for an image, and the file that the image is also written to where it
/// is served.
#[derive(Debug)]
pub struct ServedImage {
    pub reply: Reply,
    pub file: Option<String>,
}

impl WantedImage {
    /// The statement that fetches the image.
    pub fn query(&self) -> (r: Query<'static>)
        ensures
            r.deep_view() == image_of_post(self.id),
    {
        Query::bound("SELECT `mime`, `imgdata` FROM `posts` WHERE `id` = ?", Arg::Int(self.id))
    }

    /// Serves the image, given its type and content, if the extension fits the type.
    pub fn serve(&self, found: Option<(String, Vec<u8>)>) -> (r: ServedImage)
        ensures
            match found {
                Some((mime, data)) => if extension_fits(self.ext@, mime@) {
                    &&& r.reply.deep_view() == image_reply(mime@, data@)
                    &&& r.file.deep_view() == Some(image_file(self.id as int, mime@))
                } else {
                    r.reply.deep_view() == status_reply(NOT_FOUND) && r.file is None
                },
                None => r.reply.deep_view() == status_reply(NOT_FOUND) && r.file is None,
            },
    {
        let (mime, data) = match found {
            Some(row) => row,
            None => {
                return ServedImage { reply: Reply::status(NOT_FOUND), file: None };
            },
        };
        let ext = self.ext.as_str();
        let ok = (text_eq(ext, "jpg") && text_eq(mime.as_str(), "image/jpeg")) || (text_eq(
            ext,
            "png",
        ) && text_eq(mime.as_str(), "image/png")) || (text_eq(ext, "gif") && text_eq(
            mime.as_str(),
            "image/gif",
        ));
        if !ok {
            return ServedImage { reply: Reply::status(NOT_FOUND), file: None };
        }
        proof {
            reveal_strlit("image/jpeg");
            reveal_strlit("image/png");
            reveal_strlit("image/gif");
        }
        let mut file = PUBLIC_DIR.to_owned();
        file.append("/image/");
        file.append(format_i32(self.id).as_str());
        file.append(suffix_of(mime.as_str()));
        assert(file@ =~= image_file(self.id as int, mime@));
        ServedImage { reply: Reply::image(mime, data), file: Some(file) }
    }
}

// ---------- laws ----------

/// The address of a post's image leads back to the image: for each of the image types, the file
/// name in the address stands for the post, and its extension fits the type.
pub proof fn law_image_url_is_served(id: i32, mime: Seq<char>)
    requires
        mime == "image/jpeg"@ || mime == "image/png"@ || mime == "image/gif"@,
    ensures
        ({
            let filename = decimal(id as int) + image_suffix(mime);
            &&& image_path(id as int, mime) == "/image/"@ + filename
            &&& image_name(filename) matches Some((i, ext)) && i == id && extension_fits(ext, mime)
        }),
{
    reveal_strlit("image/jpeg");
    reveal_strlit("image/png");
    reveal_strlit("image/gif");
    reveal_strlit(".jpg");
    reveal_strlit(".png");
    reveal_strlit(".gif");
    reveal_strlit("jpg");
    reveal_strlit("png");
    reveal_strlit("gif");
    let number = decimal(id as int);
    let filename = number + image_suffix(mime);
    assert("image/jpeg"@.len() != "image/png"@.len());
    assert("image/png"@[6] != "image/gif"@[6]);
    assert(image_path(id as int, mime) =~= "/image/"@ + filename);
    let ext = image_suffix(mime).skip(1);
    assert(mime == "image/jpeg"@ ==> ext =~= "jpg"@);
    assert(mime == "image/png"@ ==> ext =~= "png"@);
    assert(mime == "image/gif"@ ==> ext =~= "gif"@);
    assert(filename =~= number.push('.') + ext);
    assert(!ext.contains('.'));
    law_rsplit(number, '.', ext);
    law_decimal_round_trip(id as int);
}

/// A file name stands for an image exactly where it is a number, a dot and an extension without a
/// dot: the post of that number and that extension, whole.
pub proof fn law_image_name(filename: Seq<char>, number: Seq<char>, ext: Seq<char>)
    ensures
        !ext.contains('.') ==> image_name(number.push('.') + ext) == (match i32_text(number) {
            Some(id) => Some((id, ext)),
            None => None,
        }),
        !filename.contains('.') ==> image_name(filename) is None,
{
    if !ext.contains('.') {
        law_rsplit(number, '.', ext);
    }
    if !filename.contains('.') {
        law_rsplit_without(filename, '.');
    }
}

/// An extension fits a type exactly where, with its dot, it is the one that images of the type have.
pub proof fn law_extension_fits(ext: Seq<char>, mime: Seq<char>)
    ensures
        extension_fits(ext, mime) <==> seq!['.'] + ext == image_suffix(mime),
        extension_fits(ext, mime) ==> mime == "image/jpeg"@ || mime == "image/png"@ || mime
            == "image/gif"@,
{
    reveal_strlit("image/jpeg");
    reveal_strlit("image/png");
    reveal_strlit("image/gif");
    reveal_strlit(".jpg");
    reveal_strlit(".png");
    reveal_strlit(".gif");
    reveal_strlit("jpg");
    reveal_strlit("png");
    reveal_strlit("gif");
    reveal_strlit("");
    assert("image/jpeg"@.len() != "image/png"@.len());
    assert("image/png"@[6] != "image/gif"@[6]);
    assert(seq!['.'] + "jpg"@ =~= ".jpg"@);
    assert(seq!['.'] + "png"@ =~= ".png"@);
    assert(seq!['.'] + "gif"@ =~= ".gif"@);
    let dotted = seq!['.'] + ext;
    assert(dotted.skip(1) =~= ext);
    assert(".jpg"@.skip(1) =~= "jpg"@);
    assert(".png"@.skip(1) =~= "png"@);
    assert(".gif"@.skip(1) =~= "gif"@);
}

/// An image is fetched by the whole number of its post.
pub proof fn law_image_of_post(id: i32)
    ensures
        image_of_post(id).sql == "SELECT `mime`, `imgdata` FROM `posts` WHERE `id` = ?"@,
        image_of_post(id).args.len() == 1,
        image_of_post(id).args[0] == ArgView::Int(id),
{
}

} // verus!
