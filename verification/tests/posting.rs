use iscogram::comment::{post_comment, CommentForm, CommentStep};
use iscogram::image::get_image;
use iscogram::model::User;
use iscogram::query::Arg;
use iscogram::reply::{Body, Reply};
use iscogram::session::{get_flash, sign_in, SessionStore};
use iscogram::upload::{
    field_kind, post_index, post_index_done, post_index_form, Field, FieldKind, NewPost, Upload,
    UploadStep, IMAGE_REQUIRED, TOO_LARGE, UPLOAD_LIMIT, WRONG_TYPE,
};

const TOKEN: &str = "0123456789abcdef0123456789abcdef";

fn signed_in() -> (SessionStore, User) {
    let mut store = SessionStore::new();
    sign_in(&mut store, "s", 7, TOKEN.to_string());
    (store, User { id: 7, ..User::empty() })
}

fn upload(token: &str, content_type: Option<&str>, data: Vec<u8>) -> Upload {
    let mut form = Upload::new();
    form.take_field(Field::Body("text".to_string()));
    form.take_field(Field::CsrfToken(token.to_string()));
    form.take_field(Field::File { content_type: content_type.map(|t| t.to_string()), data });
    form.take_field(Field::Other);
    form
}

fn judge(form: Upload) -> (UploadStep, String) {
    let (mut store, me) = signed_in();
    let step = post_index_form(&mut store, "s", &me, form);
    let notice = get_flash(&mut store, "s");
    (step, notice)
}

fn stored(form: Upload) -> NewPost {
    match judge(form) {
        (UploadStep::Store(post), notice) => {
            assert_eq!(notice, "");
            post
        }
        other => panic!("{:?}", other),
    }
}

fn assert_redirect(reply: Reply, location: &str) {
    let (status, headers, body) = reply.into_parts();
    assert_eq!(status, 302);
    assert_eq!(headers, vec![("location".to_string(), location.to_string())]);
    assert!(matches!(body, Body::Empty));
}

fn assert_status(reply: Reply, wanted: u16) {
    let (status, headers, body) = reply.into_parts();
    assert_eq!(status, wanted);
    assert!(headers.is_empty());
    assert!(matches!(body, Body::Empty));
}

fn assert_turned_down(form: Upload, wanted: &str) {
    match judge(form) {
        (UploadStep::Reply(reply), notice) => {
            assert_redirect(reply, "/");
            assert_eq!(notice, wanted);
        }
        other => panic!("{:?}", other),
    }
}

#[test]
fn fields_are_known_by_name() {
    assert_eq!(field_kind(Some("file")), FieldKind::File);
    assert_eq!(field_kind(Some("body")), FieldKind::Body);
    assert_eq!(field_kind(Some("csrf_token")), FieldKind::CsrfToken);
    assert_eq!(field_kind(Some("File")), FieldKind::Other);
    assert_eq!(field_kind(Some("")), FieldKind::Other);
    assert_eq!(field_kind(None), FieldKind::Other);
}

#[test]
fn the_last_field_of_a_kind_counts() {
    let mut form = upload(TOKEN, Some("image/png"), vec![1]);
    form.take_field(Field::Body("later".to_string()));
    form.take_field(Field::File { content_type: None, data: vec![2, 3] });
    assert_eq!(form.body, "later");
    assert_eq!(form.content_type, "");
    assert_eq!(form.file, Some(vec![2, 3]));
    assert_eq!(form.csrf_token, TOKEN);
}

#[test]
fn the_order_of_other_fields_is_free() {
    let file = || Field::File { content_type: Some("image/png".to_string()), data: vec![5] };
    let body = || Field::Body("text".to_string());
    let token = || Field::CsrfToken(TOKEN.to_string());
    let orders = [
        vec![file(), body(), token()],
        vec![token(), Field::Other, body(), file()],
        vec![body(), token(), file(), Field::Other],
    ];
    for fields in orders {
        let mut form = Upload::new();
        for field in fields {
            form.take_field(field);
        }
        assert_eq!(form.file, Some(vec![5]));
        assert_eq!((form.content_type.as_str(), form.body.as_str()), ("image/png", "text"));
        assert_eq!(form.csrf_token, TOKEN);
    }
}

#[test]
fn only_signed_in_visitors_post() {
    assert_redirect(post_index(&User::empty()).unwrap(), "/login");
    assert!(post_index(&User { id: 7, ..User::empty() }).is_none());
    let mut store = SessionStore::new();
    let form = upload("", Some("image/png"), vec![1]);
    match post_index_form(&mut store, "s", &User::empty(), form) {
        UploadStep::Reply(reply) => assert_redirect(reply, "/login"),
        UploadStep::Store(_) => panic!("nobody is signed in"),
    }
}

#[test]
fn images_are_stored_with_their_type() {
    let types = [
        ("image/jpeg", "image/jpeg"),
        ("image/pjpeg", "image/jpeg"),
        ("image/png", "image/png"),
        ("image/x-png; charset=binary", "image/png"),
        ("image/gif", "image/gif"),
        ("gif png jpeg", "image/jpeg"),
    ];
    for (given, kept) in types {
        let post = stored(upload(TOKEN, Some(given), vec![1, 2, 3]));
        assert_eq!(post.mime, kept);
        assert_eq!((post.user_id, post.body.as_str()), (7, "text"));
        assert_eq!(post.data, vec![1, 2, 3]);
    }
}

#[test]
fn storing_a_post() {
    let post = stored(upload(TOKEN, Some("image/png"), vec![1, 2, 3]));
    let q = post.query();
    assert_eq!(
        q.sql,
        "INSERT INTO `posts` (`user_id`, `mime`, `imgdata`, `body`) VALUES (?,?,?,?)"
    );
    match &q.args[..] {
        [Arg::Int(7), Arg::Text(mime), Arg::Bytes(data), Arg::Text(body)] => {
            assert_eq!((mime.as_str(), body.as_str()), ("image/png", "text"));
            assert_eq!(*data, [1, 2, 3]);
        }
        other => panic!("{:?}", other),
    }
    let file = post.image_file(10001);
    assert_eq!(file, "/home/isucon/private_isu/webapp/public/image/10001.png");
    assert_redirect(post_index_done(10001), "/posts/10001");
    assert_redirect(post_index_done(u64::MAX), "/posts/18446744073709551615");
}

#[test]
fn forged_uploads_are_refused() {
    for token in ["", "0123", "0123456789ABCDEF0123456789ABCDEF"] {
        match judge(upload(token, Some("image/png"), vec![1])) {
            (UploadStep::Reply(reply), notice) => {
                assert_status(reply, 422);
                assert_eq!(notice, "");
            }
            other => panic!("{:?}", other),
        }
    }
}

#[test]
fn uploads_without_an_image_are_turned_down() {
    assert_turned_down(upload(TOKEN, Some("image/png"), Vec::new()), IMAGE_REQUIRED);
    let mut form = Upload::new();
    form.take_field(Field::CsrfToken(TOKEN.to_string()));
    assert_turned_down(form, IMAGE_REQUIRED);
    assert_eq!(IMAGE_REQUIRED, "画像が必須です");
}

#[test]
fn uploads_of_other_types_are_turned_down() {
    assert_turned_down(upload(TOKEN, Some("image/webp"), vec![1]), WRONG_TYPE);
    assert_turned_down(upload(TOKEN, Some("image/JPEG"), vec![1]), WRONG_TYPE);
    assert_turned_down(upload(TOKEN, None, vec![1]), WRONG_TYPE);
    assert_eq!(WRONG_TYPE, "投稿できる画像形式はjpgとpngとgifだけです");
}

#[test]
fn uploads_that_are_too_large_are_turned_down() {
    assert_eq!(UPLOAD_LIMIT, 10_485_760);
    let post = stored(upload(TOKEN, Some("image/gif"), vec![0; UPLOAD_LIMIT]));
    assert_eq!(post.data.len(), UPLOAD_LIMIT);
    assert_turned_down(upload(TOKEN, Some("image/gif"), vec![0; UPLOAD_LIMIT + 1]), TOO_LARGE);
    // The type is looked at first.
    assert_turned_down(upload(TOKEN, Some("text"), vec![0; UPLOAD_LIMIT + 1]), WRONG_TYPE);
    assert_eq!(TOO_LARGE, "ファイルサイズが大きすぎます");
}

#[test]
fn image_names() {
    let w = get_image("7.jpg").unwrap();
    assert_eq!((w.id, w.ext.as_str()), (7, "jpg"));
    let q = w.query();
    assert_eq!(q.sql, "SELECT `mime`, `imgdata` FROM `posts` WHERE `id` = ?");
    assert!(matches!(q.args[..], [Arg::Int(7)]));
    assert_eq!(get_image("+7.").unwrap().ext, "");
    for name in ["7", "", ".jpg", "a.jpg", "7.8.jpg", "2147483648.png"] {
        assert_status(get_image(name).unwrap_err(), 404);
    }
}

#[test]
fn images_are_served_under_their_extension() {
    let types =
        [("jpg", "image/jpeg"), ("png", "image/png"), ("gif", "image/gif"), ("jpeg", "image/webp")];
    for (ext, _) in types {
        for (fitting, mime) in types {
            let w = get_image(&format!("7.{}", ext)).unwrap();
            let served = w.serve(Some((mime.to_string(), vec![1, 2])));
            if ext == fitting && ext != "jpeg" {
                let (status, headers, body) = served.reply.into_parts();
                assert_eq!(status, 200);
                assert_eq!(headers, vec![("content-type".to_string(), mime.to_string())]);
                assert!(matches!(body, Body::Bytes(data) if data == vec![1, 2]));
                let file = format!("/home/isucon/private_isu/webapp/public/image/7.{}", ext);
                assert_eq!(served.file, Some(file));
            } else {
                assert_status(served.reply, 404);
                assert_eq!(served.file, None);
            }
        }
    }
}

#[test]
fn an_image_that_is_not_there_is_not_served() {
    let served = get_image("7.jpg").unwrap().serve(None);
    assert_status(served.reply, 404);
    assert_eq!(served.file, None);
}

#[test]
fn stored_images_are_found_at_their_address() {
    let post = stored(upload(TOKEN, Some("image/png"), vec![9]));
    let shown = iscogram::model::Post {
        id: 12,
        user: User::empty(),
        body: post.body.clone(),
        mime: post.mime.clone(),
        created_at: iscogram::clock::LocalTime::epoch(),
        comment_count: 0,
        comments: Vec::new(),
        csrf_token: String::new(),
    };
    let url = shown.image_url();
    assert_eq!(url, "/image/12.png");
    let w = get_image(&url["/image/".len()..]).unwrap();
    assert_eq!(w.id, 12);
    let served = w.serve(Some((post.mime.clone(), post.data.clone())));
    assert_eq!(served.file, Some(post.image_file(12)));
    assert!(matches!(served.reply.into_parts().2, Body::Bytes(data) if data == vec![9]));
}

fn comment_on(post_id: &str, token: &str) -> CommentForm {
    CommentForm {
        comment: "nice".to_string(),
        post_id: post_id.to_string(),
        csrf_token: token.to_string(),
    }
}

#[test]
fn comments_are_stored() {
    let (store, me) = signed_in();
    match post_comment(&store, "s", &me, &comment_on("42", TOKEN)) {
        CommentStep::Store { query, reply } => {
            assert_eq!(
                query.sql,
                "INSERT INTO `comments` (`post_id`, `user_id`, `comment`) VALUES (?,?,?)"
            );
            assert!(matches!(
                &query.args[..],
                [Arg::Int(42), Arg::Int(7), Arg::Text(text)] if text == "nice"
            ));
            assert_redirect(reply, "/posts/42");
        }
        other => panic!("{:?}", other),
    }
    match post_comment(&store, "s", &me, &comment_on("-1", TOKEN)) {
        CommentStep::Store { reply, .. } => assert_redirect(reply, "/posts/-1"),
        other => panic!("{:?}", other),
    }
}

#[test]
fn comments_that_are_not_stored() {
    let (store, me) = signed_in();
    let reply = |me: &User, form: CommentForm| match post_comment(&store, "s", me, &form) {
        CommentStep::Reply(reply) => reply,
        CommentStep::Store { query, .. } => panic!("{:?}", query),
    };
    assert_redirect(reply(&User::empty(), comment_on("42", TOKEN)), "/login");
    assert_status(reply(&me, comment_on("42", "")), 422);
    assert_status(reply(&me, comment_on("x", "")), 422);
    assert_status(reply(&me, comment_on("x", TOKEN)), 200);
    assert_status(reply(&me, comment_on("", TOKEN)), 200);
    assert_status(reply(&me, comment_on("2147483648", TOKEN)), 200);
}
