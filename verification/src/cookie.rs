//! Cookies: reading the `Cookie` header and writing `Set-Cookie`.
use crate::reply::{is_header_char, is_header_text};
use crate::secret::{is_hex, is_hex_char};
use crate::text::{chars_of, law_starts_with, starts_with, strip_prefix};
use vstd::prelude::*;
use vstd::string::*;

verus! {

// ---------- model ----------

/// A byte that `http` counts as visible ASCII: printable ASCII or a tab.
pub open spec fn is_visible(b: u8) -> bool {
    32 <= b < 127 || b == 9
}

pub open spec fn all_visible(bytes: Seq<u8>) -> bool {
    forall|i: int| 0 <= i < bytes.len() ==> is_visible(#[trigger] bytes[i])
}

/// ASCII bytes as characters.
pub open spec fn ascii_text(bytes: Seq<u8>) -> Seq<char> {
    Seq::new(bytes.len(), |i: int| bytes[i] as char)
}

/// `s` cut at each `c`. There is always at least one part.
pub open spec fn split(s: Seq<char>, c: char) -> Seq<Seq<char>>
    decreases s.len(),
{
    if s.len() == 0 {
        seq![Seq::<char>::empty()]
    } else {
        let parts = split(s.drop_last(), c);
        if s.last() == c {
            parts.push(Seq::empty())
        } else {
            parts.drop_last().push(parts.last().push(s.last()))
        }
    }
}

pub open spec fn is_blank(c: char) -> bool {
    c == ' ' || c == '\t'
}

pub open spec fn trim_start(s: Seq<char>) -> Seq<char>
    decreases s.len(),
{
    if s.len() > 0 && is_blank(s[0]) {
        trim_start(s.skip(1))
    } else {
        s
    }
}

pub open spec fn trim_end(s: Seq<char>) -> Seq<char>
    decreases s.len(),
{
    if s.len() > 0 && is_blank(s.last()) {
        trim_end(s.drop_last())
    } else {
        s
    }
}

/// `s` without the spaces and tabs at its ends.
pub open spec fn trim(s: Seq<char>) -> Seq<char> {
    trim_end(trim_start(s))
}

/// The value that one part of a `Cookie` header gives to the cookie `name`.
pub open spec fn cookie_in_part(part: Seq<char>, name: Seq<char>) -> Option<Seq<char>> {
    if starts_with(trim(part), name.push('=')) {
        Some(trim(part).skip(name.len() as int + 1))
    } else {
        None
    }
}

/// The value that the first part to name the cookie gives to it.
pub open spec fn cookie_in_parts(parts: Seq<Seq<char>>, name: Seq<char>) -> Option<Seq<char>>
    decreases parts.len(),
{
    if parts.len() == 0 {
        None
    } else {
        match cookie_in_part(parts[0], name) {
            Some(v) => Some(v),
            None => cookie_in_parts(parts.skip(1), name),
        }
    }
}

/// The value of the cookie `name` in a `Cookie` header, if the request has the header, the header
/// is visible ASCII and it names the cookie.
pub open spec fn cookie(header: Option<Seq<u8>>, name: Seq<char>) -> Option<Seq<char>> {
    match header {
        Some(bytes) => if all_visible(bytes) {
            cookie_in_parts(split(ascii_text(bytes), ';'), name)
        } else {
            None
        },
        None => None,
    }
}

// ---------- outside call ----------

/// Builds an `axum::http::HeaderValue` with `from_bytes` and reads it with `to_str`. Claimed: the
/// text is there if and only if every byte is visible ASCII, and it has these bytes as its
/// characters.
#[verifier::external_body]
fn header_text(bytes: &[u8]) -> (r: Option<String>)
    ensures
        r is Some <==> all_visible(bytes@),
        r matches Some(s) ==> s@ == ascii_text(bytes@),
{
    let value = axum::http::HeaderValue::from_bytes(bytes).ok()?;
    Some(value.to_str().ok()?.to_owned())
}

// ---------- reading ----------

/// `s` cut at each `c`.
fn split_text(s: &str, c: char) -> (r: Vec<String>)
    ensures
        r.deep_view() == split(s@, c),
{
    let h = chars_of(s);
    let mut parts: Vec<String> = Vec::new();
    let mut start: usize = 0;
    let mut i: usize = 0;
    assert(h@.subrange(0, 0) =~= Seq::empty());
    assert(parts.deep_view().push(h@.subrange(0, 0)) =~= split(h@.take(0), c));
    while i < h.len()
        invariant
            h@ == s@,
            start <= i <= h@.len(),
            parts.deep_view().push(h@.subrange(start as int, i as int)) == split(
                h@.take(i as int),
                c,
            ),
        decreases h@.len() - i,
    {
        let ghost before = parts.deep_view();
        let ghost open = h@.subrange(start as int, i as int);
        assert(h@.take(i + 1).drop_last() =~= h@.take(i as int));
        assert(h@.take(i + 1).last() == h@[i as int]);
        assert(before.push(open).drop_last() =~= before);
        if h[i] == c {
            parts.push(s.substring_char(start, i).to_owned());
            start = i + 1;
            assert(parts.deep_view() =~= before.push(open));
            assert(h@.subrange(start as int, i + 1) =~= Seq::empty());
        } else {
            assert(h@.subrange(start as int, i + 1) =~= open.push(h@[i as int]));
        }
        i += 1;
    }
    let ghost before = parts.deep_view();
    parts.push(s.substring_char(start, h.len()).to_owned());
    assert(parts.deep_view() =~= before.push(h@.subrange(start as int, h@.len() as int)));
    assert(h@.take(h@.len() as int) =~= h@);
    parts
}

/// `s` without the spaces and tabs at its ends.
fn trimmed(s: &str) -> (r: String)
    ensures
        r@ == trim(s@),
{
    let h = chars_of(s);
    let mut from: usize = 0;
    assert(h@.skip(0) =~= h@);
    while from < h.len() && (h[from] == ' ' || h[from] == '\t')
        invariant
            h@ == s@,
            from <= h@.len(),
            trim_start(s@) == trim_start(h@.skip(from as int)),
        decreases h@.len() - from,
    {
        assert(h@.skip(from as int).skip(1) =~= h@.skip(from + 1));
        from += 1;
    }
    let ghost inner = h@.skip(from as int);
    assert(trim_start(s@) == inner);
    let mut to: usize = h.len();
    assert(h@.subrange(from as int, to as int) =~= inner);
    while to > from && (h[to - 1] == ' ' || h[to - 1] == '\t')
        invariant
            h@ == s@,
            from <= to <= h@.len(),
            trim_end(inner) == trim_end(h@.subrange(from as int, to as int)),
        decreases to,
    {
        assert(h@.subrange(from as int, to as int).drop_last() =~= h@.subrange(
            from as int,
            to - 1,
        ));
        to -= 1;
    }
    s.substring_char(from, to).to_owned()
}

/// The value of the cookie `name`, given the bytes of the request's `Cookie` header.
pub fn cookie_value(header: Option<&[u8]>, name: &str) -> (r: Option<String>)
    ensures
        r.deep_view() == cookie(header.deep_view(), name@),
{
    let bytes = match header {
        Some(b) => b,
        None => return None,
    };
    assert(bytes.deep_view() =~= bytes@);
    let text = match header_text(bytes) {
        Some(t) => t,
        None => return None,
    };
    let parts = split_text(text.as_str(), ';');
    let mut prefix = name.to_owned();
    prefix.append("=");
    proof {
        reveal_strlit("=");
        assert(prefix@ =~= name@.push('='));
    }
    let mut i: usize = 0;
    assert(parts.deep_view().skip(0) =~= parts.deep_view());
    while i < parts.len()
        invariant
            i <= parts@.len(),
            prefix@ == name@.push('='),
            cookie_in_parts(parts.deep_view(), name@) == cookie_in_parts(
                parts.deep_view().skip(i as int),
                name@,
            ),
            cookie(header.deep_view(), name@) == cookie_in_parts(parts.deep_view(), name@),
        decreases parts@.len() - i,
    {
        let ghost rest = parts.deep_view().skip(i as int);
        assert(rest[0] == parts@[i as int]@);
        assert(rest.skip(1) =~= parts.deep_view().skip(i + 1));
        let part = trimmed(parts[i].as_str());
        if let Some(value) = strip_prefix(part.as_str(), prefix.as_str()) {
            return Some(value);
        }
        i += 1;
    }
    None
}

// ---------- writing ----------

/// The `Set-Cookie` value that gives a visitor the session `sid`.
pub open spec fn session_cookie(sid: Seq<char>) -> Seq<char> {
    "session="@ + sid + "; Path=/; HttpOnly"@
}

/// The `Set-Cookie` value that gives a visitor the session `sid`.
pub fn set_session_cookie(sid: &str) -> (r: String)
    ensures
        r@ == session_cookie(sid@),
        is_header_text(sid@) ==> is_header_text(r@),
{
    let mut r = "session=".to_owned();
    r.append(sid);
    r.append("; Path=/; HttpOnly");
    proof {
        reveal_strlit("session=");
        reveal_strlit("; Path=/; HttpOnly");
        if is_header_text(sid@) {
            let n = "session="@.len() as int;
            assert forall|i: int| 0 <= i < r@.len() implies is_header_char(#[trigger] r@[i]) by {
                if n <= i < n + sid@.len() {
                    assert(r@[i] == sid@[i - n]);
                }
            }
        }
    }
    r
}

// ---------- laws ----------

/// In the visible `Cookie` header `header`, the part at `at` is the first that names the session,
/// and it names `sid`. Any cookies may stand around it.
pub open spec fn carries_session(header: Seq<u8>, sid: Seq<char>, at: int) -> bool {
    let parts = split(ascii_text(header), ';');
    &&& all_visible(header)
    &&& 0 <= at < parts.len()
    &&& trim(parts[at]) == "session="@ + sid
    &&& forall|j: int| 0 <= j < at ==> cookie_in_part(#[trigger] parts[j], "session"@) is None
}

proof fn lemma_first_naming_part(parts: Seq<Seq<char>>, name: Seq<char>, at: int)
    requires
        0 <= at < parts.len(),
        cookie_in_part(parts[at], name) is Some,
        forall|j: int| 0 <= j < at ==> cookie_in_part(#[trigger] parts[j], name) is None,
    ensures
        cookie_in_parts(parts, name) == cookie_in_part(parts[at], name),
    decreases at,
{
    if at > 0 {
        assert(cookie_in_part(parts[0], name) is None);
        let rest = parts.skip(1);
        assert(rest[at - 1] == parts[at]);
        assert forall|j: int| 0 <= j < at - 1 implies cookie_in_part(
            #[trigger] rest[j],
            name,
        ) is None by {
            assert(rest[j] == parts[j + 1]);
        }
        lemma_first_naming_part(rest, name, at - 1);
    }
}

/// A visitor who sends back the session cookie is recognised by it, whatever other cookies the
/// header holds: the name in the first part that names the session is read.
pub proof fn law_session_cookie_is_read_back(sid: Seq<char>, header: Seq<u8>, at: int)
    requires
        carries_session(header, sid, at),
    ensures
        cookie(Some(header), "session"@) == Some(sid),
{
    reveal_strlit("session=");
    reveal_strlit("session");
    let parts = split(ascii_text(header), ';');
    let text = "session="@ + sid;
    assert("session"@.push('=') =~= text.take(8));
    assert(text.skip(8) =~= sid);
    lemma_first_naming_part(parts, "session"@, at);
}

/// A header that is `session=` and a hexadecimal name alone carries the session of that name.
pub proof fn law_lone_session_cookie(sid: Seq<char>, header: Seq<u8>)
    requires
        is_hex(sid),
        all_visible(header),
        ascii_text(header) == "session="@ + sid,
    ensures
        carries_session(header, sid, 0),
        cookie(Some(header), "session"@) == Some(sid),
{
    reveal_strlit("session=");
    reveal_strlit("session");
    let text = "session="@ + sid;
    assert forall|i: int| 0 <= i < text.len() implies text[i] != ';' && !is_blank(text[i]) by {
        if i >= 8 {
            assert(is_hex_char(sid[i - 8]));
        }
    }
    lemma_split_without(text, ';');
    assert(trim(text) == text);
    assert(split(text, ';')[0] == text);
    law_session_cookie_is_read_back(sid, header, 0);
}

proof fn lemma_split_without(s: Seq<char>, c: char)
    requires
        forall|i: int| 0 <= i < s.len() ==> s[i] != c,
    ensures
        split(s, c) == seq![s],
    decreases s.len(),
{
    if s.len() > 0 {
        lemma_split_without(s.drop_last(), c);
        assert(s.last() != c);
        assert(s.drop_last().push(s.last()) =~= s);
        assert(split(s, c) =~= seq![s]);
    } else {
        assert(s =~= Seq::empty());
    }
}

/// A text with the character is cut there: its parts are those of what stands before it and those
/// of what stands after it.
pub proof fn law_split(before: Seq<char>, c: char, after: Seq<char>)
    ensures
        split(before.push(c) + after, c) == split(before, c) + split(after, c),
    decreases after.len(),
{
    lemma_split_nonempty(before, c);
    let s = before.push(c) + after;
    if after.len() == 0 {
        assert(s.drop_last() =~= before);
        assert(after =~= Seq::empty());
        assert(split(s, c) =~= split(before, c) + split(after, c));
    } else {
        let shorter = after.drop_last();
        law_split(before, c, shorter);
        lemma_split_nonempty(shorter, c);
        assert(s.drop_last() =~= before.push(c) + shorter);
        let left = split(before, c);
        let right = split(shorter, c);
        assert((left + right).last() == right.last());
        assert((left + right).drop_last() =~= left + right.drop_last());
        assert(split(s, c) =~= left + split(after, c));
    }
}

/// A text without the character is one part.
pub proof fn law_split_without(s: Seq<char>, c: char)
    requires
        !s.contains(c),
    ensures
        split(s, c) == seq![s],
{
    assert forall|i: int| 0 <= i < s.len() implies s[i] != c by {
        assert(s.contains(s[i]));
    }
    lemma_split_without(s, c);
}

proof fn lemma_split_nonempty(s: Seq<char>, c: char)
    ensures
        split(s, c).len() > 0,
    decreases s.len(),
{
    if s.len() > 0 {
        lemma_split_nonempty(s.drop_last(), c);
    }
}

proof fn lemma_trim_start(blanks: Seq<char>, rest: Seq<char>)
    requires
        forall|i: int| 0 <= i < blanks.len() ==> is_blank(#[trigger] blanks[i]),
        rest.len() > 0 ==> !is_blank(rest[0]),
    ensures
        trim_start(blanks + rest) == rest,
    decreases blanks.len(),
{
    if blanks.len() == 0 {
        assert(blanks + rest =~= rest);
    } else {
        assert((blanks + rest)[0] == blanks[0]);
        assert((blanks + rest).skip(1) =~= blanks.skip(1) + rest);
        lemma_trim_start(blanks.skip(1), rest);
    }
}

proof fn lemma_trim_end(rest: Seq<char>, blanks: Seq<char>)
    requires
        forall|i: int| 0 <= i < blanks.len() ==> is_blank(#[trigger] blanks[i]),
        rest.len() > 0 ==> !is_blank(rest.last()),
    ensures
        trim_end(rest + blanks) == rest,
    decreases blanks.len(),
{
    if blanks.len() == 0 {
        assert(rest + blanks =~= rest);
    } else {
        assert((rest + blanks).last() == blanks.last());
        assert((rest + blanks).drop_last() =~= rest + blanks.drop_last());
        lemma_trim_end(rest, blanks.drop_last());
    }
}

/// Trimming takes the spaces and tabs at the ends away, however many there are, and nothing else.
pub proof fn law_trim(left: Seq<char>, s: Seq<char>, right: Seq<char>)
    requires
        forall|i: int| 0 <= i < left.len() ==> #[trigger] left[i] == ' ' || left[i] == '\t',
        forall|i: int| 0 <= i < right.len() ==> #[trigger] right[i] == ' ' || right[i] == '\t',
        s.len() > 0 ==> s[0] != ' ' && s[0] != '\t' && s.last() != ' ' && s.last() != '\t',
    ensures
        trim(left + s + right) == s,
{
    if s.len() == 0 {
        let blanks = left + right;
        assert(left + s + right =~= blanks + s);
        lemma_trim_start(blanks, s);
        assert(s =~= Seq::empty());
    } else {
        assert(left + s + right =~= left + (s + right));
        assert((s + right)[0] == s[0]);
        lemma_trim_start(left, s + right);
        lemma_trim_end(s, right);
    }
}

/// Bytes are read as the characters of the same codes, if all are printable ASCII or tabs.
pub proof fn law_header_bytes(bytes: Seq<u8>)
    ensures
        all_visible(bytes) <==> forall|i: int|
            0 <= i < bytes.len() ==> 32 <= #[trigger] bytes[i] <= 126 || bytes[i] == 9,
        ascii_text(bytes).len() == bytes.len(),
        forall|i: int| 0 <= i < bytes.len() ==> #[trigger] ascii_text(bytes)[i] as int == bytes[i],
{
    if forall|i: int| 0 <= i < bytes.len() ==> 32 <= #[trigger] bytes[i] <= 126 || bytes[i] == 9 {
        assert(all_visible(bytes));
    }
    if all_visible(bytes) {
        assert forall|i: int| 0 <= i < bytes.len() implies 32 <= #[trigger] bytes[i] <= 126
            || bytes[i] == 9 by {
            assert(is_visible(bytes[i]));
        }
    }
}

/// A cookie has the whole value that stands behind its name and an equals sign in the first part
/// that begins so.
pub proof fn law_cookie_value(header: Seq<u8>, name: Seq<char>, value: Seq<char>, at: int)
    requires
        all_visible(header),
        0 <= at < split(ascii_text(header), ';').len(),
        trim(split(ascii_text(header), ';')[at]) == name + seq!['='] + value,
        forall|j: int, rest: Seq<char>|
            0 <= j < at ==> #[trigger] trim(split(ascii_text(header), ';')[j]) != #[trigger] (name
                + seq!['='] + rest),
    ensures
        cookie(Some(header), name) == Some(value),
{
    let parts = split(ascii_text(header), ';');
    let text = name + seq!['='] + value;
    let start = name.push('=');
    assert(text.take(start.len() as int) =~= start);
    assert(text.skip(name.len() + 1int) =~= value);
    assert forall|j: int| 0 <= j < at implies cookie_in_part(#[trigger] parts[j], name) is None by {
        let t = trim(parts[j]);
        let rest = t.skip(start.len() as int);
        if starts_with(t, start) {
            law_starts_with(t, start, rest);
            assert(start + rest =~= name + seq!['='] + rest);
        }
        assert(trim(split(ascii_text(header), ';')[j]) != name + seq!['='] + rest);
    }
    lemma_first_naming_part(parts, name, at);
}

/// A cookie has no value where no part begins with its name and an equals sign, where the header is
/// not visible ASCII, and where there is no header.
pub proof fn law_no_cookie(header: Seq<u8>, name: Seq<char>)
    ensures
        cookie(None, name) is None,
        !all_visible(header) ==> cookie(Some(header), name) is None,
        (forall|j: int, rest: Seq<char>|
            0 <= j < split(ascii_text(header), ';').len() ==> #[trigger] trim(
                split(ascii_text(header), ';')[j],
            ) != #[trigger] (name + seq!['='] + rest)) ==> cookie(Some(header), name) is None,
{
    let parts = split(ascii_text(header), ';');
    if forall|j: int, rest: Seq<char>|
        0 <= j < split(ascii_text(header), ';').len() ==> #[trigger] trim(
            split(ascii_text(header), ';')[j],
        ) != #[trigger] (name + seq!['='] + rest) {
        let start = name.push('=');
        assert forall|j: int| 0 <= j < parts.len() implies cookie_in_part(
            #[trigger] parts[j],
            name,
        ) is None by {
            let t = trim(parts[j]);
            let rest = t.skip(start.len() as int);
            if starts_with(t, start) {
                law_starts_with(t, start, rest);
                assert(start + rest =~= name + seq!['='] + rest);
            }
            assert(trim(split(ascii_text(header), ';')[j]) != name + seq!['='] + rest);
        }
        lemma_no_naming_part(parts, name);
    }
}

proof fn lemma_no_naming_part(parts: Seq<Seq<char>>, name: Seq<char>)
    requires
        forall|j: int| 0 <= j < parts.len() ==> cookie_in_part(#[trigger] parts[j], name) is None,
    ensures
        cookie_in_parts(parts, name) is None,
    decreases parts.len(),
{
    if parts.len() > 0 {
        assert(cookie_in_part(parts[0], name) is None);
        let rest = parts.skip(1);
        assert forall|j: int| 0 <= j < rest.len() implies cookie_in_part(
            #[trigger] rest[j],
            name,
        ) is None by {
            assert(rest[j] == parts[j + 1]);
        }
        lemma_no_naming_part(rest, name);
    }
}

/// The cookie that a visitor is given holds the whole name of the session, for the whole site and
/// out of reach of scripts.
pub proof fn law_session_cookie_text(sid: Seq<char>)
    ensures
        session_cookie(sid).take(8) == "session="@,
        session_cookie(sid).subrange(8, 8int + sid.len()) == sid,
        session_cookie(sid).skip(8int + sid.len()) == "; Path=/; HttpOnly"@,
{
    reveal_strlit("session=");
    assert(session_cookie(sid).take(8) =~= "session="@);
    assert(session_cookie(sid).subrange(8, 8int + sid.len()) =~= sid);
    assert(session_cookie(sid).skip(8int + sid.len()) =~= "; Path=/; HttpOnly"@);
}

} // verus!
