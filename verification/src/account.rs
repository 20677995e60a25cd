//! Account names and passwords.
use crate::text::chars_of;
use vstd::prelude::*;

verus! {

/// An ASCII letter, an ASCII digit or an underscore.
pub open spec fn is_word_char(c: char) -> bool {
    'a' <= c <= 'z' || 'A' <= c <= 'Z' || '0' <= c <= '9' || c == '_'
}

/// Only ASCII letters, ASCII digits and underscores.
pub open spec fn is_word(s: Seq<char>) -> bool {
    forall|i: int| 0 <= i < s.len() ==> is_word_char(#[trigger] s[i])
}

/// What may be registered: a name of three or more characters and a password of six or more,
/// both made of ASCII letters, ASCII digits and underscores.
pub open spec fn valid_user(account_name: Seq<char>, password: Seq<char>) -> bool {
    &&& account_name.len() >= 3
    &&& is_word(account_name)
    &&& password.len() >= 6
    &&& is_word(password)
}

/// Whether `s` holds only ASCII letters, ASCII digits and underscores.
pub fn word_only(s: &str) -> (r: bool)
    ensures
        r == is_word(s@),
{
    let chars = chars_of(s);
    let mut i: usize = 0;
    while i < chars.len()
        invariant
            chars@ == s@,
            i <= chars@.len(),
            forall|j: int| 0 <= j < i ==> is_word_char(#[trigger] chars@[j]),
        decreases chars@.len() - i,
    {
        let c = chars[i];
        if !(('a' <= c && c <= 'z') || ('A' <= c && c <= 'Z') || ('0' <= c && c <= '9') || c
            == '_') {
            assert(!is_word_char(s@[i as int]));
            return false;
        }
        i += 1;
    }
    true
}

/// Whether an account may be registered under this name with this password.
pub fn validate_user(account_name: &str, password: &str) -> (r: bool)
    ensures
        r == valid_user(account_name@, password@),
{
    // A text of ASCII characters has as many bytes as characters.
    word_only(account_name) && word_only(password) && {
        proof {
            vstd::utf8::is_ascii_chars_encode_utf8(account_name@);
            vstd::utf8::is_ascii_chars_encode_utf8(password@);
        }
        account_name.as_bytes().len() >= 3 && password.as_bytes().len() >= 6
    }
}

// ---------- laws ----------

/// Words are made of words, down to single characters: the ASCII digits, letters and the
/// underscore.
pub proof fn law_word(a: Seq<char>, b: Seq<char>, c: char)
    ensures
        is_word(Seq::empty()),
        is_word(a + b) <==> is_word(a) && is_word(b),
        is_word(seq![c]) <==> 48 <= c as int <= 57 || 65 <= c as int <= 90 || c as int == 95 || 97
            <= c as int <= 122,
{
    if is_word(a + b) {
        assert forall|i: int| 0 <= i < a.len() implies is_word_char(#[trigger] a[i]) by {
            assert((a + b)[i] == a[i]);
        }
        assert forall|i: int| 0 <= i < b.len() implies is_word_char(#[trigger] b[i]) by {
            assert((a + b)[a.len() + i] == b[i]);
        }
    }
    assert(seq![c][0] == c);
    if is_word_char(c) {
        assert forall|i: int| 0 <= i < seq![c].len() implies is_word_char(
            #[trigger] seq![c][i],
        ) by {}
    }
}

/// What may be registered: three characters or more for the name, six or more for the password,
/// however long they are, and words both.
pub proof fn law_valid_user(account_name: Seq<char>, password: Seq<char>)
    ensures
        valid_user(account_name, password) <==> account_name.len() >= 3 && password.len() >= 6
            && is_word(account_name + password),
{
    law_word(account_name, password, 'a');
}

} // verus!
