use iscogram::account::{validate_user, word_only};
use iscogram::routing::{fallback, Route};

fn account_in(path: &str) -> Option<String> {
    match fallback(path) {
        Route::Account(name) => Some(name),
        Route::File => None,
    }
}

#[test]
fn names_and_passwords_are_checked() {
    assert!(validate_user("abc", "abcdef"));
    assert!(validate_user("A_9", "______"));
    assert!(!validate_user("ab", "abcdef"));
    assert!(!validate_user("abc", "abcde"));
    assert!(!validate_user("ab-", "abcdef"));
    assert!(!validate_user("abc", "abcde!"));
    assert!(!validate_user("", ""));
    // Three bytes in one character are not three characters.
    assert!(!validate_user("あ", "abcdef"));
    assert!(!validate_user("abc", "ああ"));
}

#[test]
fn words_are_ascii() {
    assert!(word_only("aZ09_"));
    assert!(word_only(""));
    assert!(!word_only("a b"));
    assert!(!word_only("é"));
}

#[test]
fn account_pages_are_found_by_path() {
    assert_eq!(account_in("/@bob_1"), Some("bob_1".to_string()));
    assert_eq!(account_in("/@"), None);
    assert_eq!(account_in("/@bob/x"), None);
    assert_eq!(account_in("/css/style.css"), None);
    assert_eq!(account_in("/"), None);
    assert_eq!(account_in("/x/@bob"), None);
}

#[test]
fn registered_accounts_have_pages() {
    assert!(validate_user("mary_1", "marymary"));
    assert_eq!(account_in("/@mary_1"), Some("mary_1".to_string()));
}
