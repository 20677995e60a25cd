use iscogram::secret::{
    calculate_passhash, calculate_salt, digest, hex_drawn, hex_of, rand_hex, salted_password,
    EntropyError,
};

const ABC: &str = "ddaf35a193617abacc417349ae20413112e6fa4e89a97ea20a9eeee64b55d39a\
                   2192992a274fc1a836ba3c23a3feebbd454d4423643ce80e2a9ac94fa54ca49f";

const NIHON: &str = "7e9e0c58d2ffb712309af51176e5931aed8e22f74baa5da0457e3089d7684cc0\
                   124104518e77f65fcfa335e130ac1fd457c32250473f95111af917849e69c4bb";

const MARY: &str = "645766c6b14e14fedf963fab8126161bdfaa6ed60fb0667c8b35d441c5042ead\
                   e7c4a63345e3550e210bd67964bbbbc19fd9a76cec9ee7bd1be4b039dd699c9f";

#[test]
fn bytes_are_written_in_lower_case_hexadecimal() {
    assert_eq!(hex_of(&[0x00, 0xff, 0x0a, 0xb7]), "00ff0ab7");
    assert_eq!(hex_of(&[]), "");
}

#[test]
fn digest_is_sha_512() {
    assert_eq!(digest("abc"), ABC);
    assert_eq!(digest("日本"), NIHON);
    assert_eq!(calculate_salt("abc"), ABC);
}

#[test]
fn password_is_joined_with_its_salt() {
    assert_eq!(salted_password("pw", "salt"), "pw:salt");
}

#[test]
fn passhash_is_the_digest_of_password_and_salt() {
    assert_eq!(calculate_passhash("mary", "marymary"), MARY);
    assert_ne!(calculate_passhash("mary", "marymary"), calculate_passhash("john", "marymary"));
}

#[test]
fn random_text_is_hexadecimal() {
    let a = rand_hex(16).unwrap();
    let b = rand_hex(16).unwrap();
    assert_eq!(a.len(), 32);
    assert!(a.chars().all(|c| c.is_ascii_digit() || ('a'..='f').contains(&c)));
    assert_ne!(a, b);
    assert_ne!(a, "00000000000000000000000000000000");
    assert_eq!(rand_hex(0).unwrap(), "");
}

#[test]
fn drawn_bytes_decide_on_the_text() {
    assert_eq!(hex_drawn(Ok(vec![0x1f, 0x00])), Ok("1f00".to_string()));
    assert_eq!(hex_drawn(Ok(Vec::new())), Ok(String::new()));
    assert_eq!(hex_drawn(Err(rand::Error::new("no bytes"))), Err(EntropyError));
}
