use bank_statement_importer::digest::fingerprint;
use sha2::{Digest, Sha256};

#[test]
fn fingerprint_of_nothing_is_the_digest_of_the_empty_message() {
    assert_eq!(
        fingerprint(""),
        "e3b0c44298fc1c149afbf4c8996fb92427ae41e4649b934ca495991b7852b855"
    );
}

#[test]
fn fingerprint_is_the_digest_in_lowercase_hexadecimal() {
    assert_eq!(
        fingerprint("abc"),
        "ba7816bf8f01cfea414140de5dae2223b00361a396177a9cb410ff61f20015ad"
    );
}

#[test]
fn fingerprint_has_sixty_four_digits() {
    for text in ["", "a", "20191101foo bar-191.60200.00", "größer"] {
        let print = fingerprint(text);
        assert_eq!(print.len(), 64);
        assert!(print
            .chars()
            .all(|c| c.is_ascii_digit() || ('a'..='f').contains(&c)));
    }
}

#[test]
fn fingerprint_is_taken_of_the_encoded_text() {
    let mut hasher = Sha256::new();
    hasher.input("größer".as_bytes());
    assert_eq!(fingerprint("größer"), hex::encode(hasher.result()));
}

#[test]
fn different_texts_have_different_fingerprints() {
    assert_ne!(fingerprint("abc"), fingerprint("abd"));
    assert_ne!(fingerprint("abc"), fingerprint("abc "));
}
