use spotty::pkce::{
    code_challenge_from_digest, code_verifier_from_bytes, code_verifier_from_draw,
    generate_code_challenge, generate_code_verifier,
};

// The example of RFC 7636, appendix B.
const OCTETS: [u8; 32] = [
    116, 24, 223, 180, 151, 153, 224, 37, 79, 250, 96, 125, 216, 173, 187, 186, 22, 212, 37, 77,
    105, 214, 191, 240, 91, 88, 5, 88, 83, 132, 141, 121,
];
const VERIFIER: &str = "dBjftJeZ4CVP-mB92K27uhbUJU1p1r_wW1gFWFOEjXk";
const CHALLENGE: &str = "E9Melhoa2OwvFrEMTJguCHaoeK1t8URWbuGJSstw-cM";

fn is_url_safe(text: &str) -> bool {
    text.chars().all(|c| c.is_ascii_alphanumeric() || c == '-' || c == '_')
}

#[test]
fn verifier_of_known_bytes() {
    assert_eq!(code_verifier_from_bytes(&OCTETS), VERIFIER);
    assert_eq!(code_verifier_from_bytes(&[0; 32]), "A".repeat(43));
    assert_eq!(code_verifier_from_bytes(&[255; 32]), format!("{}8", "_".repeat(42)));
}

#[test]
fn challenge_of_known_digest() {
    let digest: [u8; 32] = [
        19, 211, 30, 150, 26, 26, 216, 236, 47, 22, 177, 12, 76, 152, 46, 8, 118, 168, 120, 173,
        109, 241, 68, 86, 110, 225, 137, 74, 203, 112, 249, 195,
    ];
    assert_eq!(code_challenge_from_digest(&digest), CHALLENGE);
}

#[test]
fn challenge_of_known_verifier() {
    assert_eq!(generate_code_challenge(VERIFIER), CHALLENGE);
}

#[test]
fn challenge_of_other_texts() {
    // SHA-256 of the empty message.
    assert_eq!(
        generate_code_challenge(""),
        "47DEQpj8HBSa-_TImW-5JCeuQeRkm5NMpJWZG3hSuFU"
    );
    assert_ne!(generate_code_challenge("a"), generate_code_challenge("b"));
    assert_eq!(generate_code_challenge("\u{e9}").len(), 43);
}

#[test]
fn odd_places_of_the_alphabet() {
    // The first 24 bytes hold the 32 odd values below 64, and the rest is zero.
    let mut bytes = [0u8; 32];
    for block in 0..8 {
        let values: Vec<u32> = (0..4).map(|i| (block * 4 + i) * 2 + 1).collect();
        let word = values.iter().fold(0u32, |word, value| word * 64 + value);
        bytes[3 * block as usize] = (word >> 16) as u8;
        bytes[3 * block as usize + 1] = (word >> 8) as u8;
        bytes[3 * block as usize + 2] = word as u8;
    }
    assert_eq!(
        code_verifier_from_bytes(&bytes),
        format!("BDFHJLNPRTVXZbdfhjlnprtvxz13579_{}", "A".repeat(11))
    );
}

#[test]
fn fresh_verifiers_are_url_safe_and_differ() {
    let first = generate_code_verifier().ok().unwrap();
    let second = generate_code_verifier().ok().unwrap();
    assert_eq!(first.len(), 43);
    assert_eq!(second.len(), 43);
    assert!(is_url_safe(&first));
    assert!(is_url_safe(&second));
    assert_ne!(first, second);
    assert!(is_url_safe(&generate_code_challenge(&first)));
}

#[test]
fn different_bytes_make_different_verifiers() {
    let mut bytes = OCTETS;
    for index in 0..32 {
        bytes[index] ^= 1;
        assert_ne!(code_verifier_from_bytes(&bytes), VERIFIER);
        bytes[index] ^= 1;
    }
}

#[test]
fn verifier_of_a_draw() {
    assert_eq!(code_verifier_from_draw(Ok(OCTETS)).ok(), Some(VERIFIER.to_string()));
}

#[test]
fn failed_draw_is_handed_on() {
    let error = code_verifier_from_draw(Err(rand::Error::new("no entropy"))).err().unwrap();
    assert_eq!(error.cause.to_string(), "no entropy");
}
