use komo::domain::pairing::{
    code_from, ct_eq, hash_code, hex, parse_pairing_status, verify_code, PairingRequest, PairingStatus,
    CODE_ALPHABET, CODE_LEN, PAIRING_CODE_TTL_SECS,
};

#[test]
fn minted_code_is_unambiguous_and_verifies() {
    let (request, code) = PairingRequest::mint("telegram", "42", "42");
    assert_eq!(code.len(), CODE_LEN);
    assert!(code.bytes().all(|b| CODE_ALPHABET.as_bytes().contains(&b)));
    // The plaintext is not stored; only the salted hash, which verifies.
    assert_ne!(request.code_hash, code);
    assert!(verify_code(&request.salt, &request.code_hash, &code));
    assert!(!verify_code(&request.salt, &request.code_hash, "WRONGCOD"));
}

#[test]
fn salt_makes_identical_codes_hash_differently() {
    // Two mints almost surely differ; verifying one against the other fails.
    let (a, code_a) = PairingRequest::mint("telegram", "1", "1");
    let (b, _) = PairingRequest::mint("telegram", "2", "2");
    assert!(!verify_code(&b.salt, &b.code_hash, &code_a) || a.code_hash != b.code_hash);
}

#[test]
fn pending_request_expires_after_ttl() {
    let (request, _) = PairingRequest::mint("telegram", "42", "42");
    assert!(!request.is_expired(request.created_at + 60));
    assert!(request.is_expired(request.created_at + PAIRING_CODE_TTL_SECS + 1));
}

#[test]
fn approved_request_never_expires() {
    let (mut request, _) = PairingRequest::mint("telegram", "42", "42");
    request.status = PairingStatus::Approved;
    assert!(!request.is_expired(request.created_at + PAIRING_CODE_TTL_SECS * 100));
}

#[test]
fn hashes_are_sha256_of_salt_then_code() {
    let of_abc = "ba7816bf8f01cfea414140de5dae2223b00361a396177a9cb410ff61f20015ad";
    assert_eq!(hash_code("a", "bc"), of_abc);
    assert_eq!(hash_code("ab", "c"), of_abc);
    assert!(verify_code("a", of_abc, "bc"));
    assert_ne!(hash_code("a", "XY"), hash_code("b", "XY"));
}

#[test]
fn codes_take_one_letter_for_each_byte() {
    assert_eq!(code_from(&vec![0, 1, 30, 31, 62, 2, 3, 4, 5, 6]), "AB9AACDE");
    assert_eq!(code_from(&vec![0]), "A");
}

#[test]
fn hex_is_lowercase_and_two_digits_a_byte() {
    assert_eq!(hex(&vec![0, 15, 255, 16]), "000fff10");
    assert_eq!(hex(&Vec::new()), "");
}

#[test]
fn constant_time_equality_is_equality() {
    assert!(ct_eq("abc", "abc"));
    assert!(!ct_eq("abc", "abd"));
    assert!(!ct_eq("abc", "ab"));
    assert!(ct_eq("", ""));
}

#[test]
fn pairing_status_words_parse_back() {
    for s in [PairingStatus::Pending, PairingStatus::Approved] {
        assert_eq!(parse_pairing_status(s.as_str()), s);
    }
}

#[test]
fn digests_have_sixty_four_digits_and_never_hold_the_code() {
    let (request, code) = PairingRequest::mint("telegram", "42", "42");
    assert_eq!(request.code_hash.len(), 64);
    assert!(request.code_hash.chars().all(|c| c.is_ascii_hexdigit()));
    assert_ne!(request.salt, code);
    assert_eq!(hash_code("", "").len(), 64);
}

#[test]
fn only_three_senders_may_wait() {
    assert!(komo::domain::pairing::has_room(0));
    assert!(komo::domain::pairing::has_room(2));
    assert!(!komo::domain::pairing::has_room(3));
    assert!(!komo::domain::pairing::has_room(usize::MAX));
}

#[test]
fn five_wrong_codes_lock_approval_for_an_hour() {
    let left = |failures: i64, last: i64, now: i64| {
        match komo::domain::pairing::lockout(failures, last, now) {
            Some(komo::domain::pairing::ApproveOutcome::Locked { retry_after_secs }) => {
                Some(retry_after_secs)
            }
            Some(_) => panic!("a lockout only locks"),
            None => None,
        }
    };
    assert_eq!(left(4, 1_000, 1_000), None);
    assert_eq!(left(5, 1_000, 1_000), Some(3_600));
    assert_eq!(left(9, 1_000, 4_599), Some(1));
    assert_eq!(left(5, 1_000, 4_600), None);
    assert_eq!(left(5, i64::MAX, i64::MIN), Some(3_600));
    assert_eq!(left(5, i64::MIN, i64::MAX), None);
}
