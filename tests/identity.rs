use storefront::identity::SshIdentity;

#[test]
fn key_line_fingerprint_is_sha256_of_decoded_key() {
    let id = SshIdentity::from_key_text("ssh-ed25519 aGVsbG8= me@host\n").unwrap();
    assert_eq!(id.fingerprint, "2cf24dba5fb0a30e26e83b2ac5b9e29e1b161e5c1fa7425e73043362938b9824");
    assert_eq!(id.short_id, "2cf24dba");
}

#[test]
fn key_line_with_extra_spaces() {
    let id = SshIdentity::from_key_text("  ssh-ed25519 \t AAAAC3NzaC1lZDI1NTE5  ").unwrap();
    assert_eq!(id.fingerprint, "e7f81d0bcb6c67ed51ed49e888ce2931a97d53733cda274f573b7de68230de14");
}

#[test]
fn key_line_rejects_bad_input() {
    assert!(SshIdentity::from_key_text("ssh-ed25519").is_none());
    assert!(SshIdentity::from_key_text("").is_none());
    assert!(SshIdentity::from_key_text("ssh-rsa !!!notbase64 x").is_none());
}

#[test]
fn fallback_hashes_user_and_home() {
    let id = SshIdentity::fallback_identity("alice", "/home/alice");
    assert_eq!(id.fingerprint, "e1aeff1a32a4af3003435856c58904c3093a440bce533001da2cc3acc2f16cc9");
    assert_eq!(id.short_id, "e1aeff1a");
}

#[test]
fn first_usable_key_wins() {
    let keys = vec![String::from("garbage"), String::from("ssh-rsa aGVsbG8= me"), String::from("ssh-rsa AAAAC3NzaC1lZDI1NTE5 x")];
    let id = SshIdentity::get_or_create(&keys, "alice", "/home/alice");
    assert_eq!(id.short_id, "2cf24dba");
    let none: Vec<String> = Vec::new();
    let id = SshIdentity::get_or_create(&none, "alice", "/home/alice");
    assert_eq!(id.short_id, "e1aeff1a");
}

#[test]
fn digest_becomes_lowercase_hex() {
    let digest: Vec<u8> = (0u8..32).map(|i| i.wrapping_mul(37).wrapping_add(0xa0)).collect();
    let id = SshIdentity::from_digest(&digest);
    let expected: String = digest.iter().map(|b| format!("{:02x}", b)).collect();
    assert_eq!(id.fingerprint, expected);
    assert_eq!(id.short_id, expected[..8].to_string());
    assert_eq!(id.fingerprint.len(), 64);
}

#[test]
fn fingerprints_are_sixty_four_lowercase_hex_digits() {
    let keys = vec![String::from("ssh-ed25519 aGVsbG8= me")];
    for id in [
        SshIdentity::get_or_create(&keys, "bob", "/home/bob"),
        SshIdentity::fallback_identity("bob", "/home/bob"),
        SshIdentity::from_key_text("t AAAAC3NzaC1lZDI1NTE5").unwrap(),
    ] {
        assert_eq!(id.fingerprint.len(), 64);
        assert!(id.fingerprint.chars().all(|c| c.is_ascii_digit() || ('a'..='f').contains(&c)));
        assert_eq!(id.short_id, id.fingerprint[..8].to_string());
    }
    let again = SshIdentity::get_or_create(&keys, "bob", "/home/bob");
    assert_eq!(again.fingerprint, SshIdentity::get_or_create(&keys, "bob", "/home/bob").fingerprint);
}
