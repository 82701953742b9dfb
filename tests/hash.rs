use attestation_agent::hash::HashAlgorithm;

fn hex(bytes: &[u8]) -> String {
    bytes.iter().map(|b| format!("{:02x}", b)).collect()
}

#[test]
fn sha256_of_abc() {
    let d = HashAlgorithm::Sha256.digest(b"abc");
    assert_eq!(
        hex(&d),
        "ba7816bf8f01cfea414140de5dae2223b00361a396177a9cb410ff61f20015ad"
    );
}

#[test]
fn sha384_of_abc() {
    let d = HashAlgorithm::Sha384.digest(b"abc");
    assert_eq!(
        hex(&d),
        "cb00753f45a35e8bb5a03d699ac65007272c32ab0eded1631a8b605a43ff5bed8086072ba1e7cc2358baeca134c825a7"
    );
}

#[test]
fn sha512_digest_length() {
    let d = HashAlgorithm::Sha512.digest(b"");
    assert_eq!(d.len(), 64);
    assert_eq!(HashAlgorithm::Sha512.output_len(), 64);
    assert_eq!(
        hex(&d[..8]),
        "cf83e1357eefb8bd"
    );
}

#[test]
fn zero_digests_have_the_algorithm_length() {
    for (alg, n) in [
        (HashAlgorithm::Sha256, 32usize),
        (HashAlgorithm::Sha384, 48),
        (HashAlgorithm::Sha512, 64),
    ] {
        let h = alg.zero_digest_hex();
        assert_eq!(h.len(), 2 * n);
        assert!(h.chars().all(|c| c == '0'));
        assert_eq!(alg.zero_digest(), vec![0u8; n]);
    }
}

#[test]
fn algorithm_names() {
    assert_eq!(HashAlgorithm::Sha256.name(), "sha256");
    assert_eq!(HashAlgorithm::Sha384.name(), "sha384");
    assert_eq!(HashAlgorithm::Sha512.name(), "sha512");
}
