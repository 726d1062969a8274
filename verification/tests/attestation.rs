use oak_launcher::attestation::{digest_hex, load_and_attest_app};

fn measure(bytes: &Vec<u8>) -> [u8; 32] {
    let mut digest = [0; 32];
    digest[0] = bytes.len() as u8;
    digest[31] = bytes[0];
    digest
}

#[test]
fn digest_in_hexadecimal() {
    assert_eq!(digest_hex(&[]), "");
    assert_eq!(digest_hex(&[0x00, 0x0a, 0x9f, 0xa0, 0xff]), "000a9fa0ff");
    assert_eq!(digest_hex(&[0x01, 0x23, 0x45, 0x67, 0x89, 0xab, 0xcd, 0xef]), "0123456789abcdef");
}

#[test]
fn digests_that_differ_read_differently() {
    for byte in 0..=255u8 {
        assert_eq!(digest_hex(&[byte]), format!("{:02x}", byte));
        assert_eq!(digest_hex(&[byte]) == digest_hex(&[17]), byte == 17);
    }
}

#[test]
fn key_and_data_come_of_one_digest() {
    let loaded: Result<Vec<u8>, u8> = Ok(vec![7, 8, 9]);
    let (key, data) = load_and_attest_app(
        loaded,
        String::from("stage0"),
        measure,
        |stage0: &String, digest: &[u8; 32]| format!("key {} {}", stage0, digest_hex(digest)),
        |stage0: String, digest: &[u8; 32]| (stage0, *digest),
    );
    let digest = measure(&vec![7, 8, 9]);
    assert_eq!(key, format!("key stage0 {}", digest_hex(&digest)));
    assert_eq!(data, (String::from("stage0"), digest));
}

#[test]
fn same_application_gives_same_key() {
    let attest = |loaded: Result<Vec<u8>, u8>| {
        load_and_attest_app(
            loaded,
            1u8,
            measure,
            |stage0: &u8, digest: &[u8; 32]| (*stage0, *digest),
            |stage0: u8, digest: &[u8; 32]| (*digest, stage0),
        )
    };
    let mut grown = Vec::with_capacity(100);
    grown.push(4);
    grown.push(5);
    assert_eq!(attest(Ok(grown)), attest(Ok(vec![4, 5])));
    assert_ne!(attest(Ok(vec![4, 5])), attest(Ok(vec![5, 4])));
}
