use blockchain::blockchain::Blockchain;
use blockchain::digest::{sha256_hex_by_bytes, sha256_hex_encoded};
use blockchain::encoding::{block_key, parse_block_key, to_lower_hex};

#[test]
fn lower_hex_of_bytes() {
    assert_eq!(to_lower_hex(&[0x00, 0x0f, 0x10, 0xab, 0xff]), "000f10abff");
    assert_eq!(to_lower_hex(&[]), "");
}

#[test]
fn sha256_hex_of_abc() {
    let expected = "ba7816bf8f01cfea414140de5dae2223b00361a396177a9cb410ff61f20015ad";
    assert_eq!(sha256_hex_by_bytes("abc"), expected);
    assert_eq!(sha256_hex_encoded("abc"), expected);
}

#[test]
fn sha256_hex_of_empty_text() {
    let expected = "e3b0c44298fc1c149afbf4c8996fb92427ae41e4649b934ca495991b7852b855";
    assert_eq!(sha256_hex_by_bytes(""), expected);
    assert_eq!(sha256_hex_encoded(""), expected);
}

#[test]
fn block_keys_are_decimal() {
    assert_eq!(block_key(0), b"0".to_vec());
    assert_eq!(block_key(42), b"42".to_vec());
    assert_eq!(block_key(u64::MAX), b"18446744073709551615".to_vec());
}

#[test]
fn block_keys_read_back() {
    for k in [0u64, 7, 10, 99, 100, 123456789, u64::MAX] {
        assert_eq!(parse_block_key(&block_key(k)), Some(k));
    }
}

#[test]
fn parse_block_key_edge_cases() {
    assert_eq!(parse_block_key(b"+17"), Some(17));
    assert_eq!(parse_block_key(b"007"), Some(7));
    assert_eq!(parse_block_key(b""), None);
    assert_eq!(parse_block_key(b"+"), None);
    assert_eq!(parse_block_key(b"-1"), None);
    assert_eq!(parse_block_key(b"1a"), None);
    assert_eq!(parse_block_key(b" 1"), None);
    assert_eq!(parse_block_key(b"18446744073709551616"), None);
    assert_eq!(parse_block_key(&[0xff, 0x31]), None);
}

#[test]
fn last_block_key_is_greatest() {
    let keys = vec![b"3".to_vec(), b"12".to_vec(), b"9".to_vec()];
    assert_eq!(Blockchain::last_block_key(&keys), 12);
    assert_eq!(Blockchain::last_block_key(&Vec::new()), 0);
    let stored = vec![block_key(5), block_key(41)];
    assert_eq!(Blockchain::last_block_key(&stored), 41);
}
