use sneakercopy::tarbox::errors::TarboxError;
use sneakercopy::tarbox::secret::{NONCEBYTES, SALTBYTES};
use sneakercopy::tarbox::Attributes;

fn make_data() -> (Vec<u8>, Vec<u8>) {
    let nonce = vec![0xbe; NONCEBYTES];
    let salt = vec![0x5a; SALTBYTES];
    (nonce, salt)
}

fn make_source(nonce: &[u8], salt: &[u8]) -> Vec<u8> {
    let mut source = Vec::new();
    source.extend_from_slice(nonce);
    source.extend_from_slice(salt);
    source
}

#[test]
fn test_from_bytes() {
    let (nonce, salt) = make_data();
    let source = make_source(&nonce, &salt);

    let attrs = Attributes::from_bytes(source).unwrap();
    assert_eq!(attrs.nonce(), &nonce);
    assert_eq!(attrs.salt(), &salt);
}

#[test]
fn test_to_bytes() {
    let (nonce, salt) = make_data();
    let attrs = Attributes::new(nonce.clone(), salt.clone());

    let mut expected = Vec::new();
    expected.extend_from_slice(&nonce);
    expected.extend_from_slice(&salt);

    let encoded = attrs.to_bytes().unwrap();
    assert_eq!(encoded, expected);
}

#[test]
fn test_source_unconsumed() {
    let (nonce, salt) = make_data();
    let mut source = make_source(&nonce, &salt);
    source.extend_from_slice(&[0xca, 0xfe]);

    let res = Attributes::from_bytes(source);
    assert!(res.is_err());
    let err = res.unwrap_err();
    if let TarboxError::SourceTooLarge(_, actual) = err {
        assert_eq!(
            58, actual,
            "only 56 bytes were expected in attrs source (2 undrained)"
        );
    } else {
        panic!("expected `SourceTooLarge` error, got: {:?}", err);
    }
}

#[test]
fn test_source_too_small() {
    let res = Attributes::from_bytes(vec![0xbe; 10]);
    assert!(res.is_err());
    let err = res.unwrap_err();
    if let TarboxError::SourceTooSmall(expected, actual) = err {
        assert_eq!(NONCEBYTES + SALTBYTES, expected);
        assert_eq!(10, actual);
    } else {
        panic!("expected `SourceTooSmall` error, got: {:?}", err);
    }
}

#[test]
fn test_empty_attributes() {
    let attrs = Attributes::empty();
    assert_eq!(attrs.nonce(), &vec![0u8; NONCEBYTES]);
    assert_eq!(attrs.salt(), &vec![0u8; SALTBYTES]);
    assert_eq!(Attributes::attr_block_size(), NONCEBYTES + SALTBYTES);
    assert_eq!(Attributes::version(), 0x1);
}
