use sneakercopy::tarbox::errors::TarboxError;
use sneakercopy::tarbox::secret::{NONCEBYTES, SALTBYTES};
use sneakercopy::tarbox::{
    Decoder, TarboxSecret, TarboxSecretBuilder, HEADER_LEN, TARBOX_MAGIC_0, TARBOX_MAGIC_1,
};

fn make_tarbox_secret() -> TarboxSecret {
    TarboxSecretBuilder::new()
        .password(String::from("a-test-password"))
        .nonce(vec![0xfe; NONCEBYTES])
        .salt(vec![0xba; SALTBYTES])
        .build()
        .unwrap()
}

fn make_header(secret: &TarboxSecret) -> Vec<u8> {
    let mut payload: Vec<u8> = Vec::new();
    payload.push(TARBOX_MAGIC_0);
    payload.push(TARBOX_MAGIC_1);
    payload.push(0x1);
    payload.extend_from_slice(secret.nonce().as_slice());
    payload.extend_from_slice(secret.salt().as_slice());
    payload.push(0x0); // NUL -- end of header
    payload
}

#[test]
fn test_decoder() {
    let secret = make_tarbox_secret();

    // Manually construct a payload to decode
    let mut payload = make_header(&secret);
    payload.extend_from_slice(&[0xfa, 0xce]);

    // Create a decoder and read the inner data from it
    let mut dec = Decoder::new(payload).unwrap();
    let data = dec.read_to_end();
    let actual_size = data.len();
    let attrs = dec.attributes_into();

    assert_eq!(2, actual_size);
    assert_eq!(data.as_slice(), &[0xfa, 0xce]);
    assert_eq!(attrs.nonce(), &vec![0xfe; NONCEBYTES]);
    assert_eq!(attrs.salt(), &vec![0xba; SALTBYTES]);
}

#[test]
fn test_decode_missing_header_delimiter() {
    let secret = make_tarbox_secret();

    // Manually construct a payload to decode
    let mut payload = make_header(&secret);
    assert_eq!(payload.pop().unwrap(), 0x0);
    payload.extend_from_slice(&[0xfa, 0xce]);

    // Create a decoder and read the inner data from it
    let res = Decoder::new(payload);

    assert!(res.is_err());
    let err = res.unwrap_err();
    if let TarboxError::ExpectedNullByte(found) = err {
        assert_eq!(0xfa, found, "expected the byte standing where the header should end");
    } else {
        panic!("expected `ExpectedNullByte` error, got: {:?}", err);
    }
}

#[test]
fn test_magic_rejection() {
    let secret = make_tarbox_secret();
    let mut payload = make_header(&secret);
    payload.extend_from_slice(&[0xfa, 0xce]);
    payload[0] = 0x00;

    let err = Decoder::new(payload).unwrap_err();
    if let TarboxError::HeaderMismatch(e0, e1, a0, a1) = err {
        assert_eq!((TARBOX_MAGIC_0, TARBOX_MAGIC_1), (e0, e1));
        assert_eq!((0x00, TARBOX_MAGIC_1), (a0, a1));
    } else {
        panic!("expected `HeaderMismatch` error, got: {:?}", err);
    }
}

#[test]
fn test_version_rejection() {
    let secret = make_tarbox_secret();
    let mut payload = make_header(&secret);
    payload.extend_from_slice(&[0xfa, 0xce]);
    payload[2] = 0x7;

    let err = Decoder::new(payload).unwrap_err();
    if let TarboxError::VersionMismatch(expected, actual) = err {
        assert_eq!(0x1, expected);
        assert_eq!(0x7, actual);
    } else {
        panic!("expected `VersionMismatch` error, got: {:?}", err);
    }
}

#[test]
fn test_truncation_safety() {
    let secret = make_tarbox_secret();
    let mut payload = make_header(&secret);
    payload.extend_from_slice(&[0xfa, 0xce]);
    assert_eq!(HEADER_LEN + 2, payload.len());

    for n in 0..HEADER_LEN {
        let truncated = payload[..n].to_vec();
        let res = Decoder::new(truncated);
        assert!(res.is_err(), "truncation to {} bytes must be rejected", n);
        let err = res.unwrap_err();
        assert!(
            matches!(err, TarboxError::SourceTooSmall(_, _)),
            "truncation to {} bytes: expected `SourceTooSmall`, got: {:?}",
            n,
            err
        );
    }
}

#[test]
fn test_empty_payload_decodes() {
    let secret = make_tarbox_secret();
    let payload = make_header(&secret);

    let mut dec = Decoder::new(payload).unwrap();
    let data = dec.read_to_end();
    assert_eq!(0, data.len());
    let attrs = dec.attributes_into();
    assert_eq!(attrs.nonce(), &vec![0xfe; NONCEBYTES]);
}
