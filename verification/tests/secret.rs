use sneakercopy::errors::{Error, SecretField};
use sneakercopy::tarbox::secret::{decode_nonce, decode_salt, NONCEBYTES, SALTBYTES};
use sneakercopy::tarbox::{TarboxSecret, TarboxSecretBuilder};

fn fixed_secret() -> TarboxSecret {
    TarboxSecretBuilder::new()
        .password(String::from("correct-horse"))
        .nonce(vec![0xbe; NONCEBYTES])
        .salt(vec![0x5a; SALTBYTES])
        .build()
        .unwrap()
}

#[test]
fn test_key_derivation_deterministic() {
    sodiumoxide::init().expect("sodium init");
    let secret = fixed_secret();
    let k1 = secret.key().expect("kdf");
    let k2 = secret.key().expect("kdf");
    assert_eq!(k1, k2);

    // A second secret built from the same password and salt derives the
    // same key.
    let other = fixed_secret();
    let k3 = other.key().expect("kdf");
    assert_eq!(k1, k3);
}

#[test]
fn test_key_depends_on_salt() {
    sodiumoxide::init().expect("sodium init");
    let a = fixed_secret();
    let b = TarboxSecretBuilder::new()
        .password(String::from("correct-horse"))
        .nonce(vec![0xbe; NONCEBYTES])
        .salt(vec![0x5b; SALTBYTES])
        .build()
        .unwrap();
    let ka = a.key().expect("kdf");
    let kb = b.key().expect("kdf");
    assert_eq!(32, ka.len());
    assert_eq!(32, kb.len());
    assert_ne!(ka, kb);
}

#[test]
fn test_generate_is_fresh() {
    sodiumoxide::init().expect("sodium init");
    let a = TarboxSecret::generate(String::from("pw"));
    let b = TarboxSecret::generate(String::from("pw"));
    assert_eq!(a.password().as_str(), "pw");
    assert_eq!(NONCEBYTES, a.nonce().len());
    assert_eq!(SALTBYTES, a.salt().len());
    // Random nonces and salts must not repeat across two seals.
    assert_ne!(a.nonce(), b.nonce());
    assert_ne!(a.salt(), b.salt());
}

#[test]
fn test_encoded_nonce_known_value() {
    let secret = fixed_secret();
    // 24 bytes of 0xbe encode to "vr6+" repeated, with nothing to pad.
    assert_eq!("vr6+vr6+vr6+vr6+vr6+vr6+vr6+vr6+", secret.encoded_nonce());
}

#[test]
fn test_encoded_nonce_round_trip() {
    let secret = fixed_secret();
    let decoded = decode_nonce(secret.encoded_nonce()).expect("valid encoding");
    assert_eq!(secret.nonce(), &decoded);
}

#[test]
fn test_encoded_salt_round_trip() {
    let secret = fixed_secret();
    let decoded = decode_salt(secret.encoded_salt()).expect("valid encoding");
    assert_eq!(secret.salt(), &decoded);
}

#[test]
fn test_decode_nonce_rejects_bad_input() {
    // Not base64 at all.
    assert_eq!(None, decode_nonce(String::from("!!! not base64 !!!")));
    // Valid base64, wrong width.
    assert_eq!(None, decode_nonce(String::from("aGVsbG8=")));
    assert_eq!(None, decode_salt(String::from("aGVsbG8=")));
}

#[test]
fn test_builder_missing_fields() {
    let err = TarboxSecretBuilder::new().build().unwrap_err();
    assert_eq!(Error::MissingField(SecretField::Password), err);

    let err = TarboxSecretBuilder::new()
        .password(String::from("pw"))
        .build()
        .unwrap_err();
    assert_eq!(Error::MissingField(SecretField::Nonce), err);

    let err = TarboxSecretBuilder::new()
        .password(String::from("pw"))
        .nonce(vec![0x0; NONCEBYTES])
        .build()
        .unwrap_err();
    assert_eq!(Error::MissingField(SecretField::Salt), err);

    let secret = TarboxSecretBuilder::new()
        .password(String::from("pw"))
        .nonce(vec![0x0; NONCEBYTES])
        .salt(vec![0x0; SALTBYTES])
        .build()
        .unwrap();
    assert_eq!("pw", secret.password().as_str());
}
