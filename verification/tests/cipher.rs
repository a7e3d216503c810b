use cfb8::cipher::{AsyncStreamCipher, KeyIvInit};
use hyperpumpkin::protocol::cipher::Cfb8;

fn reference_encrypt(key: &[u8; 16], plain: &[u8]) -> Vec<u8> {
    let cipher = cfb8::Encryptor::<aes::Aes128>::new_from_slices(key, key).unwrap();
    let mut data = plain.to_vec();
    cipher.encrypt(&mut data);
    data
}

fn reference_decrypt(key: &[u8; 16], cipher_text: &[u8]) -> Vec<u8> {
    let cipher = cfb8::Decryptor::<aes::Aes128>::new_from_slices(key, key).unwrap();
    let mut data = cipher_text.to_vec();
    cipher.decrypt(&mut data);
    data
}

#[test]
fn cfb8_matches_the_reference_cipher() {
    let key = [0x2bu8, 0x7e, 0x15, 0x16, 0x28, 0xae, 0xd2, 0xa6, 0xab, 0xf7, 0x15, 0x88, 0x09, 0xcf,
        0x4f, 0x3c];
    let plain: Vec<u8> = (0u16..300).map(|i| (i * 7 % 251) as u8).collect();
    let mut cipher = Cfb8::new(&key);
    let mut out = Vec::new();
    cipher.encrypt(&plain, &mut out);
    assert_eq!(out, reference_encrypt(&key, &plain));
    assert_ne!(out, plain);
    let mut back = Vec::new();
    let mut decipher = Cfb8::new(&key);
    decipher.decrypt(&reference_encrypt(&key, &plain), &mut back);
    assert_eq!(back, plain);
    assert_eq!(reference_decrypt(&key, &out), plain);
}

#[test]
fn cfb8_first_byte_is_masked_by_the_encrypted_key() {
    // AES-128 of the all-zero block under the all-zero key starts with 0x66.
    let key = [0u8; 16];
    let mut cipher = Cfb8::new(&key);
    let mut out = Vec::new();
    cipher.encrypt(&[0x00], &mut out);
    assert_eq!(out, vec![0x66]);
}

#[test]
fn cfb8_is_one_stream_across_pieces() {
    let key = [7u8; 16];
    let plain: Vec<u8> = (0u8..200).collect();
    let mut whole = Vec::new();
    Cfb8::new(&key).encrypt(&plain, &mut whole);
    for cut in [0usize, 1, 15, 16, 17, 100, 199, 200] {
        let mut cipher = Cfb8::new(&key);
        let mut pieces = Vec::new();
        cipher.encrypt(&plain[..cut], &mut pieces);
        cipher.encrypt(&plain[cut..], &mut pieces);
        assert_eq!(pieces, whole);
        let mut decipher = Cfb8::new(&key);
        let mut back = Vec::new();
        decipher.decrypt(&whole[..cut], &mut back);
        decipher.decrypt(&whole[cut..], &mut back);
        assert_eq!(back, plain);
    }
}

#[test]
fn cfb8_appends_to_what_is_there() {
    let key = [1u8; 16];
    let mut out = vec![0xee];
    Cfb8::new(&key).encrypt(&[], &mut out);
    assert_eq!(out, vec![0xee]);
    Cfb8::new(&key).encrypt(&[1, 2, 3], &mut out);
    assert_eq!(out.len(), 4);
    assert_eq!(out[0], 0xee);
}
