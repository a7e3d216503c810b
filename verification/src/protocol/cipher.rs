use vstd::prelude::*;
use aes::cipher::{BlockEncrypt, KeyInit};

verus! {

/// The AES-128 encryption of one 16-byte block under a 16-byte key.
pub uninterp spec fn aes128_block(key: Seq<u8>, block: Seq<u8>) -> Seq<u8>;

/// `Aes128::new` and `BlockEncrypt::encrypt_block` of the `aes` crate: the
/// block cipher applied once, to one block, under a key schedule made from
/// `key`.
#[verifier::external_body]
fn aes128_encrypt_block(key: &[u8; 16], block: &[u8; 16]) -> (out: [u8; 16])
    ensures
        out@ == aes128_block(key@, block@),
{
    let cipher = aes::Aes128::new(key.into());
    let mut data = aes::Block::from(*block);
    cipher.encrypt_block(&mut data);
    data.into()
}

/// The shift register after one more byte of ciphertext went through.
pub open spec fn cfb8_shift(register: Seq<u8>, cipher_byte: u8) -> Seq<u8> {
    register.skip(1).push(cipher_byte)
}

/// The byte that masks the next byte of the stream: the first byte of the
/// encrypted shift register.
pub open spec fn cfb8_mask(key: Seq<u8>, register: Seq<u8>) -> u8 {
    aes128_block(key, register)[0]
}

/// The ciphertext of `plain` in 8-bit cipher feedback mode, from a given
/// shift register on.
pub open spec fn cfb8_encrypt(key: Seq<u8>, register: Seq<u8>, plain: Seq<u8>) -> Seq<u8>
    decreases plain.len(),
{
    if plain.len() == 0 {
        Seq::empty()
    } else {
        let c = plain[0] ^ cfb8_mask(key, register);
        seq![c] + cfb8_encrypt(key, cfb8_shift(register, c), plain.skip(1))
    }
}

/// The plaintext of `cipher` in 8-bit cipher feedback mode, from a given
/// shift register on.
pub open spec fn cfb8_decrypt(key: Seq<u8>, register: Seq<u8>, cipher: Seq<u8>) -> Seq<u8>
    decreases cipher.len(),
{
    if cipher.len() == 0 {
        Seq::empty()
    } else {
        let p = cipher[0] ^ cfb8_mask(key, register);
        seq![p] + cfb8_decrypt(key, cfb8_shift(register, cipher[0]), cipher.skip(1))
    }
}

/// The shift register after a run of ciphertext went through, whether it was
/// made or taken apart.
pub open spec fn cfb8_register_after(register: Seq<u8>, cipher: Seq<u8>) -> Seq<u8>
    decreases cipher.len(),
{
    if cipher.len() == 0 {
        register
    } else {
        cfb8_register_after(cfb8_shift(register, cipher[0]), cipher.skip(1))
    }
}

/// What a stream cipher holds between two calls.
#[verifier::ext_equal]
pub struct CipherState {
    pub key: Seq<u8>,
    pub register: Seq<u8>,
}

/// One direction of an AES-128 stream in 8-bit cipher feedback mode. The state
/// runs on from call to call: a stream may be fed in pieces of any size.
#[derive(Clone, Copy)]
pub struct Cfb8 {
    key: [u8; 16],
    register: [u8; 16],
}

impl View for Cfb8 {
    type V = CipherState;

    closed spec fn view(&self) -> CipherState {
        CipherState { key: self.key@, register: self.register@ }
    }
}

impl Cfb8 {
    /// A stream under `key`, with the key as its initialization vector too.
    pub fn new(key: &[u8; 16]) -> (c: Self)
        ensures
            c@ == (CipherState { key: key@, register: key@ }),
    {
        Cfb8 { key: *key, register: *key }
    }

    /// Moves the register on by one byte of ciphertext.
    fn shift(&mut self, cipher_byte: u8)
        ensures
            final(self)@.key == old(self)@.key,
            final(self)@.register == cfb8_shift(old(self)@.register, cipher_byte),
    {
        let mut next = [0u8; 16];
        let mut i: usize = 0;
        while i < 15
            invariant
                i <= 15,
                *self == *old(self),
                forall|j: int| 0 <= j < i ==> next@[j] == self.register@[j + 1],
            decreases 15 - i,
        {
            next[i] = self.register[i + 1];
            i = i + 1;
        }
        next[15] = cipher_byte;
        self.register = next;
        assert(self.register@ =~= cfb8_shift(old(self)@.register, cipher_byte));
    }

    /// Encrypts `plain` and appends the ciphertext to `out`.
    pub fn encrypt(&mut self, plain: &[u8], out: &mut Vec<u8>)
        ensures
            final(out)@ == old(out)@ + cfb8_encrypt(old(self)@.key, old(self)@.register, plain@),
            final(self)@.key == old(self)@.key,
            final(self)@.register == cfb8_register_after(
                old(self)@.register,
                cfb8_encrypt(old(self)@.key, old(self)@.register, plain@),
            ),
    {
        let mut i: usize = 0;
        assert(plain@.skip(0) =~= plain@);
        while i < plain.len()
            invariant
                i <= plain@.len(),
                self@.key == old(self)@.key,
                out@ + cfb8_encrypt(self@.key, self@.register, plain@.skip(i as int)) == old(out)@
                    + cfb8_encrypt(old(self)@.key, old(self)@.register, plain@),
                cfb8_register_after(
                    self@.register,
                    cfb8_encrypt(self@.key, self@.register, plain@.skip(i as int)),
                ) == cfb8_register_after(
                    old(self)@.register,
                    cfb8_encrypt(old(self)@.key, old(self)@.register, plain@),
                ),
            decreases plain@.len() - i,
        {
            let ghost before = out@;
            let ghost register = self@.register;
            let ghost left = plain@.skip(i as int);
            let mask = aes128_encrypt_block(&self.key, &self.register);
            let c = plain[i] ^ mask[0];
            out.push(c);
            self.shift(c);
            proof {
                assert(left[0] == plain@[i as int]);
                assert(left.skip(1) =~= plain@.skip(i + 1));
                let tail = cfb8_encrypt(self@.key, self@.register, plain@.skip(i + 1));
                assert(cfb8_encrypt(self@.key, register, left) == seq![c] + tail);
                assert(out@ + tail =~= before + (seq![c] + tail));
                assert((seq![c] + tail).skip(1) =~= tail);
            }
            i = i + 1;
        }
        assert(plain@.skip(i as int) =~= Seq::<u8>::empty());
    }

    /// Decrypts `cipher` and appends the plaintext to `out`.
    pub fn decrypt(&mut self, cipher: &[u8], out: &mut Vec<u8>)
        ensures
            final(out)@ == old(out)@ + cfb8_decrypt(old(self)@.key, old(self)@.register, cipher@),
            final(self)@.key == old(self)@.key,
            final(self)@.register == cfb8_register_after(old(self)@.register, cipher@),
    {
        let mut i: usize = 0;
        assert(cipher@.skip(0) =~= cipher@);
        while i < cipher.len()
            invariant
                i <= cipher@.len(),
                self@.key == old(self)@.key,
                out@ + cfb8_decrypt(self@.key, self@.register, cipher@.skip(i as int)) == old(out)@
                    + cfb8_decrypt(old(self)@.key, old(self)@.register, cipher@),
                cfb8_register_after(self@.register, cipher@.skip(i as int)) == cfb8_register_after(
                    old(self)@.register,
                    cipher@,
                ),
            decreases cipher@.len() - i,
        {
            let ghost before = out@;
            let ghost register = self@.register;
            let ghost left = cipher@.skip(i as int);
            let mask = aes128_encrypt_block(&self.key, &self.register);
            let c = cipher[i];
            let p = c ^ mask[0];
            out.push(p);
            self.shift(c);
            proof {
                assert(left[0] == cipher@[i as int]);
                assert(left.skip(1) =~= cipher@.skip(i + 1));
                let tail = cfb8_decrypt(self@.key, self@.register, cipher@.skip(i + 1));
                assert(cfb8_decrypt(self@.key, register, left) == seq![p] + tail);
                assert(out@ + tail =~= before + (seq![p] + tail));
            }
            i = i + 1;
        }
        assert(cipher@.skip(i as int) =~= Seq::<u8>::empty());
    }
}

/// Decrypting what was encrypted, from the same key and the same register,
/// gives the plaintext back.
pub proof fn law_cfb8_round_trip(key: Seq<u8>, register: Seq<u8>, plain: Seq<u8>)
    ensures
        cfb8_decrypt(key, register, cfb8_encrypt(key, register, plain)) == plain,
    decreases plain.len(),
{
    if plain.len() > 0 {
        let mask = cfb8_mask(key, register);
        let p = plain[0];
        let c = p ^ mask;
        let tail = cfb8_encrypt(key, cfb8_shift(register, c), plain.skip(1));
        let cipher = seq![c] + tail;
        assert(c ^ mask == p) by (bit_vector)
            requires
                c == p ^ mask,
        ;
        assert(cipher.skip(1) =~= tail);
        law_cfb8_round_trip(key, cfb8_shift(register, c), plain.skip(1));
        assert(seq![p] + plain.skip(1) =~= plain);
    } else {
        assert(cfb8_decrypt(key, register, Seq::<u8>::empty()) =~= plain);
    }
}

/// The cipher is one stream: encrypting two pieces one after the other, with
/// the register carried over, gives what encrypting them as one piece gives,
/// and leaves the same register.
pub proof fn law_cfb8_encrypt_stream(key: Seq<u8>, register: Seq<u8>, a: Seq<u8>, b: Seq<u8>)
    ensures
        cfb8_encrypt(key, register, a + b) == cfb8_encrypt(key, register, a) + cfb8_encrypt(
            key,
            cfb8_register_after(register, cfb8_encrypt(key, register, a)),
            b,
        ),
        cfb8_register_after(register, cfb8_encrypt(key, register, a + b)) == cfb8_register_after(
            cfb8_register_after(register, cfb8_encrypt(key, register, a)),
            cfb8_encrypt(key, cfb8_register_after(register, cfb8_encrypt(key, register, a)), b),
        ),
    decreases a.len(),
{
    if a.len() == 0 {
        assert(a + b =~= b);
        assert(cfb8_encrypt(key, register, a) + cfb8_encrypt(key, register, b) =~= cfb8_encrypt(
            key,
            register,
            b,
        ));
    } else {
        let c = a[0] ^ cfb8_mask(key, register);
        let next = cfb8_shift(register, c);
        assert((a + b)[0] == a[0]);
        assert((a + b).skip(1) =~= a.skip(1) + b);
        law_cfb8_encrypt_stream(key, next, a.skip(1), b);
        let tail_a = cfb8_encrypt(key, next, a.skip(1));
        let tail_ab = cfb8_encrypt(key, next, a.skip(1) + b);
        assert((seq![c] + tail_a).skip(1) =~= tail_a);
        assert((seq![c] + tail_ab).skip(1) =~= tail_ab);
        let after = cfb8_register_after(next, tail_a);
        assert(seq![c] + tail_ab =~= (seq![c] + tail_a) + cfb8_encrypt(key, after, b));
    }
}

/// The cipher is one stream on the way back too: decrypting two pieces one
/// after the other, with the register carried over, gives what decrypting them
/// as one piece gives, and leaves the same register.
pub proof fn law_cfb8_decrypt_stream(key: Seq<u8>, register: Seq<u8>, a: Seq<u8>, b: Seq<u8>)
    ensures
        cfb8_decrypt(key, register, a + b) == cfb8_decrypt(key, register, a) + cfb8_decrypt(
            key,
            cfb8_register_after(register, a),
            b,
        ),
        cfb8_register_after(register, a + b) == cfb8_register_after(
            cfb8_register_after(register, a),
            b,
        ),
    decreases a.len(),
{
    if a.len() == 0 {
        assert(a + b =~= b);
        assert(cfb8_decrypt(key, register, a) + cfb8_decrypt(key, register, b) =~= cfb8_decrypt(
            key,
            register,
            b,
        ));
    } else {
        let p = a[0] ^ cfb8_mask(key, register);
        let next = cfb8_shift(register, a[0]);
        assert((a + b)[0] == a[0]);
        assert((a + b).skip(1) =~= a.skip(1) + b);
        law_cfb8_decrypt_stream(key, next, a.skip(1), b);
        let tail_a = cfb8_decrypt(key, next, a.skip(1));
        let tail_ab = cfb8_decrypt(key, next, a.skip(1) + b);
        assert(seq![p] + tail_ab =~= (seq![p] + tail_a) + cfb8_decrypt(
            key,
            cfb8_register_after(next, a.skip(1)),
            b,
        ));
    }
}

} // verus!
