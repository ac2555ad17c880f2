//! AES-128 CFB-8 stream encryption for the TCP-side codec.
//!
//! The payload protocol enciphers the byte stream with AES-128 in
//! eight-bit cipher feedback mode, using the key itself as the IV. In
//! CFB-8 each output byte is a function of the key and the ciphertext
//! bytes already produced, so the model here names a single-byte
//! cipher step and threads the ciphertext history through it; whole
//! buffers are handled by verified loops over that step.

use vstd::prelude::*;
use vstd::seq_lib::*;
use cfb8::cipher::{BlockDecryptMut, BlockEncryptMut, KeyIvInit};

verus! {

/// Holds the `cfb8` crate's AES-128 encryptor and decryptor. Opaque
/// to the verifier, which reaches them only through the byte-step
/// wrappers below.
#[verifier::external_body]
struct CipherHalves {
    enc: cfb8::Encryptor<aes::Aes128>,
    dec: cfb8::Decryptor<aes::Aes128>,
}

/// The ciphertext byte CFB-8 produces for one plaintext byte, given
/// the key and the ciphertext already produced since the start of the
/// stream.
pub uninterp spec fn cfb8_enc_byte(key: Seq<u8>, history: Seq<u8>, plain: u8) -> u8;

/// The plaintext byte CFB-8 recovers from one ciphertext byte, given
/// the key and the ciphertext already seen since the start of the
/// stream.
pub uninterp spec fn cfb8_dec_byte(key: Seq<u8>, history: Seq<u8>, cipher: u8) -> u8;

/// The ciphertext of a whole buffer: each byte enciphered with the
/// history extended by the ciphertext before it.
pub open spec fn cfb8_encrypt_seq(key: Seq<u8>, history: Seq<u8>, plain: Seq<u8>) -> Seq<u8>
    decreases plain.len(),
{
    if plain.len() == 0 {
        Seq::empty()
    } else {
        let c = cfb8_enc_byte(key, history, plain[0]);
        seq![c] + cfb8_encrypt_seq(key, history.push(c), plain.skip(1))
    }
}

/// The plaintext of a whole buffer: each byte deciphered with the
/// history extended by the ciphertext before it.
pub open spec fn cfb8_decrypt_seq(key: Seq<u8>, history: Seq<u8>, cipher: Seq<u8>) -> Seq<u8>
    decreases cipher.len(),
{
    if cipher.len() == 0 {
        Seq::empty()
    } else {
        let p = cfb8_dec_byte(key, history, cipher[0]);
        seq![p] + cfb8_decrypt_seq(key, history.push(cipher[0]), cipher.skip(1))
    }
}

/// Enciphering preserves length.
pub proof fn lemma_encrypt_seq_len(key: Seq<u8>, history: Seq<u8>, plain: Seq<u8>)
    ensures
        cfb8_encrypt_seq(key, history, plain).len() == plain.len(),
    decreases plain.len(),
{
    if plain.len() > 0 {
        let c = cfb8_enc_byte(key, history, plain[0]);
        lemma_encrypt_seq_len(key, history.push(c), plain.skip(1));
    }
}

/// One direction of a CFB-8 session: an encryptor and a decryptor
/// initialised from the same 16-byte key, with the ciphertext history
/// of each side carried as ghost state.
pub struct CipherState {
    halves: CipherHalves,
    key: Ghost<Seq<u8>>,
    enc_history: Ghost<Seq<u8>>,
    dec_history: Ghost<Seq<u8>>,
}

impl CipherState {
    /// The key both halves were initialised with.
    pub closed spec fn key_view(&self) -> Seq<u8> {
        self.key@
    }

    /// The ciphertext produced so far by the encrypting half.
    pub closed spec fn enc_hist(&self) -> Seq<u8> {
        self.enc_history@
    }

    /// The ciphertext consumed so far by the decrypting half.
    pub closed spec fn dec_hist(&self) -> Seq<u8> {
        self.dec_history@
    }

    /// Starts a CFB-8 session on `key`, with the IV equal to the key
    /// as the payload protocol requires.
    pub fn new(key: &[u8; 16]) -> (r: CipherState)
        ensures
            r.key_view() == key@,
            r.enc_hist() == Seq::<u8>::empty(),
            r.dec_hist() == Seq::<u8>::empty(),
    {
        CipherState {
            halves: new_halves(key),
            key: Ghost(key@),
            enc_history: Ghost(Seq::empty()),
            dec_history: Ghost(Seq::empty()),
        }
    }

    /// Relies on `cfb8::Encryptor::encrypt_block_mut` on a one-byte
    /// block: the ciphertext byte is a function of the key, the
    /// ciphertext history, and the plaintext byte alone.
    #[verifier::external_body]
    fn encrypt_byte(&mut self, b: u8) -> (r: u8)
        ensures
            r == cfb8_enc_byte(old(self).key_view(), old(self).enc_hist(), b),
            final(self).key_view() == old(self).key_view(),
            final(self).enc_hist() == old(self).enc_hist().push(r),
            final(self).dec_hist() == old(self).dec_hist(),
    {
        let mut block = [b];
        self.halves.enc.encrypt_block_mut(
            cfb8::cipher::generic_array::GenericArray::from_mut_slice(&mut block),
        );
        block[0]
    }

    /// Relies on `cfb8::Decryptor::decrypt_block_mut` on a one-byte
    /// block: the plaintext byte is a function of the key, the
    /// ciphertext history, and the ciphertext byte alone, and it is
    /// the unique byte whose encipherment under that history is the
    /// ciphertext byte.
    #[verifier::external_body]
    fn decrypt_byte(&mut self, c: u8) -> (r: u8)
        ensures
            r == cfb8_dec_byte(old(self).key_view(), old(self).dec_hist(), c),
            forall|b: u8|
                cfb8_enc_byte(old(self).key_view(), old(self).dec_hist(), b) == c ==> r == b,
            final(self).key_view() == old(self).key_view(),
            final(self).dec_hist() == old(self).dec_hist().push(c),
            final(self).enc_hist() == old(self).enc_hist(),
    {
        let mut block = [c];
        self.halves.dec.decrypt_block_mut(
            cfb8::cipher::generic_array::GenericArray::from_mut_slice(&mut block),
        );
        block[0]
    }

    /// Enciphers a buffer in place.
    pub fn encrypt_vec(&mut self, data: &mut Vec<u8>)
        ensures
            final(data)@ == cfb8_encrypt_seq(old(self).key_view(), old(self).enc_hist(), old(data)@),
            final(self).key_view() == old(self).key_view(),
            final(self).enc_hist() == old(self).enc_hist() + final(data)@,
            final(self).dec_hist() == old(self).dec_hist(),
    {
        let ghost k = self.key_view();
        let ghost h0 = self.enc_hist();
        let ghost input = data@;
        let n = data.len();
        let mut i: usize = 0;
        proof {
            assert_seqs_equal!(h0 + data@.take(0) == h0);
            assert_seqs_equal!(input.skip(0) == input);
            assert_seqs_equal!(
                data@.take(0) + cfb8_encrypt_seq(k, h0, input)
                    == cfb8_encrypt_seq(k, h0, input)
            );
        }
        while i < n
            invariant
                i <= n,
                n == data@.len(),
                data@.len() == input.len(),
                data@.skip(i as int) == input.skip(i as int),
                self.key_view() == k,
                self.dec_hist() == old(self).dec_hist(),
                self.enc_hist() == h0 + data@.take(i as int),
                cfb8_encrypt_seq(k, h0, input) == data@.take(i as int) + cfb8_encrypt_seq(
                    k,
                    self.enc_hist(),
                    input.skip(i as int),
                ),
            decreases n - i,
        {
            let ghost pre = data@;
            let ghost hist = self.enc_hist();
            let b = data[i];
            let c = self.encrypt_byte(b);
            data.set(i, c);
            i = i + 1;
            proof {
                assert(input.skip(i as int - 1)[0] == b);
                assert(cfb8_encrypt_seq(k, hist, input.skip(i as int - 1)) == seq![c]
                    + cfb8_encrypt_seq(k, hist.push(c), input.skip(i as int - 1).skip(1)));
                assert_seqs_equal!(
                    input.skip(i as int - 1).skip(1) == input.skip(i as int)
                );
                assert_seqs_equal!(data@.skip(i as int) == input.skip(i as int));
                assert_seqs_equal!(data@.take(i as int) == pre.take(i as int - 1) + seq![c]);
                assert_seqs_equal!(hist.push(c) == h0 + data@.take(i as int));
                assert_seqs_equal!(
                    pre.take(i as int - 1) + (seq![c] + cfb8_encrypt_seq(
                        k,
                        hist.push(c),
                        input.skip(i as int),
                    )) == data@.take(i as int) + cfb8_encrypt_seq(
                        k,
                        hist.push(c),
                        input.skip(i as int),
                    )
                );
            }
        }
        proof {
            assert_seqs_equal!(data@.take(n as int) == data@);
            assert_seqs_equal!(input.skip(n as int) == Seq::<u8>::empty());
        }
    }

    /// Deciphers a buffer in place. Whatever arrives is deciphered
    /// exactly; in particular, if the buffer is the encipherment of
    /// some plaintext under the same key and history, that plaintext
    /// comes back.
    pub fn decrypt_vec(&mut self, data: &mut Vec<u8>)
        ensures
            final(data)@ == cfb8_decrypt_seq(old(self).key_view(), old(self).dec_hist(), old(data)@),
            forall|p: Seq<u8>|
                cfb8_encrypt_seq(old(self).key_view(), old(self).dec_hist(), p) == old(data)@
                    ==> final(data)@ == p,
            final(data)@.len() == old(data)@.len(),
            final(self).key_view() == old(self).key_view(),
            final(self).dec_hist() == old(self).dec_hist() + old(data)@,
            final(self).enc_hist() == old(self).enc_hist(),
    {
        let ghost k = self.key_view();
        let ghost h0 = self.dec_hist();
        let ghost input = data@;
        let n = data.len();
        let mut i: usize = 0;
        proof {
            assert_seqs_equal!(h0 + input.take(0) == h0);
            assert_seqs_equal!(input.skip(0) == input);
            assert_seqs_equal!(
                data@.take(0) + cfb8_decrypt_seq(k, h0, input)
                    == cfb8_decrypt_seq(k, h0, input)
            );
            assert forall|p: Seq<u8>| #[trigger] cfb8_encrypt_seq(k, h0, p) == input implies p.len()
                == input.len() && p.take(0int) == data@.take(0int) by {
                lemma_encrypt_seq_len(k, h0, p);
                assert_seqs_equal!(p.take(0int) == data@.take(0int));
            }
        }
        while i < n
            invariant
                i <= n,
                n == data@.len(),
                data@.len() == input.len(),
                data@.skip(i as int) == input.skip(i as int),
                self.key_view() == k,
                self.enc_hist() == old(self).enc_hist(),
                self.dec_hist() == h0 + input.take(i as int),
                cfb8_decrypt_seq(k, h0, input) == data@.take(i as int) + cfb8_decrypt_seq(
                    k,
                    self.dec_hist(),
                    input.skip(i as int),
                ),
                forall|p: Seq<u8>|
                    #[trigger] cfb8_encrypt_seq(k, h0, p) == input ==> p.len() == input.len()
                        && p.take(i as int) == data@.take(i as int),
            decreases n - i,
        {
            let ghost pre = data@;
            let ghost hist = self.dec_hist();
            let c = data[i];
            let p = self.decrypt_byte(c);
            data.set(i, p);
            i = i + 1;
            proof {
                assert(input.skip(i as int - 1)[0] == c);
                assert(cfb8_decrypt_seq(k, hist, input.skip(i as int - 1)) == seq![p]
                    + cfb8_decrypt_seq(k, hist.push(c), input.skip(i as int - 1).skip(1)));
                assert_seqs_equal!(
                    input.skip(i as int - 1).skip(1) == input.skip(i as int)
                );
                assert_seqs_equal!(data@.skip(i as int) == input.skip(i as int));
                assert_seqs_equal!(data@.take(i as int) == pre.take(i as int - 1) + seq![p]);
                assert_seqs_equal!(hist.push(c) == h0 + input.take(i as int));
                assert_seqs_equal!(
                    pre.take(i as int - 1) + (seq![p] + cfb8_decrypt_seq(
                        k,
                        hist.push(c),
                        input.skip(i as int),
                    )) == data@.take(i as int) + cfb8_decrypt_seq(
                        k,
                        hist.push(c),
                        input.skip(i as int),
                    )
                );
                assert forall|q: Seq<u8>|
                    #[trigger] cfb8_encrypt_seq(k, h0, q) == input implies q.len() == input.len()
                    && q.take(i as int) == data@.take(i as int) by {
                    lemma_encrypt_seq_len(k, h0, q);
                    lemma_encrypt_step(k, h0, q, input, i as int - 1);
                    assert(q.take(i as int - 1) == pre.take(i as int - 1));
                    assert(cfb8_enc_byte(k, hist, q[i as int - 1]) == c);
                    assert(q[i as int - 1] == p);
                    assert_seqs_equal!(q.take(i as int) == q.take(i as int - 1) + seq![p]);
                }
            }
        }
        proof {
            assert_seqs_equal!(data@.take(n as int) == data@);
            assert_seqs_equal!(input.skip(n as int) == Seq::<u8>::empty());
            assert forall|p: Seq<u8>| cfb8_encrypt_seq(k, h0, p) == input implies data@ == p by {
                lemma_encrypt_seq_len(k, h0, p);
                assert(p.take(n as int) == data@.take(n as int));
                assert_seqs_equal!(p.take(n as int) == p);
            }
            assert_seqs_equal!(h0 + input.take(n as int) == h0 + input);
        }
    }
}

/// In an enciphered stream, the byte at position `j` is the one-byte
/// encipherment of the plaintext byte at `j` under the history
/// extended by the ciphertext before it.
proof fn lemma_encrypt_step(key: Seq<u8>, history: Seq<u8>, plain: Seq<u8>, cipher: Seq<u8>, j: int)
    requires
        cfb8_encrypt_seq(key, history, plain) == cipher,
        0 <= j < plain.len(),
    ensures
        plain.len() == cipher.len(),
        cfb8_enc_byte(key, history + cipher.take(j), plain[j]) == cipher[j],
    decreases j,
{
    lemma_encrypt_seq_len(key, history, plain);
    let c0 = cfb8_enc_byte(key, history, plain[0]);
    assert(cipher == seq![c0] + cfb8_encrypt_seq(key, history.push(c0), plain.skip(1)));
    assert(cipher[0] == c0);
    if j == 0 {
        assert_seqs_equal!(history + cipher.take(0) == history);
    } else {
        lemma_encrypt_step(
            key,
            history.push(c0),
            plain.skip(1),
            cfb8_encrypt_seq(key, history.push(c0), plain.skip(1)),
            j - 1,
        );
        let tail = cfb8_encrypt_seq(key, history.push(c0), plain.skip(1));
        assert(plain.skip(1)[j - 1] == plain[j]);
        assert(tail[j - 1] == cipher[j]);
        assert_seqs_equal!(
            history.push(c0) + tail.take(j - 1) == history + cipher.take(j)
        );
    }
}

/// Relies on `cfb8::Encryptor::new` and `cfb8::Decryptor::new` (via
/// `KeyIvInit`), with the IV equal to the key as the payload protocol
/// requires; each half\'s stream state is thereafter a function of the
/// key and the ciphertext it has produced or consumed.
#[verifier::external_body]
fn new_halves(key: &[u8; 16]) -> CipherHalves {
    CipherHalves {
        enc: cfb8::Encryptor::new(key.into(), key.into()),
        dec: cfb8::Decryptor::new(key.into(), key.into()),
    }
}

} // verus!
