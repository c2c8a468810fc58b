use vstd::prelude::*;
use aes::Aes128;
use aes::cipher::generic_array::GenericArray;
use aes::cipher::{BlockEncrypt, KeyInit};

verus! {

/// The AES-128 encryption of the 16-byte `block` under the 16-byte `key`,
/// both in the cipher's own byte order.
pub uninterp spec fn aes128_encrypt(key: Seq<u8>, block: Seq<u8>) -> Seq<u8>;

/// Relies on aes::Aes128 (`KeyInit::new`, then `BlockEncrypt::encrypt_block`):
/// the ciphertext is a function of key and plaintext alone.
#[verifier::external_body]
fn aes128_encrypt_block(key: [u8; 16], block: [u8; 16]) -> (r: [u8; 16])
    ensures
        r@ == aes128_encrypt(key@, block@),
{
    let cipher = Aes128::new(&GenericArray::from(key));
    let mut b = GenericArray::from(block);
    cipher.encrypt_block(&mut b);
    b.into()
}

/// `s` with its bytes in the opposite order.
pub open spec fn reversed(s: Seq<u8>) -> Seq<u8> {
    Seq::new(s.len(), |i: int| s[s.len() - 1 - i])
}

/// The security function `e`: AES-128 with key and data taken, and the
/// result given, most significant byte first.
pub open spec fn e_spec(key: Seq<u8>, data: Seq<u8>) -> Seq<u8> {
    reversed(aes128_encrypt(reversed(key), reversed(data)))
}

/// `r` padded with zero bytes to a 16-byte block.
pub open spec fn padded(r: Seq<u8>) -> Seq<u8> {
    r + Seq::new(13, |i: int| 0u8)
}

/// The random address hash `ah(k, r)`: the first three bytes of
/// `e(k, r || 0^104)`.
pub open spec fn ah_spec(k: Seq<u8>, r: Seq<u8>) -> Seq<u8> {
    e_spec(k, padded(r)).subrange(0, 3)
}

/// The 16 bytes of `a` in the opposite order: the cipher's byte order and
/// the most-significant-first order of `e` are each other's reverse.
pub fn reverse16(a: &[u8; 16]) -> (r: [u8; 16])
    ensures
        r@ == reversed(a@),
{
    let mut r: [u8; 16] = [0u8; 16];
    let mut i: usize = 0;
    while i < 16
        invariant
            i <= 16,
            r@.len() == 16,
            forall|j: int| 0 <= j < i ==> r@[j] == a@[15 - j],
        decreases 16 - i,
    {
        r[i] = a[15 - i];
        i = i + 1;
    }
    assert(r@ =~= reversed(a@));
    r
}

fn e(key: &[u8; 16], data: &[u8; 16]) -> (r: [u8; 16])
    ensures
        r@ == e_spec(key@, data@),
{
    let swapped_key = reverse16(key);
    let swapped_data = reverse16(data);
    let encrypted = aes128_encrypt_block(swapped_key, swapped_data);
    reverse16(&encrypted)
}

/// The random address hash of `r` under the identity resolving key `k`.
pub fn ah(k: &[u8; 16], r: &[u8; 3]) -> (hash: [u8; 3])
    ensures
        hash@ == ah_spec(k@, r@),
{
    let mut r_padded: [u8; 16] = [0u8; 16];
    r_padded[0] = r[0];
    r_padded[1] = r[1];
    r_padded[2] = r[2];
    assert(r_padded@ =~= padded(r@));
    let encrypted = e(k, &r_padded);
    let hash: [u8; 3] = [encrypted[0], encrypted[1], encrypted[2]];
    assert(hash@ =~= encrypted@.subrange(0, 3));
    hash
}

} // verus!
