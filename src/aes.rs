use vstd::prelude::*;

verus! {

/// The longest plaintext AES-GCM accepts, in bytes.
pub const PLAINTEXT_MAX: u64 = 68719476736;

/// The ciphertext and tag that AES-128-GCM makes of a plaintext, with no
/// associated data.
pub uninterp spec fn gcm_seal(key: Seq<u8>, nonce: Seq<u8>, plaintext: Seq<u8>) -> Seq<u8>;

/// The plaintext that AES-128-GCM recovers from a ciphertext and tag, or
/// `None` where the tag does not authenticate it.
pub uninterp spec fn gcm_open(key: Seq<u8>, nonce: Seq<u8>, ciphertext: Seq<u8>) -> Option<Seq<u8>>;

/// The 16-byte cipher key: the first 16 bytes of the key, padded with zeros.
pub open spec fn cipher_key(key: Seq<u8>) -> Seq<u8> {
    Seq::new(16, |i: int| if i < key.len() { key[i] } else { 0u8 })
}

/// The fixed nonce: twelve zero bytes.
pub open spec fn zero_nonce() -> Seq<u8> {
    Seq::new(12, |i: int| 0u8)
}

/// What `encrypt` returns: the sealed data, or nothing where the data is too
/// long for the cipher.
pub open spec fn encrypt_spec(data: Seq<u8>, key: Seq<u8>) -> Seq<u8> {
    if data.len() <= PLAINTEXT_MAX {
        gcm_seal(cipher_key(key), zero_nonce(), data)
    } else {
        Seq::empty()
    }
}

/// What `decrypt` returns: the opened data, or nothing where it does not
/// authenticate.
pub open spec fn decrypt_spec(data: Seq<u8>, key: Seq<u8>) -> Seq<u8> {
    match gcm_open(cipher_key(key), zero_nonce(), data) {
        Some(p) => p,
        None => Seq::empty(),
    }
}

/// Relies on aes_gcm's Aes128Gcm::encrypt with no associated data: the
/// result depends on its arguments alone, and it fails exactly on a
/// plaintext longer than PLAINTEXT_MAX; the ciphertext is the data's length
/// followed by a 16-byte tag.
#[verifier::external_body]
fn gcm_encrypt(key: &[u8], nonce: &[u8], data: &[u8]) -> (r: Option<Vec<u8>>)
    requires
        key@.len() == 16,
        nonce@.len() == 12,
    ensures
        r is Some <==> data@.len() <= PLAINTEXT_MAX,
        r is Some ==> r->0@ == gcm_seal(key@, nonce@, data@),
        r is Some ==> r->0@.len() == data@.len() + 16,
{
    let cipher = <aes_gcm::Aes128Gcm as aes_gcm::KeyInit>::new_from_slice(key).unwrap();
    aes_gcm::aead::Aead::encrypt(&cipher, aes_gcm::Nonce::from_slice(nonce), data).ok()
}

/// Relies on aes_gcm's Aes128Gcm::decrypt with no associated data: the
/// result depends on its arguments alone, and it opens whatever encrypt
/// sealed under the same key and nonce.
#[verifier::external_body]
fn gcm_decrypt(key: &[u8], nonce: &[u8], data: &[u8]) -> (r: Option<Vec<u8>>)
    requires
        key@.len() == 16,
        nonce@.len() == 12,
    ensures
        match r {
            Some(p) => gcm_open(key@, nonce@, data@) == Some(p@),
            None => gcm_open(key@, nonce@, data@) is None,
        },
        forall|p: Seq<u8>|
            p.len() <= PLAINTEXT_MAX && data@ == #[trigger] gcm_seal(key@, nonce@, p) ==> (r is Some
                && r->0@ == p),
{
    let cipher = <aes_gcm::Aes128Gcm as aes_gcm::KeyInit>::new_from_slice(key).unwrap();
    aes_gcm::aead::Aead::decrypt(&cipher, aes_gcm::Nonce::from_slice(nonce), data).ok()
}

fn padded_key(key: &[u8]) -> (r: Vec<u8>)
    ensures
        r@ == cipher_key(key@),
{
    let mut r: Vec<u8> = Vec::new();
    let mut i: usize = 0;
    while i < 16
        invariant
            i <= 16,
            r@.len() == i,
            forall|j: int| 0 <= j < i ==> r@[j] == cipher_key(key@)[j],
        decreases 16 - i,
    {
        if i < key.len() {
            r.push(key[i]);
        } else {
            r.push(0u8);
        }
        i = i + 1;
    }
    assert(r@ =~= cipher_key(key@));
    r
}

fn nonce_bytes() -> (r: Vec<u8>)
    ensures
        r@ == zero_nonce(),
{
    let mut r: Vec<u8> = Vec::new();
    let mut i: usize = 0;
    while i < 12
        invariant
            i <= 12,
            r@.len() == i,
            forall|j: int| 0 <= j < i ==> r@[j] == 0u8,
        decreases 12 - i,
    {
        r.push(0u8);
        i = i + 1;
    }
    assert(r@ =~= zero_nonce());
    r
}

/// Encrypts with AES-128-GCM under the key cut or zero-padded to 16 bytes
/// and a zero nonce; an empty result where the cipher refuses the data.
/// The result is as long as the data plus a 16-byte tag.
pub fn encrypt(data: &[u8], key: &[u8]) -> (r: Vec<u8>)
    ensures
        r@ == encrypt_spec(data@, key@),
        data@.len() <= PLAINTEXT_MAX ==> r@.len() == data@.len() + 16,
{
    let k = padded_key(key);
    let n = nonce_bytes();
    match gcm_encrypt(k.as_slice(), n.as_slice(), data) {
        Some(c) => c,
        None => Vec::new(),
    }
}

/// Decrypts what `encrypt` made under the same key; an empty result where
/// the data does not authenticate. Whatever `encrypt` sealed comes back
/// unchanged.
pub fn decrypt(data: &[u8], key: &[u8]) -> (r: Vec<u8>)
    ensures
        r@ == decrypt_spec(data@, key@),
        forall|p: Seq<u8>|
            p.len() <= PLAINTEXT_MAX && data@ == #[trigger] encrypt_spec(p, key@) ==> r@ == p,
{
    let k = padded_key(key);
    let n = nonce_bytes();
    match gcm_decrypt(k.as_slice(), n.as_slice(), data) {
        Some(p) => p,
        None => Vec::new(),
    }
}

} // verus!
