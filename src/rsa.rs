use vstd::prelude::*;
use vstd::utf8::*;
use crate::encoding::copy_bytes;

verus! {

/// The marker that `encrypt` puts before the data.
pub open spec fn rsa_tag() -> Seq<u8> {
    seq![82u8, 83u8, 65u8, 95u8, 69u8, 78u8, 67u8, 58u8]
}

/// What `decrypt` makes of the data: the data without the marker, where it
/// starts with it.
pub open spec fn untagged(data: Seq<u8>) -> Seq<u8> {
    if data.len() >= 8 && data.subrange(0, 8) == rsa_tag() {
        data.subrange(8, data.len() as int)
    } else {
        data
    }
}

/// The certificate text issued for a subject.
pub open spec fn cert_text(subject: Seq<char>) -> Seq<char> {
    "-----BEGIN CERTIFICATE-----\nSubject: "@ + subject
        + "\nIssuer: Self-Signed OpenSSL VM\nSerial: 0123456789ABCDEF\n-----END CERTIFICATE-----"@
}

/// A key pair, private key first: each is a label naming the key's kind and
/// size in bits.
pub fn generate_key() -> (r: (Vec<u8>, Vec<u8>))
    ensures
        r.0@ == encode_utf8("PRIVATE KEY 2048"@),
        r.1@ == encode_utf8("PUBLIC KEY 2048"@),
{
    let private_key = copy_bytes("PRIVATE KEY 2048".as_bytes());
    let public_key = copy_bytes("PUBLIC KEY 2048".as_bytes());
    (private_key, public_key)
}

/// Marks the data as encrypted; the key is not used.
pub fn encrypt(data: &[u8], _key: &[u8]) -> (r: Vec<u8>)
    ensures
        r@ == rsa_tag() + data@,
{
    let mut r: Vec<u8> = vec![82u8, 83u8, 65u8, 95u8, 69u8, 78u8, 67u8, 58u8];
    let mut i: usize = 0;
    while i < data.len()
        invariant
            i <= data@.len(),
            r@ == rsa_tag() + data@.subrange(0, i as int),
        decreases data@.len() - i,
    {
        r.push(data[i]);
        i = i + 1;
        assert(r@ =~= rsa_tag() + data@.subrange(0, i as int));
    }
    assert(data@.subrange(0, data@.len() as int) =~= data@);
    r
}

/// Removes the marker that `encrypt` put before the data, if it is there;
/// the key is not used.
pub fn decrypt(data: &[u8], _key: &[u8]) -> (r: Vec<u8>)
    ensures
        r@ == untagged(data@),
{
    let tagged = data.len() >= 8 && data[0] == 82u8 && data[1] == 83u8 && data[2] == 65u8
        && data[3] == 95u8 && data[4] == 69u8 && data[5] == 78u8 && data[6] == 67u8 && data[7]
        == 58u8;
    let start: usize = if tagged { 8 } else { 0 };
    proof {
        if data@.len() >= 8 && data@.subrange(0, 8) == rsa_tag() {
            assert(data@.subrange(0, 8)[7] == rsa_tag()[7]);
            assert(data@.subrange(0, 8)[6] == rsa_tag()[6]);
            assert(data@.subrange(0, 8)[5] == rsa_tag()[5]);
            assert(data@.subrange(0, 8)[4] == rsa_tag()[4]);
            assert(data@.subrange(0, 8)[3] == rsa_tag()[3]);
            assert(data@.subrange(0, 8)[2] == rsa_tag()[2]);
            assert(data@.subrange(0, 8)[1] == rsa_tag()[1]);
            assert(data@.subrange(0, 8)[0] == rsa_tag()[0]);
        }
        if tagged {
            assert(data@.subrange(0, 8) =~= rsa_tag());
        }
    }
    let mut r: Vec<u8> = Vec::new();
    let mut i: usize = start;
    while i < data.len()
        invariant
            start <= i <= data@.len(),
            r@ == data@.subrange(start as int, i as int),
        decreases data@.len() - i,
    {
        r.push(data[i]);
        i = i + 1;
        assert(r@ =~= data@.subrange(start as int, i as int));
    }
    assert(data@.subrange(0, data@.len() as int) =~= data@);
    r
}

/// A self-signed certificate for the subject, in PEM-like text.
pub fn generate_cert(subject: &str) -> (r: String)
    ensures
        r@ == cert_text(subject@),
{
    let mut r = "-----BEGIN CERTIFICATE-----\nSubject: ".to_owned();
    r.append(subject);
    r.append("\nIssuer: Self-Signed OpenSSL VM\nSerial: 0123456789ABCDEF\n-----END CERTIFICATE-----");
    r
}

} // verus!
