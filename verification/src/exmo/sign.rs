use vstd::prelude::*;

use crypto::mac::Mac;

verus! {

/// The HMAC-SHA512 code of `message` under `key`.
pub uninterp spec fn hmac_sha512(key: Seq<u8>, message: Seq<u8>) -> Seq<u8>;

/// Computes HMAC-SHA512 with rust-crypto (`Hmac::new(Sha512::new(), key)`,
/// `Mac::input`, `Mac::raw_result` into a 64-byte buffer). Claimed: the result
/// is the code of `message` under `key`, a function of the two alone, and it
/// is 64 bytes long (SHA-512's output, which fills the buffer).
#[verifier::external_body]
fn hmac_sha512_digest(key: &[u8], message: &[u8]) -> (r: Vec<u8>)
    ensures
        r@ == hmac_sha512(key@, message@),
        r@.len() == 64,
{
    let mut hmac = crypto::hmac::Hmac::new(crypto::sha2::Sha512::new(), key);
    hmac.input(message);
    let mut output = [0u8; 64];
    hmac.raw_result(&mut output);
    output.to_vec()
}

/// The lower-case hexadecimal digit of `n` (below 16).
pub open spec fn hex_digit(n: u8) -> char {
    match n {
        0 => '0',
        1 => '1',
        2 => '2',
        3 => '3',
        4 => '4',
        5 => '5',
        6 => '6',
        7 => '7',
        8 => '8',
        9 => '9',
        10 => 'a',
        11 => 'b',
        12 => 'c',
        13 => 'd',
        14 => 'e',
        _ => 'f',
    }
}

/// Each byte as two lower-case hexadecimal digits, high digit first.
pub open spec fn hex_lower(bytes: Seq<u8>) -> Seq<char>
    decreases bytes.len(),
{
    if bytes.len() == 0 {
        Seq::empty()
    } else {
        let b = bytes.last();
        hex_lower(bytes.drop_last()) + seq![hex_digit(b / 16), hex_digit(b % 16)]
    }
}

fn hex_digit_str(n: u8) -> (r: &'static str)
    requires
        n < 16,
    ensures
        r@ == seq![hex_digit(n)],
{
    proof {
        reveal_strlit("0");
        reveal_strlit("1");
        reveal_strlit("2");
        reveal_strlit("3");
        reveal_strlit("4");
        reveal_strlit("5");
        reveal_strlit("6");
        reveal_strlit("7");
        reveal_strlit("8");
        reveal_strlit("9");
        reveal_strlit("a");
        reveal_strlit("b");
        reveal_strlit("c");
        reveal_strlit("d");
        reveal_strlit("e");
        reveal_strlit("f");
    }
    let r = match n {
        0 => "0",
        1 => "1",
        2 => "2",
        3 => "3",
        4 => "4",
        5 => "5",
        6 => "6",
        7 => "7",
        8 => "8",
        9 => "9",
        10 => "a",
        11 => "b",
        12 => "c",
        13 => "d",
        14 => "e",
        _ => "f",
    };
    assert(r@ =~= seq![hex_digit(n)]);
    r
}

/// Writes bytes as lower-case hexadecimal, two digits per byte.
pub fn to_hex_lower(bytes: &[u8]) -> (r: String)
    ensures
        r@ == hex_lower(bytes@),
        r@.len() == 2 * bytes@.len(),
{
    let mut r = String::new();
    let n = bytes.len();
    let mut i: usize = 0;
    while i < n
        invariant
            n == bytes@.len(),
            i <= n,
            r@ == hex_lower(bytes@.subrange(0, i as int)),
            r@.len() == 2 * i,
        decreases n - i,
    {
        let b = bytes[i];
        r.append(hex_digit_str(b / 16));
        r.append(hex_digit_str(b % 16));
        proof {
            let s = bytes@.subrange(0, i + 1);
            assert(s.drop_last() =~= bytes@.subrange(0, i as int));
            assert(s.last() == b);
        }
        i = i + 1;
    }
    assert(bytes@.subrange(0, n as int) =~= bytes@);
    r
}

/// The signature exmo expects on a private request: the HMAC-SHA512 of the
/// request body under the account's secret, in lower-case hexadecimal.
pub fn sign(api_secret: &str, message: &str) -> (r: String)
    ensures
        r@ == hex_lower(hmac_sha512(vstd::utf8::encode_utf8(api_secret@), vstd::utf8::encode_utf8(message@))),
        r@.len() == 128,
{
    let code = hmac_sha512_digest(api_secret.as_bytes(), message.as_bytes());
    to_hex_lower(code.as_slice())
}

} // verus!
