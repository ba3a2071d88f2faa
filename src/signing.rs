//! Request signing: the text that is signed (timestamp, method, path and
//! body) and its HMAC-SHA256 signature in base64.
use vstd::prelude::*;

verus! {

/// Decimal digit character of `n` (`0 <= n < 10`).
pub open spec fn digit_char(n: int) -> char {
    if n == 0 {
        '0'
    } else if n == 1 {
        '1'
    } else if n == 2 {
        '2'
    } else if n == 3 {
        '3'
    } else if n == 4 {
        '4'
    } else if n == 5 {
        '5'
    } else if n == 6 {
        '6'
    } else if n == 7 {
        '7'
    } else if n == 8 {
        '8'
    } else {
        '9'
    }
}

/// Decimal digits of a natural number, without leading zeros.
pub open spec fn nat_text(n: nat) -> Seq<char>
    decreases n,
{
    if n < 10 {
        seq![digit_char(n as int)]
    } else {
        nat_text(n / 10) + seq![digit_char((n % 10) as int)]
    }
}

/// Decimal text of an integer, with a leading `-` when negative.
pub open spec fn int_text(n: int) -> Seq<char> {
    if n < 0 {
        seq!['-'] + nat_text((-n) as nat)
    } else {
        nat_text(n as nat)
    }
}

/// A request body without line breaks and spaces.
pub open spec fn compact(s: Seq<char>) -> Seq<char>
    decreases s.len(),
{
    if s.len() == 0 {
        s
    } else if s.last() == '\n' || s.last() == ' ' {
        compact(s.drop_last())
    } else {
        compact(s.drop_last()).push(s.last())
    }
}

/// The signed text: timestamp, method, path and compacted body.
pub open spec fn prehash_text(timestamp: int, method: Seq<char>, path: Seq<char>, data: Option<Seq<char>>) -> Seq<char> {
    int_text(timestamp) + method + path + match data {
        Some(d) => compact(d),
        None => Seq::empty(),
    }
}

/// The text of a string in upper case.
pub uninterp spec fn upper_of(s: Seq<char>) -> Seq<char>;

/// HMAC-SHA256 keyed with the UTF-8 bytes of `key` over the UTF-8 bytes of `msg`.
pub uninterp spec fn hmac_sha256_of(key: Seq<char>, msg: Seq<char>) -> Seq<u8>;

/// Character of a 6-bit value in the standard base64 alphabet
/// (`A-Z`, `a-z`, `0-9`, `+`, `/`).
pub open spec fn base64_char(n: int) -> char {
    if n < 26 {
        ((65 + n) as u8) as char
    } else if n < 52 {
        ((71 + n) as u8) as char
    } else if n < 62 {
        ((n - 4) as u8) as char
    } else if n == 62 {
        '+'
    } else {
        '/'
    }
}

/// Standard base64 with padding: each group of three bytes becomes four
/// characters of six bits each; a final group of one or two bytes is
/// completed with `=`.
pub open spec fn base64_of(b: Seq<u8>) -> Seq<char>
    decreases b.len(),
{
    if b.len() == 0 {
        Seq::empty()
    } else if b.len() == 1 {
        let x = b[0] as int;
        seq![base64_char(x / 4), base64_char((x % 4) * 16), '=', '=']
    } else if b.len() == 2 {
        let x = b[0] as int;
        let y = b[1] as int;
        seq![base64_char(x / 4), base64_char((x % 4) * 16 + y / 16), base64_char((y % 16) * 4), '=']
    } else {
        let x = b[0] as int;
        let y = b[1] as int;
        let z = b[2] as int;
        seq![base64_char(x / 4), base64_char((x % 4) * 16 + y / 16), base64_char((y % 16) * 4 + z / 64), base64_char(z % 64)]
            + base64_of(b.subrange(3, b.len() as int))
    }
}

/// Relies on `str::to_uppercase`: the result depends on the characters alone.
#[verifier::external_body]
fn uppercase(s: &str) -> (r: String)
    ensures
        r@ == upper_of(s@),
{
    s.to_uppercase()
}

/// Relies on hmac's `Hmac::<Sha256>::new_from_slice` (which accepts keys of
/// any length), `Mac::update` and `Mac::finalize`: the 32-byte tag.
#[verifier::external_body]
fn hmac_sha256(key: &str, msg: &str) -> (r: Vec<u8>)
    ensures
        r@ == hmac_sha256_of(key@, msg@),
{
    match <hmac::Hmac<sha2::Sha256> as hmac::Mac>::new_from_slice(key.as_bytes()) {
        Ok(mut mac) => {
            hmac::Mac::update(&mut mac, msg.as_bytes());
            hmac::Mac::finalize(mac).into_bytes().to_vec()
        },
        Err(_) => Vec::new(),
    }
}

/// Relies on base64's `Engine::encode` of the `STANDARD` engine (standard
/// alphabet, with padding).
#[verifier::external_body]
fn base64_standard(bytes: &[u8]) -> (r: String)
    ensures
        r@ == base64_of(bytes@),
{
    base64::Engine::encode(&base64::engine::general_purpose::STANDARD, bytes)
}

fn digit_str(n: u64) -> (r: &'static str)
    requires
        n < 10,
    ensures
        r@ == seq![digit_char(n as int)],
{
    match n {
        0 => {
            proof { reveal_strlit("0"); }
            "0"
        },
        1 => {
            proof { reveal_strlit("1"); }
            "1"
        },
        2 => {
            proof { reveal_strlit("2"); }
            "2"
        },
        3 => {
            proof { reveal_strlit("3"); }
            "3"
        },
        4 => {
            proof { reveal_strlit("4"); }
            "4"
        },
        5 => {
            proof { reveal_strlit("5"); }
            "5"
        },
        6 => {
            proof { reveal_strlit("6"); }
            "6"
        },
        7 => {
            proof { reveal_strlit("7"); }
            "7"
        },
        8 => {
            proof { reveal_strlit("8"); }
            "8"
        },
        _ => {
            proof { reveal_strlit("9"); }
            "9"
        },
    }
}

fn nat_to_text(n: u64) -> (r: String)
    ensures
        r@ == nat_text(n as nat),
    decreases n,
{
    if n < 10 {
        String::from_str(digit_str(n))
    } else {
        let mut s = nat_to_text(n / 10);
        s.append(digit_str(n % 10));
        s
    }
}

/// Decimal text of an integer.
pub fn int_to_text(n: i64) -> (r: String)
    ensures
        r@ == int_text(n as int),
{
    if n < 0 {
        let m = (0 - (n as i128)) as u64;
        let digits = nat_to_text(m);
        let mut s = String::from_str("-");
        proof { reveal_strlit("-"); }
        s.append(digits.as_str());
        s
    } else {
        nat_to_text(n as u64)
    }
}

/// Removes line breaks and spaces from a request body.
pub fn compact_body(data: &str) -> (r: String)
    ensures
        r@ == compact(data@),
{
    let n = data.unicode_len();
    let mut out = String::new();
    let mut i: usize = 0;
    while i < n
        invariant
            n == data@.len(),
            i <= n,
            out@ == compact(data@.subrange(0, i as int)),
        decreases n - i,
    {
        let c = data.get_char(i);
        assert(data@.subrange(0, i + 1).drop_last() =~= data@.subrange(0, i as int));
        if c != '\n' && c != ' ' {
            let piece = data.substring_char(i, i + 1);
            assert(piece@ =~= seq![c]);
            out.append(piece);
        }
        i = i + 1;
        assert(out@ =~= compact(data@.subrange(0, i as int)));
    }
    assert(data@.subrange(0, n as int) =~= data@);
    out
}

/// The text that is signed for a request: the timestamp in decimal, the
/// method as given, the path and the body without line breaks and spaces.
pub fn prehash(timestamp: i64, method: &str, path: &str, data: Option<&str>) -> (r: String)
    ensures
        r@ == prehash_text(timestamp as int, method@, path@, match data {
            Some(d) => Some(d@),
            None => None,
        }),
{
    let mut s = int_to_text(timestamp);
    s.append(method);
    s.append(path);
    match data {
        Some(d) => {
            let c = compact_body(d);
            s.append(c.as_str());
        },
        None => {},
    }
    assert(s@ =~= prehash_text(timestamp as int, method@, path@, match data {
        Some(d) => Some(d@),
        None => None,
    }));
    s
}

/// Signature of a request: base64 of the HMAC-SHA256, keyed with the
/// secret, of the signed text with the method in upper case.
pub fn generate_signature(secret: &str, timestamp: i64, method: &str, path: &str, data: Option<&str>) -> (r: String)
    ensures
        r@ == base64_of(hmac_sha256_of(secret@, prehash_text(timestamp as int, upper_of(method@), path@, match data {
            Some(d) => Some(d@),
            None => None,
        }))),
{
    let upper = uppercase(method);
    let text = prehash(timestamp, upper.as_str(), path, data);
    let tag = hmac_sha256(secret, text.as_str());
    base64_standard(tag.as_slice())
}

} // verus!
