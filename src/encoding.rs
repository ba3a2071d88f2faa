//! Percent-encoding of URL query components.
use vstd::prelude::*;

verus! {

/// Upper-case hexadecimal digit of `n` (`0 <= n < 16`).
pub open spec fn hex_digit(n: int) -> char {
    if n == 0 {
        '0'
    } else if n == 1 {
        '1'
    } else if n == 2 {
        '2'
    } else if n == 3 {
        '3'
    } else if n == 4 {
        '4'
    } else if n == 5 {
        '5'
    } else if n == 6 {
        '6'
    } else if n == 7 {
        '7'
    } else if n == 8 {
        '8'
    } else if n == 9 {
        '9'
    } else if n == 10 {
        'A'
    } else if n == 11 {
        'B'
    } else if n == 12 {
        'C'
    } else if n == 13 {
        'D'
    } else if n == 14 {
        'E'
    } else {
        'F'
    }
}

/// ASCII letters and digits pass unencoded.
pub open spec fn is_plain(c: char) -> bool {
    let u = c as u32;
    (48 <= u <= 57) || (65 <= u <= 90) || (97 <= u <= 122)
}

/// Encoding of one character: itself when plain, else `%` and two hex digits
/// of its low byte.
pub open spec fn encode_char(c: char) -> Seq<char> {
    if is_plain(c) {
        seq![c]
    } else {
        let b = (c as u32 % 256) as int;
        seq!['%', hex_digit(b / 16), hex_digit(b % 16)]
    }
}

/// Encoding of a whole string, character by character.
pub open spec fn encode_url(s: Seq<char>) -> Seq<char>
    decreases s.len(),
{
    if s.len() == 0 {
        Seq::empty()
    } else {
        encode_url(s.drop_last()) + encode_char(s.last())
    }
}

fn hex_str(n: u32) -> (r: &'static str)
    requires
        n < 16,
    ensures
        r@ == seq![hex_digit(n as int)],
{
    match n {
        0 => {
            proof { reveal_strlit("0"); }
            "0"
        },
        1 => {
            proof { reveal_strlit("1"); }
            "1"
        },
        2 => {
            proof { reveal_strlit("2"); }
            "2"
        },
        3 => {
            proof { reveal_strlit("3"); }
            "3"
        },
        4 => {
            proof { reveal_strlit("4"); }
            "4"
        },
        5 => {
            proof { reveal_strlit("5"); }
            "5"
        },
        6 => {
            proof { reveal_strlit("6"); }
            "6"
        },
        7 => {
            proof { reveal_strlit("7"); }
            "7"
        },
        8 => {
            proof { reveal_strlit("8"); }
            "8"
        },
        9 => {
            proof { reveal_strlit("9"); }
            "9"
        },
        10 => {
            proof { reveal_strlit("A"); }
            "A"
        },
        11 => {
            proof { reveal_strlit("B"); }
            "B"
        },
        12 => {
            proof { reveal_strlit("C"); }
            "C"
        },
        13 => {
            proof { reveal_strlit("D"); }
            "D"
        },
        14 => {
            proof { reveal_strlit("E"); }
            "E"
        },
        _ => {
            proof { reveal_strlit("F"); }
            "F"
        },
    }
}

/// Percent-encodes a string for a URL query component: ASCII letters and
/// digits stay, every other character becomes `%XX` of its low byte.
pub fn encode_url_component(input: &str) -> (r: String)
    ensures
        r@ == encode_url(input@),
{
    let n = input.unicode_len();
    let mut out = String::new();
    let mut i: usize = 0;
    while i < n
        invariant
            n == input@.len(),
            i <= n,
            out@ == encode_url(input@.subrange(0, i as int)),
        decreases n - i,
    {
        let c = input.get_char(i);
        let u = c as u32;
        let ghost prev = out@;
        assert(input@.subrange(0, i + 1).drop_last() =~= input@.subrange(0, i as int));
        if (48 <= u && u <= 57) || (65 <= u && u <= 90) || (97 <= u && u <= 122) {
            let piece = input.substring_char(i, i + 1);
            assert(piece@ =~= seq![c]);
            out.append(piece);
        } else {
            let b = u % 256;
            proof { reveal_strlit("%"); }
            out.append("%");
            out.append(hex_str(b / 16));
            out.append(hex_str(b % 16));
        }
        assert(out@ =~= prev + encode_char(c));
        i = i + 1;
        assert(out@ =~= encode_url(input@.subrange(0, i as int)));
    }
    assert(input@.subrange(0, n as int) =~= input@);
    out
}

/// `key=value` with both sides encoded.
pub open spec fn encode_pair(p: (String, String)) -> Seq<char> {
    encode_url(p.0@) + seq!['='] + encode_url(p.1@)
}

/// Encoded pairs joined with `&`.
pub open spec fn query_string(pairs: Seq<(String, String)>) -> Seq<char>
    decreases pairs.len(),
{
    if pairs.len() == 0 {
        Seq::empty()
    } else if pairs.len() == 1 {
        encode_pair(pairs[0])
    } else {
        query_string(pairs.drop_last()) + seq!['&'] + encode_pair(pairs.last())
    }
}

/// Encodes `key=value` pairs into a URL query string; `None` when the
/// string would be empty.
pub fn encode_query_params(pairs: &[(String, String)]) -> (r: Option<String>)
    ensures
        query_string(pairs@).len() == 0 ==> r is None,
        query_string(pairs@).len() > 0 ==> (r matches Some(q) && q@ == query_string(pairs@)),
{
    let mut out = String::new();
    let mut i: usize = 0;
    while i < pairs.len()
        invariant
            i <= pairs@.len(),
            out@ == query_string(pairs@.subrange(0, i as int)),
        decreases pairs@.len() - i,
    {
        let ghost prev = out@;
        assert(pairs@.subrange(0, i + 1).drop_last() =~= pairs@.subrange(0, i as int));
        if i > 0 {
            proof { reveal_strlit("&"); }
            out.append("&");
        }
        let k = encode_url_component(pairs[i].0.as_str());
        let v = encode_url_component(pairs[i].1.as_str());
        out.append(k.as_str());
        proof { reveal_strlit("="); }
        out.append("=");
        out.append(v.as_str());
        if i == 0 {
            assert(out@ =~= encode_pair(pairs@[0]));
        } else {
            assert(out@ =~= prev + seq!['&'] + encode_pair(pairs@[i as int]));
        }
        i = i + 1;
        assert(out@ =~= query_string(pairs@.subrange(0, i as int)));
    }
    assert(pairs@.subrange(0, pairs@.len() as int) =~= pairs@);
    if out.unicode_len() == 0 {
        None
    } else {
        Some(out)
    }
}

} // verus!
