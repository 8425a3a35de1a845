//! Finding a function in a loaded module by its byte signature: a pattern
//! such as `55 8B EC ?? 56` of hexadecimal bytes and wildcards.
use vstd::prelude::*;

verus! {

/// The value of a hexadecimal digit, upper or lower case.
pub open spec fn hex_value(c: char) -> Option<int> {
    let v = c as u32 as int;
    if 48 <= v <= 57 {
        Some(v - 48)
    } else if 65 <= v <= 70 {
        Some(v - 55)
    } else if 97 <= v <= 102 {
        Some(v - 87)
    } else {
        None
    }
}

/// The first token of `s` and its length in characters: `??` or `?` for a
/// wildcard, two hexadecimal digits for a byte.
pub open spec fn first_token(s: Seq<char>) -> Option<(Option<u8>, int)> {
    if s.len() >= 2 && s[0] == '?' && s[1] == '?' {
        Some((None, 2))
    } else if s.len() >= 1 && s[0] == '?' {
        Some((None, 1))
    } else if s.len() >= 2 && hex_value(s[0]) is Some && hex_value(s[1]) is Some {
        Some((Some((hex_value(s[0])->0 * 16 + hex_value(s[1])->0) as u8), 2))
    } else {
        None
    }
}

/// The pattern that `s` writes: one or more tokens, each two after the
/// first preceded by a single space; `None` where `s` is not of that form.
pub open spec fn parse_pattern(s: Seq<char>) -> Option<Seq<Option<u8>>>
    decreases s.len(),
{
    match first_token(s) {
        None => None,
        Some((b, n)) => {
            let rest = s.skip(n);
            if rest.len() == 0 {
                Some(seq![b])
            } else if rest[0] == ' ' && rest.len() > 1 {
                match parse_pattern(rest.skip(1)) {
                    Some(t) => Some(seq![b] + t),
                    None => None,
                }
            } else {
                None
            }
        },
    }
}

/// Whether `pattern` matches `image` at offset `at`: every byte of the
/// pattern is a wildcard or equals the image's byte there.
pub open spec fn matches_at(image: Seq<u8>, pattern: Seq<Option<u8>>, at: int) -> bool {
    &&& 0 <= at
    &&& at + pattern.len() <= image.len()
    &&& forall|k: int|
        0 <= k < pattern.len() ==> (#[trigger] pattern[k] matches Some(b) ==> b == image[at + k])
}

fn hex_digit(c: char) -> (r: Option<u8>)
    ensures
        r matches Some(v) ==> hex_value(c) == Some(v as int),
        r is None ==> hex_value(c) is None,
{
    let v = c as u32;
    if 48 <= v && v <= 57 {
        Some((v - 48) as u8)
    } else if 65 <= v && v <= 70 {
        Some((v - 55) as u8)
    } else if 97 <= v && v <= 102 {
        Some((v - 87) as u8)
    } else {
        None
    }
}

fn token_at(chars: &Vec<char>, p: usize) -> (r: Option<(Option<u8>, usize)>)
    requires
        p <= chars@.len(),
    ensures
        match first_token(chars@.skip(p as int)) {
            Some((b, n)) => r == Some((b, n as usize)),
            None => r is None,
        },
{
    let ghost s = chars@.skip(p as int);
    let len = chars.len();
    if len - p >= 2 && chars[p] == '?' && chars[p + 1] == '?' {
        assert(s[0] == chars@[p as int] && s[1] == chars@[p + 1]);
        return Some((None, 2));
    }
    if p < len && chars[p] == '?' {
        assert(s[0] == chars@[p as int]);
        return Some((None, 1));
    }
    if len - p >= 2 {
        assert(s[0] == chars@[p as int] && s[1] == chars@[p + 1]);
        match (hex_digit(chars[p]), hex_digit(chars[p + 1])) {
            (Some(hi), Some(lo)) => {
                return Some((Some(hi * 16 + lo), 2));
            },
            _ => {
                return None;
            },
        }
    }
    None
}

/// The pattern that `signature` writes, or `None` where it is malformed.
pub fn parse_signature(signature: &str) -> (r: Option<Vec<Option<u8>>>)
    ensures
        match parse_pattern(signature@) {
            Some(p) => r matches Some(v) && v@ == p,
            None => r is None,
        },
{
    let mut chars: Vec<char> = Vec::new();
    for c in it: signature.chars()
        invariant
            it.seq() == signature@,
            chars@ == signature@.take(it.index() as int),
    {
        proof {
            broadcast use vstd::string::axiom_spec_iter;
        }
        chars.push(c);
        proof {
            assert(signature@.take(it.index() + 1) =~= signature@.take(it.index() as int).push(c));
        }
    }
    assert(chars@ =~= signature@);
    let len = chars.len();
    let mut out: Vec<Option<u8>> = Vec::new();
    let mut p: usize = 0;
    loop
        invariant
            len == chars@.len(),
            chars@ == signature@,
            p <= len,
            parse_pattern(signature@) == match parse_pattern(chars@.skip(p as int)) {
                Some(t) => Some(out@ + t),
                None => None::<Seq<Option<u8>>>,
            },
        decreases len - p,
    {
        let tok = token_at(&chars, p);
        match tok {
            None => {
                return None;
            },
            Some((b, n)) => {
                let ghost s = chars@.skip(p as int);
                let ghost rest = s.skip(n as int);
                let ghost old_out = out@;
                out.push(b);
                assert(out@ =~= old_out + seq![b]);
                let q = p + n;
                if q == len {
                    assert(parse_pattern(s) == Some(seq![b]));
                    return Some(out);
                }
                if chars[q] == ' ' && q + 1 < len {
                    assert(rest[0] == chars@[q as int]);
                    assert(rest.skip(1) =~= chars@.skip(q + 1));
                    proof {
                        match parse_pattern(rest.skip(1)) {
                            Some(t) => {
                                assert(old_out + (seq![b] + t) =~= out@ + t);
                            },
                            None => {},
                        }
                    }
                    p = q + 1;
                } else {
                    return None;
                }
            },
        }
    }
}

/// The first offset of `image` at which `pattern` matches, or `None` where
/// it matches nowhere.
pub fn find_pattern(image: &[u8], pattern: &Vec<Option<u8>>) -> (r: Option<usize>)
    ensures
        match r {
            Some(at) => matches_at(image@, pattern@, at as int) && forall|j: int|
                0 <= j < at ==> !matches_at(image@, pattern@, j),
            None => forall|j: int| !matches_at(image@, pattern@, j),
        },
{
    let ilen = image.len();
    let plen = pattern.len();
    if plen > ilen {
        return None;
    }
    let last = ilen - plen;
    let mut at: usize = 0;
    while at <= last
        invariant
            ilen == image@.len(),
            plen == pattern@.len(),
            last == ilen - plen,
            at <= last + 1,
            forall|j: int| 0 <= j < at ==> !matches_at(image@, pattern@, j),
        decreases last + 1 - at,
    {
        let mut k: usize = 0;
        let mut ok = true;
        while ok && k < plen
            invariant
                ilen == image@.len(),
                plen == pattern@.len(),
                at + plen <= ilen,
                k <= plen,
                ok ==> forall|m: int|
                    0 <= m < k ==> (#[trigger] pattern@[m] matches Some(b) ==> b == image@[at
                        + m]),
                !ok ==> !matches_at(image@, pattern@, at as int),
            decreases plen - k + (if ok { 1int } else { 0int }),
        {
            match pattern[k] {
                Some(b) => {
                    if b != image[at + k] {
                        ok = false;
                        assert(pattern@[k as int] matches Some(bb) && bb != image@[at + k]);
                    }
                },
                None => {},
            }
            if ok {
                k += 1;
            }
        }
        if ok {
            return Some(at);
        }
        at += 1;
    }
    proof {
        assert forall|j: int| !matches_at(image@, pattern@, j) by {
            if j > last {
                assert(!(j + pattern@.len() <= image@.len()));
            }
        }
    }
    None
}

/// The first offset of `image` at which the pattern that `signature`
/// writes matches; `None` where it matches nowhere or `signature` is
/// malformed.
pub fn find_signature(image: &[u8], signature: &str) -> (r: Option<usize>)
    ensures
        match parse_pattern(signature@) {
            Some(p) => match r {
                Some(at) => matches_at(image@, p, at as int) && forall|j: int|
                    0 <= j < at ==> !matches_at(image@, p, j),
                None => forall|j: int| !matches_at(image@, p, j),
            },
            None => r is None,
        },
{
    match parse_signature(signature) {
        Some(pattern) => find_pattern(image, &pattern),
        None => None,
    }
}

/// The hexadecimal digits in upper case, by value.
pub open spec fn upper_hex_digits() -> Seq<char> {
    seq!['0', '1', '2', '3', '4', '5', '6', '7', '8', '9', 'A', 'B', 'C', 'D', 'E', 'F']
}

/// The hexadecimal digits in lower case, by value.
pub open spec fn lower_hex_digits() -> Seq<char> {
    seq!['0', '1', '2', '3', '4', '5', '6', '7', '8', '9', 'a', 'b', 'c', 'd', 'e', 'f']
}

proof fn lemma_hex_digit_values(d: int)
    requires
        0 <= d < 16,
    ensures
        hex_value(upper_hex_digits()[d]) == Some(d),
        hex_value(lower_hex_digits()[d]) == Some(d),
{
    if d == 0 {
        assert(upper_hex_digits()[0] == '0' && lower_hex_digits()[0] == '0');
    } else if d == 1 {
        assert(upper_hex_digits()[1] == '1' && lower_hex_digits()[1] == '1');
    } else if d == 2 {
        assert(upper_hex_digits()[2] == '2' && lower_hex_digits()[2] == '2');
    } else if d == 3 {
        assert(upper_hex_digits()[3] == '3' && lower_hex_digits()[3] == '3');
    } else if d == 4 {
        assert(upper_hex_digits()[4] == '4' && lower_hex_digits()[4] == '4');
    } else if d == 5 {
        assert(upper_hex_digits()[5] == '5' && lower_hex_digits()[5] == '5');
    } else if d == 6 {
        assert(upper_hex_digits()[6] == '6' && lower_hex_digits()[6] == '6');
    } else if d == 7 {
        assert(upper_hex_digits()[7] == '7' && lower_hex_digits()[7] == '7');
    } else if d == 8 {
        assert(upper_hex_digits()[8] == '8' && lower_hex_digits()[8] == '8');
    } else if d == 9 {
        assert(upper_hex_digits()[9] == '9' && lower_hex_digits()[9] == '9');
    } else if d == 10 {
        assert(upper_hex_digits()[10] == 'A' && lower_hex_digits()[10] == 'a');
    } else if d == 11 {
        assert(upper_hex_digits()[11] == 'B' && lower_hex_digits()[11] == 'b');
    } else if d == 12 {
        assert(upper_hex_digits()[12] == 'C' && lower_hex_digits()[12] == 'c');
    } else if d == 13 {
        assert(upper_hex_digits()[13] == 'D' && lower_hex_digits()[13] == 'd');
    } else if d == 14 {
        assert(upper_hex_digits()[14] == 'E' && lower_hex_digits()[14] == 'e');
    } else if d == 15 {
        assert(upper_hex_digits()[15] == 'F' && lower_hex_digits()[15] == 'f');
    }
}

/// Every byte written as two hexadecimal digits, in upper or in lower case,
/// reads back as a pattern of that one byte.
pub proof fn lemma_byte_spelling_round_trips(b: u8)
    ensures
        parse_pattern(seq![upper_hex_digits()[(b / 16) as int], upper_hex_digits()[(b % 16) as int]]) == Some(
            seq![Some(b)],
        ),
        parse_pattern(seq![lower_hex_digits()[(b / 16) as int], lower_hex_digits()[(b % 16) as int]]) == Some(
            seq![Some(b)],
        ),
{
    let hi = b / 16;
    let lo = b % 16;
    lemma_hex_digit_values(hi as int);
    lemma_hex_digit_values(lo as int);
    assert(((hi * 16 + lo) as int) as u8 == b) by (bit_vector)
        requires
            hi == b / 16,
            lo == b % 16,
    ;
    let su = seq![upper_hex_digits()[hi as int], upper_hex_digits()[lo as int]];
    let sl = seq![lower_hex_digits()[hi as int], lower_hex_digits()[lo as int]];
    assert(su.skip(2) =~= Seq::<char>::empty());
    assert(sl.skip(2) =~= Seq::<char>::empty());
    assert(su[0] != '?');
    assert(sl[0] != '?');
}

/// Wildcards read as wildcards, and a signature of several tokens reads as
/// the first token followed by the pattern of the rest.
pub proof fn lemma_wildcards_and_sequences(rest: Seq<char>)
    ensures
        parse_pattern(seq!['?']) == Some(seq![None::<u8>]),
        parse_pattern(seq!['?', '?']) == Some(seq![None::<u8>]),
        parse_pattern(rest) is Some ==> parse_pattern(seq!['?', ' '] + rest) == Some(
            seq![None::<u8>] + parse_pattern(rest)->0,
        ),
{
    assert(seq!['?'].skip(1) =~= Seq::<char>::empty());
    assert(seq!['?', '?'].skip(2) =~= Seq::<char>::empty());
    let s = seq!['?', ' '] + rest;
    if parse_pattern(rest) is Some {
        assert(s[0] == '?');
        assert(s.skip(1)[0] == ' ');
        assert(s.skip(1).skip(1) =~= rest);
        assert(rest.len() > 0);
        if s.len() >= 2 && s[1] == '?' {
            assert(false);
        }
    }
}

} // verus!
