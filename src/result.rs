//! Hexadecimal text for digests.

use vstd::prelude::*;

verus! {

/// The upper-case hexadecimal digits.
pub open spec fn hex_digits() -> Seq<char> {
    seq!['0', '1', '2', '3', '4', '5', '6', '7', '8', '9', 'A', 'B', 'C', 'D', 'E', 'F']
}

/// The bytes as upper-case hexadecimal text, two digits per byte, in order.
pub open spec fn hex_upper(bytes: Seq<u8>) -> Seq<char>
    decreases bytes.len(),
{
    if bytes.len() == 0 {
        Seq::empty()
    } else {
        hex_upper(bytes.drop_last()) + seq![
            hex_digits()[bytes.last() as int / 16],
            hex_digits()[bytes.last() as int % 16],
        ]
    }
}

pub proof fn lemma_hex_upper_len(bytes: Seq<u8>)
    ensures
        hex_upper(bytes).len() == 2 * bytes.len(),
    decreases bytes.len(),
{
    if bytes.len() > 0 {
        lemma_hex_upper_len(bytes.drop_last());
    }
}

pub proof fn lemma_trim_zeros_len(s: Seq<char>)
    ensures
        trim_zeros(s).len() <= s.len(),
        s.len() >= 2 ==> trim_zeros(s).len() >= 2,
    decreases s.len(),
{
    if s.len() > 2 && s[0] == '0' {
        lemma_trim_zeros_len(s.drop_first());
    }
}

/// Text with its leading zeros dropped, down to two characters.
pub open spec fn trim_zeros(s: Seq<char>) -> Seq<char>
    decreases s.len(),
{
    if s.len() > 2 && s[0] == '0' {
        trim_zeros(s.drop_first())
    } else {
        s
    }
}

/// A number given by its big-endian bytes, as upper-case hexadecimal text without
/// leading zeros and with at least two digits.
pub open spec fn hex_number(bytes: Seq<u8>) -> Seq<char> {
    trim_zeros(hex_upper(bytes))
}

/// Whether text is hexadecimal in digit pairs, of either case.
pub open spec fn is_hex_char(c: char) -> bool {
    ('0' <= c && c <= '9') || ('a' <= c && c <= 'f') || ('A' <= c && c <= 'F')
}

pub open spec fn is_hex_text(s: Seq<char>) -> bool {
    &&& s.len() % 2 == 0
    &&& forall|i: int| 0 <= i < s.len() ==> is_hex_char(#[trigger] s[i])
}

/// The value of a hexadecimal digit of either case.
pub open spec fn hex_value(c: char) -> nat {
    if '0' <= c && c <= '9' {
        (c as int - '0' as int) as nat
    } else if 'a' <= c && c <= 'f' {
        (c as int - 'a' as int + 10) as nat
    } else {
        (c as int - 'A' as int + 10) as nat
    }
}

/// The bytes that hexadecimal text in digit pairs denotes.
pub open spec fn hex_decoded(s: Seq<char>) -> Seq<u8>
    decreases s.len(),
{
    if s.len() < 2 {
        Seq::empty()
    } else {
        hex_decoded(s.subrange(0, s.len() - 2)) + seq![
            (hex_value(s[s.len() - 2]) * 16 + hex_value(s[s.len() - 1])) as u8,
        ]
    }
}

#[verifier::external_type_specification]
#[verifier::external_body]
pub struct ExFromHexError(hex::FromHexError);

/// Relies on hex's `decode`: digits of either case, two per byte; an odd length or any
/// other character is an error.
#[verifier::external_body]
fn decode_hex(s: &str) -> (r: Result<Vec<u8>, hex::FromHexError>)
    ensures
        r is Ok <==> is_hex_text(s@),
        r is Ok ==> r->Ok_0@ == hex_decoded(s@),
{
    hex::decode(s)
}

/// The one-character text of a digit.
fn digit_text(d: u8) -> (r: &'static str)
    requires
        d < 16,
    ensures
        r@ == seq![hex_digits()[d as int]],
{
    match d {
        0 => {
            proof { reveal_strlit("0"); }
            "0"
        },
        1 => {
            proof { reveal_strlit("1"); }
            "1"
        },
        2 => {
            proof { reveal_strlit("2"); }
            "2"
        },
        3 => {
            proof { reveal_strlit("3"); }
            "3"
        },
        4 => {
            proof { reveal_strlit("4"); }
            "4"
        },
        5 => {
            proof { reveal_strlit("5"); }
            "5"
        },
        6 => {
            proof { reveal_strlit("6"); }
            "6"
        },
        7 => {
            proof { reveal_strlit("7"); }
            "7"
        },
        8 => {
            proof { reveal_strlit("8"); }
            "8"
        },
        9 => {
            proof { reveal_strlit("9"); }
            "9"
        },
        10 => {
            proof { reveal_strlit("A"); }
            "A"
        },
        11 => {
            proof { reveal_strlit("B"); }
            "B"
        },
        12 => {
            proof { reveal_strlit("C"); }
            "C"
        },
        13 => {
            proof { reveal_strlit("D"); }
            "D"
        },
        14 => {
            proof { reveal_strlit("E"); }
            "E"
        },
        15 => {
            proof { reveal_strlit("F"); }
            "F"
        },
        _ => {
            proof { reveal_strlit("F"); }
            "F"
        },
    }
}

/// The digits of each byte, high digit first.
fn nibbles(bytes: &[u8]) -> (r: Vec<u8>)
    ensures
        r@.len() == 2 * bytes@.len(),
        forall|i: int| 0 <= i < r@.len() ==> #[trigger] r@[i] < 16,
        r@.map_values(|d: u8| hex_digits()[d as int]) == hex_upper(bytes@),
{
    let mut r: Vec<u8> = Vec::new();
    let mut i: usize = 0;
    while i < bytes.len()
        invariant
            i <= bytes@.len(),
            r@.len() == 2 * i,
            forall|k: int| 0 <= k < r@.len() ==> #[trigger] r@[k] < 16,
            r@.map_values(|d: u8| hex_digits()[d as int]) == hex_upper(bytes@.subrange(0, i as int)),
        decreases bytes@.len() - i,
    {
        let b = bytes[i];
        let ghost before = r@;
        r.push(b / 16);
        r.push(b % 16);
        let ghost pre = bytes@.subrange(0, i + 1);
        assert(pre.drop_last() =~= bytes@.subrange(0, i as int));
        assert(pre.last() == b);
        assert(r@.map_values(|d: u8| hex_digits()[d as int]) =~= before.map_values(
            |d: u8| hex_digits()[d as int],
        ) + seq![hex_digits()[b as int / 16], hex_digits()[b as int % 16]]);
        i = i + 1;
    }
    assert(bytes@.subrange(0, i as int) =~= bytes@);
    r
}

/// Writes the digits `digits[from..]` as text.
fn digits_text(digits: &Vec<u8>, from: usize) -> (r: String)
    requires
        from <= digits@.len(),
        forall|i: int| 0 <= i < digits@.len() ==> #[trigger] digits@[i] < 16,
    ensures
        r@ == digits@.subrange(from as int, digits@.len() as int).map_values(
            |d: u8| hex_digits()[d as int],
        ),
{
    let mut r = String::new();
    let mut i: usize = from;
    while i < digits.len()
        invariant
            from <= i <= digits@.len(),
            forall|k: int| 0 <= k < digits@.len() ==> #[trigger] digits@[k] < 16,
            r@ == digits@.subrange(from as int, i as int).map_values(|d: u8| hex_digits()[d as int]),
        decreases digits@.len() - i,
    {
        r.append(digit_text(digits[i]));
        assert(digits@.subrange(from as int, i + 1).map_values(|d: u8| hex_digits()[d as int])
            =~= digits@.subrange(from as int, i as int).map_values(|d: u8| hex_digits()[d as int])
            + seq![hex_digits()[digits@[i as int] as int]]);
        i = i + 1;
    }
    r
}

proof fn lemma_trim_zeros(s: Seq<char>, k: int)
    requires
        0 <= k <= s.len(),
        forall|i: int| 0 <= i < k ==> s[i] == '0',
        k == s.len() || s.len() - k <= 2 || s[k] != '0',
        s.len() >= 2 ==> s.len() - k >= 2,
        s.len() < 2 ==> k == 0,
    ensures
        trim_zeros(s) == s.subrange(k, s.len() as int),
    decreases k,
{
    if k == 0 {
        assert(s.subrange(0, s.len() as int) =~= s);
    } else {
        assert(s[0] == '0');
        lemma_trim_zeros(s.drop_first(), k - 1);
        assert(s.drop_first().subrange(k - 1, s.len() - 1) =~= s.subrange(k, s.len() as int));
    }
}

/// Text for a digest: a string of upper-case hexadecimal.
pub struct HashResult(pub String);

impl HashResult {
    /// Each byte as two upper-case hexadecimal digits, in order.
    pub fn from_bytes(bytes: &[u8]) -> (r: Self)
        ensures
            r.0@ == hex_upper(bytes@),
            r.0@.len() == 2 * bytes@.len(),
    {
        proof { lemma_hex_upper_len(bytes@); }
        let d = nibbles(bytes);
        let s = digits_text(&d, 0);
        assert(d@.subrange(0, d@.len() as int) =~= d@);
        HashResult(s)
    }

    /// The number that `bytes` gives most significant byte first, in upper-case
    /// hexadecimal without leading zeros and with at least two digits.
    pub fn from_number(bytes: &[u8]) -> (r: Self)
        ensures
            r.0@ == hex_number(bytes@),
            r.0@.len() <= 2 * bytes@.len(),
            bytes@.len() > 0 ==> r.0@.len() >= 2,
    {
        proof {
            lemma_hex_upper_len(bytes@);
            lemma_trim_zeros_len(hex_upper(bytes@));
        }
        let d = nibbles(bytes);
        let n = d.len();
        let mut k: usize = 0;
        while k + 2 < n && d[k] == 0
            invariant
                n == d@.len(),
                k <= n,
                n >= 2 ==> k + 2 <= n,
                n < 2 ==> k == 0,
                forall|i: int| 0 <= i < k ==> d@[i] == 0,
            decreases n - k,
        {
            k = k + 1;
        }
        let s = digits_text(&d, k);
        proof {
            let text = d@.map_values(|x: u8| hex_digits()[x as int]);
            assert forall|i: int| 0 <= i < k implies text[i] == '0' by {
                assert(d@[i] == 0);
            }
            if k + 2 < n {
                assert(d@[k as int] != 0);
                assert(d@[k as int] < 16);
                assert(text[k as int] == hex_digits()[d@[k as int] as int]);
                assert(hex_digits()[d@[k as int] as int] != '0');
            }
            lemma_trim_zeros(text, k as int);
            assert(text.subrange(k as int, n as int) =~= d@.subrange(k as int, n as int).map_values(
                |x: u8| hex_digits()[x as int],
            ));
        }
        HashResult(s)
    }

    /// Whether the text can be read back as bytes: hexadecimal in digit pairs.
    pub fn is_hex(&self) -> (r: bool)
        ensures
            r == is_hex_text(self.0@),
    {
        decode_hex(self.0.as_str()).is_ok()
    }

    /// The same bytes in the opposite order: the digest read with the other byte
    /// order.
    pub fn flip_endian(&self) -> (r: Self)
        requires
            is_hex_text(self.0@),
        ensures
            r.0@ == hex_upper(hex_decoded(self.0@).reverse()),
            r.0@.len() == 2 * hex_decoded(self.0@).len(),
    {
        match decode_hex(self.0.as_str()) {
            Ok(data) => {
                let mut flipped: Vec<u8> = Vec::new();
                let n = data.len();
                let mut i: usize = 0;
                while i < n
                    invariant
                        n == data@.len(),
                        i <= n,
                        flipped@ == data@.reverse().subrange(0, i as int),
                    decreases n - i,
                {
                    flipped.push(data[n - 1 - i]);
                    assert(data@.reverse().subrange(0, i + 1) =~= data@.reverse().subrange(0, i as int).push(data@[n - 1 - i]));
                    i = i + 1;
                }
                assert(data@.reverse().subrange(0, n as int) =~= data@.reverse());
                HashResult::from_bytes(flipped.as_slice())
            },
            Err(_) => HashResult(String::new()),
        }
    }
}

} // verus!
