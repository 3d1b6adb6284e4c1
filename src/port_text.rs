use vstd::prelude::*;

verus! {

/// The largest value a TCP port can take.
pub const MAX_PORT: u32 = 65535;

/// ASCII whitespace: space, tab, line feed, vertical tab, form feed, carriage return.
pub open spec fn is_blank_byte(b: u8) -> bool {
    b == 32 || (9 <= b && b <= 13)
}

/// The UTF-8 encodings of the two-byte whitespace characters U+0085 and U+00A0.
pub open spec fn is_latin_blank(a: u8, b: u8) -> bool {
    a == 0xC2 && (b == 0x85 || b == 0xA0)
}

/// The UTF-8 encodings of the three-byte whitespace characters: U+1680,
/// U+2000 to U+200A, U+2028, U+2029, U+202F, U+205F and U+3000.
pub open spec fn is_wide_blank(a: u8, b: u8, c: u8) -> bool {
    (a == 0xE1 && b == 0x9A && c == 0x80) || (a == 0xE2 && b == 0x80 && ((0x80 <= c && c
        <= 0x8A) || c == 0xA8 || c == 0xA9 || c == 0xAF)) || (a == 0xE2 && b == 0x81 && c
        == 0x9F) || (a == 0xE3 && b == 0x80 && c == 0x80)
}

pub open spec fn is_digit_byte(b: u8) -> bool {
    48 <= b && b <= 57
}

pub open spec fn all_digits(s: Seq<u8>) -> bool {
    forall|i: int| 0 <= i < s.len() ==> is_digit_byte(#[trigger] s[i])
}

/// The length of the whitespace character that `s` ends with, in bytes;
/// zero when it ends with none. Whitespace is Unicode's White_Space, in UTF-8.
pub open spec fn blank_suffix_len(s: Seq<u8>) -> nat {
    let n = s.len();
    if n >= 1 && is_blank_byte(s[n - 1]) {
        1
    } else if n >= 2 && is_latin_blank(s[n - 2], s[n - 1]) {
        2
    } else if n >= 3 && is_wide_blank(s[n - 3], s[n - 2], s[n - 1]) {
        3
    } else {
        0
    }
}

/// `s` with its trailing whitespace removed.
pub open spec fn trim_end(s: Seq<u8>) -> Seq<u8>
    decreases s.len(),
{
    let k = blank_suffix_len(s);
    if k > 0 {
        trim_end(s.subrange(0, s.len() - k))
    } else {
        s
    }
}

/// The number that a run of decimal digits denotes, most significant first.
pub open spec fn digits_value(s: Seq<u8>) -> nat
    decreases s.len(),
{
    if s.len() == 0 {
        0
    } else {
        digits_value(s.drop_last()) * 10 + (s.last() - 48) as nat
    }
}

/// The decimal text of `n`, without sign or leading zeros.
pub open spec fn decimal(n: nat) -> Seq<u8>
    decreases n,
{
    if n < 10 {
        seq![(48 + n) as u8]
    } else {
        decimal(n / 10).push((48 + n % 10) as u8)
    }
}

/// What a piece of text holds when read as a port number.
#[derive(Clone, Copy, Debug, PartialEq, Eq, Structural)]
pub enum PortText {
    /// Nothing but whitespace.
    Blank,
    /// An optional `+`, decimal digits, then optional trailing whitespace,
    /// of a value that fits a port.
    Port(u16),
    /// Anything else: a stray character, or a value above the largest port.
    Malformed,
}

/// `t` without the `+` sign it may start with.
pub open spec fn unsigned_part(t: Seq<u8>) -> Seq<u8> {
    if t.len() > 0 && t[0] == 43 {
        t.drop_first()
    } else {
        t
    }
}

/// `s` read as a port number: trailing whitespace, in the sense of
/// `blank_suffix_len`, is ignored; what is left is blank, or an optional `+`
/// and at least one decimal digit, leading zeros allowed.
pub open spec fn port_text(s: Seq<u8>) -> PortText {
    let t = trim_end(s);
    let d = unsigned_part(t);
    if t.len() == 0 {
        PortText::Blank
    } else if d.len() > 0 && all_digits(d) && digits_value(d) <= MAX_PORT {
        PortText::Port(digits_value(d) as u16)
    } else {
        PortText::Malformed
    }
}

proof fn lemma_trim_end_of_prefix(s: Seq<u8>, n: int, k: int)
    requires
        0 < k <= n <= s.len(),
        k == blank_suffix_len(s.subrange(0, n)),
    ensures
        trim_end(s.subrange(0, n)) == trim_end(s.subrange(0, n - k)),
{
    assert(s.subrange(0, n).subrange(0, n - k) =~= s.subrange(0, n - k));
}

proof fn lemma_digits_value_step(t: Seq<u8>, i: int)
    requires
        0 <= i < t.len(),
    ensures
        digits_value(t.subrange(0, i + 1)) == digits_value(t.subrange(0, i)) * 10 + (t[i]
            - 48) as nat,
{
    assert(t.subrange(0, i + 1).drop_last() =~= t.subrange(0, i));
}

/// A prefix of a run of digits never denotes more than the whole run.
proof fn lemma_prefix_value_le(t: Seq<u8>, i: int)
    requires
        all_digits(t),
        0 <= i <= t.len(),
    ensures
        digits_value(t.subrange(0, i)) <= digits_value(t),
    decreases t.len(),
{
    if i == t.len() {
        assert(t.subrange(0, i) =~= t);
    } else {
        let u = t.drop_last();
        assert(all_digits(u)) by {
            assert forall|k: int| 0 <= k < u.len() implies is_digit_byte(#[trigger] u[k]) by {
                assert(u[k] == t[k]);
            }
        }
        lemma_prefix_value_le(u, i);
        assert(u.subrange(0, i) =~= t.subrange(0, i));
    }
}

/// The decimal text of a number is a non-empty run of digits with no
/// trailing whitespace, and it denotes that number.
pub proof fn lemma_decimal_reads_back(n: nat)
    ensures
        decimal(n).len() > 0,
        all_digits(decimal(n)),
        digits_value(decimal(n)) == n,
        trim_end(decimal(n)) == decimal(n),
    decreases n,
{
    let d = decimal(n);
    if n < 10 {
        assert(d.drop_last() =~= Seq::<u8>::empty());
        assert(digits_value(d.drop_last()) == 0);
        assert(d.last() == 48 + n);
    } else {
        lemma_decimal_reads_back(n / 10);
        assert(d.drop_last() =~= decimal(n / 10));
        assert(d.last() == 48 + n % 10);
        assert(n == (n / 10) * 10 + n % 10);
        assert forall|k: int| 0 <= k < d.len() implies is_digit_byte(#[trigger] d[k]) by {
            if k < d.len() - 1 {
                assert(d[k] == decimal(n / 10)[k]);
            }
        }
    }
}

/// The number of bytes left once trailing whitespace is removed.
pub fn trimmed_len(s: &[u8]) -> (n: usize)
    ensures
        n <= s@.len(),
        trim_end(s@) == s@.subrange(0, n as int),
{
    let mut n: usize = s.len();
    assert(s@.subrange(0, n as int) =~= s@);
    loop
        invariant
            n <= s@.len(),
            trim_end(s@) == trim_end(s@.subrange(0, n as int)),
        ensures
            n <= s@.len(),
            trim_end(s@) == s@.subrange(0, n as int),
        decreases n,
    {
        let k = blank_suffix_at(s, n);
        if k == 0 {
            assert(trim_end(s@.subrange(0, n as int)) == s@.subrange(0, n as int));
            break;
        }
        proof {
            lemma_trim_end_of_prefix(s@, n as int, k as int);
        }
        n = n - k;
    }
    n
}

/// The length of the whitespace character that the first `n` bytes of `s` end with.
fn blank_suffix_at(s: &[u8], n: usize) -> (k: usize)
    requires
        n <= s@.len(),
    ensures
        k == blank_suffix_len(s@.subrange(0, n as int)),
        k <= n,
{
    let ghost p = s@.subrange(0, n as int);
    if n >= 1 {
        let c = s[n - 1];
        assert(p[n - 1] == c);
        if c == 32 || (9 <= c && c <= 13) {
            return 1;
        }
        if n >= 2 {
            let b = s[n - 2];
            assert(p[n - 2] == b);
            if b == 0xC2 && (c == 0x85 || c == 0xA0) {
                return 2;
            }
            if n >= 3 {
                let a = s[n - 3];
                assert(p[n - 3] == a);
                if (a == 0xE1 && b == 0x9A && c == 0x80) || (a == 0xE2 && b == 0x80 && ((0x80
                    <= c && c <= 0x8A) || c == 0xA8 || c == 0xA9 || c == 0xAF)) || (a == 0xE2
                    && b == 0x81 && c == 0x9F) || (a == 0xE3 && b == 0x80 && c == 0x80) {
                    return 3;
                }
            }
        }
    }
    0
}

/// Reads `s` as a port number: an optional `+`, decimal digits, then any
/// trailing whitespace.
pub fn classify_port_text(s: &[u8]) -> (r: PortText)
    ensures
        r == port_text(s@),
{
    let n = trimmed_len(s);
    let ghost t = s@.subrange(0, n as int);
    if n == 0 {
        return PortText::Blank;
    }
    let start: usize = if s[0] == 43 {
        1
    } else {
        0
    };
    let ghost d = t.subrange(start as int, n as int);
    assert(d =~= unsigned_part(t));
    if start == n {
        return PortText::Malformed;
    }
    let mut value: u32 = 0;
    let mut i: usize = start;
    assert(d.subrange(0, 0) =~= Seq::<u8>::empty());
    while i < n
        invariant
            n <= s@.len(),
            start <= i <= n,
            t == s@.subrange(0, n as int),
            t == trim_end(s@),
            d == t.subrange(start as int, n as int),
            d == unsigned_part(t),
            t.len() > 0,
            all_digits(d.subrange(0, i - start)),
            value == digits_value(d.subrange(0, i - start)),
            value <= MAX_PORT,
        decreases n - i,
    {
        let b = s[i];
        let ghost j: int = i - start;
        assert(d[j] == b);
        if !(48 <= b && b <= 57) {
            assert(!all_digits(d));
            return PortText::Malformed;
        }
        proof {
            lemma_digits_value_step(d, j);
        }
        let next: u32 = value * 10 + (b - 48) as u32;
        assert(all_digits(d.subrange(0, j + 1))) by {
            let p = d.subrange(0, j + 1);
            assert forall|k: int| 0 <= k < p.len() implies is_digit_byte(#[trigger] p[k]) by {
                if k < j {
                    assert(p[k] == d.subrange(0, j)[k]);
                }
            }
        }
        if next > 65535 {
            proof {
                if all_digits(d) {
                    lemma_prefix_value_le(d, j + 1);
                }
            }
            return PortText::Malformed;
        }
        value = next;
        i = i + 1;
    }
    assert(d.subrange(0, n - start) =~= d);
    PortText::Port(value as u16)
}

fn append_decimal(n: u32, out: &mut Vec<u8>)
    ensures
        final(out)@ == old(out)@ + decimal(n as nat),
    decreases n,
{
    if n >= 10 {
        append_decimal(n / 10, out);
    }
    let digit: u8 = (48 + n % 10) as u8;
    out.push(digit);
    assert(final(out)@ =~= old(out)@ + decimal(n as nat));
}

/// The decimal text of a port number.
pub fn encode_port(port: u16) -> (r: Vec<u8>)
    ensures
        r@ == decimal(port as nat),
{
    let mut out: Vec<u8> = Vec::new();
    append_decimal(port as u32, &mut out);
    assert(out@ =~= decimal(port as nat));
    out
}

} // verus!
