use vstd::prelude::*;
use vstd::string::StrSliceExecFns;
use vstd::string::StringExecFns;

verus! {

/// The character for one decimal or low hexadecimal digit.
pub open spec fn digit_char(d: int) -> char {
    if d == 0 {
        '0'
    } else if d == 1 {
        '1'
    } else if d == 2 {
        '2'
    } else if d == 3 {
        '3'
    } else if d == 4 {
        '4'
    } else if d == 5 {
        '5'
    } else if d == 6 {
        '6'
    } else if d == 7 {
        '7'
    } else if d == 8 {
        '8'
    } else if d == 9 {
        '9'
    } else if d == 10 {
        'a'
    } else if d == 11 {
        'b'
    } else if d == 12 {
        'c'
    } else if d == 13 {
        'd'
    } else if d == 14 {
        'e'
    } else {
        'f'
    }
}

/// Decimal rendering of a natural number, most significant digit first.
pub open spec fn spec_dec(n: nat) -> Seq<char>
    decreases n,
{
    if n < 10 {
        seq![digit_char(n as int)]
    } else {
        spec_dec(n / 10) + seq![digit_char((n % 10) as int)]
    }
}

/// Two hexadecimal digit characters for one byte.
pub open spec fn spec_hex_byte(b: u8) -> Seq<char> {
    seq![digit_char(b as int / 16), digit_char(b as int % 16)]
}

/// Minimal hexadecimal rendering of a natural number, most significant digit
/// first; zero is the single digit `0`.
pub open spec fn spec_hex_nat(n: nat) -> Seq<char>
    decreases n,
{
    if n < 16 {
        seq![digit_char(n as int)]
    } else {
        spec_hex_nat(n / 16) + seq![digit_char((n % 16) as int)]
    }
}

/// Taking one more byte on the low end appends its two digits to the minimal
/// rendering.
pub proof fn lemma_hex_nat_step(v: nat, b: u8)
    requires
        v >= 1,
    ensures
        spec_hex_nat(v * 256 + b as nat) == spec_hex_nat(v) + spec_hex_byte(b),
{
    let n = v * 256 + b as nat;
    let m = v * 16 + b as nat / 16;
    assert(n >= 256 && n / 16 == m && n % 16 == b as nat % 16) by (nonlinear_arith)
        requires
            n == v * 256 + b as nat,
            m == v * 16 + b as nat / 16,
            v >= 1,
            b < 256,
    ;
    assert(m >= 16 && m / 16 == v && m % 16 == b as nat / 16) by (nonlinear_arith)
        requires
            m == v * 16 + b as nat / 16,
            v >= 1,
            b < 256,
    ;
    assert(spec_hex_nat(n) == spec_hex_nat(m) + seq![digit_char((n % 16) as int)]);
    assert(spec_hex_nat(m) == spec_hex_nat(v) + seq![digit_char((m % 16) as int)]);
    assert(spec_hex_nat(v) + seq![digit_char((m % 16) as int)] + seq![
        digit_char((n % 16) as int),
    ] =~= spec_hex_nat(v) + spec_hex_byte(b));
}

/// Hexadecimal digit characters for a byte string, two per byte.
pub open spec fn spec_hex_bytes(s: Seq<u8>) -> Seq<char>
    decreases s.len(),
{
    if s.len() == 0 {
        Seq::empty()
    } else {
        spec_hex_bytes(s.drop_last()) + spec_hex_byte(s.last())
    }
}

/// Adding a byte at the end appends its two digits.
pub proof fn lemma_hex_bytes_push(s: Seq<u8>, b: u8)
    ensures
        spec_hex_bytes(s.push(b)) == spec_hex_bytes(s) + spec_hex_byte(b),
{
    let p = s.push(b);
    assert(p.last() == b);
    assert(p.drop_last() =~= s);
}

/// Appends the character of one digit (below 16) to a string.
pub fn push_digit(s: &mut String, d: u8)
    requires
        d < 16,
    ensures
        final(s)@ == old(s)@ + seq![digit_char(d as int)],
{
    if d == 0 {
        s.append("0");
        proof {
            reveal_strlit("0");
            assert(old(s)@ + "0"@ =~= old(s)@ + seq![digit_char(0)]);
        }
    } else if d == 1 {
        s.append("1");
        proof {
            reveal_strlit("1");
            assert(old(s)@ + "1"@ =~= old(s)@ + seq![digit_char(1)]);
        }
    } else if d == 2 {
        s.append("2");
        proof {
            reveal_strlit("2");
            assert(old(s)@ + "2"@ =~= old(s)@ + seq![digit_char(2)]);
        }
    } else if d == 3 {
        s.append("3");
        proof {
            reveal_strlit("3");
            assert(old(s)@ + "3"@ =~= old(s)@ + seq![digit_char(3)]);
        }
    } else if d == 4 {
        s.append("4");
        proof {
            reveal_strlit("4");
            assert(old(s)@ + "4"@ =~= old(s)@ + seq![digit_char(4)]);
        }
    } else if d == 5 {
        s.append("5");
        proof {
            reveal_strlit("5");
            assert(old(s)@ + "5"@ =~= old(s)@ + seq![digit_char(5)]);
        }
    } else if d == 6 {
        s.append("6");
        proof {
            reveal_strlit("6");
            assert(old(s)@ + "6"@ =~= old(s)@ + seq![digit_char(6)]);
        }
    } else if d == 7 {
        s.append("7");
        proof {
            reveal_strlit("7");
            assert(old(s)@ + "7"@ =~= old(s)@ + seq![digit_char(7)]);
        }
    } else if d == 8 {
        s.append("8");
        proof {
            reveal_strlit("8");
            assert(old(s)@ + "8"@ =~= old(s)@ + seq![digit_char(8)]);
        }
    } else if d == 9 {
        s.append("9");
        proof {
            reveal_strlit("9");
            assert(old(s)@ + "9"@ =~= old(s)@ + seq![digit_char(9)]);
        }
    } else if d == 10 {
        s.append("a");
        proof {
            reveal_strlit("a");
            assert(old(s)@ + "a"@ =~= old(s)@ + seq![digit_char(10)]);
        }
    } else if d == 11 {
        s.append("b");
        proof {
            reveal_strlit("b");
            assert(old(s)@ + "b"@ =~= old(s)@ + seq![digit_char(11)]);
        }
    } else if d == 12 {
        s.append("c");
        proof {
            reveal_strlit("c");
            assert(old(s)@ + "c"@ =~= old(s)@ + seq![digit_char(12)]);
        }
    } else if d == 13 {
        s.append("d");
        proof {
            reveal_strlit("d");
            assert(old(s)@ + "d"@ =~= old(s)@ + seq![digit_char(13)]);
        }
    } else if d == 14 {
        s.append("e");
        proof {
            reveal_strlit("e");
            assert(old(s)@ + "e"@ =~= old(s)@ + seq![digit_char(14)]);
        }
    } else {
        s.append("f");
        proof {
            reveal_strlit("f");
            assert(old(s)@ + "f"@ =~= old(s)@ + seq![digit_char(15)]);
        }
    }
}

/// Appends the decimal rendering of a number to a string.
pub fn append_dec(s: &mut String, n: u64)
    ensures
        final(s)@ == old(s)@ + spec_dec(n as nat),
    decreases n,
{
    if n < 10 {
        push_digit(s, n as u8);
    } else {
        append_dec(s, n / 10);
        push_digit(s, (n % 10) as u8);
        proof {
            assert(old(s)@ + spec_dec((n / 10) as nat) + seq![
                digit_char((n % 10) as int),
            ] =~= old(s)@ + (spec_dec((n / 10) as nat) + seq![digit_char((n % 10) as int)]));
        }
    }
}

/// Decimal rendering of a number as a fresh string.
pub fn u64_to_dec(n: u64) -> (r: String)
    ensures
        r@ == spec_dec(n as nat),
{
    let mut s = String::new();
    append_dec(&mut s, n);
    proof {
        assert(Seq::<char>::empty() + spec_dec(n as nat) =~= spec_dec(n as nat));
    }
    s
}

/// Appends two hexadecimal digits for each byte of `bytes` from `from` on.
pub fn append_hex_bytes(s: &mut String, bytes: &Vec<u8>, from: usize)
    requires
        from <= bytes@.len(),
    ensures
        final(s)@ == old(s)@ + spec_hex_bytes(bytes@.subrange(from as int, bytes@.len() as int)),
{
    let mut i: usize = from;
    proof {
        assert(bytes@.subrange(from as int, from as int) =~= Seq::<u8>::empty());
        assert(s@ =~= s@ + spec_hex_bytes(bytes@.subrange(from as int, from as int)));
    }
    while i < bytes.len()
        invariant
            from <= i <= bytes@.len(),
            s@ == old(s)@ + spec_hex_bytes(bytes@.subrange(from as int, i as int)),
        decreases bytes@.len() - i,
    {
        let b = bytes[i];
        push_digit(s, b / 16);
        push_digit(s, b % 16);
        proof {
            let pre = bytes@.subrange(from as int, i as int);
            assert(bytes@.subrange(from as int, i + 1) =~= pre.push(b));
            lemma_hex_bytes_push(pre, b);
            assert(old(s)@ + spec_hex_bytes(pre) + seq![digit_char(b as int / 16)] + seq![
                digit_char(b as int % 16),
            ] =~= old(s)@ + spec_hex_bytes(pre.push(b)));
        }
        i = i + 1;
    }
    proof {
        assert(bytes@.subrange(from as int, i as int) =~= bytes@.subrange(
            from as int,
            bytes@.len() as int,
        ));
    }
}

/// One string ends with another.
pub open spec fn spec_ends_with(s: Seq<char>, suffix: Seq<char>) -> bool {
    suffix.len() <= s.len() && s.subrange(s.len() - suffix.len(), s.len() as int) == suffix
}

/// Executable suffix test on strings.
pub fn str_ends_with(s: &str, suffix: &str) -> (r: bool)
    ensures
        r == spec_ends_with(s@, suffix@),
{
    let n = s.unicode_len();
    let m = suffix.unicode_len();
    if m > n {
        return false;
    }
    let mut i: usize = 0;
    while i < m
        invariant
            i <= m,
            m <= n,
            n == s@.len(),
            m == suffix@.len(),
            forall|j: int| 0 <= j < i ==> s@[n - m + j] == suffix@[j],
        decreases m - i,
    {
        if s.get_char(n - m + i) != suffix.get_char(i) {
            proof {
                let tail = s@.subrange(s@.len() - suffix@.len(), s@.len() as int);
                assert(tail[i as int] == s@[n - m + i]);
            }
            return false;
        }
        i = i + 1;
    }
    proof {
        assert(s@.subrange(s@.len() - suffix@.len(), s@.len() as int) =~= suffix@);
    }
    true
}

/// Executable equality test on strings.
pub fn str_eq(a: &str, b: &str) -> (r: bool)
    ensures
        r == (a@ == b@),
{
    if a.unicode_len() != b.unicode_len() {
        return false;
    }
    let r = str_ends_with(a, b);
    proof {
        if spec_ends_with(a@, b@) {
            assert(a@.subrange(a@.len() - b@.len(), a@.len() as int) =~= a@);
        } else {
            if a@ == b@ {
                assert(a@.subrange(a@.len() - b@.len(), a@.len() as int) =~= b@);
            }
        }
    }
    r
}

} // verus!
