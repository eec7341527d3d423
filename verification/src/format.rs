use vstd::prelude::*;
use vstd::string::StringExecFns;

use crate::felt::Felt;
use crate::felt::felts_view;
use crate::felt::lemma_be_nat_leading_zero;
use crate::felt::lemma_be_nat_pos;
use crate::felt::spec_be_nat;
use crate::strutil::digit_char;
use crate::strutil::spec_hex_byte;
use crate::strutil::spec_hex_bytes;
use crate::strutil::spec_hex_nat;
use crate::strutil::append_hex_bytes;
use crate::strutil::push_digit;

verus! {

/// A byte is printable ASCII: space through tilde.
pub open spec fn spec_is_printable(b: u8) -> bool {
    0x20 <= b <= 0x7e
}

/// Executable check that a byte is printable ASCII.
pub fn is_printable(b: u8) -> (r: bool)
    ensures
        r == spec_is_printable(b),
{
    0x20 <= b && b <= 0x7e
}

/// The byte string with its leading zero bytes removed.
pub open spec fn spec_stripped(s: Seq<u8>) -> Seq<u8>
    decreases s.len(),
{
    if s.len() == 0 || s[0] != 0 {
        s
    } else {
        spec_stripped(s.drop_first())
    }
}

/// If everything before `k` is zero and `k` starts a nonzero byte (or the end),
/// the stripped string is the tail from `k`.
pub proof fn lemma_stripped_at(s: Seq<u8>, k: int)
    requires
        0 <= k <= s.len(),
        forall|j: int| 0 <= j < k ==> s[j] == 0,
        k < s.len() ==> s[k] != 0,
    ensures
        spec_stripped(s) == s.subrange(k, s.len() as int),
    decreases k,
{
    if k == 0 {
        if s.len() == 0 || s[0] != 0 {
            assert(s.subrange(0, s.len() as int) =~= s);
        } else {
            assert(false);
        }
    } else {
        assert(s[0] == 0);
        let t = s.drop_first();
        lemma_stripped_at(t, k - 1);
        assert(t.subrange(k - 1, t.len() as int) =~= s.subrange(k, s.len() as int));
    }
}

/// A value is short-string encoded: after removing leading zeros, at least one
/// byte is left, no more than fit a word alongside its tag, and every byte is
/// printable ASCII.
pub open spec fn spec_is_short_string(s: Seq<u8>) -> bool {
    let t = spec_stripped(s);
    1 <= t.len() <= crate::felt::SHORT_STRING_WIDTH && forall|i: int|
        0 <= i < t.len() ==> spec_is_printable(#[trigger] t[i])
}

/// The characters of a short-string payload.
pub open spec fn spec_short_chars(t: Seq<u8>) -> Seq<char> {
    t.map(|i: int, b: u8| b as char)
}

/// Stripping leading zeros does not change the denoted number.
pub proof fn lemma_stripped_be_nat(s: Seq<u8>)
    ensures
        spec_be_nat(spec_stripped(s)) == spec_be_nat(s),
    decreases s.len(),
{
    if s.len() == 0 || s[0] != 0 {
    } else {
        lemma_be_nat_leading_zero(s);
        lemma_stripped_be_nat(s.drop_first());
    }
}

/// The minimal digits of a byte's own value: one digit below 16, two above.
pub open spec fn spec_hex_head(b: u8) -> Seq<char> {
    if b < 16 {
        seq![digit_char(b as int)]
    } else {
        spec_hex_byte(b)
    }
}

/// The minimal hexadecimal digits of the number a byte string denotes, when
/// its first byte is nonzero: the first byte's own minimal digits, then two
/// digits for each further byte.
pub proof fn lemma_hex_nat_of_bytes(s: Seq<u8>)
    requires
        s.len() >= 1,
        s[0] != 0,
    ensures
        spec_hex_nat(spec_be_nat(s)) == spec_hex_head(s[0]) + spec_hex_bytes(s.drop_first()),
    decreases s.len(),
{
    if s.len() == 1 {
        assert(s.drop_last() =~= Seq::<u8>::empty());
        assert(s.drop_first() =~= Seq::<u8>::empty());
        assert(spec_be_nat(Seq::<u8>::empty()) == 0);
        assert(spec_be_nat(s) == s[0] as nat);
        assert(spec_hex_bytes(s.drop_first()) =~= Seq::<char>::empty());
        let b = s[0];
        if b < 16 {
            assert(spec_hex_nat(b as nat) =~= seq![digit_char(b as int)]);
            assert(spec_hex_nat(b as nat) + spec_hex_bytes(s.drop_first()) =~= spec_hex_head(b));
        } else {
            assert(1 <= b as nat / 16 < 16);
            assert(spec_hex_nat(b as nat / 16) =~= seq![digit_char(b as int / 16)]);
            assert(spec_hex_nat(b as nat) == spec_hex_nat(b as nat / 16) + seq![
                digit_char((b as nat % 16) as int),
            ]);
            assert(spec_hex_nat(b as nat) =~= spec_hex_byte(b));
            assert(spec_hex_head(b) + spec_hex_bytes(s.drop_first()) =~= spec_hex_byte(b));
        }
    } else {
        let dl = s.drop_last();
        assert(dl[0] == s[0]);
        lemma_be_nat_pos(dl);
        lemma_hex_nat_of_bytes(dl);
        crate::strutil::lemma_hex_nat_step(spec_be_nat(dl), s.last());
        assert(s.drop_first() =~= dl.drop_first().push(s.last()));
        crate::strutil::lemma_hex_bytes_push(dl.drop_first(), s.last());
        assert(spec_hex_head(s[0]) + spec_hex_bytes(dl.drop_first()) + spec_hex_byte(s.last())
            =~= spec_hex_head(s[0]) + spec_hex_bytes(s.drop_first()));
    }
}

/// The rendering the backend itself gives a raw value when printed for
/// diagnostics: `0x` and the minimal hexadecimal digits of its number.
pub open spec fn spec_felt_debug(s: Seq<u8>) -> Seq<char> {
    seq!['0', 'x'] + spec_hex_nat(spec_be_nat(s))
}

/// Display form of one raw value: single-quoted text if short-string encoded,
/// a numeric literal otherwise.
pub open spec fn spec_format_felt(s: Seq<u8>) -> Seq<char> {
    if spec_is_short_string(s) {
        seq!['\''] + spec_short_chars(spec_stripped(s)) + seq!['\'']
    } else {
        spec_felt_debug(s)
    }
}

/// Relies on String::push: appending one character puts exactly that character
/// at the end; a byte below 0x80 converts to the character of the same code.
#[verifier::external_body]
fn push_byte_char(s: &mut String, b: u8)
    requires
        spec_is_printable(b),
    ensures
        final(s)@ == old(s)@ + seq![b as char],
{
    s.push(b as char);
}

/// Index of the first nonzero byte, or the length if all bytes are zero.
fn first_nonzero(bytes: &Vec<u8>) -> (k: usize)
    ensures
        k <= bytes@.len(),
        forall|j: int| 0 <= j < k ==> bytes@[j] == 0,
        k < bytes@.len() ==> bytes@[k as int] != 0,
        spec_stripped(bytes@) == bytes@.subrange(k as int, bytes@.len() as int),
{
    let mut k: usize = 0;
    while k < bytes.len()
        invariant
            k <= bytes@.len(),
            forall|j: int| 0 <= j < k ==> bytes@[j] == 0,
        decreases bytes@.len() - k,
    {
        if bytes[k] != 0 {
            proof {
                lemma_stripped_at(bytes@, k as int);
            }
            return k;
        }
        k = k + 1;
    }
    proof {
        lemma_stripped_at(bytes@, k as int);
    }
    k
}

/// Every byte from `from` on is printable ASCII.
fn all_printable(bytes: &Vec<u8>, from: usize) -> (r: bool)
    requires
        from <= bytes@.len(),
    ensures
        r == forall|j: int| from <= j < bytes@.len() ==> spec_is_printable(#[trigger] bytes@[j]),
{
    let mut i: usize = from;
    while i < bytes.len()
        invariant
            from <= i <= bytes@.len(),
            forall|j: int| from <= j < i ==> spec_is_printable(#[trigger] bytes@[j]),
        decreases bytes@.len() - i,
    {
        if !is_printable(bytes[i]) {
            return false;
        }
        i = i + 1;
    }
    true
}

/// Appends the value's own numeric rendering: `0x` and the minimal
/// hexadecimal digits of its number.
fn append_felt_debug(s: &mut String, f: &Felt)
    ensures
        final(s)@ == old(s)@ + spec_felt_debug(f@),
{
    let k = first_nonzero(&f.bytes);
    let len = f.bytes.len();
    s.append("0x");
    proof {
        reveal_strlit("0x");
        assert("0x"@ =~= seq!['0', 'x']);
        lemma_stripped_be_nat(f@);
    }
    if k == len {
        push_digit(s, 0);
        proof {
            assert(spec_stripped(f@) =~= Seq::<u8>::empty());
            assert(spec_be_nat(f@) == 0);
            assert(old(s)@ + "0x"@ + seq![digit_char(0)] =~= old(s)@ + spec_felt_debug(f@));
        }
    } else {
        let b = f.bytes[k];
        proof {
            let t = spec_stripped(f@);
            assert(t[0] == f@[k as int]);
        }
        if b < 16 {
            push_digit(s, b);
        } else {
            push_digit(s, b / 16);
            push_digit(s, b % 16);
            proof {
                let t = spec_stripped(f@);
                assert(old(s)@ + "0x"@ + seq![digit_char(b as int / 16)] + seq![
                    digit_char(b as int % 16),
                ] =~= old(s)@ + "0x"@ + spec_hex_head(t[0]));
            }
        }
        append_hex_bytes(s, &f.bytes, k + 1);
        proof {
            let t = spec_stripped(f@);
            lemma_hex_nat_of_bytes(t);
            assert(t.drop_first() =~= f@.subrange(k + 1, len as int));
            assert(old(s)@ + "0x"@ + spec_hex_head(t[0]) + spec_hex_bytes(t.drop_first())
                =~= old(s)@ + spec_felt_debug(f@));
        }
    }
}

/// Appends the display form of one raw value.
pub fn append_felt(s: &mut String, f: &Felt)
    ensures
        final(s)@ == old(s)@ + spec_format_felt(f@),
{
    let k = first_nonzero(&f.bytes);
    let len = f.bytes.len();
    let short = k < len && len - k <= crate::felt::SHORT_STRING_WIDTH && all_printable(
        &f.bytes,
        k,
    );
    proof {
        let t = spec_stripped(f@);
        assert(t =~= f@.subrange(k as int, len as int));
        if short {
            assert forall|j: int| 0 <= j < t.len() implies spec_is_printable(
                #[trigger] t[j],
            ) by {
                assert(t[j] == f.bytes@[k + j]);
            }
            assert(spec_is_short_string(f@));
        } else {
            if spec_is_short_string(f@) {
                assert(t.len() >= 1 && t.len() <= crate::felt::SHORT_STRING_WIDTH);
                assert(k < len && len - k <= crate::felt::SHORT_STRING_WIDTH);
                assert forall|j: int| k <= j < len implies spec_is_printable(
                    #[trigger] f.bytes@[j],
                ) by {
                    assert(f.bytes@[j] == t[j - k]);
                }
                assert(false);
            }
        }
    }
    if short {
        s.append("'");
        let mut j: usize = k;
        while j < len
            invariant
                k <= j <= len,
                len == f.bytes@.len(),
                forall|m: int| k <= m < len ==> spec_is_printable(#[trigger] f.bytes@[m]),
                s@ == old(s)@ + "'"@ + spec_short_chars(f.bytes@.subrange(k as int, j as int)),
            decreases len - j,
        {
            push_byte_char(s, f.bytes[j]);
            proof {
                let pre = f.bytes@.subrange(k as int, j as int);
                assert(f.bytes@.subrange(k as int, j + 1) =~= pre.push(f.bytes@[j as int]));
                assert(spec_short_chars(pre.push(f.bytes@[j as int])) =~= spec_short_chars(pre)
                    + seq![f.bytes@[j as int] as char]);
            }
            j = j + 1;
        }
        s.append("'");
        proof {
            reveal_strlit("'");
            assert("'"@ =~= seq!['\'']);
            let t = spec_stripped(f@);
            assert(f.bytes@.subrange(k as int, len as int) =~= t);
            assert(old(s)@ + "'"@ + spec_short_chars(t) + "'"@ =~= old(s)@ + (seq!['\'']
                + spec_short_chars(t) + seq!['\'']));
        }
    } else {
        append_felt_debug(s, f);
    }
}

/// An empty payload renders as the bare brackets.
pub proof fn lemma_format_values_empty()
    ensures
        spec_format_values(Seq::empty()) == seq!['[', ']'],
{
    assert(seq!['['] + spec_join_formatted(Seq::empty()) + seq![']'] =~= seq!['[', ']']);
}

/// Display form of a list of values: the forms joined by `", "` within
/// brackets; an empty list is `[]`.
pub open spec fn spec_format_values(vals: Seq<Seq<u8>>) -> Seq<char> {
    seq!['['] + spec_join_formatted(vals) + seq![']']
}

/// The joined display forms, separated by `", "`.
pub open spec fn spec_join_formatted(vals: Seq<Seq<u8>>) -> Seq<char>
    decreases vals.len(),
{
    if vals.len() == 0 {
        Seq::empty()
    } else if vals.len() == 1 {
        spec_format_felt(vals[0])
    } else {
        spec_join_formatted(vals.drop_last()) + seq![',', ' '] + spec_format_felt(vals.last())
    }
}

/// Renders a panic payload: each value quoted if short-string encoded, numeric
/// otherwise, joined by `", "` inside `[...]`.
pub fn format_panic_values(vs: &Vec<Felt>) -> (r: String)
    ensures
        r@ == spec_format_values(felts_view(vs@)),
{
    let mut s = String::new();
    s.append("[");
    proof {
        reveal_strlit("[");
        assert(s@ =~= seq!['[']);
        assert(felts_view(vs@).subrange(0, 0) =~= Seq::<Seq<u8>>::empty());
    }
    let mut i: usize = 0;
    while i < vs.len()
        invariant
            i <= vs@.len(),
            s@ == seq!['['] + spec_join_formatted(felts_view(vs@).subrange(0, i as int)),
        decreases vs@.len() - i,
    {
        if i > 0 {
            s.append(", ");
            proof {
                reveal_strlit(", ");
                assert(", "@ =~= seq![',', ' ']);
            }
        }
        append_felt(&mut s, &vs[i]);
        proof {
            let vals = felts_view(vs@);
            let pre = vals.subrange(0, i as int);
            assert(vals.subrange(0, i + 1) =~= pre.push(vals[i as int]));
            assert(vals[i as int] == vs@[i as int]@);
            if i == 0 {
                assert(spec_join_formatted(pre.push(vals[0])) == spec_format_felt(vals[0]));
                assert(s@ =~= seq!['['] + spec_join_formatted(vals.subrange(0, 1)));
            } else {
                let p = pre.push(vals[i as int]);
                assert(p.drop_last() =~= pre);
                assert(p.last() == vals[i as int]);
                assert(s@ =~= seq!['['] + spec_join_formatted(vals.subrange(0, i + 1)));
            }
        }
        i = i + 1;
    }
    s.append("]");
    proof {
        reveal_strlit("]");
        assert("]"@ =~= seq![']']);
        assert(felts_view(vs@).subrange(0, vs@.len() as int) =~= felts_view(vs@));
        assert(s@ =~= spec_format_values(felts_view(vs@)));
    }
    s
}

/// Display form of a list of returned values: each rendered numerically (a
/// successful return is not interpreted as text), joined by `", "` within
/// brackets.
pub open spec fn spec_render_values(vals: Seq<Seq<u8>>) -> Seq<char> {
    seq!['['] + spec_join_rendered(vals) + seq![']']
}

/// The joined numeric renderings, separated by `", "`.
pub open spec fn spec_join_rendered(vals: Seq<Seq<u8>>) -> Seq<char>
    decreases vals.len(),
{
    if vals.len() == 0 {
        Seq::empty()
    } else if vals.len() == 1 {
        spec_felt_debug(vals[0])
    } else {
        spec_join_rendered(vals.drop_last()) + seq![',', ' '] + spec_felt_debug(vals.last())
    }
}

/// Renders a successful return's value list numerically.
pub fn render_values(vs: &Vec<Felt>) -> (r: String)
    ensures
        r@ == spec_render_values(felts_view(vs@)),
{
    let mut s = String::new();
    s.append("[");
    proof {
        reveal_strlit("[");
        assert(s@ =~= seq!['[']);
        assert(felts_view(vs@).subrange(0, 0) =~= Seq::<Seq<u8>>::empty());
    }
    let mut i: usize = 0;
    while i < vs.len()
        invariant
            i <= vs@.len(),
            s@ == seq!['['] + spec_join_rendered(felts_view(vs@).subrange(0, i as int)),
        decreases vs@.len() - i,
    {
        if i > 0 {
            s.append(", ");
            proof {
                reveal_strlit(", ");
                assert(", "@ =~= seq![',', ' ']);
            }
        }
        append_felt_debug(&mut s, &vs[i]);
        proof {
            let vals = felts_view(vs@);
            let pre = vals.subrange(0, i as int);
            assert(vals.subrange(0, i + 1) =~= pre.push(vals[i as int]));
            assert(vals[i as int] == vs@[i as int]@);
            if i == 0 {
                assert(spec_join_rendered(pre.push(vals[0])) == spec_felt_debug(vals[0]));
                assert(s@ =~= seq!['['] + spec_join_rendered(vals.subrange(0, 1)));
            } else {
                let p = pre.push(vals[i as int]);
                assert(p.drop_last() =~= pre);
                assert(p.last() == vals[i as int]);
                assert(s@ =~= seq!['['] + spec_join_rendered(vals.subrange(0, i + 1)));
            }
        }
        i = i + 1;
    }
    s.append("]");
    proof {
        reveal_strlit("]");
        assert("]"@ =~= seq![']']);
        assert(felts_view(vs@).subrange(0, vs@.len() as int) =~= felts_view(vs@));
        assert(s@ =~= spec_render_values(felts_view(vs@)));
    }
    s
}

/// One rendered memory cell: the value in hexadecimal, or `_` for a cell that
/// was never allocated, each followed by `", "`.
pub open spec fn spec_memory_cell(cell: Option<Seq<u8>>) -> Seq<char> {
    match cell {
        None => seq!['_', ',', ' '],
        Some(v) => spec_felt_debug(v) + seq![',', ' '],
    }
}

/// The rendered memory cells, in address order.
pub open spec fn spec_memory_cells(cells: Seq<Option<Seq<u8>>>) -> Seq<char>
    decreases cells.len(),
{
    if cells.len() == 0 {
        Seq::empty()
    } else {
        spec_memory_cells(cells.drop_last()) + spec_memory_cell(cells.last())
    }
}

/// Appends the full memory dump: every cell rendered or a placeholder, in
/// address order, within `Full memory: [...]`.
pub fn append_memory(s: &mut String, cells: &Vec<Option<Felt>>)
    ensures
        final(s)@ == old(s)@ + "Full memory: ["@ + spec_memory_cells(cells.deep_view()) + "]"@,
{
    s.append("Full memory: [");
    proof {
        assert(cells.deep_view().subrange(0, 0) =~= Seq::<Option<Seq<u8>>>::empty());
        assert(s@ =~= old(s)@ + "Full memory: ["@ + spec_memory_cells(
            cells.deep_view().subrange(0, 0),
        ));
    }
    let mut i: usize = 0;
    while i < cells.len()
        invariant
            i <= cells@.len(),
            s@ == old(s)@ + "Full memory: ["@ + spec_memory_cells(
                cells.deep_view().subrange(0, i as int),
            ),
        decreases cells@.len() - i,
    {
        match &cells[i] {
            None => {
                s.append("_, ");
                proof {
                    reveal_strlit("_, ");
                    assert("_, "@ =~= seq!['_', ',', ' ']);
                }
            },
            Some(f) => {
                append_felt_debug(s, f);
                s.append(", ");
                proof {
                    reveal_strlit(", ");
                    assert(", "@ =~= seq![',', ' ']);
                }
            },
        }
        proof {
            let cv = cells.deep_view();
            let pre = cv.subrange(0, i as int);
            let p = cv.subrange(0, i + 1);
            assert(p =~= pre.push(cv[i as int]));
            assert(p.drop_last() =~= pre);
            assert(p.last() == cv[i as int]);
            match cells@[i as int] {
                None => {
                    assert(cv[i as int] is None);
                },
                Some(f) => {
                    assert(cv[i as int] == Some(f@));
                },
            }
            assert(s@ =~= old(s)@ + "Full memory: ["@ + spec_memory_cells(p));
        }
        i = i + 1;
    }
    s.append("]");
    proof {
        assert(cells.deep_view().subrange(0, cells@.len() as int) =~= cells.deep_view());
        assert(s@ =~= old(s)@ + "Full memory: ["@ + spec_memory_cells(cells.deep_view()) + "]"@);
    }
}

} // verus!
