use vstd::prelude::*;

verus! {

/// Width in bytes of one raw word of the execution backend.
pub const FELT_WIDTH: usize = 32;

/// Most bytes a packed short string may occupy inside one word.
pub const SHORT_STRING_WIDTH: usize = 31;

/// One raw field value as the execution backend hands it out: a fixed-width
/// big-endian byte representation.
pub struct Felt {
    pub bytes: Vec<u8>,
}

impl View for Felt {
    type V = Seq<u8>;

    open spec fn view(&self) -> Seq<u8> {
        self.bytes@
    }
}

impl DeepView for Felt {
    type V = Seq<u8>;

    open spec fn deep_view(&self) -> Seq<u8> {
        self.bytes@
    }
}

impl Felt {
    /// A well-formed value carries exactly one word of bytes.
    pub open spec fn wf(&self) -> bool {
        self.bytes@.len() == FELT_WIDTH
    }

    /// Builds a value from a full-width byte vector.
    pub fn new(bytes: Vec<u8>) -> (r: Felt)
        requires
            bytes@.len() == FELT_WIDTH,
        ensures
            r@ == bytes@,
            r.wf(),
    {
        Felt { bytes }
    }

    /// Builds a value from its low-order bytes, padding with leading zeros.
    pub fn from_low_bytes(tail: Vec<u8>) -> (r: Felt)
        requires
            tail@.len() <= FELT_WIDTH,
        ensures
            r.wf(),
            r@ == Seq::new((FELT_WIDTH - tail@.len()) as nat, |i: int| 0u8) + tail@,
    {
        let pad: usize = FELT_WIDTH - tail.len();
        let mut bytes: Vec<u8> = Vec::new();
        let mut i: usize = 0;
        while i < pad
            invariant
                i <= pad,
                bytes@ =~= Seq::new(i as nat, |j: int| 0u8),
            decreases pad - i,
        {
            bytes.push(0u8);
            i = i + 1;
        }
        let mut k: usize = 0;
        while k < tail.len()
            invariant
                k <= tail@.len(),
                tail@.len() + pad == FELT_WIDTH,
                bytes@ =~= Seq::new(pad as nat, |j: int| 0u8) + tail@.subrange(0, k as int),
            decreases tail@.len() - k,
        {
            bytes.push(tail[k]);
            k = k + 1;
        }
        proof {
            assert(bytes@ =~= Seq::new(pad as nat, |j: int| 0u8) + tail@);
        }
        Felt { bytes }
    }

    /// Byte-for-byte copy of the value.
    pub fn duplicate(&self) -> (r: Felt)
        ensures
            r@ == self@,
    {
        let mut bytes: Vec<u8> = Vec::new();
        let mut i: usize = 0;
        while i < self.bytes.len()
            invariant
                i <= self.bytes@.len(),
                bytes@ =~= self.bytes@.subrange(0, i as int),
            decreases self.bytes@.len() - i,
        {
            bytes.push(self.bytes[i]);
            i = i + 1;
        }
        proof {
            assert(bytes@ =~= self.bytes@);
        }
        Felt { bytes }
    }

    /// Structural equality of two raw values.
    pub fn eq_felt(&self, other: &Felt) -> (r: bool)
        ensures
            r == (self@ == other@),
    {
        if self.bytes.len() != other.bytes.len() {
            proof {
                assert(self@.len() != other@.len());
            }
            return false;
        }
        let mut i: usize = 0;
        while i < self.bytes.len()
            invariant
                i <= self.bytes@.len(),
                self.bytes@.len() == other.bytes@.len(),
                forall|j: int| 0 <= j < i ==> self.bytes@[j] == other.bytes@[j],
            decreases self.bytes@.len() - i,
        {
            if self.bytes[i] != other.bytes[i] {
                return false;
            }
            i = i + 1;
        }
        proof {
            assert(self@ =~= other@);
        }
        true
    }

    /// Reads the low eight bytes as a big-endian number.
    pub fn low_u64(&self) -> (r: u64)
        requires
            self.wf(),
        ensures
            r as nat == spec_low_u64(self@),
    {
        let len = self.bytes.len();
        let from = len - 8;
        let mut acc: u64 = 0;
        let mut i: usize = from;
        proof {
            assert(self@.subrange(from as int, from as int) =~= Seq::<u8>::empty());
            assert(pow256(0) == 1);
            assert(pow256(1) == 256);
            assert(pow256(2) == 0x10000);
            assert(pow256(3) == 0x1000000);
            assert(pow256(4) == 0x100000000);
            assert(pow256(5) == 0x10000000000);
            assert(pow256(6) == 0x1000000000000);
            assert(pow256(7) == 0x100000000000000);
        }
        while i < len
            invariant
                from <= i <= len,
                len == self@.len() == FELT_WIDTH,
                from == len - 8,
                acc as nat == spec_be_nat(self@.subrange(from as int, i as int)),
                pow256(7) == 0x100000000000000,
            decreases len - i,
        {
            proof {
                let pre = self@.subrange(from as int, i as int);
                lemma_be_nat_bound(pre);
                assert(pre.len() <= 7);
                assert(pow256(pre.len()) <= pow256(7)) by {
                    lemma_pow256_le(pre.len(), 7);
                }
                assert(self@.subrange(from as int, i + 1).drop_last() =~= pre);
            }
            acc = acc * 256 + (self.bytes[i] as u64);
            i = i + 1;
        }
        proof {
            assert(self@.subrange(from as int, len as int) =~= self@.subrange(
                self@.len() - 8,
                self@.len() as int,
            ));
        }
        acc
    }
}

/// The number a big-endian byte string denotes.
pub open spec fn spec_be_nat(s: Seq<u8>) -> nat
    decreases s.len(),
{
    if s.len() == 0 {
        0
    } else {
        spec_be_nat(s.drop_last()) * 256 + s.last() as nat
    }
}

/// 256 raised to a power.
pub open spec fn pow256(n: nat) -> nat
    decreases n,
{
    if n == 0 {
        1nat
    } else {
        pow256((n - 1) as nat) * 256
    }
}

/// A byte string denotes less than 256 to its length.
pub proof fn lemma_be_nat_bound(s: Seq<u8>)
    ensures
        spec_be_nat(s) < pow256(s.len()),
    decreases s.len(),
{
    if s.len() == 0 {
    } else {
        lemma_be_nat_bound(s.drop_last());
        assert(spec_be_nat(s.drop_last()) * 256 + s.last() < pow256((s.len() - 1) as nat) * 256)
            by (nonlinear_arith)
            requires
                spec_be_nat(s.drop_last()) < pow256((s.len() - 1) as nat),
                s.last() < 256,
        ;
    }
}

/// A leading zero byte does not change the denoted number.
pub proof fn lemma_be_nat_leading_zero(s: Seq<u8>)
    requires
        s.len() >= 1,
        s[0] == 0,
    ensures
        spec_be_nat(s) == spec_be_nat(s.drop_first()),
    decreases s.len(),
{
    if s.len() == 1 {
        assert(s.drop_last() =~= Seq::<u8>::empty());
        assert(s.drop_first() =~= Seq::<u8>::empty());
    } else {
        let dl = s.drop_last();
        lemma_be_nat_leading_zero(dl);
        assert(s.drop_first().drop_last() =~= dl.drop_first());
        assert(s.drop_first().last() == s.last());
    }
}

/// A byte string with a nonzero first byte denotes a positive number.
pub proof fn lemma_be_nat_pos(s: Seq<u8>)
    requires
        s.len() >= 1,
        s[0] != 0,
    ensures
        spec_be_nat(s) >= 1,
    decreases s.len(),
{
    if s.len() == 1 {
        assert(s.drop_last() =~= Seq::<u8>::empty());
    } else {
        lemma_be_nat_pos(s.drop_last());
    }
}

/// The value of the low word of a raw value: its last eight bytes read as a
/// big-endian number.
pub open spec fn spec_low_u64(s: Seq<u8>) -> nat {
    spec_be_nat(s.subrange(s.len() - 8, s.len() as int))
}

/// Powers of 256 grow with the exponent.
pub proof fn lemma_pow256_le(a: nat, b: nat)
    requires
        a <= b,
    ensures
        pow256(a) <= pow256(b),
    decreases b,
{
    if a < b {
        lemma_pow256_le(a, (b - 1) as nat);
        assert(pow256(b) == pow256((b - 1) as nat) * 256);
        assert(pow256((b - 1) as nat) * 1 <= pow256((b - 1) as nat) * 256) by (nonlinear_arith);
    }
}

/// The views of a sequence of raw values.
pub open spec fn felts_view(s: Seq<Felt>) -> Seq<Seq<u8>> {
    s.map(|i: int, f: Felt| f@)
}

/// Every value in the vector is well formed.
pub open spec fn felts_wf(s: Seq<Felt>) -> bool {
    forall|i: int| 0 <= i < s.len() ==> (#[trigger] s[i]).wf()
}

/// Structural equality of two lists of raw values.
pub fn felts_eq(a: &Vec<Felt>, b: &Vec<Felt>) -> (r: bool)
    ensures
        r == (felts_view(a@) == felts_view(b@)),
{
    if a.len() != b.len() {
        proof {
            assert(felts_view(a@).len() != felts_view(b@).len());
        }
        return false;
    }
    let mut i: usize = 0;
    while i < a.len()
        invariant
            i <= a@.len(),
            a@.len() == b@.len(),
            forall|j: int| 0 <= j < i ==> felts_view(a@)[j] == felts_view(b@)[j],
        decreases a@.len() - i,
    {
        if !a[i].eq_felt(&b[i]) {
            proof {
                assert(felts_view(a@)[i as int] != felts_view(b@)[i as int]);
            }
            return false;
        }
        i = i + 1;
    }
    proof {
        assert(felts_view(a@) =~= felts_view(b@));
    }
    true
}

} // verus!
