use vstd::prelude::*;

verus! {

/// Whether bit `i` of `v` is set.
pub open spec fn bit_is_set(v: u8, i: u8) -> bool {
    v & (1u8 << i) != 0
}

/// `v` with bit `i` forced to `b`, all other bits kept.
pub open spec fn with_bit(v: u8, i: u8, b: bool) -> u8 {
    if b {
        v | (1u8 << i)
    } else {
        v & !(1u8 << i)
    }
}

proof fn lemma_toggle_is_with_bit(v: u8, state: u8, posn: u8)
    requires
        posn < 8,
    ensures
        ((v & !(1u8 << posn)) | ((state & 1) << posn)) == with_bit(v, posn, state & 1 == 1),
{
    if state & 1 == 1 {
        assert(((v & !(1u8 << posn)) | ((state & 1) << posn)) == v | (1u8 << posn)) by (bit_vector)
            requires
                posn < 8,
                state & 1 == 1,
        ;
    } else {
        assert(((v & !(1u8 << posn)) | ((state & 1) << posn)) == v & !(1u8 << posn))
            by (bit_vector)
            requires
                posn < 8,
                state & 1 != 1,
        ;
    }
}

fn bit_toggle(v: u8, state: u8, posn: u8) -> (r: u8)
    requires
        posn < 8,
    ensures
        r == with_bit(v, posn, state & 1 == 1),
{
    proof {
        lemma_toggle_is_with_bit(v, state, posn);
    }
    let x = state & 1;
    let clr = v & !(1u8 << posn);
    clr | (x << posn)
}

fn bit_get(v: u8, posn: u8) -> (r: bool)
    requires
        posn < 8,
    ensures
        r == bit_is_set(v, posn),
{
    v & (1u8 << posn) != 0
}

/// Eight independent flags held in one byte.
#[derive(Clone, Copy, PartialEq, Eq, Structural)]
pub struct BitSet(pub u8);

impl View for BitSet {
    type V = u8;

    open spec fn view(&self) -> u8 {
        self.0
    }
}

impl BitSet {
    pub fn new(val: u8) -> (r: Self)
        ensures
            r@ == val,
    {
        BitSet(val)
    }

    /// Sets bit `idx` to the low bit of `val`.
    pub fn set(&mut self, idx: u8, val: u8)
        requires
            idx < 8,
        ensures
            final(self)@ == with_bit(old(self)@, idx, val & 1 == 1),
    {
        self.0 = bit_toggle(self.0, val, idx);
    }

    pub fn get(&self, idx: u8) -> (r: bool)
        requires
            idx < 8,
        ensures
            r == bit_is_set(self@, idx),
    {
        bit_get(self.0, idx)
    }

    pub fn cast(&self) -> (r: u8)
        ensures
            r == self@,
    {
        self.0
    }
}

impl Default for BitSet {
    fn default() -> (r: Self)
        ensures
            r@ == 0,
    {
        BitSet(0)
    }
}

/// The value a biased byte holds when `v` is written to it: the bits outside
/// `keep` read 0, the bits of `force` read 1, and the rest come from `v`.
pub open spec fn sanitized(keep: u8, force: u8, v: u8) -> u8 {
    (v & keep) | force
}

/// What a store leaves in bit `i`: 1 where it is tied high, 0 where it is
/// tied low, and the written bit elsewhere.
pub open spec fn biased_bit(keep: u8, force: u8, v: u8, i: u8) -> bool {
    if bit_is_set(force, i) {
        true
    } else if !bit_is_set(keep, i) {
        false
    } else {
        bit_is_set(v, i)
    }
}

/// Every bit of a store into a biased byte follows the bias of that bit:
/// tied bits keep their level whatever is written, free bits take the
/// written value.
pub proof fn lemma_store_respects_bias(keep: u8, force: u8, v: u8, i: u8)
    requires
        i < 8,
    ensures
        bit_is_set(sanitized(keep, force, v), i) == biased_bit(keep, force, v, i),
{
    assert(bit_is_set((v & keep) | force, i) == (if force & (1u8 << i) != 0 {
        true
    } else if keep & (1u8 << i) == 0 {
        false
    } else {
        v & (1u8 << i) != 0
    })) by (bit_vector)
        requires
            i < 8,
    ;
}

/// A byte in which some bits are tied to 0 or 1 whatever is stored,
/// as on a hardware register with grounded or pulled-up pins.
#[derive(Clone, Copy, PartialEq, Eq, Structural)]
pub struct BiasedBitSet {
    pub v: u8,
    pub set0: u8,
    pub set1: u8,
}

impl View for BiasedBitSet {
    type V = u8;

    open spec fn view(&self) -> u8 {
        self.v
    }
}

impl BiasedBitSet {
    /// The bits that a store may change (a cleared bit here reads 0).
    pub open spec fn keep(&self) -> u8 {
        self.set0
    }

    /// The bits that always read 1.
    pub open spec fn force(&self) -> u8 {
        self.set1
    }

    /// The state after `store(v)`.
    pub open spec fn stored(self, v: u8) -> Self {
        BiasedBitSet { v: sanitized(self.set0, self.set1, v), ..self }
    }

    /// The state after `set(idx, val)`.
    pub open spec fn with(self, idx: u8, val: u8) -> Self {
        self.stored(with_bit(self.v, idx, val & 1 == 1))
    }

    /// The state after `bias(bit, v)`.
    pub open spec fn biased(self, bit: u8, v: u8) -> Self {
        let keep = if v & 1 == 0 {
            self.set0 & !(1u8 << bit)
        } else {
            self.set0
        };
        let force = if v & 1 == 1 {
            self.set1 | (1u8 << bit)
        } else {
            self.set1
        };
        BiasedBitSet { v: sanitized(keep, force, self.v), set0: keep, set1: force }
    }

    pub fn store(&mut self, v: u8)
        ensures
            *final(self) == old(self).stored(v),
            final(self)@ == sanitized(old(self).keep(), old(self).force(), v),
            final(self).keep() == old(self).keep(),
            final(self).force() == old(self).force(),
    {
        self.v = self.sanitize(v);
    }

    /// Ties bit `bit` to the low bit of `v` from now on; the stored value is
    /// brought in line at once.
    pub fn bias(&mut self, bit: u8, v: u8)
        requires
            bit < 8,
        ensures
            v & 1 == 0 ==> final(self).keep() == old(self).keep() & !(1u8 << bit),
            v & 1 == 0 ==> final(self).force() == old(self).force(),
            v & 1 == 1 ==> final(self).keep() == old(self).keep(),
            v & 1 == 1 ==> final(self).force() == old(self).force() | (1u8 << bit),
            final(self)@ == sanitized(final(self).keep(), final(self).force(), old(self)@),
            *final(self) == old(self).biased(bit, v),
    {
        assert(v & 1 == 0 || v & 1 == 1) by (bit_vector);
        let v = v & 1;
        if v == 0 {
            self.set0 = self.set0 & !(1u8 << bit);
        } else {
            self.set1 = self.set1 | (1u8 << bit);
        }
        self.v = self.sanitize(self.v);
    }

    /// Sets bit `idx` to the low bit of `val`, within the bias.
    pub fn set(&mut self, idx: u8, val: u8)
        requires
            idx < 8,
        ensures
            final(self)@ == sanitized(
                old(self).keep(),
                old(self).force(),
                with_bit(old(self)@, idx, val & 1 == 1),
            ),
            final(self).keep() == old(self).keep(),
            final(self).force() == old(self).force(),
            *final(self) == old(self).with(idx, val),
    {
        self.v = self.sanitize(bit_toggle(self.v, val, idx));
    }

    pub fn get(&self, idx: u8) -> (r: bool)
        requires
            idx < 8,
        ensures
            r == bit_is_set(self@, idx),
    {
        bit_get(self.v, idx)
    }

    pub fn cast(&self) -> (r: u8)
        ensures
            r == self@,
    {
        self.v
    }

    fn sanitize(&self, v: u8) -> (r: u8)
        ensures
            r == sanitized(self.keep(), self.force(), v),
    {
        (v & self.set0) | self.set1
    }
}

impl Default for BiasedBitSet {
    /// No bit tied, value 0.
    fn default() -> (r: Self)
        ensures
            r@ == 0,
            r.keep() == 0xff,
            r.force() == 0,
    {
        Self { v: 0, set0: 0xff, set1: 0 }
    }
}

/// The default biased byte after the calls `bias(h[0].0, h[0].1)`,
/// `bias(h[1].0, h[1].1)`, ... in order.
pub open spec fn bias_history(h: Seq<(u8, u8)>) -> BiasedBitSet
    decreases h.len(),
{
    if h.len() == 0 {
        BiasedBitSet { v: 0, set0: 0xff, set1: 0 }
    } else {
        let (bit, v) = h.last();
        bias_history(h.drop_last()).biased(bit, v)
    }
}

/// The bits that some call of `h` ties to 0.
pub open spec fn tied_low(h: Seq<(u8, u8)>) -> u8
    decreases h.len(),
{
    if h.len() == 0 {
        0
    } else {
        let (bit, v) = h.last();
        if v & 1 == 0 {
            tied_low(h.drop_last()) | (1u8 << bit)
        } else {
            tied_low(h.drop_last())
        }
    }
}

/// The bits that some call of `h` ties to 1.
pub open spec fn tied_high(h: Seq<(u8, u8)>) -> u8
    decreases h.len(),
{
    if h.len() == 0 {
        0
    } else {
        let (bit, v) = h.last();
        if v & 1 == 1 {
            tied_high(h.drop_last()) | (1u8 << bit)
        } else {
            tied_high(h.drop_last())
        }
    }
}

/// After any sequence of `bias` calls from the default, a store of `v`
/// reads back as `(v & !low) | high`, where `low` holds the bits ever tied to
/// 0 and `high` those ever tied to 1: bits tied to 1 read 1, bits tied only
/// to 0 read 0, the others come from `v`. Later stores and sets keep the
/// ties, since neither changes them.
pub proof fn lemma_bias_history(h: Seq<(u8, u8)>, v: u8)
    requires
        forall|i: int| 0 <= i < h.len() ==> #[trigger] h[i].0 < 8,
    ensures
        bias_history(h).keep() == !tied_low(h),
        bias_history(h).force() == tied_high(h),
        bias_history(h).stored(v)@ == (v & !tied_low(h)) | tied_high(h),
    decreases h.len(),
{
    if h.len() > 0 {
        let t = h.drop_last();
        assert forall|i: int| 0 <= i < t.len() implies #[trigger] t[i].0 < 8 by {
            assert(t[i] == h[i]);
        }
        lemma_bias_history(t, v);
        let (bit, b) = h.last();
        let z = tied_low(t);
        assert(!z & !(1u8 << bit) == !(z | (1u8 << bit))) by (bit_vector);
    } else {
        assert(!0u8 == 0xffu8) by (bit_vector);
    }
}

} // verus!
