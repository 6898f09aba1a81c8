//! Bounds-checked, read-only windows into a captured frame.
use vstd::prelude::*;

verus! {

/// Why no record came out of a frame.
#[derive(Clone, Copy, Debug, PartialEq, Eq, Structural)]
pub enum FlowError {
    /// A required header lies partly or wholly outside the captured bytes.
    OutOfBounds,
    /// The frame is not IPv6, or its transport is neither TCP nor UDP.
    Inapplicable,
}

/// Value of a big-endian byte string.
pub open spec fn be_value(s: Seq<u8>) -> nat
    decreases s.len(),
{
    if s.len() == 0 {
        0
    } else {
        be_value(s.drop_last()) * 256 + s.last() as nat
    }
}

/// `256` to the power `n`.
pub open spec fn pow256(n: nat) -> nat
    decreases n,
{
    if n == 0 {
        1
    } else {
        256 * pow256((n - 1) as nat)
    }
}

/// Big-endian 16-bit value of the two bytes at `i`.
pub open spec fn be16(s: Seq<u8>, i: int) -> u16 {
    (s[i] as int * 256 + s[i + 1] as int) as u16
}

/// Big-endian 128-bit value of the sixteen bytes at `i`.
pub open spec fn be128(s: Seq<u8>, i: int) -> u128 {
    be_value(s.subrange(i, i + 16)) as u128
}

pub proof fn lemma_be_value_bound(s: Seq<u8>)
    ensures
        be_value(s) < pow256(s.len()),
    decreases s.len(),
{
    if s.len() > 0 {
        let init = s.drop_last();
        lemma_be_value_bound(init);
        let a = be_value(init);
        let p = pow256(init.len());
        let b = s.last() as nat;
        assert(a * 256 + b < 256 * p) by (nonlinear_arith)
            requires
                a < p,
                b < 256,
        ;
    }
}

/// A read-only view of `width` bytes of a frame, starting at `start`.
/// It exists only where the whole window lies inside the frame.
pub struct HeaderView<'a> {
    frame: &'a [u8],
    start: usize,
    width: usize,
}

impl<'a> HeaderView<'a> {
    /// The window lies inside the frame.
    pub closed spec fn wf(&self) -> bool {
        self.start + self.width <= self.frame@.len() <= usize::MAX
    }

    /// The bytes of the window.
    pub closed spec fn bytes(&self) -> Seq<u8> {
        self.frame@.subrange(self.start as int, self.start + self.width)
    }

    /// The byte at `i` within the window.
    pub fn byte(&self, i: usize) -> (r: u8)
        requires
            self.wf(),
            i < self.bytes().len(),
        ensures
            r == self.bytes()[i as int],
    {
        assert(self.bytes().len() == self.width);
        self.frame[self.start + i]
    }

    /// The big-endian 16-bit value at `i` within the window.
    pub fn be_u16(&self, i: usize) -> (r: u16)
        requires
            self.wf(),
            i + 2 <= self.bytes().len(),
        ensures
            r == be16(self.bytes(), i as int),
    {
        let hi = self.byte(i) as u16;
        let lo = self.byte(i + 1) as u16;
        hi * 256 + lo
    }

    /// The big-endian 128-bit value at `i` within the window.
    pub fn be_u128(&self, i: usize) -> (r: u128)
        requires
            self.wf(),
            i + 16 <= self.bytes().len(),
        ensures
            r == be128(self.bytes(), i as int),
    {
        let ghost s = self.bytes();
        let mut acc: u128 = 0;
        let mut k: usize = 0;
        proof {
            assert(s.subrange(i as int, i as int) =~= Seq::<u8>::empty());
        }
        while k < 16
            invariant
                self.wf(),
                s == self.bytes(),
                i + 16 <= s.len(),
                k <= 16,
                acc as nat == be_value(s.subrange(i as int, i + k)),
            decreases 16 - k,
        {
            let b = self.byte(i + k);
            let ghost prev = s.subrange(i as int, i + k);
            let ghost next = s.subrange(i as int, i + k + 1);
            proof {
                assert(next.drop_last() =~= prev);
                lemma_be_value_bound(next);
                lemma_pow256_16();
                lemma_pow256_mono(next.len(), 16);
            }
            acc = acc * 256 + b as u128;
            k = k + 1;
        }
        proof {
            lemma_be_value_bound(s.subrange(i as int, i + 16));
        }
        acc
    }
}

pub proof fn lemma_pow256_16()
    ensures
        pow256(16) == 0x1_0000_0000_0000_0000_0000_0000_0000_0000,
{
    reveal_with_fuel(pow256, 17);
}

pub proof fn lemma_pow256_mono(a: nat, b: nat)
    requires
        a <= b,
    ensures
        pow256(a) <= pow256(b),
    decreases b - a,
{
    if a < b {
        lemma_pow256_mono(a, (b - 1) as nat);
    }
}

/// The window `[offset, offset + width)` of `frame`, or `OutOfBounds` where it
/// does not lie wholly inside the frame.
pub fn header_at<'a>(frame: &'a [u8], offset: usize, width: usize) -> (r: Result<
    HeaderView<'a>,
    FlowError,
>)
    ensures
        r is Ok <==> offset + width <= frame@.len(),
        r is Err ==> r == Err::<HeaderView<'a>, FlowError>(FlowError::OutOfBounds),
        r matches Ok(v) ==> v.wf() && v.bytes() == frame@.subrange(
            offset as int,
            offset + width,
        ),
{
    let len = frame.len();
    if offset > len || width > len - offset {
        Err(FlowError::OutOfBounds)
    } else {
        Ok(HeaderView { frame, start: offset, width })
    }
}
} // verus!
