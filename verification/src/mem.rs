use vstd::prelude::*;

verus! {

/// Flat model of physical memory: byte `a` of the machine is `bytes[a]`.
///
/// The loader performs raw physical-address arithmetic with no protection,
/// so the model is nothing more than an addressable array of bytes; every
/// contract about loading speaks of this sequence.
pub struct Mem {
    pub bytes: Vec<u8>,
}

impl View for Mem {
    type V = Seq<u8>;

    open spec fn view(&self) -> Seq<u8> {
        self.bytes@
    }
}

impl Mem {
    /// Memory of `size` bytes, all zero.
    pub fn new_zeroed(size: usize) -> (m: Mem)
        ensures
            m@.len() == size,
            forall|a: int| 0 <= a < size ==> m@[a] == 0u8,
    {
        let mut bytes: Vec<u8> = Vec::new();
        while bytes.len() < size
            invariant
                bytes@.len() <= size,
                forall|a: int| 0 <= a < bytes@.len() ==> bytes@[a] == 0u8,
            decreases size - bytes@.len(),
        {
            bytes.push(0u8);
        }
        Mem { bytes }
    }

    pub fn len(&self) -> (n: usize)
        ensures
            n == self@.len(),
    {
        self.bytes.len()
    }

    pub fn read_byte(&self, a: usize) -> (b: u8)
        requires
            a < self@.len(),
        ensures
            b == self@[a as int],
    {
        self.bytes[a]
    }

    pub fn write_byte(&mut self, a: usize, b: u8)
        requires
            a < old(self)@.len(),
        ensures
            final(self)@ == old(self)@.update(a as int, b),
    {
        self.bytes[a] = b;
    }

    /// A copy of the `n` bytes starting at address `a`.
    pub fn read_bytes(&self, a: usize, n: usize) -> (r: Vec<u8>)
        requires
            a + n <= self@.len(),
        ensures
            r@ == self@.subrange(a as int, a + n),
    {
        let total = self.bytes.len();
        let mut r: Vec<u8> = Vec::new();
        let mut i: usize = 0;
        while i < n
            invariant
                i <= n,
                a + n <= total,
                total == self@.len(),
                r@ == self@.subrange(a as int, a + i),
            decreases n - i,
        {
            r.push(self.bytes[a + i]);
            i = i + 1;
            proof {
                assert(r@ =~= self@.subrange(a as int, a + i));
            }
        }
        proof {
            assert(r@ =~= self@.subrange(a as int, a + n));
        }
        r
    }
}

} // verus!
