use vstd::prelude::*;

use crate::error::{agrees, Fault, IronNesError, IronNesResult};

verus! {

/// A device on the bus: it answers loads and stores at its own offsets.
pub trait MemoryMapped {
    fn load(&mut self, addr: usize) -> IronNesResult<u8>;

    fn store(&mut self, addr: usize, data: u8) -> IronNesResult<()>;
}

/// `n` zero bytes.
pub open spec fn zeros(n: nat) -> Seq<u8> {
    Seq::new(n, |i: int| 0u8)
}

/// What a plain memory block returns for a load at `addr`.
pub open spec fn ram_load(s: Seq<u8>, addr: usize) -> Result<u8, Fault> {
    if addr < s.len() {
        Ok(s[addr as int])
    } else {
        Err(Fault::Memory)
    }
}

/// The contents of a plain memory block after storing `data` at `addr`.
pub open spec fn ram_store(s: Seq<u8>, addr: usize, data: u8) -> Seq<u8> {
    if addr < s.len() {
        s.update(addr as int, data)
    } else {
        s
    }
}

/// What a store to a plain memory block returns.
pub open spec fn ram_store_result(s: Seq<u8>, addr: usize) -> Result<(), Fault> {
    if addr < s.len() {
        Ok(())
    } else {
        Err(Fault::Memory)
    }
}

/// A block of bytes, read and written at will.
pub struct MemoryMappedRam(pub Vec<u8>);

impl View for MemoryMappedRam {
    type V = Seq<u8>;

    open spec fn view(&self) -> Seq<u8> {
        self.0@
    }
}

impl MemoryMappedRam {
    /// `size` zero bytes.
    pub fn new(size: usize) -> (r: Self)
        ensures
            r@ == zeros(size as nat),
    {
        let mut v: Vec<u8> = Vec::new();
        while v.len() < size
            invariant
                v.len() <= size,
                v@ == zeros(v.len() as nat),
            decreases size - v.len(),
        {
            v.push(0);
            assert(v@ =~= zeros(v.len() as nat));
        }
        MemoryMappedRam(v)
    }

    pub fn from_vec(vals: Vec<u8>) -> (r: Self)
        ensures
            r@ == vals@,
    {
        MemoryMappedRam(vals)
    }

    /// The bytes of the block.
    pub fn get_ref(&self) -> (r: &[u8])
        ensures
            r@ == self@,
    {
        self.0.as_slice()
    }

    /// What a load of `addr` would return, without the load.
    pub fn peek(&self, addr: usize) -> (r: IronNesResult<u8>)
        ensures
            agrees(r, ram_load(self@, addr)),
    {
        if addr >= self.0.len() {
            return Err(IronNesError::memory("load out of range"));
        }
        Ok(self.0[addr])
    }

    pub fn len(&self) -> (r: usize)
        ensures
            r == self@.len(),
    {
        self.0.len()
    }
}

impl MemoryMapped for MemoryMappedRam {
    fn load(&mut self, addr: usize) -> (r: IronNesResult<u8>)
        ensures
            agrees(r, ram_load(old(self)@, addr)),
            final(self)@ == old(self)@,
    {
        if addr >= self.0.len() {
            return Err(IronNesError::memory("load out of range"));
        }
        Ok(self.0[addr])
    }

    fn store(&mut self, addr: usize, data: u8) -> (r: IronNesResult<()>)
        ensures
            agrees(r, ram_store_result(old(self)@, addr)),
            final(self)@ == ram_store(old(self)@, addr, data),
    {
        if addr >= self.0.len() {
            return Err(IronNesError::memory("store out of range"));
        }
        self.0.set(addr, data);
        Ok(())
    }
}

} // verus!
