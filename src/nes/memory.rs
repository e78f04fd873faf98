use vstd::prelude::*;

use crate::error::{agrees, outcome, Fault, IronNesError, IronNesResult};
use crate::nes::bus::{Bus, BusModel};

verus! {

pub type Addr = u16;

pub const MEM_STACK_BEGIN: Addr = 0x0100;
pub const MEM_STACK_END: Addr = 0x01ff;

/// The highest value of the stack pointer.
pub const STACK_TOP: Addr = 0xff;

pub fn cpu_load(bus: &mut Bus, addr: Addr) -> (r: IronNesResult<u8>)
    ensures
        agrees(r, old(bus)@.load_result(addr as usize)),
        final(bus)@ == old(bus)@.after_load(addr as usize),
{
    bus.cpu_load(addr as usize)
}

pub fn cpu_store(bus: &mut Bus, addr: Addr, v: u8) -> (r: IronNesResult<()>)
    ensures
        agrees(r, old(bus)@.store_result(addr as usize)),
        final(bus)@ == old(bus)@.after_store(addr as usize, v),
{
    bus.cpu_store(addr as usize, v)
}

/// The address of the high byte of a 16-bit value whose low byte is at
/// `addr`: the next address, except that the last byte of a page is
/// followed by the first byte of the same page.
pub open spec fn high_addr(addr: Addr) -> Addr {
    if addr % 256 == 0xff {
        (addr - 0xff) as Addr
    } else {
        ((addr + 1) % 0x10000) as Addr
    }
}

fn get_high_addr(addr: Addr) -> (r: Addr)
    ensures
        r == high_addr(addr),
{
    if addr % 256 == 0xff {
        addr - 0xff
    } else {
        addr.wrapping_add(1)
    }
}

/// A little-endian 16-bit load: the bus after it and the value or the failure.
#[verifier::opaque]
pub open spec fn load16(b: BusModel, addr: Addr) -> (BusModel, Result<u16, Fault>) {
    let b1 = b.after_load(addr as usize);
    match b.load_result(addr as usize) {
        Err(f) => (b1, Err(f)),
        Ok(lo) => {
            let h = high_addr(addr) as usize;
            let b2 = b1.after_load(h);
            match b1.load_result(h) {
                Err(f) => (b2, Err(f)),
                Ok(hi) => (b2, Ok((hi * 256 + lo) as u16)),
            }
        },
    }
}

/// A little-endian 16-bit store.
#[verifier::opaque]
pub open spec fn store16(b: BusModel, addr: Addr, val: u16) -> (BusModel, Result<(), Fault>) {
    let b1 = b.after_store(addr as usize, (val % 256) as u8);
    match b.store_result(addr as usize) {
        Err(f) => (b1, Err(f)),
        Ok(_) => {
            let h = high_addr(addr) as usize;
            (b1.after_store(h, (val / 256) as u8), b1.store_result(h))
        },
    }
}

pub fn cpu_load16(bus: &mut Bus, addr: Addr) -> (r: IronNesResult<u16>)
    ensures
        (final(bus)@, outcome(r)) == load16(old(bus)@, addr),
{
    reveal(load16);
    let high_addr = get_high_addr(addr);
    let lo = cpu_load(bus, addr)?;
    let hi = cpu_load(bus, high_addr)?;
    Ok((hi as u16) * 256 + lo as u16)
}

pub fn cpu_store16(bus: &mut Bus, addr: Addr, val: u16) -> (r: IronNesResult<()>)
    ensures
        (final(bus)@, outcome(r)) == store16(old(bus)@, addr, val),
{
    reveal(store16);
    let high_addr = get_high_addr(addr);
    match cpu_store(bus, addr, (val % 256) as u8) {
        Ok(_) => {},
        Err(e) => return Err(e),
    }
    cpu_store(bus, high_addr, (val / 256) as u8)
}

/// A push: refused when the pointer is at the bottom of the stack page,
/// else the byte is stored at the pointer, which then moves down.
pub open spec fn push(b: BusModel, sp: Addr, val: u8) -> (BusModel, Addr, Result<(), Fault>) {
    if sp == 0 {
        (b, sp, Err(Fault::Memory))
    } else {
        let a = (MEM_STACK_BEGIN + sp) as usize;
        match b.store_result(a) {
            Err(f) => (b.after_store(a, val), sp, Err(f)),
            Ok(_) => (b.after_store(a, val), (sp - 1) as Addr, Ok(())),
        }
    }
}

/// A pop: refused when the pointer is at the top of the stack page, else
/// the pointer moves up and the byte there is read.
pub open spec fn pop(b: BusModel, sp: Addr) -> (BusModel, Addr, Result<u8, Fault>) {
    if sp == STACK_TOP {
        (b, sp, Err(Fault::Memory))
    } else {
        let sp1 = (sp + 1) as Addr;
        let a = (MEM_STACK_BEGIN + sp1) as usize;
        (b.after_load(a), sp1, b.load_result(a))
    }
}

/// Pushes an address, high byte first.
#[verifier::opaque]
pub open spec fn push_addr(b: BusModel, sp: Addr, addr: Addr) -> (BusModel, Addr, Result<(), Fault>) {
    let (b1, sp1, r1) = push(b, sp, (addr / 256) as u8);
    match r1 {
        Err(f) => (b1, sp1, Err(f)),
        Ok(_) => push(b1, sp1, (addr % 256) as u8),
    }
}

/// Pops an address, low byte first.
#[verifier::opaque]
pub open spec fn pop_addr(b: BusModel, sp: Addr) -> (BusModel, Addr, Result<Addr, Fault>) {
    let (b1, sp1, r1) = pop(b, sp);
    match r1 {
        Err(f) => (b1, sp1, Err(f)),
        Ok(lo) => {
            let (b2, sp2, r2) = pop(b1, sp1);
            match r2 {
                Err(f) => (b2, sp2, Err(f)),
                Ok(hi) => (b2, sp2, Ok((hi * 256 + lo) as u16)),
            }
        },
    }
}

pub fn stack_push_addr(bus: &mut Bus, sp: &mut Addr, addr: Addr) -> (r: IronNesResult<()>)
    requires
        *old(sp) <= STACK_TOP,
    ensures
        (final(bus)@, *final(sp), outcome(r)) == push_addr(old(bus)@, *old(sp), addr),
        *final(sp) <= STACK_TOP,
{
    reveal(push_addr);
    match stack_push(bus, sp, (addr / 256) as u8) {
        Ok(_) => {},
        Err(e) => return Err(e),
    }
    stack_push(bus, sp, (addr % 256) as u8)
}

pub fn stack_pop_addr(bus: &mut Bus, sp: &mut Addr) -> (r: IronNesResult<Addr>)
    requires
        *old(sp) <= STACK_TOP,
    ensures
        (final(bus)@, *final(sp), outcome(r)) == pop_addr(old(bus)@, *old(sp)),
        *final(sp) <= STACK_TOP,
{
    reveal(pop_addr);
    let pcl = match stack_pop(bus, sp) {
        Ok(v) => v,
        Err(e) => return Err(e),
    };
    let pch = match stack_pop(bus, sp) {
        Ok(v) => v,
        Err(e) => return Err(e),
    };
    Ok((pch as u16) * 256 + pcl as u16)
}

pub fn stack_push(bus: &mut Bus, sp: &mut Addr, val: u8) -> (r: IronNesResult<()>)
    requires
        *old(sp) <= STACK_TOP,
    ensures
        (final(bus)@, *final(sp), outcome(r)) == push(old(bus)@, *old(sp), val),
        *final(sp) <= STACK_TOP,
        *old(sp) == 0 ==> (r matches Err(IronNesError::MemoryError(m)) && m@ == "Stack Overflow"@),
{
    if *sp == 0 {
        Err(IronNesError::memory("Stack Overflow"))
    } else {
        let addr = MEM_STACK_BEGIN + *sp;
        match bus.cpu_store(addr as usize, val) {
            Ok(_) => {},
            Err(e) => return Err(e),
        }
        *sp = *sp - 1;
        Ok(())
    }
}

pub fn stack_pop(bus: &mut Bus, sp: &mut Addr) -> (r: IronNesResult<u8>)
    requires
        *old(sp) <= STACK_TOP,
    ensures
        (final(bus)@, *final(sp), outcome(r)) == pop(old(bus)@, *old(sp)),
        *final(sp) <= STACK_TOP,
        *old(sp) == STACK_TOP ==> (r matches Err(IronNesError::MemoryError(m)) && m@
            == "Stack Underflow"@),
{
    if *sp == MEM_STACK_END - MEM_STACK_BEGIN {
        Err(IronNesError::memory("Stack Underflow"))
    } else {
        *sp = *sp + 1;
        let addr = MEM_STACK_BEGIN + *sp;
        bus.cpu_load(addr as usize)
    }
}

/// A byte stored in RAM reads back at the address and at each of its three
/// mirrors.
pub proof fn lemma_ram_mirrors(b: BusModel, a: usize, v: u8, k: usize)
    requires
        b.wf(),
        a < 0x800,
        k < 4,
    ensures
        b.store_result(a) == Ok::<(), Fault>(()),
        b.after_store(a, v).load_result((a + 0x800 * k) as usize) == Ok::<u8, Fault>(v),
        b.after_store(a, v).after_load((a + 0x800 * k) as usize) == b.after_store(a, v),
{
    reveal(BusModel::load_result);
    reveal(BusModel::after_load);
    reveal(BusModel::store_result);
    reveal(BusModel::after_store);
    assert((a + 0x800 * k) % 0x800 == a) by (nonlinear_arith)
        requires
            a < 0x800,
            k < 4,
    ;
}

/// A 16-bit value stored in RAM reads back whole, also where its low byte
/// ends a page.
pub proof fn lemma_load16_store16(b: BusModel, addr: Addr, val: u16)
    requires
        b.wf(),
        addr <= 0x1fff,
    ensures
        store16(b, addr, val).1 == Ok::<(), Fault>(()),
        load16(store16(b, addr, val).0, addr).1 == Ok::<u16, Fault>(val),
{
    reveal(BusModel::load_result);
    reveal(BusModel::after_load);
    reveal(BusModel::store_result);
    reveal(BusModel::after_store);
    reveal(load16);
    reveal(store16);
    let h = high_addr(addr);
    assert(h < 0x2000);
    assert((h as usize) % 0x800 != (addr as usize) % 0x800);
    let b1 = b.after_store(addr as usize, (val % 256) as u8);
    assert(b1.wf());
    let b2 = b1.after_store(h as usize, (val / 256) as u8);
    assert(b2.ram[(addr % 0x800) as int] == (val % 256) as u8);
    assert(b2.ram[(h % 0x800) as int] == (val / 256) as u8);
}

/// Four bytes pushed and then popped come back in reverse order, and the
/// stack pointer returns to where it was.
pub proof fn lemma_stack_round_trip(b: BusModel, sp: Addr, x: Seq<u8>)
    requires
        b.wf(),
        4 <= sp <= STACK_TOP,
        x.len() == 4,
    ensures
        ({
            let (b1, sp1, r1) = push(b, sp, x[0]);
            let (b2, sp2, r2) = push(b1, sp1, x[1]);
            let (b3, sp3, r3) = push(b2, sp2, x[2]);
            let (b4, sp4, r4) = push(b3, sp3, x[3]);
            let (c1, q1, p1) = pop(b4, sp4);
            let (c2, q2, p2) = pop(c1, q1);
            let (c3, q3, p3) = pop(c2, q2);
            let (c4, q4, p4) = pop(c3, q3);
            &&& r1 is Ok && r2 is Ok && r3 is Ok && r4 is Ok
            &&& sp4 < sp
            &&& p1 == Ok::<u8, Fault>(x[3])
            &&& p2 == Ok::<u8, Fault>(x[2])
            &&& p3 == Ok::<u8, Fault>(x[1])
            &&& p4 == Ok::<u8, Fault>(x[0])
            &&& q4 == sp
        }),
{
    reveal(BusModel::load_result);
    reveal(BusModel::after_load);
    reveal(BusModel::store_result);
    reveal(BusModel::after_store);
}

} // verus!
