//! The byte-wide bus the CPU drives.
use vstd::prelude::*;

verus! {

/// One bus transaction: a read that returned `val`, or a write of `val`.
#[derive(Clone, Copy, Debug, PartialEq, Eq, Structural)]
pub struct BusOp {
    pub write: bool,
    pub addr: u16,
    pub val: u8,
}

impl BusOp {
    pub open spec fn read(addr: u16, val: u8) -> BusOp {
        BusOp { write: false, addr, val }
    }

    pub open spec fn store(addr: u16, val: u8) -> BusOp {
        BusOp { write: true, addr, val }
    }
}

/// Interface used by the CPU for memory accesses.
///
/// An implementation keeps, as ghost state, the log of every transaction it
/// has served; each call appends exactly one entry.
pub trait Memory {
    /// All bus transactions served so far, oldest first.
    spec fn log(&self) -> Seq<BusOp>;

    fn cpu_load8(&mut self, addr: u16) -> (r: u8)
        ensures
            final(self).log() == old(self).log().push(BusOp::read(addr, r)),
    ;

    fn cpu_store8(&mut self, addr: u16, val: u8)
        ensures
            final(self).log() == old(self).log().push(BusOp::store(addr, val)),
    ;
}

} // verus!
