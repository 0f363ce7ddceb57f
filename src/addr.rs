use vstd::prelude::*;

use crate::error::BootError;

verus! {

/// One past the largest physical address: bits 52 to 63 are never set.
pub const PHYS_ADDR_LIMIT: u64 = 0x10_0000_0000_0000;

/// Relies on x86_64::PhysAddr::try_new: it accepts exactly the values with
/// bits 52 to 63 clear, and keeps the value as it is.
#[verifier::external_body]
fn checked_phys(addr: u64) -> (r: Option<u64>)
    ensures
        r == (if addr < PHYS_ADDR_LIMIT { Some(addr) } else { None::<u64> }),
{
    match x86_64::PhysAddr::try_new(addr) {
        Ok(p) => Some(p.as_u64()),
        Err(_) => None,
    }
}

/// Relies on x86_64::PhysAddr::new_truncate: it drops bits 52 to 63.
#[verifier::external_body]
fn truncated_phys(addr: u64) -> (r: u64)
    ensures
        r == addr % PHYS_ADDR_LIMIT,
{
    x86_64::PhysAddr::new_truncate(addr).as_u64()
}

/// Relies on x86_64::PhysAddr::is_aligned: for a power of two `align`, an
/// address is aligned when rounding it down to `align` leaves it unchanged.
#[verifier::external_body]
fn phys_is_aligned(addr: u64, align: u64) -> (r: bool)
    requires
        addr < PHYS_ADDR_LIMIT,
        align > 0,
        align & ((align - 1) as u64) == 0,
    ensures
        r == (addr % align == 0),
{
    x86_64::PhysAddr::new_truncate(addr).is_aligned(align)
}

/// A physical address: bits 52 to 63 are clear.
#[derive(Clone, Copy, Debug)]
pub struct PhysAddr {
    addr: u64,
}

impl View for PhysAddr {
    type V = u64;

    closed spec fn view(&self) -> u64 {
        self.addr
    }
}

impl PhysAddr {
    #[verifier::type_invariant]
    spec fn inv(&self) -> bool {
        self.addr < PHYS_ADDR_LIMIT
    }

    /// The address `addr`, refused where a bit from 52 up is set.
    pub fn try_new(addr: u64) -> (r: Result<PhysAddr, BootError>)
        ensures
            match r {
                Ok(p) => addr < PHYS_ADDR_LIMIT && p@ == addr,
                Err(e) => addr >= PHYS_ADDR_LIMIT && e == BootError::InvalidArgument,
            },
    {
        match checked_phys(addr) {
            Some(a) => Ok(PhysAddr { addr: a }),
            None => Err(BootError::InvalidArgument),
        }
    }

    /// The address `addr` with bits 52 to 63 dropped.
    pub fn new_truncate(addr: u64) -> (r: PhysAddr)
        ensures
            r@ == addr % PHYS_ADDR_LIMIT,
    {
        let a = truncated_phys(addr);
        PhysAddr { addr: a }
    }

    pub fn as_u64(&self) -> (r: u64)
        ensures
            r == self@,
            r < PHYS_ADDR_LIMIT,
    {
        proof {
            use_type_invariant(self);
        }
        self.addr
    }

    /// Whether the address is a multiple of 4 KiB.
    pub fn is_page_aligned(&self) -> (r: bool)
        ensures
            r == (self@ % 0x1000 == 0),
    {
        proof {
            use_type_invariant(self);
            assert(0x1000u64 & ((0x1000u64 - 1) as u64) == 0) by (bit_vector);
        }
        phys_is_aligned(self.addr, 0x1000)
    }
}

} // verus!
