use vstd::prelude::*;

use crate::addr::PhysAddr;

verus! {

/// Entries in one page-table page.
pub const ENTRY_COUNT: usize = 512;
/// Size of a large page.
pub const SIZE_2MIB: u64 = 0x20_0000;

pub const PAGE_PRESENT: u64 = 0x1;
pub const PAGE_WRITABLE: u64 = 0x2;
pub const PAGE_NO_CACHE: u64 = 0x10;
pub const PAGE_HUGE: u64 = 0x80;
/// Flags of an entry that points at a lower-level table.
pub const TABLE_FLAGS: u64 = 0x3;
/// Flags of a 2 MiB leaf entry: present, writable, huge.
pub const LEAF_FLAGS: u64 = 0x83;
/// Flags of the entry that maps the xAPIC register page: uncached.
pub const MMIO_FLAGS: u64 = 0x13;

/// An entry pointing at `addr`, with the encryption mask `mask` and `flags`.
pub open spec fn table_entry(addr: u64, mask: u64, flags: u64) -> u64 {
    (addr | mask) | flags
}

/// The large-page entry that identity-maps the `i`-th 2 MiB of memory.
pub open spec fn leaf_entry(i: int, mask: u64) -> u64 {
    table_entry((i * SIZE_2MIB) as u64, mask, LEAF_FLAGS)
}

/// A page directory that identity-maps the first 1 GiB with large pages.
pub open spec fn identity_directory(mask: u64) -> Seq<u64> {
    Seq::new(ENTRY_COUNT as nat, |i: int| leaf_entry(i, mask))
}

/// A table whose only present entry, the first, points at `next`.
pub open spec fn single_entry_table(next: u64, mask: u64) -> Seq<u64> {
    Seq::new(ENTRY_COUNT as nat, |i: int| if i == 0 { table_entry(next, mask, TABLE_FLAGS) } else { 0 })
}

/// One page of a page table. Every table made by `new` has 512 entries, and
/// every operation keeps that number.
pub struct PageTable {
    entries: Vec<u64>,
}

impl View for PageTable {
    type V = Seq<u64>;

    closed spec fn view(&self) -> Seq<u64> {
        self.entries@
    }
}

impl PageTable {
    /// A table with every entry unused.
    pub fn new() -> (r: PageTable)
        ensures
            r@ == Seq::new(ENTRY_COUNT as nat, |i: int| 0u64),
    {
        let mut entries: Vec<u64> = Vec::new();
        let mut i: usize = 0;
        while i < ENTRY_COUNT
            invariant
                i <= ENTRY_COUNT,
                entries@ =~= Seq::new(i as nat, |j: int| 0u64),
            decreases ENTRY_COUNT - i,
        {
            entries.push(0);
            i = i + 1;
        }
        PageTable { entries }
    }

    pub fn len(&self) -> (r: usize)
        requires
            self@.len() == ENTRY_COUNT,
        ensures
            r == self@.len(),
            r == ENTRY_COUNT,
    {
        self.entries.len()
    }

    pub fn entry(&self, i: usize) -> (r: u64)
        requires
            self@.len() == ENTRY_COUNT,
            i < ENTRY_COUNT,
        ensures
            r == self@[i as int],
    {
        self.entries[i]
    }

    /// Marks every entry unused.
    pub fn zero(&mut self)
        requires
            old(self)@.len() == ENTRY_COUNT,
        ensures
            final(self)@ == Seq::new(ENTRY_COUNT as nat, |i: int| 0u64),
    {
        let mut i: usize = 0;
        while i < ENTRY_COUNT
            invariant
                i <= ENTRY_COUNT,
                self.entries@.len() == ENTRY_COUNT,
                forall|j: int| 0 <= j < i ==> self.entries@[j] == 0,
            decreases ENTRY_COUNT - i,
        {
            self.entries.set(i, 0);
            i = i + 1;
        }
        proof {
            assert(self@ =~= Seq::new(ENTRY_COUNT as nat, |i: int| 0u64));
        }
    }

    /// Points entry `i` at `addr` (which carries the encryption mask, if any)
    /// with `flags`.
    pub fn set_addr(&mut self, i: usize, addr: u64, flags: u64)
        requires
            old(self)@.len() == ENTRY_COUNT,
            i < ENTRY_COUNT,
        ensures
            final(self)@ == old(self)@.update(i as int, addr | flags),
    {
        self.entries.set(i, addr | flags);
    }
}

/// Builds the tables that identity-map the first 1 GiB of memory with 2 MiB
/// pages: `pml4` points at `pdpt`, found at `pdpt_addr`, which points at `pd`,
/// found at `pd_addr`, which maps the 512 large pages. `encrypted` is the
/// encryption mask that every entry carries (zero without encryption).
pub fn create_page_tables(
    pml4: &mut PageTable,
    pdpt: &mut PageTable,
    pd: &mut PageTable,
    pdpt_addr: u64,
    pd_addr: u64,
    encrypted: u64,
)
    requires
        old(pml4)@.len() == ENTRY_COUNT,
        old(pdpt)@.len() == ENTRY_COUNT,
        old(pd)@.len() == ENTRY_COUNT,
    ensures
        final(pml4)@ == single_entry_table(pdpt_addr, encrypted),
        final(pdpt)@ == single_entry_table(pd_addr, encrypted),
        final(pd)@ == identity_directory(encrypted),
{
    pml4.zero();
    pml4.set_addr(0, pdpt_addr | encrypted, TABLE_FLAGS);
    proof {
        assert(pml4@ =~= single_entry_table(pdpt_addr, encrypted));
    }
    pdpt.zero();
    pdpt.set_addr(0, pd_addr | encrypted, TABLE_FLAGS);
    proof {
        assert(pdpt@ =~= single_entry_table(pd_addr, encrypted));
    }
    let mut i: usize = 0;
    while i < ENTRY_COUNT
        invariant
            i <= ENTRY_COUNT,
            pd@.len() == ENTRY_COUNT,
            forall|j: int| 0 <= j < i ==> pd@[j] == #[trigger] leaf_entry(j, encrypted),
        decreases ENTRY_COUNT - i,
    {
        let addr = i as u64 * SIZE_2MIB;
        pd.set_addr(i, addr | encrypted, LEAF_FLAGS);
        i = i + 1;
    }
    proof {
        assert(pd@ =~= identity_directory(encrypted));
    }
}

/// Keeps the firmware reachable across the switch to new tables: the first
/// 2 MiB keep the firmware's own 4 KiB table at `firmware_pt_addr`, and the
/// fourth GiB, where the firmware image lies, keeps the firmware's own page
/// directory at `firmware_pd_addr`.
pub fn preserve_firmware_mappings(
    pdpt: &mut PageTable,
    pd: &mut PageTable,
    firmware_pd_addr: u64,
    firmware_pt_addr: u64,
    encrypted: u64,
)
    requires
        old(pdpt)@.len() == ENTRY_COUNT,
        old(pd)@.len() == ENTRY_COUNT,
    ensures
        final(pd)@ == old(pd)@.update(0, table_entry(firmware_pt_addr, encrypted, TABLE_FLAGS)),
        final(pdpt)@ == old(pdpt)@.update(3, table_entry(firmware_pd_addr, encrypted, TABLE_FLAGS)),
{
    pd.set_addr(0, firmware_pt_addr | encrypted, TABLE_FLAGS);
    pdpt.set_addr(3, firmware_pd_addr | encrypted, TABLE_FLAGS);
}

/// Just before the handoff, maps the first 2 MiB with one large page again,
/// so that the directory is a uniform identity map.
pub fn finalize_page_tables(pd: &mut PageTable, encrypted: u64)
    requires
        old(pd)@.len() == ENTRY_COUNT,
    ensures
        final(pd)@ == old(pd)@.update(0, leaf_entry(0, encrypted)),
{
    pd.set_addr(0, encrypted, LEAF_FLAGS);
    proof {
        assert(((0 * SIZE_2MIB) as u64 | encrypted) == encrypted) by (bit_vector);
    }
}

/// After the firmware mappings have been kept and then given up again, the
/// page directory is the uniform identity map once more.
pub proof fn lemma_finalize_restores_identity(encrypted: u64, firmware_pt_addr: u64)
    ensures
        identity_directory(encrypted).update(0, table_entry(firmware_pt_addr, encrypted, TABLE_FLAGS)).update(
            0,
            leaf_entry(0, encrypted),
        ) == identity_directory(encrypted),
{
    assert(identity_directory(encrypted).update(0, table_entry(firmware_pt_addr, encrypted, TABLE_FLAGS)).update(
        0,
        leaf_entry(0, encrypted),
    ) =~= identity_directory(encrypted));
}

/// For every encryption-bit position, a leaf entry of the identity map has
/// that bit set exactly when encryption is active, wherever the bit is not
/// already taken by the entry's own address or flags.
pub proof fn lemma_leaf_encryption_bit(pos: u64, active: bool, i: int)
    requires
        pos < 64,
        0 <= i < ENTRY_COUNT,
        table_entry((i * SIZE_2MIB) as u64, 0, LEAF_FLAGS) & (1u64 << pos) == 0,
    ensures
        (identity_directory(if active { 1u64 << pos } else { 0 })[i] & (1u64 << pos) != 0) == active,
{
    let a = (i * SIZE_2MIB) as u64;
    let b = 1u64 << pos;
    if active {
        assert(((a | b) | 0x83u64) & b != 0) by (bit_vector)
            requires
                b == 1u64 << pos,
                pos < 64,
        ;
    } else {
        assert(((a | 0u64) | 0x83u64) & b == ((a | 0u64) | 0x83u64) & b) by (bit_vector);
    }
}

/// Maps the xAPIC register page at `base`, uncached and without the
/// encryption mask, at the virtual address `vaddr` of the first 2 MiB, whose
/// 4 KiB table is `pt`.
pub fn map_xapic_window(pt: &mut PageTable, vaddr: u64, base: PhysAddr)
    requires
        old(pt)@.len() == ENTRY_COUNT,
        vaddr < SIZE_2MIB,
    ensures
        final(pt)@ == old(pt)@.update((vaddr / 0x1000) as int, base@ | MMIO_FLAGS),
{
    let index = (vaddr / 0x1000) as usize;
    pt.set_addr(index, base.as_u64(), MMIO_FLAGS);
}

} // verus!
