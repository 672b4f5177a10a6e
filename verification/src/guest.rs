//! The guest's address space, as the Z80 core's paged memory presents it.
//!
//! The memory itself belongs to the CPU emulation. What this module states of
//! it is taken on trust; everything built on top is proved from that.

use vstd::prelude::*;

verus! {

/// `rz80::Memory`: the CPU's memory, a store of bytes behind a page table.
/// Its inside is not visible here; the two names below stand for it.
#[verifier::external_type_specification]
#[verifier::external_body]
pub struct ExMemory(rz80::Memory);

/// The bytes of the store behind the page table of an `rz80::Memory`, in
/// order.
pub uninterp spec fn guest_heap(mem: rz80::Memory) -> Seq<u8>;

/// The page table of an `rz80::Memory`, address by address: for each guest
/// address that is mapped, the index into the store that it reads from, and
/// whether writes reach it.
pub uninterp spec fn guest_pages(mem: rz80::Memory) -> Map<int, (int, bool)>;

/// Size of the guest's address space.
pub const ADDRESS_SPACE: u32 = 0x10000;

/// Every mapped address points into the store.
pub open spec fn mapped_in_heap(mem: rz80::Memory) -> bool {
    forall|a: int| #[trigger]
        guest_pages(mem).contains_key(a) ==> 0 <= guest_pages(mem)[a].0 < guest_heap(mem).len()
}

/// What the guest reads at `addr` when the store holds `heap`.
pub open spec fn byte_seen(heap: Seq<u8>, pages: Map<int, (int, bool)>, addr: int) -> u8 {
    if pages.contains_key(addr) {
        heap[pages[addr].0]
    } else {
        0xFF
    }
}

/// What the guest reads at `addr`.
pub open spec fn guest_byte(mem: rz80::Memory, addr: int) -> u8 {
    byte_seen(guest_heap(mem), guest_pages(mem), addr)
}

/// The store after the guest-side write of `val` to `addr`.
pub open spec fn heap_written(
    heap: Seq<u8>,
    pages: Map<int, (int, bool)>,
    addr: int,
    val: u8,
) -> Seq<u8> {
    if pages.contains_key(addr) && pages[addr].1 {
        heap.update(pages[addr].0, val)
    } else {
        heap
    }
}

/// `rz80::Memory::r8`: looks the address up in the page table and returns the
/// byte of the store it points to, or 0xFF where the page is not mapped.
#[verifier::external_body]
pub(crate) fn read_guest(mem: &rz80::Memory, addr: u16) -> (b: u8)
    requires
        mapped_in_heap(*mem),
    ensures
        b == guest_byte(*mem, addr as int),
{
    mem.r8(addr as i32) as u8
}

/// `rz80::Memory::w8`: stores the byte where the page table points, if the
/// page is mapped and writable, and does nothing otherwise. The page table
/// is left as it was.
#[verifier::external_body]
pub(crate) fn write_guest(mem: &mut rz80::Memory, addr: u16, val: u8)
    requires
        mapped_in_heap(*old(mem)),
    ensures
        guest_pages(*final(mem)) == guest_pages(*old(mem)),
        guest_heap(*final(mem)) == heap_written(
            guest_heap(*old(mem)),
            guest_pages(*old(mem)),
            addr as int,
            val,
        ),
{
    mem.w8(addr as i32, val as i32);
}

/// `rz80::Memory::new_64k`: a memory whose whole address space is mapped
/// one to one onto the start of a zeroed store, writable throughout.
#[verifier::external_body]
pub(crate) fn blank_guest() -> (mem: rz80::Memory)
    ensures
        guest_heap(mem).len() >= ADDRESS_SPACE,
        forall|i: int| 0 <= i < guest_heap(mem).len() ==> #[trigger] guest_heap(mem)[i] == 0,
        forall|a: int| #[trigger]
            guest_pages(mem).contains_key(a) <==> 0 <= a < ADDRESS_SPACE,
        forall|a: int| 0 <= a < ADDRESS_SPACE ==> #[trigger] guest_pages(mem)[a] == (a, true),
{
    rz80::Memory::new_64k()
}

} // verus!
