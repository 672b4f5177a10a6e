//! Block transfers between the open file and guest memory.
//!
//! A transfer moves one block of 128 bytes to or from the guest address held
//! in the card's DMA lanes. Addresses past the end of the address space are
//! left out: the transfer never wraps around.

use vstd::prelude::*;
use crate::guest::{
    byte_seen, guest_heap, guest_pages, heap_written, mapped_in_heap, read_guest, write_guest,
    ADDRESS_SPACE,
};
use crate::host::HostReply;
use crate::model::{block_read_step, block_write_step, padded_block, BLOCK_ERROR, BLOCK_OK};
use crate::ports::BLOCK_SIZE;
use crate::sd::SdCard;

verus! {

/// The store after the first `n` bytes of `block` were written to the guest
/// addresses from `base` on, one after the other.
pub open spec fn heap_after_block(
    heap: Seq<u8>,
    pages: Map<int, (int, bool)>,
    base: int,
    block: Seq<u8>,
    n: nat,
) -> Seq<u8>
    decreases n,
{
    if n == 0 {
        heap
    } else {
        let before = heap_after_block(heap, pages, base, block, (n - 1) as nat);
        if base + n - 1 < ADDRESS_SPACE {
            heap_written(before, pages, base + n - 1, block[n - 1])
        } else {
            before
        }
    }
}

/// The block that the guest presents at `base`: what it reads at each address
/// of the window, and zero for the addresses past the end of its space.
pub open spec fn window_bytes(heap: Seq<u8>, pages: Map<int, (int, bool)>, base: int) -> Seq<u8> {
    Seq::new(
        BLOCK_SIZE as nat,
        |i: int|
            if base + i < ADDRESS_SPACE {
                byte_seen(heap, pages, base + i)
            } else {
                0u8
            },
    )
}

/// The whole address space is mapped one to one and writable.
pub open spec fn flat(heap: Seq<u8>, pages: Map<int, (int, bool)>) -> bool {
    &&& heap.len() >= ADDRESS_SPACE
    &&& forall|a: int| 0 <= a < ADDRESS_SPACE ==> #[trigger] pages.contains_key(a)
    &&& forall|a: int| 0 <= a < ADDRESS_SPACE ==> #[trigger] pages[a] == (a, true)
}

/// One block made of `data`: its first 128 bytes, filled up with zeros.
pub fn pad_block(data: &Vec<u8>) -> (block: Vec<u8>)
    ensures
        block@ == padded_block(data@),
{
    let mut block: Vec<u8> = Vec::new();
    let mut i: usize = 0;
    while i < BLOCK_SIZE
        invariant
            i <= BLOCK_SIZE,
            block@.len() == i,
            forall|j: int| 0 <= j < i ==> #[trigger] block@[j] == padded_block(data@)[j],
        decreases BLOCK_SIZE - i,
    {
        let b: u8 = if i < data.len() {
            data[i]
        } else {
            0
        };
        block.push(b);
        i += 1;
    }
    assert(block@ =~= padded_block(data@));
    block
}

/// Writes `block` into guest memory from `base` on, skipping the addresses
/// past the end of the address space.
pub fn store_block(mem: &mut rz80::Memory, base: u16, block: &Vec<u8>)
    requires
        mapped_in_heap(*old(mem)),
        block@.len() == BLOCK_SIZE,
    ensures
        mapped_in_heap(*final(mem)),
        guest_pages(*final(mem)) == guest_pages(*old(mem)),
        guest_heap(*final(mem)) == heap_after_block(
            guest_heap(*old(mem)),
            guest_pages(*old(mem)),
            base as int,
            block@,
            BLOCK_SIZE as nat,
        ),
{
    let mut i: usize = 0;
    while i < BLOCK_SIZE
        invariant
            i <= BLOCK_SIZE,
            block@.len() == BLOCK_SIZE,
            mapped_in_heap(*mem),
            guest_pages(*mem) == guest_pages(*old(mem)),
            guest_heap(*mem) == heap_after_block(
                guest_heap(*old(mem)),
                guest_pages(*old(mem)),
                base as int,
                block@,
                i as nat,
            ),
        decreases BLOCK_SIZE - i,
    {
        let addr: u32 = base as u32 + i as u32;
        if addr < ADDRESS_SPACE {
            let ghost before = guest_heap(*mem);
            let ghost pages = guest_pages(*mem);
            write_guest(mem, addr as u16, block[i]);
            proof {
                if pages.contains_key(addr as int) {
                    assert(0 <= pages[addr as int].0 < before.len());
                }
                assert(guest_heap(*mem).len() == before.len());
            }
        }
        i += 1;
    }
}

impl SdCard {
    /// Completes a block read with the host's answer. Where a memory is
    /// bound, a readable file is open and the host has read some bytes, even
    /// none, the block made of them is stored at the DMA address and the
    /// outcome is success. Otherwise the outcome is an error and the memory
    /// is left as it was.
    pub fn do_block_read(&mut self, mem: &mut rz80::Memory, reply: HostReply)
        requires
            mapped_in_heap(*old(mem)),
        ensures
            final(self)@ == block_read_step(old(self)@, reply@),
            mapped_in_heap(*final(mem)),
            final(self)@.block_status == BLOCK_ERROR ==> *final(mem) == *old(mem),
            guest_pages(*final(mem)) == guest_pages(*old(mem)),
            final(self)@.block_status == BLOCK_OK ==> reply@ is Block && guest_heap(*final(mem))
                == heap_after_block(
                guest_heap(*old(mem)),
                guest_pages(*old(mem)),
                old(self)@.window(),
                padded_block(reply@->Block_0),
                BLOCK_SIZE as nat,
            ),
    {
        if !self.can_transfer(0) {
            self.record_block(BLOCK_ERROR);
            return ;
        }
        match reply {
            HostReply::Block(data) => {
                let block: Vec<u8> = pad_block(&data);
                store_block(mem, self.dma_addr(), &block);
                self.record_block(BLOCK_OK);
            },
            _ => {
                self.record_block(BLOCK_ERROR);
            },
        }
    }

    /// The block that a block write hands to the host: 128 bytes read from
    /// guest memory at the DMA address, with zero for each address past the
    /// end of the address space.
    pub fn block_from_memory(&self, mem: &rz80::Memory) -> (block: Vec<u8>)
        requires
            mapped_in_heap(*mem),
        ensures
            block@ == window_bytes(guest_heap(*mem), guest_pages(*mem), self@.window()),
            block@.len() == BLOCK_SIZE,
    {
        let base: u16 = self.dma_addr();
        let mut block: Vec<u8> = Vec::new();
        let mut i: usize = 0;
        while i < BLOCK_SIZE
            invariant
                i <= BLOCK_SIZE,
                block@.len() == i,
                mapped_in_heap(*mem),
                forall|j: int|
                    0 <= j < i ==> #[trigger] block@[j] == window_bytes(
                        guest_heap(*mem),
                        guest_pages(*mem),
                        base as int,
                    )[j],
            decreases BLOCK_SIZE - i,
        {
            let addr: u32 = base as u32 + i as u32;
            let b: u8 = if addr < ADDRESS_SPACE {
                read_guest(mem, addr as u16)
            } else {
                0
            };
            block.push(b);
            i += 1;
        }
        assert(block@ =~= window_bytes(guest_heap(*mem), guest_pages(*mem), base as int));
        block
    }

    /// Completes a block write with the host's answer: success where a
    /// memory is bound, a writable file is open and the host has written the
    /// block, an error otherwise.
    pub fn do_block_write(&mut self, reply: HostReply)
        ensures
            final(self)@ == block_write_step(old(self)@, reply@),
    {
        let done: bool = match reply {
            HostReply::Done => true,
            _ => false,
        };
        if self.can_transfer(1) && done {
            self.record_block(BLOCK_OK);
        } else {
            self.record_block(BLOCK_ERROR);
        }
    }
}

} // verus!
