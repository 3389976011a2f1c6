//! The Winbond W25Q line of flash chips: how a chip is identified, addressed, written and erased.
//!
//! Both the capacity and the address width of a chip come from its JEDEC id.

use vstd::prelude::*;

verus! {

/// A page program must not cross a boundary of pages.
pub const PAGE_SIZE: u32 = 256;

/// The smallest unit that can be erased.
pub const SECTOR_SIZE: u32 = 4096;

/// The manufacturer in the JEDEC id.
pub const JEDEC_MANUFACTURER: u8 = 0xef;

/// The bit of the status register that is set while the chip is busy.
pub const STATUS_BUSY: u8 = 0x01;

/// How often the chip is asked for its id before it is given up.
pub const PROBE_ATTEMPTS: u8 = 3;

/// How long a page program may take \[us\]. The datasheet gives 3 ms at most.
pub const PAGE_PROGRAM_TIMEOUT: u64 = 10_000;

/// How long the erase of a sector may take \[us\]. The datasheet gives 400 ms at most.
pub const SECTOR_ERASE_TIMEOUT: u64 = 1_000_000;

/// What can go wrong with the flash.
#[derive(Copy, Clone, Debug, PartialEq, Eq, Structural)]
pub enum FlashError {
    Spi,
    Timeout,
    OutOfBounds,
    NotAligned,
    /// The JEDEC id is not that of a chip whose geometry is known.
    UnknownDevice { manufacturer: u8, memory_type: u8, capacity_code: u8 },
}

/// The kinds of errors that the users of a flash tell apart.
#[derive(Copy, Clone, Debug, PartialEq, Eq, Structural)]
pub enum FlashErrorKind {
    NotAligned,
    OutOfBounds,
    Other,
}

impl FlashError {
    pub fn kind(&self) -> (kind: FlashErrorKind)
        ensures
            kind == (match *self {
                FlashError::OutOfBounds => FlashErrorKind::OutOfBounds,
                FlashError::NotAligned => FlashErrorKind::NotAligned,
                _ => FlashErrorKind::Other,
            }),
    {
        match self {
            FlashError::OutOfBounds => FlashErrorKind::OutOfBounds,
            FlashError::NotAligned => FlashErrorKind::NotAligned,
            FlashError::Spi | FlashError::Timeout | FlashError::UnknownDevice { .. } => {
                FlashErrorKind::Other
            },
        }
    }
}

/// How many address bytes the instructions of a chip take, and with it which opcodes to use. The
/// four-byte variants are only defined on chips larger than 16 MiB.
#[derive(Copy, Clone, Debug, PartialEq, Eq, Structural)]
pub enum AddressWidth {
    Three,
    Four,
}

/// The size of a chip, from the capacity byte of its JEDEC id.
pub open spec fn size_by_code(capacity_code: u8) -> Option<u32> {
    match capacity_code {
        0x14 => Some(0x0010_0000),
        0x15 => Some(0x0020_0000),
        0x16 => Some(0x0040_0000),
        0x17 => Some(0x0080_0000),
        0x18 => Some(0x0100_0000),
        0x19 => Some(0x0200_0000),
        0x20 => Some(0x0400_0000),
        _ => None,
    }
}

/// Chips of up to 16 MiB are addressed with three bytes.
pub open spec fn width_by_size(size: u32) -> AddressWidth {
    if size <= 0x0100_0000 {
        AddressWidth::Three
    } else {
        AddressWidth::Four
    }
}

/// Size and address width of a chip, from the capacity byte of its JEDEC id.
pub fn geometry(capacity_code: u8) -> (geometry: Option<(u32, AddressWidth)>)
    ensures
        geometry == (match size_by_code(capacity_code) {
            Some(size) => Some((size, width_by_size(size))),
            None => None,
        }),
{
    match capacity_code {
        0x14 => Some((0x0010_0000, AddressWidth::Three)),  // 1 MiB, W25Q80
        0x15 => Some((0x0020_0000, AddressWidth::Three)),  // 2 MiB, W25Q16
        0x16 => Some((0x0040_0000, AddressWidth::Three)),  // 4 MiB, W25Q32
        0x17 => Some((0x0080_0000, AddressWidth::Three)),  // 8 MiB, W25Q64
        0x18 => Some((0x0100_0000, AddressWidth::Three)),  // 16 MiB, W25Q128
        0x19 => Some((0x0200_0000, AddressWidth::Four)),  // 32 MiB, W25Q256
        0x20 => Some((0x0400_0000, AddressWidth::Four)),  // 64 MiB, W25Q512
        _ => None,
    }
}

impl AddressWidth {
    pub fn count(self) -> (count: u8)
        ensures
            count == (if self is Three {
                3u8
            } else {
                4u8
            }),
    {
        match self {
            AddressWidth::Three => 3,
            AddressWidth::Four => 4,
        }
    }

    pub fn read_data(self) -> (opcode: u8)
        ensures
            opcode == (if self is Three {
                0x03u8
            } else {
                0x13u8
            }),
    {
        match self {
            AddressWidth::Three => 0x03,
            AddressWidth::Four => 0x13,
        }
    }

    pub fn page_program(self) -> (opcode: u8)
        ensures
            opcode == (if self is Three {
                0x02u8
            } else {
                0x12u8
            }),
    {
        match self {
            AddressWidth::Three => 0x02,
            AddressWidth::Four => 0x12,
        }
    }

    pub fn sector_erase(self) -> (opcode: u8)
        ensures
            opcode == (if self is Three {
                0x20u8
            } else {
                0x21u8
            }),
    {
        match self {
            AddressWidth::Three => 0x20,
            AddressWidth::Four => 0x21,
        }
    }
}

/// The byte of the address with this weight.
pub open spec fn address_byte(address: u32, weight: u32) -> u8 {
    ((address / weight) % 256) as u8
}

/// The bytes of an instruction: the opcode, then the address with its highest byte first.
pub open spec fn instruction(width: AddressWidth, opcode: u8, address: u32) -> Seq<u8> {
    let low = seq![
        address_byte(address, 0x1_0000),
        address_byte(address, 0x100),
        address_byte(address, 1),
    ];
    if width is Three {
        seq![opcode] + low
    } else {
        seq![opcode, address_byte(address, 0x100_0000)] + low
    }
}

/// The instruction that erases the sector at the address.
#[verifier::opaque]
spec fn erase_of(width: AddressWidth, address: u32) -> Seq<u8> {
    instruction(
        width,
        if width is Three {
            0x20
        } else {
            0x21
        },
        address,
    )
}

/// One page program: `len` bytes of the data, from `start` on, go to `address`.
#[derive(Copy, Clone, Debug, PartialEq, Eq, Structural)]
pub struct PageWrite {
    pub address: u32,
    pub start: usize,
    pub len: usize,
}

/// The page programs that write `len` bytes from `offset` on, as far as they got: the data is cut
/// at the boundaries of pages and nowhere else.
pub open spec fn is_page_split(writes: Seq<PageWrite>, offset: int, done: int) -> bool
    decreases writes.len(),
{
    if writes.len() == 0 {
        done == 0
    } else {
        let last = writes.last();
        &&& last.len > 0
        &&& last.start + last.len == done
        &&& last.address == offset + last.start
        // It stays within its page.
        &&& last.address as int / 256 == (last.address + last.len - 1) / 256
        // It starts where the one before ended, at the start of a page.
        &&& writes.len() > 1 ==> last.address as int % 256 == 0
        &&& is_page_split(writes.drop_last(), offset, last.start as int)
    }
}

/// The page programs that write `len` bytes from `offset` on.
pub fn split_pages(offset: u32, len: usize) -> (writes: Vec<PageWrite>)
    requires
        offset + len <= u32::MAX,
    ensures
        is_page_split(writes@, offset as int, len as int),
{
    let mut writes: Vec<PageWrite> = Vec::new();
    let mut address: u32 = offset;
    let mut start: usize = 0;
    while start < len
        invariant
            start <= len,
            address == offset + start,
            offset + len <= u32::MAX,
            is_page_split(writes@, offset as int, start as int),
            writes.len() > 0 && start < len ==> address % 256 == 0,
        decreases len - start,
    {
        let page_remaining: usize = (PAGE_SIZE - address % PAGE_SIZE) as usize;
        let left: usize = len - start;
        let chunk: usize = if left < page_remaining {
            left
        } else {
            page_remaining
        };
        let ghost before = writes@;
        writes.push(PageWrite { address, start, len: chunk });
        assert(writes@.drop_last() =~= before);
        assert(address as int / 256 == (address + chunk - 1) / 256);
        address = address + chunk as u32;
        start = start + chunk;
    }
    writes
}

/// Every byte of the data is written, to its place and once: byte `i` belongs to exactly one page
/// program, which puts it at `offset + i`.
pub proof fn law_page_split_writes_every_byte_once(
    writes: Seq<PageWrite>,
    offset: int,
    len: int,
    i: int,
)
    requires
        is_page_split(writes, offset, len),
        0 <= i < len,
    ensures
        exists|k: int|
            0 <= k < writes.len() && (#[trigger] writes[k]).start <= i < writes[k].start
                + writes[k].len && writes[k].address + (i - writes[k].start) == offset + i,
        forall|k: int, m: int|
            0 <= k < writes.len() && 0 <= m < writes.len() && (#[trigger] writes[k]).start <= i
                < writes[k].start + writes[k].len && (#[trigger] writes[m]).start <= i
                < writes[m].start + writes[m].len ==> k == m,
    decreases writes.len(),
{
    let n = writes.len() - 1;
    let rest = writes.drop_last();
    let last = writes[n];
    lemma_page_writes_end_before(rest, offset, last.start as int);
    if i >= last.start {
        assert(writes[n].start <= i < writes[n].start + writes[n].len);
        assert forall|k: int| 0 <= k < n implies !((#[trigger] writes[k]).start <= i
            < writes[k].start + writes[k].len) by {
            assert(rest[k] == writes[k]);
        }
    } else {
        law_page_split_writes_every_byte_once(rest, offset, last.start as int, i);
        let k = choose|k: int|
            0 <= k < rest.len() && (#[trigger] rest[k]).start <= i < rest[k].start + rest[k].len
                && rest[k].address + (i - rest[k].start) == offset + i;
        assert(writes[k] == rest[k]);
        assert forall|k: int, m: int|
            0 <= k < writes.len() && 0 <= m < writes.len() && (#[trigger] writes[k]).start <= i
                < writes[k].start + writes[k].len && (#[trigger] writes[m]).start <= i
                < writes[m].start + writes[m].len implies k == m by {
            assert(k < n ==> writes[k] == rest[k]);
            assert(m < n ==> writes[m] == rest[m]);
        }
    }
}

proof fn lemma_page_writes_end_before(writes: Seq<PageWrite>, offset: int, done: int)
    requires
        is_page_split(writes, offset, done),
    ensures
        done >= 0,
        forall|k: int|
            0 <= k < writes.len() ==> (#[trigger] writes[k]).start + writes[k].len <= done,
    decreases writes.len(),
{
    if writes.len() > 0 {
        let rest = writes.drop_last();
        lemma_page_writes_end_before(rest, offset, writes.last().start as int);
        assert forall|k: int| 0 <= k < writes.len() implies (#[trigger] writes[k]).start
            + writes[k].len <= done by {
            if k < rest.len() {
                assert(rest[k] == writes[k]);
            }
        }
    }
}

/// No page program crosses a boundary of pages.
pub proof fn law_no_page_write_crosses_a_page(
    writes: Seq<PageWrite>,
    offset: int,
    len: int,
    k: int,
)
    requires
        is_page_split(writes, offset, len),
        0 <= k < writes.len(),
    ensures
        writes[k].len > 0,
        writes[k].address as int / 256 == (writes[k].address + writes[k].len - 1) / 256,
    decreases writes.len(),
{
    if k < writes.len() - 1 {
        law_no_page_write_crosses_a_page(
            writes.drop_last(),
            offset,
            writes.last().start as int,
            k,
        );
    }
}

/// What is known of the chip: nothing until it is identified.
#[derive(Copy, Clone, Debug, PartialEq, Eq, Structural)]
pub struct W25Q {
    size: u32,
    address_width: AddressWidth,
}

/// What to do after the chip was asked for its id.
#[derive(Copy, Clone, Debug, PartialEq, Eq, Structural)]
pub enum ProbeStep {
    Identified,
    /// The chip may still be leaving power-on reset: ask again.
    Retry,
    Failed(FlashError),
}

/// What to do after the chip was asked whether it is busy.
#[derive(Copy, Clone, Debug, PartialEq, Eq, Structural)]
pub enum WaitStep {
    Idle,
    TimedOut,
    AskAgain,
}

impl W25Q {
    /// The size of the chip in bytes; zero while it is not identified.
    pub closed spec fn bytes(self) -> u32 {
        self.size
    }

    /// How the chip is addressed.
    pub closed spec fn width(self) -> AddressWidth {
        self.address_width
    }

    /// Any access is refused until the chip is identified.
    pub fn new() -> (chip: Self)
        ensures
            chip.bytes() == 0,
            chip.width() is Three,
    {
        W25Q { size: 0, address_width: AddressWidth::Three }
    }

    /// Total size of the identified chip in bytes; zero while it is not identified.
    pub fn size(&self) -> (size: u32)
        ensures
            size == self.bytes(),
    {
        self.size
    }

    /// Takes the id that the chip gave on this attempt, of which `attempts` were made before.
    pub fn probe(&mut self, id: (u8, u8, u8), attempts: u8) -> (step: ProbeStep)
        ensures
            ({
                let (manufacturer, memory_type, capacity_code) = id;
                let size = size_by_code(capacity_code);
                if manufacturer == JEDEC_MANUFACTURER && size is Some {
                    &&& step is Identified
                    &&& final(self).bytes() == size->0
                    &&& final(self).width() == width_by_size(size->0)
                } else {
                    &&& *final(self) == *old(self)
                    &&& step == if attempts + 1 < PROBE_ATTEMPTS {
                        ProbeStep::Retry
                    } else {
                        ProbeStep::Failed(
                            FlashError::UnknownDevice { manufacturer, memory_type, capacity_code },
                        )
                    }
                }
            }),
    {
        let (manufacturer, memory_type, capacity_code) = id;
        if manufacturer == JEDEC_MANUFACTURER {
            if let Some((size, address_width)) = geometry(capacity_code) {
                self.size = size;
                self.address_width = address_width;
                return ProbeStep::Identified;
            }
        }
        if attempts < PROBE_ATTEMPTS - 1 {
            ProbeStep::Retry
        } else {
            ProbeStep::Failed(
                FlashError::UnknownDevice { manufacturer, memory_type, capacity_code },
            )
        }
    }

    /// The bytes of an instruction.
    fn command(&self, opcode: u8, address: u32) -> (bytes: Vec<u8>)
        ensures
            bytes@ == instruction(self.width(), opcode, address),
    {
        let a3: u8 = (address / 0x100_0000 % 256) as u8;
        let a2: u8 = (address / 0x1_0000 % 256) as u8;
        let a1: u8 = (address / 0x100 % 256) as u8;
        let a0: u8 = (address / 1 % 256) as u8;
        let bytes: Vec<u8> = match self.address_width {
            AddressWidth::Three => vec![opcode, a2, a1, a0],
            AddressWidth::Four => vec![opcode, a3, a2, a1, a0],
        };
        assert(bytes@ =~= instruction(self.width(), opcode, address));
        bytes
    }

    /// What the status register says about a chip that was busy for this long \[us\].
    pub fn wait_idle(status: u8, elapsed: u64, timeout: u64) -> (step: WaitStep)
        ensures
            step == (if status % 2 == 0 {
                WaitStep::Idle
            } else if elapsed > timeout {
                WaitStep::TimedOut
            } else {
                WaitStep::AskAgain
            }),
    {
        if status % 2 == 0 {
            WaitStep::Idle
        } else if elapsed > timeout {
            WaitStep::TimedOut
        } else {
            WaitStep::AskAgain
        }
    }

    /// Whether the range lies within the chip.
    pub fn check_range(&self, offset: u32, len: usize) -> (result: Result<(), FlashError>)
        ensures
            result == (if offset + len <= self.bytes() {
                Ok(())
            } else {
                Err(FlashError::OutOfBounds)
            }),
    {
        if len <= self.size as usize && offset as usize <= self.size as usize - len {
            Ok(())
        } else {
            Err(FlashError::OutOfBounds)
        }
    }

    /// The instruction that reads this many bytes from the offset on, or `None` where there is
    /// nothing to read.
    pub fn read(&self, offset: u32, len: usize) -> (result: Result<Option<Vec<u8>>, FlashError>)
        ensures
            match result {
                Ok(Some(bytes)) => offset + len <= self.bytes() && len > 0 && bytes@ == instruction(
                    self.width(),
                    if self.width() is Three {
                        0x03
                    } else {
                        0x13
                    },
                    offset,
                ),
                Ok(None) => offset + len <= self.bytes() && len == 0,
                Err(error) => error is OutOfBounds && offset + len > self.bytes(),
            },
    {
        match self.check_range(offset, len) {
            Ok(()) => if len == 0 {
                Ok(None)
            } else {
                Ok(Some(self.command(self.address_width.read_data(), offset)))
            },
            Err(error) => Err(error),
        }
    }

    /// The instructions that write this many bytes from the offset on: each with the page program
    /// that it stands for.
    pub fn write(&self, offset: u32, len: usize) -> (result: Result<
        Vec<(Vec<u8>, PageWrite)>,
        FlashError,
    >)
        ensures
            match result {
                Ok(steps) => {
                    &&& offset + len <= self.bytes()
                    &&& is_page_split(
                        Seq::new(steps@.len(), |k: int| steps@[k].1),
                        offset as int,
                        len as int,
                    )
                    &&& forall|k: int|
                        0 <= k < steps.len() ==> (#[trigger] steps[k]).0@ == instruction(
                            self.width(),
                            if self.width() is Three {
                                0x02
                            } else {
                                0x12
                            },
                            steps[k].1.address,
                        )
                },
                Err(error) => error is OutOfBounds && offset + len > self.bytes(),
            },
    {
        if let Err(error) = self.check_range(offset, len) {
            return Err(error);
        }
        let writes = split_pages(offset, len);
        let mut steps: Vec<(Vec<u8>, PageWrite)> = Vec::new();
        let mut k: usize = 0;
        while k < writes.len()
            invariant
                k <= writes.len(),
                steps.len() == k,
                forall|j: int| 0 <= j < k ==> (#[trigger] steps[j]).1 == writes[j],
                forall|j: int|
                    0 <= j < k ==> (#[trigger] steps[j]).0@ == instruction(
                        self.width(),
                        if self.width() is Three {
                            0x02
                        } else {
                            0x12
                        },
                        steps[j].1.address,
                    ),
            decreases writes.len() - k,
        {
            let write = writes[k];
            steps.push((self.command(self.address_width.page_program(), write.address), write));
            k += 1;
        }
        assert(Seq::new(steps@.len(), |k: int| steps@[k].1) =~= writes@);
        Ok(steps)
    }

    /// The instructions that erase the sectors from `from` to `to`.
    pub fn erase(&self, from: u32, to: u32) -> (result: Result<Vec<Vec<u8>>, FlashError>)
        ensures
            match result {
                Ok(steps) => {
                    &&& from as int % 4096 == 0 && to as int % 4096 == 0
                    &&& from <= to <= self.bytes()
                    &&& steps.len() == (to - from) / 4096
                    &&& forall|k: int|
                        0 <= k < steps.len() ==> (#[trigger] steps[k])@ == instruction(
                            self.width(),
                            if self.width() is Three {
                                0x20
                            } else {
                                0x21
                            },
                            (from + 4096 * k) as u32,
                        )
                },
                Err(FlashError::NotAligned) => from as int % 4096 != 0 || to as int % 4096 != 0,
                Err(FlashError::OutOfBounds) => from as int % 4096 == 0 && to as int % 4096 == 0 && (
                from > to || to > self.bytes()),
                Err(_) => false,
            },
    {
        if from % SECTOR_SIZE != 0 || to % SECTOR_SIZE != 0 {
            return Err(FlashError::NotAligned);
        }
        if from > to || to > self.size {
            return Err(FlashError::OutOfBounds);
        }
        let ghost sectors = (to - from) / 4096;
        assert(to == from + 4096 * sectors);
        let mut steps: Vec<Vec<u8>> = Vec::new();
        let mut address: u32 = from;
        while address < to
            invariant
                from <= address <= to,
                to == from + 4096 * sectors,
                address == from + 4096 * steps.len(),
                forall|k: int|
                    0 <= k < steps.len() ==> (#[trigger] steps[k])@ == erase_of(
                        self.width(),
                        (from + 4096 * k) as u32,
                    ),
            decreases to - address,
        {
            let step = self.command(self.address_width.sector_erase(), address);
            assert(step@ == erase_of(self.width(), address)) by {
                reveal(erase_of);
            }
            let ghost before = steps@;
            steps.push(step);
            assert(steps@ =~= before.push(step));
            address = address + SECTOR_SIZE;
        }
        proof {
            reveal(erase_of);
        }
        Ok(steps)
    }
}

/// Until the chip is identified, every access that touches a byte is refused.
pub proof fn law_an_unknown_chip_is_not_accessed(
    chip: W25Q,
    offset: u32,
    len: usize,
    result: Result<(), FlashError>,
)
    requires
        chip.bytes() == 0,
        len > 0,
        call_ensures(W25Q::check_range, (&chip, offset, len), result),
    ensures
        result is Err,
{
}

} // verus!
