//! The Winbond W25Q128JV flash chip: which instructions an access takes.
//!
//! Data sheet: <https://www.pjrc.com/teensy/W25Q128FV.pdf>

use vstd::prelude::*;

use crate::storage::w25q::{address_byte, is_page_split, split_pages, FlashErrorKind, PageWrite};

verus! {

const _4KB: u32 = 4 * 1024;

const _32KB: u32 = 32 * 1024;

const _64KB: u32 = 64 * 1024;

/// The size of the chip in bytes.
pub const CAPACITY: usize = 16 * 1024 * 1024;

/// What can go wrong with the flash.
#[derive(Copy, Clone, Debug, PartialEq, Eq, Structural)]
pub enum FlashError {
    Spi,
    Init,
    Busy,
    OutOfBounds,
    NotAligned,
    MultipleCommandsRequired,
    Timeout,
    Other,
}

impl FlashError {
    pub fn kind(&self) -> (kind: FlashErrorKind)
        ensures
            kind == (match *self {
                FlashError::OutOfBounds => FlashErrorKind::OutOfBounds,
                FlashError::NotAligned => FlashErrorKind::NotAligned,
                _ => FlashErrorKind::Other,
            }),
    {
        match self {
            FlashError::Spi => FlashErrorKind::Other,
            FlashError::Init => FlashErrorKind::Other,
            FlashError::Busy => FlashErrorKind::Other,
            FlashError::OutOfBounds => FlashErrorKind::OutOfBounds,
            FlashError::NotAligned => FlashErrorKind::NotAligned,
            FlashError::MultipleCommandsRequired => FlashErrorKind::Other,
            FlashError::Timeout => FlashErrorKind::Other,
            FlashError::Other => FlashErrorKind::Other,
        }
    }
}

/// The instructions of the chip that are used.
#[derive(Copy, Clone, Debug, PartialEq, Eq, Structural)]
pub enum OpCode {
    WriteEnable,
    JedecId,
    ReadData,
    PageProgram,
    SectorErase4KB,
    BlockErase32KB,
    BlockErase64KB,
    ChipErase,
    ReadStatusRegister1,
}

impl OpCode {
    /// The byte that stands for the instruction on the wire.
    pub open spec fn byte(self) -> u8 {
        match self {
            OpCode::WriteEnable => 0x06,
            OpCode::JedecId => 0x9f,
            OpCode::ReadData => 0x03,
            OpCode::PageProgram => 0x02,
            OpCode::SectorErase4KB => 0x20,
            OpCode::BlockErase32KB => 0x52,
            OpCode::BlockErase64KB => 0xd8,
            OpCode::ChipErase => 0xc7,
            OpCode::ReadStatusRegister1 => 0x05,
        }
    }

    pub fn code(self) -> (byte: u8)
        ensures
            byte == self.byte(),
    {
        match self {
            OpCode::WriteEnable => 0x06,
            OpCode::JedecId => 0x9f,
            OpCode::ReadData => 0x03,
            OpCode::PageProgram => 0x02,
            OpCode::SectorErase4KB => 0x20,
            OpCode::BlockErase32KB => 0x52,
            OpCode::BlockErase64KB => 0xd8,
            OpCode::ChipErase => 0xc7,
            OpCode::ReadStatusRegister1 => 0x05,
        }
    }
}

/// The opcode and the three lower bytes of the address, the highest first.
pub open spec fn op_with_address(opcode: OpCode, address: u32) -> Seq<u8> {
    seq![
        opcode.byte(),
        address_byte(address, 0x1_0000),
        address_byte(address, 0x100),
        address_byte(address, 1),
    ]
}

/// A four-byte pattern of an opcode and a three-byte address in big-endian byte order.
/// | opcode | A23-A16 | A15-A8 | A7-A0 |
pub fn make_op_3b_slice(opcode: OpCode, address: u32) -> (bytes: [u8; 4])
    ensures
        bytes@ == op_with_address(opcode, address),
{
    let byte23_16: u8 = (address / 0x1_0000 % 256) as u8;
    let byte15_8: u8 = (address / 0x100 % 256) as u8;
    let byte7_0: u8 = (address / 1 % 256) as u8;
    let bytes = [opcode.code(), byte23_16, byte15_8, byte7_0];
    assert(bytes@ =~= op_with_address(opcode, address));
    bytes
}

pub fn aligned_4kb(value: u32) -> (aligned: bool)
    ensures
        aligned == (value as int % 4096 == 0),
{
    value % _4KB == 0
}

pub fn aligned_32kb(value: u32) -> (aligned: bool)
    ensures
        aligned == (value as int % 32768 == 0),
{
    value % _32KB == 0
}

pub fn aligned_64kb(value: u32) -> (aligned: bool)
    ensures
        aligned == (value as int % 65536 == 0),
{
    value % _64KB == 0
}

/// What one erase instruction clears.
#[derive(Copy, Clone, Debug, PartialEq, Eq, Structural)]
pub enum EraseUnit {
    Sector4KB,
    Block32KB,
    Block64KB,
    Chip,
}

impl EraseUnit {
    /// How many bytes are cleared.
    pub open spec fn bytes(self) -> int {
        match self {
            EraseUnit::Sector4KB => 4096,
            EraseUnit::Block32KB => 32768,
            EraseUnit::Block64KB => 65536,
            EraseUnit::Chip => 16777216,
        }
    }

    pub fn opcode(self) -> (opcode: OpCode)
        ensures
            opcode == (match self {
                EraseUnit::Sector4KB => OpCode::SectorErase4KB,
                EraseUnit::Block32KB => OpCode::BlockErase32KB,
                EraseUnit::Block64KB => OpCode::BlockErase64KB,
                EraseUnit::Chip => OpCode::ChipErase,
            }),
    {
        match self {
            EraseUnit::Sector4KB => OpCode::SectorErase4KB,
            EraseUnit::Block32KB => OpCode::BlockErase32KB,
            EraseUnit::Block64KB => OpCode::BlockErase64KB,
            EraseUnit::Chip => OpCode::ChipErase,
        }
    }

    /// How long the erase takes: typically, and at most \[ms\].
    pub fn timing(self) -> (timing: (u64, u64))
        ensures
            timing.0 == (match self {
                EraseUnit::Sector4KB => 45u64,
                EraseUnit::Block32KB => 120u64,
                EraseUnit::Block64KB => 150u64,
                EraseUnit::Chip => 40_000u64,
            }),
            timing.1 == (match self {
                EraseUnit::Sector4KB => 400u64,
                EraseUnit::Block32KB => 1_600u64,
                EraseUnit::Block64KB => 2_000u64,
                EraseUnit::Chip => 200_000u64,
            }),
    {
        match self {
            EraseUnit::Sector4KB => (45, 400),
            EraseUnit::Block32KB => (120, 1_600),
            EraseUnit::Block64KB => (150, 2_000),
            EraseUnit::Chip => (40_000, 200_000),
        }
    }
}

/// One erase instruction.
#[derive(Copy, Clone, Debug, PartialEq, Eq, Structural)]
pub struct EraseStep {
    pub unit: EraseUnit,
    pub address: u32,
}

/// The largest unit below the whole chip that may be erased at the offset, with this many bytes
/// left to erase: it has to be aligned, and to fit.
pub open spec fn largest_unit(offset: int, remaining: int) -> EraseUnit {
    if offset % 65536 == 0 && remaining >= 65536 {
        EraseUnit::Block64KB
    } else if offset % 32768 == 0 && remaining >= 32768 {
        EraseUnit::Block32KB
    } else {
        EraseUnit::Sector4KB
    }
}

/// The erases that clear everything from `from` on, with `to` as the end, and that got as far as
/// `at`: each starts where the one before ended, and is as large as it can be.
pub open spec fn is_erase_plan(steps: Seq<EraseStep>, from: int, to: int, at: int) -> bool
    decreases steps.len(),
{
    if steps.len() == 0 {
        at == from
    } else {
        let last = steps.last();
        &&& last.unit == largest_unit(last.address as int, to - last.address)
        &&& last.address + last.unit.bytes() == at
        &&& is_erase_plan(steps.drop_last(), from, to, last.address as int)
    }
}

/// The erase that comes next at this offset, and where it ends.
pub fn erase_next(offset: u32, max: u32) -> (next: (EraseStep, u32))
    requires
        offset < max,
        offset as int % 4096 == 0,
        max as int % 4096 == 0,
    ensures
        next.0 == (EraseStep {
            unit: largest_unit(offset as int, max - offset),
            address: offset,
        }),
        next.1 == offset + next.0.unit.bytes(),
        next.1 <= max,
        next.1 as int % 4096 == 0,
{
    let remaining: u32 = max - offset;
    assert(remaining >= 4096);
    let max_block_size: u32 = if remaining < _32KB {
        _4KB
    } else if remaining < _64KB {
        _32KB
    } else {
        _64KB
    };
    let max_alignment: u32 = if aligned_64kb(offset) {
        _64KB
    } else if aligned_32kb(offset) {
        _32KB
    } else {
        _4KB
    };
    let erase_size: u32 = if max_block_size < max_alignment {
        max_block_size
    } else {
        max_alignment
    };
    let unit = if erase_size == _4KB {
        EraseUnit::Sector4KB
    } else if erase_size == _32KB {
        EraseUnit::Block32KB
    } else {
        EraseUnit::Block64KB
    };
    (EraseStep { unit, address: offset }, offset + erase_size)
}

/// What the status register says of the chip.
pub struct StatusReg1 {
    pub bits: u8,
}

impl StatusReg1 {
    /// An erase or a write is in progress.
    pub fn is_busy(&self) -> (busy: bool)
        ensures
            busy == (self.bits % 2 == 1),
    {
        self.bits % 2 == 1
    }

    /// The chip accepts erases and writes.
    pub fn is_write_enabled(&self) -> (enabled: bool)
        ensures
            enabled == (self.bits / 2 % 2 == 1),
    {
        self.bits / 2 % 2 == 1
    }
}

/// What comes after the status register was read while an erase is awaited.
#[derive(Copy, Clone, Debug, PartialEq, Eq, Structural)]
pub enum Progress {
    Finished,
    TimedOut,
    /// Ask again after this long \[us\].
    AskAfter(u64),
}

/// A W25Q128 that has been identified.
#[derive(Copy, Clone, Debug, PartialEq, Eq, Structural)]
pub struct W25Q128 {
    dev_id: u16,
}

impl W25Q128 {
    /// Takes the JEDEC id that the chip gave: the manufacturer and the two bytes of the device.
    pub fn new(ids: [u8; 3]) -> (result: Result<Self, FlashError>)
        ensures
            result is Ok <==> ids@ == seq![0x17u8, 0x70u8, 0x18u8] || ids@ == seq![
                0xefu8,
                0x40u8,
                0x18u8,
            ],
            result is Err ==> result->Err_0 is Init,
    {
        let man_id: u8 = ids[0];
        let dev_id: u16 = ids[1] as u16 * 256 + ids[2] as u16;
        let size_mbit: u32 = match (man_id, dev_id) {
            // W25Q256JV-IQ
            (0xef, 0x4019) => 256,
            // W25Q256JV-IM
            (0xef, 0x7019) => 256,
            // W25Q128JV
            (0x17, 0x7018) => 128,
            // The one on board
            (0xef, 0x4018) => 128,
            _ => 0,
        };
        assert(ids@ == seq![0x17u8, 0x70u8, 0x18u8] <==> ids[0] == 0x17 && ids[1] == 0x70 && ids[2]
            == 0x18) by {
            assert(ids[0] == 0x17 && ids[1] == 0x70 && ids[2] == 0x18 ==> ids@ =~= seq![
                0x17u8,
                0x70u8,
                0x18u8,
            ]);
        }
        assert(ids@ == seq![0xefu8, 0x40u8, 0x18u8] <==> ids[0] == 0xef && ids[1] == 0x40 && ids[2]
            == 0x18) by {
            assert(ids[0] == 0xef && ids[1] == 0x40 && ids[2] == 0x18 ==> ids@ =~= seq![
                0xefu8,
                0x40u8,
                0x18u8,
            ]);
        }
        if size_mbit != 128 {
            return Err(FlashError::Init);
        }
        Ok(W25Q128 { dev_id })
    }

    /// The size of the chip in bytes.
    pub fn capacity(&self) -> (capacity: usize)
        ensures
            capacity == 16 * 1024 * 1024int,
    {
        CAPACITY
    }

    /// The instruction that reads from the offset on into a buffer of this length. `status` is the
    /// status register, which is read where the range is within the chip.
    pub fn read(&self, offset: u32, len: usize, status: StatusReg1) -> (result: Result<
        [u8; 4],
        FlashError,
    >)
        ensures
            match result {
                Ok(bytes) => offset + len <= CAPACITY && status.bits % 2 == 0 && bytes@
                    == op_with_address(OpCode::ReadData, offset),
                Err(error) => if offset + len > CAPACITY {
                    error is OutOfBounds
                } else {
                    error is Busy && status.bits % 2 == 1
                },
            },
    {
        if len > CAPACITY || offset as usize > CAPACITY - len {
            return Err(FlashError::OutOfBounds);
        }
        if status.is_busy() {
            return Err(FlashError::Busy);
        }
        Ok(make_op_3b_slice(OpCode::ReadData, offset))
    }

    /// The erase of the sector at the offset.
    pub fn erase_sector(&self, offset: u32) -> (result: Result<EraseStep, FlashError>)
        ensures
            result == (if offset as int % 4096 == 0 {
                Ok(EraseStep { unit: EraseUnit::Sector4KB, address: offset })
            } else {
                Err(FlashError::NotAligned)
            }),
    {
        if offset % 4096 != 0 {
            return Err(FlashError::NotAligned);
        }
        Ok(EraseStep { unit: EraseUnit::Sector4KB, address: offset })
    }

    /// The erases that clear everything from `from` to `to`.
    pub fn erase_flexible(&self, from: u32, to: u32) -> (result: Result<Vec<EraseStep>, FlashError>)
        ensures
            match result {
                Ok(steps) => {
                    &&& from <= to <= CAPACITY
                    &&& if from == 0 && to == CAPACITY {
                        steps@ == seq![EraseStep { unit: EraseUnit::Chip, address: 0 }]
                    } else {
                        &&& from == to || from as int % 4096 == 0 && to as int % 4096 == 0
                        &&& is_erase_plan(steps@, from as int, to as int, to as int)
                    }
                },
                Err(FlashError::OutOfBounds) => from > to || to > CAPACITY,
                Err(FlashError::NotAligned) => from < to <= CAPACITY && (from as int % 4096 != 0
                    || to as int % 4096 != 0),
                Err(_) => false,
            },
    {
        if from > to || to as usize > CAPACITY {
            return Err(FlashError::OutOfBounds);
        }
        let mut steps: Vec<EraseStep> = Vec::new();
        if from == 0 && to as usize == CAPACITY {
            steps.push(EraseStep { unit: EraseUnit::Chip, address: 0 });
            assert(steps@ =~= seq![EraseStep { unit: EraseUnit::Chip, address: 0 }]);
            return Ok(steps);
        }
        if from == to {
            return Ok(steps);
        }
        if !aligned_4kb(from) || !aligned_4kb(to) {
            return Err(FlashError::NotAligned);
        }
        let mut at: u32 = from;
        while at < to
            invariant
                from <= at <= to,
                at as int % 4096 == 0,
                to as int % 4096 == 0,
                is_erase_plan(steps@, from as int, to as int, at as int),
            decreases to - at,
        {
            let (step, end) = erase_next(at, to);
            let ghost before = steps@;
            steps.push(step);
            assert(steps@.drop_last() =~= before);
            at = end;
        }
        Ok(steps)
    }

    /// The page programs that write this many bytes from the offset on.
    pub fn flexible_write(&self, offset: u32, len: usize) -> (result: Result<
        Vec<PageWrite>,
        FlashError,
    >)
        ensures
            match result {
                Ok(writes) => (len == 0 || offset + len <= CAPACITY) && is_page_split(
                    writes@,
                    offset as int,
                    len as int,
                ),
                Err(error) => error is OutOfBounds && len > 0 && offset + len > CAPACITY,
            },
    {
        if len == 0 {
            return Ok(Vec::new());
        }
        if len > CAPACITY || offset as usize > CAPACITY - len {
            return Err(FlashError::OutOfBounds);
        }
        Ok(split_pages(offset, len))
    }

    /// Whether an erase or a write may be sent to a chip with this status.
    pub fn check_idle(&self, status: StatusReg1) -> (result: Result<(), FlashError>)
        ensures
            result == (if status.bits % 2 == 1 {
                Err::<(), FlashError>(FlashError::Busy)
            } else {
                Ok(())
            }),
    {
        if status.is_busy() {
            Err(FlashError::Busy)
        } else {
            Ok(())
        }
    }

    /// Whether the chip took the write enable, by the status that it shows afterwards.
    pub fn enable_write(&self, status: StatusReg1) -> (result: Result<(), FlashError>)
        ensures
            result == (if status.bits / 2 % 2 == 1 {
                Ok::<(), FlashError>(())
            } else {
                Err(FlashError::Other)
            }),
    {
        if status.is_write_enabled() {
            Ok(())
        } else {
            Err(FlashError::Other)
        }
    }

    /// What comes next while an erase is awaited that started this long ago \[ms\]. The status is
    /// first read once the typical duration has passed, then again after every tenth of it.
    pub fn assure_finished(&self, unit: EraseUnit, elapsed: u64, status: StatusReg1) -> (progress:
        Progress)
        ensures
            progress == ({
                let (typical, longest) = match unit {
                    EraseUnit::Sector4KB => (45u64, 400u64),
                    EraseUnit::Block32KB => (120u64, 1_600u64),
                    EraseUnit::Block64KB => (150u64, 2_000u64),
                    EraseUnit::Chip => (40_000u64, 200_000u64),
                };
                if elapsed >= longest {
                    Progress::TimedOut
                } else if status.bits % 2 == 0 {
                    Progress::Finished
                } else {
                    Progress::AskAfter((typical * 100) as u64)
                }
            }),
    {
        let (typical, longest) = unit.timing();
        if elapsed >= longest {
            Progress::TimedOut
        } else if !status.is_busy() {
            Progress::Finished
        } else {
            Progress::AskAfter(typical * 100)
        }
    }
}

/// An erase plan clears every byte of the range once and none outside it, and each of its erases
/// is aligned to what it clears.
pub proof fn law_erase_plan_clears_the_range_once(
    steps: Seq<EraseStep>,
    from: int,
    to: int,
    at: int,
    byte: int,
)
    requires
        from <= at,
        from % 4096 == 0,
        is_erase_plan(steps, from, to, at),
    ensures
        at % 4096 == 0,
        forall|k: int|
            0 <= k < steps.len() ==> (#[trigger] steps[k]).address as int % steps[k].unit.bytes()
                == 0 && from <= steps[k].address && steps[k].address + steps[k].unit.bytes() <= at,
        from <= byte < at ==> exists|k: int|
            0 <= k < steps.len() && (#[trigger] steps[k]).address <= byte < steps[k].address
                + steps[k].unit.bytes(),
        forall|k: int, m: int|
            0 <= k < m < steps.len() ==> (#[trigger] steps[k]).address + steps[k].unit.bytes() <= (
            #[trigger] steps[m]).address,
    decreases steps.len(),
{
    if steps.len() > 0 {
        let n = steps.len() - 1;
        let rest = steps.drop_last();
        let last = steps[n];
        lemma_plan_starts_at(rest, from, to, last.address as int);
        law_erase_plan_clears_the_range_once(rest, from, to, last.address as int, byte);
        assert forall|k: int| 0 <= k < steps.len() implies (#[trigger] steps[k]).address as int
            % steps[k].unit.bytes() == 0 && from <= steps[k].address && steps[k].address
            + steps[k].unit.bytes() <= at by {
            if k < n {
                assert(steps[k] == rest[k]);
            }
        }
        if from <= byte < at {
            if byte >= last.address {
                assert(steps[n].address <= byte < steps[n].address + steps[n].unit.bytes());
            } else {
                let k = choose|k: int|
                    0 <= k < rest.len() && (#[trigger] rest[k]).address <= byte < rest[k].address
                        + rest[k].unit.bytes();
                assert(steps[k] == rest[k]);
            }
        }
        assert forall|k: int, m: int| 0 <= k < m < steps.len() implies (#[trigger] steps[k]).address
            + steps[k].unit.bytes() <= (#[trigger] steps[m]).address by {
            assert(steps[k] == rest[k]);
            if m < n {
                assert(steps[m] == rest[m]);
            }
        }
    }
}

proof fn lemma_plan_starts_at(steps: Seq<EraseStep>, from: int, to: int, at: int)
    requires
        is_erase_plan(steps, from, to, at),
    ensures
        from <= at,
    decreases steps.len(),
{
    if steps.len() > 0 {
        lemma_plan_starts_at(steps.drop_last(), from, to, steps.last().address as int);
    }
}

} // verus!
