//! What the instructions to a flash chip amount to: which bytes they read, write and clear.

use vstd::arithmetic::power2::{lemma2_to64, pow2};
use vstd::prelude::*;

use crate::flash::{
    largest_unit, law_erase_plan_clears_the_range_once, op_with_address, EraseStep, EraseUnit,
    OpCode, Progress, StatusReg1, W25Q128,
};
use crate::storage::w25q::{
    geometry, instruction, is_page_split, law_no_page_write_crosses_a_page,
    law_page_split_writes_every_byte_once, split_pages, AddressWidth, FlashError, FlashErrorKind,
    PageWrite, ProbeStep, WaitStep, PAGE_PROGRAM_TIMEOUT, SECTOR_ERASE_TIMEOUT, STATUS_BUSY, W25Q,
};
use crate::param_group::ParamValue;
use crate::params::Params;
use crate::storage::{
    selftest_passed, Fetched, Flash, FlashStorage, LoadStep, ParamLoad, StorageRequest,
    PARAMS_FLASH_START, SELFTEST_KEY,
};

verus! {

/// The capacity byte is the number of address bits, up to 32 MiB; after that the numbers go on at
/// 0x20. Three address bytes are used where they reach every byte.
pub proof fn law_capacity_codes(code: u8, found: Option<(u32, AddressWidth)>)
    requires
        call_ensures(geometry, (code,), found),
    ensures
        20 <= code <= 25 ==> (found matches Some((size, _)) && size == pow2(code as nat)),
        code == 0x20 ==> (found matches Some((size, _)) && size == pow2(26)),
        !(20 <= code <= 25) && code != 0x20 ==> found is None,
        found matches Some((size, width)) ==> (width == AddressWidth::Three <==> size <= pow2(24)),
{
    lemma2_to64();
}

/// The address in an instruction, its highest byte first.
pub open spec fn address_in(bytes: Seq<u8>) -> int
    decreases bytes.len(),
{
    if bytes.len() <= 1 {
        0
    } else {
        256 * address_in(bytes.drop_last()) + bytes.last()
    }
}

/// An instruction is the opcode and the address: all of it in four bytes, or the lower 24 bits in
/// three.
pub proof fn law_instructions_carry_the_address(width: AddressWidth, opcode: u8, address: u32)
    ensures
        ({
            let bytes = instruction(width, opcode, address);
            &&& bytes[0] == opcode
            &&& width == AddressWidth::Three ==> bytes.len() == 4 && address_in(bytes) == address
                as int % 0x100_0000
            &&& width == AddressWidth::Four ==> bytes.len() == 5 && address_in(bytes) == address
        }),
{
    let bytes = instruction(width, opcode, address);
    let low = bytes.drop_last();
    let middle = low.drop_last();
    let high = middle.drop_last();
    let a = address as int;
    assert(bytes.last() == a % 256);
    assert(low.last() == a / 256 % 256);
    assert(middle.last() == a / 0x1_0000 % 256);
    if width == AddressWidth::Three {
        assert(high.len() == 1);
        assert(address_in(high) == 0);
        assert(address_in(middle) == a / 0x1_0000 % 256);
        assert(address_in(low) == 256 * address_in(middle) + a / 256 % 256);
        assert(address_in(bytes) == 256 * address_in(low) + a % 256);
    } else {
        assert(high.last() == a / 0x100_0000 % 256);
        assert(high.drop_last().len() == 1);
        assert(address_in(high.drop_last()) == 0);
        assert(address_in(high) == a / 0x100_0000 % 256);
        assert(address_in(middle) == 256 * address_in(high) + a / 0x1_0000 % 256);
        assert(address_in(low) == 256 * address_in(middle) + a / 256 % 256);
        assert(address_in(bytes) == 256 * address_in(low) + a % 256);
    }
}

/// The same of the chip that is always addressed with three bytes.
pub proof fn law_short_instructions_carry_the_address(opcode: OpCode, address: u32)
    ensures
        ({
            let bytes = op_with_address(opcode, address);
            &&& bytes.len() == 4
            &&& bytes[0] == match opcode {
                OpCode::PageProgram => 0x02int,
                OpCode::ReadData => 0x03,
                OpCode::ReadStatusRegister1 => 0x05,
                OpCode::WriteEnable => 0x06,
                OpCode::SectorErase4KB => 0x20,
                OpCode::BlockErase32KB => 0x52,
                OpCode::JedecId => 0x9f,
                OpCode::ChipErase => 0xc7,
                OpCode::BlockErase64KB => 0xd8,
            }
            &&& address_in(bytes) == address as int % 0x100_0000
        }),
{
    reveal_with_fuel(address_in, 5);
    let bytes = op_with_address(opcode, address);
    assert(bytes.drop_last().drop_last().drop_last().len() == 1);
}

/// The opcodes of a chip: the read, the page program and the sector erase, each in the form for its
/// address width.
pub proof fn law_opcodes_go_with_the_width(
    width: AddressWidth,
    count: u8,
    read: u8,
    program: u8,
    erase: u8,
)
    requires
        call_ensures(AddressWidth::count, (width,), count),
        call_ensures(AddressWidth::read_data, (width,), read),
        call_ensures(AddressWidth::page_program, (width,), program),
        call_ensures(AddressWidth::sector_erase, (width,), erase),
    ensures
        width == AddressWidth::Three ==> count == 3 && read == 0x03 && program == 0x02 && erase
            == 0x20,
        width == AddressWidth::Four ==> count == 4 && read == 0x13 && program == 0x12 && erase
            == 0x21,
{
}

/// A read asks for the bytes from the offset on. It is refused where it would leave the chip.
pub proof fn law_reads_start_at_the_offset(
    chip: W25Q,
    offset: u32,
    len: usize,
    result: Result<Option<Vec<u8>>, FlashError>,
)
    requires
        call_ensures(W25Q::read, (&chip, offset, len), result),
    ensures
        match result {
            Ok(Some(bytes)) => {
                &&& offset + len <= chip.bytes()
                &&& len > 0
                &&& chip.width() == AddressWidth::Four ==> address_in(bytes@) == offset && bytes[0]
                    == 0x13
                &&& chip.width() == AddressWidth::Three ==> address_in(bytes@) == offset as int
                    % 0x100_0000 && bytes[0] == 0x03
            },
            Ok(None) => len == 0 && offset <= chip.bytes(),
            Err(error) => error == FlashError::OutOfBounds && offset + len > chip.bytes(),
        },
{
    law_instructions_carry_the_address(
        chip.width(),
        if chip.width() == AddressWidth::Three {
            0x03
        } else {
            0x13
        },
        offset,
    );
    if let Ok(Some(bytes)) = result {
        assert(bytes[0] == bytes@[0]);
    }
}

/// Every byte of the data is written once, to the offset and its place in the data, and no program
/// crosses into the next 256 bytes.
pub proof fn law_programs_write_every_byte(
    offset: u32,
    len: usize,
    writes: Vec<PageWrite>,
    i: int,
)
    requires
        offset + len <= u32::MAX,
        call_ensures(split_pages, (offset, len), writes),
        0 <= i < len,
    ensures
        exists|k: int|
            0 <= k < writes.len() && (#[trigger] writes@[k]).start <= i < writes@[k].start
                + writes@[k].len && writes@[k].address + (i - writes@[k].start) == offset + i,
        forall|k: int|
            0 <= k < writes.len() ==> (#[trigger] writes@[k]).address as int / 256 == (
            writes@[k].address + writes@[k].len - 1) / 256,
{
    law_page_split_writes_every_byte_once(writes@, offset as int, len as int, i);
    assert forall|k: int| 0 <= k < writes.len() implies (#[trigger] writes@[k]).address as int / 256
        == (writes@[k].address + writes@[k].len - 1) / 256 by {
        law_no_page_write_crosses_a_page(writes@, offset as int, len as int, k);
    }
}

/// An access has to end within the chip.
pub proof fn law_range_checks(
    chip: W25Q,
    offset: u32,
    len: usize,
    result: Result<(), FlashError>,
)
    requires
        call_ensures(W25Q::check_range, (&chip, offset, len), result),
    ensures
        result is Ok <==> offset + len <= chip.bytes(),
        result matches Err(error) ==> error == FlashError::OutOfBounds,
{
}

/// A chip is idle where the lowest bit of its status is clear. A busy one is asked again until its
/// time is up.
pub proof fn law_waiting_for_a_chip(status: u8, elapsed: u64, timeout: u64, step: WaitStep)
    requires
        call_ensures(W25Q::wait_idle, (status, elapsed, timeout), step),
    ensures
        step == WaitStep::Idle <==> status % 2 == 0,
        step == WaitStep::TimedOut <==> status % 2 == 1 && elapsed > timeout,
        step == WaitStep::AskAgain <==> status % 2 == 1 && elapsed <= timeout,
{
}

/// Each erase clears what its opcode says: 4, 32 or 64 KiB, or the whole chip of 16 MiB.
pub proof fn law_what_an_erase_clears(unit: EraseUnit, opcode: OpCode, timing: (u64, u64))
    requires
        call_ensures(EraseUnit::opcode, (unit,), opcode),
        call_ensures(EraseUnit::timing, (unit,), timing),
    ensures
        opcode.byte() == 0x20 <==> unit.bytes() == 4 * 1024,
        opcode.byte() == 0x52 <==> unit.bytes() == 32 * 1024,
        opcode.byte() == 0xd8 <==> unit.bytes() == 64 * 1024,
        opcode.byte() == 0xc7 <==> unit.bytes() == 16 * 1024 * 1024,
        opcode.byte() == 0x20 || opcode.byte() == 0x52 || opcode.byte() == 0xd8 || opcode.byte()
            == 0xc7,
        // Typical and longest times, in milliseconds.
        unit.bytes() == 4 * 1024 ==> timing == (45u64, 400u64),
        unit.bytes() == 32 * 1024 ==> timing == (120u64, 1600u64),
        unit.bytes() == 64 * 1024 ==> timing == (150u64, 2000u64),
        unit.bytes() == 16 * 1024 * 1024 ==> timing == (40_000u64, 200_000u64),
{
}

/// The erase that is chosen is aligned and fits, and no larger one would.
pub proof fn law_the_largest_erase_is_chosen(offset: int, remaining: int, other: EraseUnit)
    requires
        0 <= offset,
        offset % 4096 == 0,
        remaining >= 4096,
        other != EraseUnit::Chip,
        offset % other.bytes() == 0,
        other.bytes() <= remaining,
    ensures
        offset % largest_unit(offset, remaining).bytes() == 0,
        largest_unit(offset, remaining).bytes() <= remaining,
        other.bytes() <= largest_unit(offset, remaining).bytes(),
        largest_unit(offset, remaining) != EraseUnit::Chip,
{
}

/// The status register: busy is the lowest bit, and write enable the next.
pub proof fn law_status_bits(
    status: StatusReg1,
    busy: bool,
    enabled: bool,
    chip: W25Q128,
    idle: Result<(), crate::flash::FlashError>,
    write: Result<(), crate::flash::FlashError>,
)
    requires
        call_ensures(StatusReg1::is_busy, (&status,), busy),
        call_ensures(StatusReg1::is_write_enabled, (&status,), enabled),
        call_ensures(W25Q128::check_idle, (&chip, status), idle),
        call_ensures(W25Q128::enable_write, (&chip, status), write),
    ensures
        busy <==> status.bits % 2 == 1,
        enabled <==> status.bits % 4 >= 2,
        idle is Ok <==> !busy,
        write is Ok <==> enabled,
{
}

/// An erase is waited for until the longest time that it may take. It is done once the chip is no
/// longer busy.
pub proof fn law_waiting_for_an_erase(
    chip: W25Q128,
    unit: EraseUnit,
    elapsed: u64,
    status: StatusReg1,
    progress: Progress,
    timing: (u64, u64),
)
    requires
        call_ensures(W25Q128::assure_finished, (&chip, unit, elapsed, status), progress),
        call_ensures(EraseUnit::timing, (unit,), timing),
    ensures
        progress == Progress::TimedOut <==> elapsed >= timing.1,
        progress == Progress::Finished <==> elapsed < timing.1 && status.bits % 2 == 0,
        // It is asked again after a tenth of the typical time.
        progress matches Progress::AskAfter(micros) ==> micros * 10 == timing.0 * 1000
            && status.bits % 2 == 1,
{
}

/// A range is erased by erases that follow each other, as large as can be, from its start to its
/// end; all of the chip by a single one. Nothing outside the chip, nor parts of sectors, can be.
pub proof fn law_a_range_is_erased_to_its_end(
    chip: W25Q128,
    from: u32,
    to: u32,
    result: Result<Vec<EraseStep>, crate::flash::FlashError>,
    byte: int,
)
    requires
        call_ensures(W25Q128::erase_flexible, (&chip, from, to), result),
    ensures
        from > to || to > 0x100_0000 ==> result is Err,
        from < to && (from as int % 4096 != 0 || to as int % 4096 != 0) ==> result is Err,
        result matches Ok(steps) ==> {
            &&& from <= to <= 0x100_0000
            &&& from == 0 && to == 0x100_0000 ==> steps.len() == 1 && steps[0].unit
                == EraseUnit::Chip
            &&& !(from == 0 && to == 0x100_0000) && from < to ==> {
                // Every byte in the range is cleared, and none outside of it.
                from <= byte < to <==> exists|k: int|
                    0 <= k < steps.len() && (#[trigger] steps@[k]).address <= byte < steps@[k].address
                        + steps@[k].unit.bytes()
            }
        },
{
    if let Ok(steps) = result {
        if !(from == 0 && to == 0x100_0000) && from < to {
            law_erase_plan_clears_the_range_once(
                steps@,
                from as int,
                to as int,
                to as int,
                byte,
            );
        } else if from == 0 && to == 0x100_0000 {
            assert(steps@ == seq![EraseStep { unit: EraseUnit::Chip, address: 0 }]);
            assert(steps[0] == steps@[0]);
        }
    }
}

/// The log has what the parameters, in the first 16 sectors of 4096 bytes, leave of the chip.
pub proof fn law_the_log_follows_the_parameters(flash: Flash, range: (u32, u32))
    requires
        call_ensures(Flash::log_range, (&flash,), range),
    ensures
        range.0 == 16 * 4096,
        range.0 <= range.1,
        flash.bytes() >= 16 * 4096 ==> range.1 == flash.bytes(),
        flash.bytes() < 16 * 4096 ==> range.1 == range.0,
{
}

/// Work for a flash that was not identified is dropped, and other work is done as it is.
pub proof fn law_work_is_done_on_a_healthy_flash(
    flash: Flash,
    request: StorageRequest,
    work: Option<StorageRequest>,
    passed: bool,
    fetched: Fetched,
    stored: bool,
)
    requires
        call_ensures(Flash::take_on, (&flash, request), work),
        call_ensures(selftest_passed, (stored, fetched), passed),
    ensures
        flash.health() ==> work == Some(request),
        !flash.health() ==> work is None,
        passed <==> stored && fetched == Fetched::Found(0xdead_beef),
{
}

/// The instructions of a write are those for its page programs, each to the address of its page.
pub proof fn law_writes_go_to_their_pages(
    chip: W25Q,
    offset: u32,
    len: usize,
    result: Result<Vec<(Vec<u8>, PageWrite)>, FlashError>,
    i: int,
)
    requires
        call_ensures(W25Q::write, (&chip, offset, len), result),
        0 <= i < len,
    ensures
        result is Err <==> offset + len > chip.bytes(),
        result matches Ok(steps) ==> exists|k: int|
            {
                &&& 0 <= k < steps.len()
                &&& (#[trigger] steps@[k]).1.start <= i < steps@[k].1.start + steps@[k].1.len
                &&& steps@[k].1.address + (i - steps@[k].1.start) == offset + i
                &&& chip.width() == AddressWidth::Three ==> steps@[k].0@[0] == 0x02 && address_in(
                    steps@[k].0@,
                ) == steps@[k].1.address as int % 0x100_0000
                &&& chip.width() == AddressWidth::Four ==> steps@[k].0@[0] == 0x12 && address_in(
                    steps@[k].0@,
                ) == steps@[k].1.address
            },
{
    if let Ok(steps) = result {
        let writes = Seq::new(steps@.len(), |k: int| steps@[k].1);
        law_page_split_writes_every_byte_once(writes, offset as int, len as int, i);
        let k = choose|k: int|
            0 <= k < writes.len() && (#[trigger] writes[k]).start <= i < writes[k].start
                + writes[k].len && writes[k].address + (i - writes[k].start) == offset + i;
        assert(steps@[k].1 == writes[k]);
        assert(steps[k] == steps@[k]);
        law_instructions_carry_the_address(
            chip.width(),
            if chip.width() == AddressWidth::Three {
                0x02
            } else {
                0x12
            },
            steps@[k].1.address,
        );
    }
}

/// The sectors of a range are erased one after the other, each by its own instruction.
pub proof fn law_sectors_are_erased_in_order(
    chip: W25Q,
    from: u32,
    to: u32,
    result: Result<Vec<Vec<u8>>, FlashError>,
    k: int,
)
    requires
        call_ensures(W25Q::erase, (&chip, from, to), result),
    ensures
        result is Ok <==> from as int % 4096 == 0 && to as int % 4096 == 0 && from <= to
            <= chip.bytes(),
        result matches Err(error) ==> (error == FlashError::NotAligned <==> from as int % 4096 != 0
            || to as int % 4096 != 0),
        result matches Ok(steps) ==> {
            &&& steps.len() * 4096 == to - from
            &&& 0 <= k < steps.len() ==> is_sector_erase(steps@[k]@, chip.width(), from + 4096 * k)
        },
{
    if let Ok(steps) = result {
        assert(steps.len() == (to - from) / 4096);
        assert(steps.len() * 4096 == to - from);
        if 0 <= k < steps.len() {
            assert(from + 4096 * k < to);
            assert(steps[k] == steps@[k]);
            lemma_sector_erase(chip.width(), (from + 4096 * k) as u32);
        }
    }
}

/// The bytes are the instruction that erases the sector at the address.
pub open spec fn is_sector_erase(bytes: Seq<u8>, width: AddressWidth, address: int) -> bool {
    match width {
        AddressWidth::Three => bytes[0] == 0x20 && address_in(bytes) == address % 0x100_0000,
        AddressWidth::Four => bytes[0] == 0x21 && address_in(bytes) == address,
    }
}

proof fn lemma_sector_erase(width: AddressWidth, address: u32)
    ensures
        is_sector_erase(
            instruction(
                width,
                if width is Three {
                    0x20
                } else {
                    0x21
                },
                address,
            ),
            width,
            address as int,
        ),
{
    law_instructions_carry_the_address(
        width,
        if width is Three {
            0x20
        } else {
            0x21
        },
        address,
    );
}

/// A chip is taken where it is of the known manufacturer and of a known capacity. Otherwise it is
/// asked three times in all, and stays unknown.
pub proof fn law_how_a_chip_is_identified(
    chip: &mut W25Q,
    id: (u8, u8, u8),
    attempts: u8,
    step: ProbeStep,
    fresh: W25Q,
)
    requires
        call_ensures(W25Q::probe, (chip, id, attempts), step),
        call_ensures(W25Q::new, (), fresh),
    ensures
        ({
            let known = id.0 == 0xef && (20 <= id.2 <= 25 || id.2 == 0x20);
            &&& step == ProbeStep::Identified <==> known
            &&& step == ProbeStep::Retry <==> !known && attempts < 2
            &&& known && id.2 <= 25 ==> (*final(chip)).bytes() == pow2(id.2 as nat)
            &&& known && id.2 == 0x20 ==> (*final(chip)).bytes() == pow2(26)
            &&& known ==> ((*final(chip)).width() == AddressWidth::Three <==> (*final(chip)).bytes() <= pow2(24))
            &&& !known ==> *final(chip) == *old(chip)
        }),
        fresh.bytes() == 0,
{
    lemma2_to64();
}

/// What comes of fetching a parameter at boot: one that was found is kept for its id, a region that
/// is beyond repair is erased and nothing of it is kept, and otherwise the default stays.
pub proof fn law_what_comes_of_fetching(
    load: &mut ParamLoad,
    id: u16,
    fetched: Fetched,
    step: LoadStep,
)
    requires
        (*old(load))@.index < 65535,
        call_ensures(ParamLoad::fetched, (load, id, fetched), step),
    ensures
        (*final(load))@.index == (*old(load))@.index + 1,
        step == LoadStep::EraseAll <==> fetched == Fetched::Corrupted,
        fetched matches Fetched::Found(raw) ==> (*final(load))@.found == (*old(load))@.found.push((id, raw)),
        fetched == Fetched::Corrupted ==> (*final(load))@.corrupted && (*final(load))@.found.len() == 0,
        fetched == Fetched::Missing || fetched == Fetched::Failed ==> (*final(load))@.found == (*old(load))@.found,
        fetched != Fetched::Corrupted ==> (*final(load))@.corrupted == (*old(load))@.corrupted,
{
}

/// The parameters are fetched in order, each by its id, until all are or the region is given up.
pub proof fn law_parameters_are_fetched_in_order(
    load: &ParamLoad,
    params: &Params,
    id: Option<u16>,
)
    requires
        call_ensures(ParamLoad::next, (load, params), id),
    ensures
        load@.corrupted ==> id is None,
        !load@.corrupted && load@.index >= params.all().len() ==> id is None,
        !load@.corrupted && 0 <= load@.index < params.all().len() ==> id == Some(
            params.all()[load@.index].id,
        ),
{
}

/// A parameter is stored under its id, by its bits.
pub proof fn law_parameters_are_stored_by_their_bits(
    storage: &FlashStorage,
    id: u16,
    value: ParamValue,
    request: StorageRequest,
)
    requires
        call_ensures(FlashStorage::write_param, (storage, id, value), request),
    ensures
        match value {
            ParamValue::F32(x) => request == (StorageRequest::WriteParam { id, raw: x.bits }),
            ParamValue::U32(n) => request == (StorageRequest::WriteParam { id, raw: n }),
        },
{
}

/// The chip on the board is one of 16 MiB by one of two ids.
pub proof fn law_which_chip_is_on_the_board(
    ids: [u8; 3],
    result: Result<W25Q128, crate::flash::FlashError>,
    chip: W25Q128,
    capacity: usize,
)
    requires
        call_ensures(W25Q128::new, (ids,), result),
        call_ensures(W25Q128::capacity, (&chip,), capacity),
    ensures
        result is Ok <==> (ids[0] == 0xef && ids[1] == 0x40 && ids[2] == 0x18) || (ids[0] == 0x17
            && ids[1] == 0x70 && ids[2] == 0x18),
        result matches Err(error) ==> error == crate::flash::FlashError::Init,
        capacity == 0x100_0000,
{
    if ids[0] == 0xef && ids[1] == 0x40 && ids[2] == 0x18 {
        assert(ids@ =~= seq![0xefu8, 0x40u8, 0x18u8]);
    }
    if ids[0] == 0x17 && ids[1] == 0x70 && ids[2] == 0x18 {
        assert(ids@ =~= seq![0x17u8, 0x70u8, 0x18u8]);
    }
    assert(ids@ == seq![0xefu8, 0x40u8, 0x18u8] ==> ids@[0] == 0xef && ids@[1] == 0x40 && ids@[2]
        == 0x18);
    assert(ids@ == seq![0x17u8, 0x70u8, 0x18u8] ==> ids@[0] == 0x17 && ids@[1] == 0x70 && ids@[2]
        == 0x18);
}

/// A read of the chip on the board.
pub proof fn law_reads_of_the_chip_on_the_board(
    chip: W25Q128,
    offset: u32,
    len: usize,
    status: StatusReg1,
    result: Result<[u8; 4], crate::flash::FlashError>,
)
    requires
        call_ensures(W25Q128::read, (&chip, offset, len, status), result),
    ensures
        result is Ok <==> offset + len <= 0x100_0000 && status.bits % 2 == 0,
        result matches Ok(bytes) ==> bytes@[0] == 0x03 && address_in(bytes@) == offset as int
            % 0x100_0000,
        offset + len > 0x100_0000 ==> result == Err::<[u8; 4], crate::flash::FlashError>(
            crate::flash::FlashError::OutOfBounds,
        ),
{
    law_short_instructions_carry_the_address(OpCode::ReadData, offset);
}

/// What kind of error it is, for both chips.
pub proof fn law_kinds_of_errors(
    error: FlashError,
    kind: FlashErrorKind,
    other: crate::flash::FlashError,
    other_kind: FlashErrorKind,
)
    requires
        call_ensures(FlashError::kind, (&error,), kind),
        call_ensures(crate::flash::FlashError::kind, (&other,), other_kind),
    ensures
        kind == FlashErrorKind::OutOfBounds <==> error == FlashError::OutOfBounds,
        kind == FlashErrorKind::NotAligned <==> error == FlashError::NotAligned,
        other_kind == FlashErrorKind::OutOfBounds <==> other
            == crate::flash::FlashError::OutOfBounds,
        other_kind == FlashErrorKind::NotAligned <==> other == crate::flash::FlashError::NotAligned,
{
}

/// The flash is used where its chip was identified.
pub proof fn law_which_flash_is_healthy(chip: W25Q, probe: ProbeStep, flash: Flash)
    requires
        call_ensures(Flash::new, (chip, probe), flash),
    ensures
        flash.health() <==> probe == ProbeStep::Identified,
        flash.bytes() == chip.bytes(),
{
}

/// Writes to the chip on the board stay within it, and a sector is erased at its start.
pub proof fn law_writes_stay_within_the_chip(
    chip: W25Q128,
    offset: u32,
    len: usize,
    writes: Result<Vec<PageWrite>, crate::flash::FlashError>,
    sector: Result<EraseStep, crate::flash::FlashError>,
)
    requires
        call_ensures(W25Q128::flexible_write, (&chip, offset, len), writes),
        call_ensures(W25Q128::erase_sector, (&chip, offset), sector),
    ensures
        writes is Err <==> len > 0 && offset + len > 0x100_0000,
        writes matches Ok(list) ==> is_page_split(list@, offset as int, len as int),
        sector is Ok <==> offset as int % 4096 == 0,
        sector matches Ok(step) ==> step.address == offset && step.unit.bytes() == 4096,
{
}

/// How long the chip is given, how it shows that it is busy, and where the self-test stores: ten
/// milliseconds for a page, a second for a sector, the lowest bit, and outside of the registry.
pub proof fn law_what_the_chip_is_given()
    ensures
        PAGE_PROGRAM_TIMEOUT == 10_000,
        SECTOR_ERASE_TIMEOUT == 1_000_000,
        STATUS_BUSY == 1,
        SELFTEST_KEY == 0xfffe,
        PARAMS_FLASH_START == 0,
{
}

} // verus!
