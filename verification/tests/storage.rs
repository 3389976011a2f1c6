use zenith::flash::{
    erase_next, make_op_3b_slice, EraseStep, EraseUnit, FlashError, OpCode, Progress, StatusReg1,
    W25Q128,
};
use zenith::param_group::{expand_group, ParamValue};
use zenith::params::Params;
use zenith::single::Single;
use zenith::storage::w25q::{
    geometry, split_pages, AddressWidth, FlashError as ChipError, FlashErrorKind, PageWrite,
    ProbeStep, WaitStep, W25Q,
};
use zenith::storage::{
    selftest_passed, Fetched, Flash, FlashHandle, FlashStorage, LoadStep, ParamLoad,
    StorageRequest, SELFTEST_VALUE,
};

fn chip() -> W25Q128 {
    W25Q128::new([0xef, 0x40, 0x18]).unwrap()
}

fn status(bits: u8) -> StatusReg1 {
    StatusReg1 { bits }
}

#[test]
fn only_chips_of_the_right_size_are_taken() {
    assert_eq!(chip().capacity(), 16 * 1024 * 1024);
    assert!(W25Q128::new([0x17, 0x70, 0x18]).is_ok());
    assert_eq!(W25Q128::new([0xef, 0x40, 0x19]), Err(FlashError::Init));
    assert_eq!(W25Q128::new([0xff, 0xff, 0xff]), Err(FlashError::Init));
}

#[test]
fn addresses_are_big_endian() {
    assert_eq!(
        make_op_3b_slice(OpCode::PageProgram, 0x0012_3456),
        [0x02, 0x12, 0x34, 0x56]
    );
    assert_eq!(
        chip().read(0x0012_3456, 10, status(0)),
        Ok([0x03, 0x12, 0x34, 0x56])
    );
    assert_eq!(
        chip().read(0x00ff_fff0, 17, status(1)),
        Err(FlashError::OutOfBounds)
    );
    assert_eq!(chip().read(0, 1, status(1)), Err(FlashError::Busy));
}

#[test]
fn ranges_are_erased_by_the_largest_units() {
    let steps = chip().erase_flexible(0x7000, 0x2_1000).unwrap();
    let step = |unit, address| EraseStep { unit, address };
    assert_eq!(
        steps,
        vec![
            step(EraseUnit::Sector4KB, 0x7000),
            step(EraseUnit::Block32KB, 0x8000),
            step(EraseUnit::Block64KB, 0x1_0000),
            step(EraseUnit::Sector4KB, 0x2_0000),
        ]
    );
    assert_eq!(
        chip().erase_flexible(0, 0x100_0000).unwrap(),
        vec![step(EraseUnit::Chip, 0)]
    );
    assert_eq!(
        erase_next(0x8000, 0x2_0000),
        (step(EraseUnit::Block32KB, 0x8000), 0x1_0000)
    );
    assert_eq!(EraseUnit::Block64KB.opcode().code(), 0xd8);
}

#[test]
fn bad_ranges_are_not_erased() {
    assert_eq!(
        chip().erase_flexible(2, 1),
        Err(FlashError::OutOfBounds)
    );
    assert_eq!(
        chip().erase_flexible(0, 0x100_0001),
        Err(FlashError::OutOfBounds)
    );
    assert_eq!(chip().erase_flexible(5, 5), Ok(vec![]));
    assert_eq!(
        chip().erase_flexible(0, 0x1001),
        Err(FlashError::NotAligned)
    );
    assert_eq!(chip().erase_sector(1), Err(FlashError::NotAligned));
    assert_eq!(
        chip().erase_sector(0x2000),
        Ok(EraseStep {
            unit: EraseUnit::Sector4KB,
            address: 0x2000
        })
    );
}

#[test]
fn writes_are_cut_at_pages() {
    let write = |address, start, len| PageWrite {
        address,
        start,
        len,
    };
    assert_eq!(
        chip().flexible_write(0x1f0, 300).unwrap(),
        vec![
            write(0x1f0, 0, 16),
            write(0x200, 16, 256),
            write(0x300, 272, 28),
        ]
    );
    assert_eq!(split_pages(0x100, 256), vec![write(0x100, 0, 256)]);
    assert_eq!(chip().flexible_write(u32::MAX, 0), Ok(vec![]));
    assert_eq!(
        chip().flexible_write(0xff_ffff, 2),
        Err(FlashError::OutOfBounds)
    );
}

#[test]
fn erases_are_waited_for() {
    let progress = |elapsed, bits| {
        chip().assure_finished(EraseUnit::Sector4KB, elapsed, status(bits))
    };
    assert_eq!(progress(45, 0), Progress::Finished);
    assert_eq!(progress(45, 1), Progress::AskAfter(4_500));
    assert_eq!(progress(400, 0), Progress::TimedOut);
    assert_eq!(chip().check_idle(status(1)), Err(FlashError::Busy));
    assert_eq!(chip().check_idle(status(2)), Ok(()));
    assert_eq!(chip().enable_write(status(2)), Ok(()));
    assert_eq!(chip().enable_write(status(1)), Err(FlashError::Other));
    assert_eq!(FlashError::NotAligned.kind(), FlashErrorKind::NotAligned);
    assert_eq!(FlashError::OutOfBounds.kind(), FlashErrorKind::OutOfBounds);
    assert_eq!(FlashError::Timeout.kind(), FlashErrorKind::Other);
}

#[test]
fn the_geometry_follows_from_the_id() {
    assert_eq!(geometry(0x18), Some((0x0100_0000, AddressWidth::Three)));
    assert_eq!(geometry(0x19), Some((0x0200_0000, AddressWidth::Four)));
    assert_eq!(geometry(0x13), None);
    assert_eq!(AddressWidth::Four.count(), 4);
}

#[test]
fn a_chip_is_asked_three_times() {
    let mut chip = W25Q::new();
    assert_eq!(chip.size(), 0);
    assert_eq!(chip.check_range(0, 1), Err(ChipError::OutOfBounds));
    assert_eq!(chip.probe((0xff, 0xff, 0xff), 0), ProbeStep::Retry);
    assert_eq!(chip.probe((0xef, 0x40, 0x13), 1), ProbeStep::Retry);
    assert_eq!(
        chip.probe((0xef, 0x40, 0x13), 2),
        ProbeStep::Failed(ChipError::UnknownDevice {
            manufacturer: 0xef,
            memory_type: 0x40,
            capacity_code: 0x13
        })
    );
    assert_eq!(chip.probe((0xef, 0x40, 0x19), 2), ProbeStep::Identified);
    assert_eq!(chip.size(), 0x0200_0000);
}

#[test]
fn large_chips_take_four_address_bytes() {
    let mut chip = W25Q::new();
    chip.probe((0xef, 0x40, 0x19), 0);
    assert_eq!(
        chip.read(0x0123_4567, 4),
        Ok(Some(vec![0x13, 0x01, 0x23, 0x45, 0x67]))
    );
    assert_eq!(chip.read(0x0123_4567, 0), Ok(None));
    assert_eq!(chip.read(0x01ff_ffff, 2), Err(ChipError::OutOfBounds));
    let steps = chip.write(0xfe, 4).unwrap();
    assert_eq!(steps.len(), 2);
    assert_eq!(steps[0].0, vec![0x12, 0, 0, 0, 0xfe]);
    assert_eq!(steps[1].0, vec![0x12, 0, 0, 1, 0]);
    assert_eq!(steps[1].1.start, 2);
    assert_eq!(
        chip.erase(0x1000, 0x3000),
        Ok(vec![
            vec![0x21, 0, 0, 0x10, 0],
            vec![0x21, 0, 0, 0x20, 0]
        ])
    );
    assert_eq!(chip.erase(0x1001, 0x3000), Err(ChipError::NotAligned));
    assert_eq!(chip.erase(0x3000, 0x1000), Err(ChipError::OutOfBounds));
}

#[test]
fn a_busy_chip_is_asked_again() {
    assert_eq!(W25Q::wait_idle(0, 99, 10), WaitStep::Idle);
    assert_eq!(W25Q::wait_idle(1, 10, 10), WaitStep::AskAgain);
    assert_eq!(W25Q::wait_idle(3, 11, 10), WaitStep::TimedOut);
    assert_eq!(ChipError::Spi.kind(), FlashErrorKind::Other);
}

#[test]
fn an_unhealthy_flash_takes_no_work() {
    let mut chip = W25Q::new();
    let sick = Flash::new(chip, ProbeStep::Failed(ChipError::Spi));
    assert!(!sick.is_healthy());
    assert_eq!(sick.take_on(StorageRequest::EraseParams), None);
    assert_eq!(sick.log_range(), (0x1_0000, 0x1_0000));
    let probe = chip.probe((0xef, 0x40, 0x18), 0);
    let healthy = Flash::new(chip, probe);
    assert!(healthy.is_healthy());
    assert_eq!(
        healthy.take_on(StorageRequest::EraseParams),
        Some(StorageRequest::EraseParams)
    );
    assert_eq!(healthy.log_range(), (0x1_0000, 0x100_0000));
}

#[test]
fn the_selftest_compares_what_came_back() {
    assert!(selftest_passed(true, Fetched::Found(SELFTEST_VALUE)));
    assert!(!selftest_passed(false, Fetched::Found(SELFTEST_VALUE)));
    assert!(!selftest_passed(true, Fetched::Found(1)));
    assert!(!selftest_passed(true, Fetched::Missing));
}

fn defaults() -> Params {
    Params::new(expand_group(&b"SE".to_vec(), &vec![]).unwrap()).unwrap()
}

#[test]
fn stored_parameters_are_loaded() {
    let declared = defaults();
    let mut load = ParamLoad::new();
    let mut ids = vec![];
    while let Some(id) = load.next(&declared) {
        ids.push(id);
        let fetched = match id {
            0x0200 => Fetched::Found(250.0f32.to_bits()),
            0x0201 => Fetched::Failed,
            _ => Fetched::Missing,
        };
        assert_eq!(load.fetched(id, fetched), LoadStep::Next);
    }
    assert_eq!(ids, vec![0x0200, 0x0201, 0x0202]);
    let params = load.finish(defaults());
    assert_eq!(
        params.get(0x0200),
        Some(ParamValue::F32(Single::from_bits(250.0f32.to_bits())))
    );
    assert_eq!(params.get(0x0201), Some(ParamValue::U32(1000)));
    assert_eq!(params.get(0x0202), Some(ParamValue::U32(3000)));
}

#[test]
fn a_corrupted_region_starts_fresh() {
    let declared = defaults();
    let mut load = ParamLoad::new();
    load.fetched(0x0200, Fetched::Found(0));
    assert_eq!(
        load.fetched(0x0201, Fetched::Corrupted),
        LoadStep::EraseAll
    );
    assert_eq!(load.next(&declared), None);
    let params = load.finish(defaults());
    assert_eq!(
        params.get(0x0200),
        Some(ParamValue::F32(Single::from_bits(400.0f32.to_bits())))
    );
}

#[test]
fn writes_are_queued_raw() {
    let storage = FlashStorage::new(defaults(), FlashHandle);
    assert!(storage.read_params().is_some());
    assert_eq!(
        storage.write_param(7, ParamValue::F32(Single::from_bits(1.0f32.to_bits()))),
        StorageRequest::WriteParam {
            id: 7,
            raw: 0x3f80_0000
        }
    );
    assert_eq!(FlashHandle.erase_params(), StorageRequest::EraseParams);
}
