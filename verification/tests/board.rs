use zenith::buzzer::alerts::Alerts;
use zenith::buzzer::{
    get_song_notes, Command, Note, Pitch, Player, PlayerAction, PlayerEvent, PlayerState, Semitone,
    Sound,
};
use zenith::bus::DataWithTime;
use zenith::cpu::{CpuLoad, CpuMonitor, LoopHealth, SleepAccount};
use zenith::modes::FlightMode as M;
use zenith::power::{
    convert, die_temperature_milli_c, CalibrationWords, PowerMonitor, PowerReading,
};
use zenith::single::Single;
use zenith::tank_level::{survey, Survey};
use zenith::text::TuneName;
use zenith::traits::{AdcData, NoStorage, Storage};

fn single(value: f32) -> Single {
    Single::from_bits(value.to_bits())
}

const WORDS: CalibrationWords = CalibrationWords {
    cal1: 12_000,
    cal2: 16_000,
    vref_cal: 24_000,
};

#[test]
fn the_die_temperature_is_on_the_line_of_the_calibration() {
    assert_eq!(die_temperature_milli_c(12_000, 24_000, WORDS), Some(30_000));
    assert_eq!(die_temperature_milli_c(16_000, 24_000, WORDS), Some(110_000));
    assert_eq!(die_temperature_milli_c(14_000, 24_000, WORDS), Some(70_000));
    assert_eq!(die_temperature_milli_c(11_999, 24_000, WORDS), Some(29_980));
    // A lower supply reads higher, and is corrected for.
    assert_eq!(die_temperature_milli_c(15_000, 30_000, WORDS), Some(30_000));
}

#[test]
fn a_broken_temperature_is_none() {
    assert_eq!(die_temperature_milli_c(12_000, 0, WORDS), None);
    assert_eq!(die_temperature_milli_c(65_535, 24_000, WORDS), None);
    assert_eq!(die_temperature_milli_c(0, 24_000, WORDS), None);
    for words in [
        CalibrationWords {
            cal1: 0xffff,
            ..WORDS
        },
        CalibrationWords {
            cal2: 0xffff,
            ..WORDS
        },
        CalibrationWords {
            vref_cal: 0xffff,
            ..WORDS
        },
        CalibrationWords {
            vref_cal: 0,
            ..WORDS
        },
        CalibrationWords {
            cal2: 12_000,
            ..WORDS
        },
    ] {
        assert_eq!(die_temperature_milli_c(12_000, 24_000, words), None);
    }
}

#[test]
fn readings_are_converted() {
    let reading = convert([24_000, 12_000, 32_768, 65_535, 32_768, 0, 1_000], WORDS);
    assert_eq!(
        reading,
        PowerReading {
            bus_main_voltage: 18_150,
            bus_supply_voltage: 36_299,
            fc_current: 16_500,
            recovery_voltage: 0,
            recovery_current: 503,
            temperature_milli_c: Some(30_000),
        }
    );
}

fn reading(mv: u16, ma: i32, temperature_milli_c: Option<i32>) -> PowerReading {
    PowerReading {
        bus_main_voltage: mv,
        bus_supply_voltage: 0,
        fc_current: ma,
        recovery_voltage: 0,
        recovery_current: 0,
        temperature_milli_c,
    }
}

#[test]
fn the_last_readings_are_averaged() {
    let mut monitor = PowerMonitor::default();
    monitor.tick(None);
    assert_eq!(monitor.adc().unwrap().bus_main_voltage, 0);
    monitor.tick(Some(reading(100, -5, None)));
    assert_eq!(monitor.adc().unwrap().temperature_milli_c, None);
    monitor.tick(Some(reading(201, -2, Some(3_000))));
    let filtered = monitor.adc().unwrap();
    assert_eq!(filtered.bus_main_voltage, 150);
    // Rounded towards zero.
    assert_eq!(filtered.fc_current, -3);
    // Averaged over the one reading that has a temperature.
    assert_eq!(filtered.temperature_milli_c, Some(3_000));
    // Twenty more readings push these out.
    for _ in 0..20 {
        monitor.tick(Some(reading(1_000, 7, Some(1))));
    }
    let filtered = monitor.adc().unwrap();
    assert_eq!(filtered.bus_main_voltage, 1_000);
    assert_eq!(filtered.fc_current, 7);
    monitor.tick(None);
    assert_eq!(monitor.adc().unwrap().bus_main_voltage, 1_000);
}

#[test]
fn the_load_is_unknown_until_it_is_measured() {
    let mut load = CpuLoad::default();
    assert_eq!(load.permille(), None);
    load.set_permille(250);
    assert_eq!(load.permille(), Some(250));
    load.set_permille(5000);
    assert_eq!(load.permille(), Some(1000));
}

#[test]
fn the_peak_of_five_windows_is_published() {
    let mut monitor = CpuMonitor::new(0);
    let mut sleep = SleepAccount::new();
    let mut load = CpuLoad::new();
    let mut health = LoopHealth::default();
    for (i, slept) in [90_000u64, 75_000, 50_000, 99_000].into_iter().enumerate() {
        sleep.charge(slept);
        let now = 100_000 * (i as u64 + 1);
        monitor.update(200 + i as u64, now, &mut sleep, &mut load, &mut health);
        assert_eq!(load.permille(), None);
    }
    monitor.update(1_001, 450_000, &mut sleep, &mut load, &mut health);
    assert_eq!(load.permille(), None, "the window is not over");
    sleep.charge(100_000);
    monitor.update(10, 500_000, &mut sleep, &mut load, &mut health);
    assert_eq!(load.permille(), Some(500));
    assert_eq!(health.peak_latency_us(), 1_001);
    assert_eq!(health.overruns(), 1);
}

#[test]
fn sleeping_longer_than_the_window_is_no_load() {
    let mut sleep = SleepAccount::new();
    sleep.charge(u64::MAX);
    assert_eq!(sleep.take(), u32::MAX);
    assert_eq!(sleep.take(), 0);
    sleep.charge(u32::MAX as u64);
    sleep.charge(2);
    assert_eq!(sleep.take(), 1);
}

fn tune() -> Vec<Note> {
    vec![Note::new(Semitone::G, 5, 50), Note::pause(5)]
}

#[test]
fn sounds_are_found_by_name() {
    assert_eq!(Sound::from_name("startup"), Some(Sound::StartupTech));
    assert_eq!(Sound::from_name("Battery_LOW"), Some(Sound::BatteryLow));
    assert_eq!(Sound::from_name("MARIO"), Some(Sound::Mario));
    assert_eq!(Sound::from_name("mario "), None);
    assert_eq!(Sound::from_name(""), None);
    for sound in Sound::ALL {
        assert_eq!(Sound::from_name(sound.name()), Some(sound));
    }
}

#[test]
fn tunes_do_not_silence_an_alert() {
    let name: TuneName = TuneName::try_from("Mario").unwrap();
    let unknown: TuneName = TuneName::try_from("polka").unwrap();
    let mut alerts = Alerts::default();
    assert_eq!(
        alerts.requested_tune(&name),
        Some(Command::PlayOnce(Sound::Mario))
    );
    assert_eq!(alerts.requested_tune(&unknown), None);
    alerts.update(M::Pressurize, None, 0);
    assert_eq!(alerts.requested_tune(&name), None);
}

#[test]
fn sounds_have_their_notes() {
    let ignition = get_song_notes(Sound::Ignition, &tune());
    assert_eq!(ignition.len(), 28);
    assert_eq!(ignition[0], Note::new(Semitone::C, 4, 1000));
    assert_eq!(ignition[25], Note::pause(10));
    assert_eq!(ignition[26], Note::new(Semitone::C, 4, 10_000));
    assert_eq!(
        get_song_notes(Sound::Landed, &tune()),
        vec![
            Note::new(Semitone::E, 6, 250),
            Note::pause(180),
            Note::new(Semitone::E, 6, 250),
            Note::pause(1300),
        ]
    );
    assert_eq!(get_song_notes(Sound::BatteryExtremeLow, &tune()).len(), 14);
    assert_eq!(get_song_notes(Sound::Mario, &tune()), tune());
}

#[test]
fn the_reference_tone_is_a4() {
    let pitch = |semitone, octave| Pitch { semitone, octave }.semitones_above_reference();
    assert_eq!(pitch(Semitone::A, 4), 0);
    assert_eq!(pitch(Semitone::A, 5), 12);
    assert_eq!(pitch(Semitone::C, 4), -9);
    assert_eq!(pitch(Semitone::E, 0), -53);
}

#[test]
fn a_one_shot_interrupts_the_loop_and_the_loop_resumes() {
    let tune = tune();
    let mut player = Player::new();
    assert_eq!(player.step(PlayerEvent::NoteOver, &tune), PlayerAction::Rest);
    let looped = Command::SetLoop(Some(Sound::Pressurized));
    assert_eq!(
        player.step(PlayerEvent::Command(looped), &tune),
        PlayerAction::Start(Note::new(Semitone::Ds, 6, 220))
    );
    // The loop goes on and on.
    for _ in 0..3 {
        player.step(PlayerEvent::NoteOver, &tune);
    }
    assert_eq!(
        player.step(PlayerEvent::NoteOver, &tune),
        PlayerAction::Start(Note::new(Semitone::Ds, 6, 220))
    );
    let chirp = Command::PlayOnce(Sound::ModeChange);
    assert_eq!(
        player.step(PlayerEvent::Command(chirp), &tune),
        PlayerAction::Start(Note::new(Semitone::A, 5, 90))
    );
    // Another loop does not interrupt it, the same sound again does.
    let beacon = Command::SetLoop(Some(Sound::Landed));
    assert_eq!(
        player.step(PlayerEvent::Command(beacon), &tune),
        PlayerAction::KeepOn
    );
    player.step(PlayerEvent::NoteOver, &tune);
    assert_eq!(
        player.step(PlayerEvent::Command(chirp), &tune),
        PlayerAction::Start(Note::new(Semitone::A, 5, 90))
    );
    for _ in 0..3 {
        player.step(PlayerEvent::NoteOver, &tune);
    }
    assert_eq!(
        player.step(PlayerEvent::NoteOver, &tune),
        PlayerAction::Start(Note::new(Semitone::E, 6, 250))
    );
    assert_eq!(
        player.step(PlayerEvent::Command(Command::Stop), &tune),
        PlayerAction::Rest
    );
    assert_eq!(PlayerState::default().desired(), None);
}

#[test]
fn every_mode_change_is_chirped() {
    let mut alerts = Alerts::default();
    assert!(alerts.update(M::Idle, None, 0).is_empty());
    assert_eq!(
        alerts.update(M::FillOxidizer, None, 1),
        vec![Command::PlayOnce(Sound::ModeChange)]
    );
    assert_eq!(
        alerts.update(M::Pressurize, None, 2),
        vec![
            Command::SetLoop(Some(Sound::Pressurized)),
            Command::PlayOnce(Sound::ModeChange)
        ]
    );
    assert!(alerts.alert_active());
    assert_eq!(
        alerts.update(M::Hold, None, 3),
        vec![Command::PlayOnce(Sound::ModeChange)]
    );
    assert!(alerts.alert_active());
    assert_eq!(
        alerts.update(M::Burn, None, 4),
        vec![
            Command::SetLoop(None),
            Command::PlayOnce(Sound::ModeChange)
        ]
    );
    assert!(!alerts.alert_active());
    assert_eq!(
        alerts.update(M::Landed, None, 5)[0],
        Command::SetLoop(Some(Sound::Landed))
    );
}

#[test]
fn a_low_battery_is_warned_about_after_two_seconds() {
    let second = 1_000_000;
    let mut alerts = Alerts::default();
    assert!(alerts.update(M::Idle, Some(11_400), 0).is_empty());
    assert!(alerts
        .update(M::Idle, Some(11_400), 2 * second - 1)
        .is_empty());
    let low = vec![Command::PlayOnce(Sound::BatteryLow)];
    assert_eq!(alerts.update(M::Idle, Some(11_400), 2 * second), low);
    assert!(alerts
        .update(M::Idle, Some(11_400), 32 * second - 1)
        .is_empty());
    assert_eq!(alerts.update(M::Idle, Some(11_400), 32 * second), low);
    // Recovering takes a little more than the threshold.
    assert!(alerts.update(M::Idle, Some(11_799), 40 * second).is_empty());
    assert_eq!(alerts.update(M::Idle, Some(11_799), 62 * second), low);
    assert!(alerts.update(M::Idle, Some(11_800), 63 * second).is_empty());
    assert!(alerts.update(M::Idle, Some(11_800), 65 * second).is_empty());
    assert!(alerts.update(M::Idle, Some(11_800), 99 * second).is_empty());
}

#[test]
fn an_empty_battery_is_muted_by_the_hazard_warning_and_the_flight() {
    let second = 1_000_000;
    let mut alerts = Alerts::default();
    alerts.update(M::Pressurize, Some(9_000), 0);
    assert!(alerts
        .update(M::Pressurize, Some(9_000), 3 * second)
        .is_empty());
    // The warning is not lost.
    assert_eq!(
        alerts.update(M::Vent, Some(9_000), 4 * second).last(),
        Some(&Command::PlayOnce(Sound::BatteryExtremeLow))
    );
    assert_eq!(
        alerts.update(M::Vent, Some(9_000), 14 * second),
        vec![Command::PlayOnce(Sound::BatteryExtremeLow)]
    );
    alerts.update(M::Coast, Some(9_000), 15 * second);
    assert!(alerts.update(M::Coast, Some(9_000), 60 * second).is_empty());
}

#[test]
fn a_bus_without_a_battery_is_not_warned_about() {
    let mut alerts = Alerts::default();
    for t in 0..10 {
        assert!(alerts.update(M::Idle, Some(4_999), t * 1_000_000).is_empty());
    }
}

const NOW: u32 = 100_000;

/// Recorded: a tank part way through being drained.
const DRAINED: [f32; 10] = [
    9.47, 9.95, 10.52, 10.60, 9.79, 10.92, 12.04, 14.21, 14.78, 17.91,
];

type Reading = Option<DataWithTime<Single>>;

fn probes(celsius: [f32; 10]) -> [Reading; 10] {
    celsius.map(|c| Some(DataWithTime::new(single(c), NOW)))
}

#[test]
fn one_probe_is_not_a_row() {
    let mut row: [Reading; 10] = [None; 10];
    row[0] = Some(DataWithTime::new(single(10.0), NOW));
    assert!(matches!(survey(NOW, &row, &None, &None), Survey::Unknown));
    row[9] = Some(DataWithTime::new(single(11.0), NOW));
    assert!(matches!(survey(NOW, &row, &None, &None), Survey::Row(_)));
}

#[test]
fn a_depressurised_tank_reads_empty() {
    let row = probes(DRAINED);
    let at = |bar: f32| Some(DataWithTime::new(single(bar), NOW));
    assert!(matches!(
        survey(NOW, &row, &at(1.0), &at(1.2)),
        Survey::Empty
    ));
}

#[test]
fn one_pressurised_sensor_is_enough() {
    let row = probes(DRAINED);
    let at = |bar: f32| Some(DataWithTime::new(single(bar), NOW));
    match survey(NOW, &row, &at(1.0), &at(30.0)) {
        Survey::Row(row) => {
            assert!(row.pressurised);
            assert_eq!(row.readings.len(), 10);
            assert_eq!(row.coldest, single(9.47));
            assert_eq!(row.warmest, single(17.91));
        }
        other => panic!("{other:?}"),
    }
}

#[test]
fn stale_readings_are_ignored() {
    let row = probes(DRAINED);
    assert!(matches!(
        survey(NOW + 4001, &row, &None, &None),
        Survey::Unknown
    ));
    match survey(NOW + 4000, &row, &None, &None) {
        Survey::Row(row) => assert_eq!(row.readings.len(), 10),
        other => panic!("{other:?}"),
    }
}

#[test]
fn the_row_knows_its_coldest_and_warmest() {
    let mut row = probes([9.5, 9.0, -10.5, 10.0, f32::NAN, 10.0, 12.0, 14.0, 17.5, 14.0]);
    row[3] = None;
    match survey(NOW, &row, &None, &None) {
        Survey::Row(row) => {
            assert_eq!(row.coldest, single(-10.5));
            assert_eq!(row.warmest, single(17.5));
            assert_eq!(row.readings.len(), 9);
            assert_eq!(row.readings[3].0, 4);
            assert!(!row.pressurised);
        }
        other => panic!("{other:?}"),
    }
}

#[test]
fn no_storage_keeps_nothing() {
    let mut storage = NoStorage::default();
    assert!(storage.read_settings().is_none());
    assert_eq!(AdcData::default().bus_main_voltage, 0);
}
