//! What the sounds sound like, told by heights and times.

use vstd::prelude::*;

use crate::buzzer::alerts::{
    called_for, loop_in, pressurized_in, AlertState, Alerts, BatteryState,
};
use crate::buzzer::{
    get_song_notes, song, sound_name, Command, Note, Pitch, Player, PlayerAction, PlayerEvent,
    PlayerState, Position, Semitone, Sound, VOLUME_PERCENT,
};
use crate::modes::FlightMode;

verus! {

/// The height of a pitch in semitones above the concert pitch, the A of the fourth octave.
pub open spec fn height(pitch: Pitch) -> int {
    12 * (pitch.octave - 4) + match pitch.semitone {
        Semitone::C => -9int,
        Semitone::Cs => -8,
        Semitone::D => -7,
        Semitone::Ds => -6,
        Semitone::E => -5,
        Semitone::F => -4,
        Semitone::Fs => -3,
        Semitone::G => -2,
        Semitone::Gs => -1,
        Semitone::A => 0,
        Semitone::As => 1,
        Semitone::B => 2,
    }
}

/// A pitch is told by its height.
pub proof fn law_pitches_by_their_height(pitch: Pitch, semitones: i32)
    requires
        call_ensures(Pitch::semitones_above_reference, (&pitch,), semitones),
    ensures
        semitones == height(pitch),
{
}

/// The note is a tone of this height and duration.
pub open spec fn is_tone(note: Note, semitones: int, millis: int) -> bool {
    note.pitch matches Some(pitch) && height(pitch) == semitones && note.duration == millis
}

/// The note is a pause of this duration.
pub open spec fn is_pause(note: Note, millis: int) -> bool {
    note.pitch is None && note.duration == millis
}

/// The sounds, note by note: at startup three rising tones; for a low battery three falling ones,
/// and before them four fast beeps where it is nearly empty; for a mode a rising chirp; two
/// alternating tones for a pressurized vehicle; and two equal beeps with a long pause for one that
/// has landed.
pub proof fn law_each_sound_has_its_notes(sound: Sound, tune: &Vec<Note>, notes: Vec<Note>)
    requires
        call_ensures(get_song_notes, (sound, tune), notes),
    ensures
        sound == Sound::StartupTech ==> {
            &&& notes.len() == 6
            &&& is_tone(notes@[0], -5, 100) && is_pause(notes@[1], 20)
            &&& is_tone(notes@[2], 0, 100) && is_pause(notes@[3], 20)
            &&& is_tone(notes@[4], 7, 200) && is_pause(notes@[5], 100)
        },
        sound == Sound::BatteryLow ==> {
            &&& notes.len() == 6
            &&& is_tone(notes@[0], 19, 120) && is_pause(notes@[1], 60)
            &&& is_tone(notes@[2], 16, 120) && is_pause(notes@[3], 60)
            &&& is_tone(notes@[4], 12, 250) && is_pause(notes@[5], 150)
        },
        sound == Sound::BatteryExtremeLow ==> {
            &&& notes.len() == 14
            &&& forall|k: int| 0 <= k < 4 ==> is_tone(#[trigger] notes@[2 * k], 24, 70)
            &&& forall|k: int| 0 <= k < 3 ==> is_pause(#[trigger] notes@[2 * k + 1], 50)
            &&& is_pause(notes@[7], 150)
            &&& is_tone(notes@[8], 19, 120) && is_pause(notes@[9], 60)
            &&& is_tone(notes@[10], 16, 120) && is_pause(notes@[11], 60)
            &&& is_tone(notes@[12], 12, 350) && is_pause(notes@[13], 150)
        },
        sound == Sound::ModeChange ==> {
            &&& notes.len() == 4
            &&& is_tone(notes@[0], 12, 90) && is_pause(notes@[1], 30)
            &&& is_tone(notes@[2], 19, 140) && is_pause(notes@[3], 120)
        },
        sound == Sound::Pressurized ==> {
            &&& notes.len() == 4
            &&& is_tone(notes@[0], 18, 220) && is_pause(notes@[1], 50)
            &&& is_tone(notes@[2], 12, 220) && is_pause(notes@[3], 50)
        },
        sound == Sound::Landed ==> {
            &&& notes.len() == 4
            &&& is_tone(notes@[0], 19, 250) && is_pause(notes@[1], 180)
            &&& is_tone(notes@[2], 19, 250) && is_pause(notes@[3], 1300)
        },
        sound == Sound::Mario ==> notes@ == tune@,
{
}

/// The countdown: thirteen beeps, three of a second, three of half of it, three of a quarter and
/// four of an eighth, and then one tone of ten seconds; all of the same height, with short pauses.
pub proof fn law_the_countdown_gets_faster(tune: &Vec<Note>, notes: Vec<Note>, k: int)
    requires
        call_ensures(get_song_notes, (Sound::Ignition, tune), notes),
        0 <= k < 14,
    ensures
        notes.len() == 28,
        is_pause(notes@[2 * k + 1], 10),
        k < 3 ==> is_tone(notes@[2 * k], -9, 1000),
        3 <= k < 6 ==> is_tone(notes@[2 * k], -9, 500),
        6 <= k < 9 ==> is_tone(notes@[2 * k], -9, 250),
        9 <= k < 13 ==> is_tone(notes@[2 * k], -9, 125),
        k == 13 ==> is_tone(notes@[2 * k], -9, 10_000),
{
    assert(notes@ == song(Sound::Ignition, tune@));
}

/// What sounds are called.
pub proof fn law_sounds_by_name(sound: Sound, name: &'static str)
    requires
        call_ensures(Sound::name, (sound,), name),
    ensures
        sound == Sound::StartupTech <==> name@ == "startup"@,
        sound == Sound::BatteryLow <==> name@ == "battery_low"@,
        sound == Sound::BatteryExtremeLow <==> name@ == "battery_extreme_low"@,
        sound == Sound::ModeChange <==> name@ == "mode_change"@,
        sound == Sound::Pressurized <==> name@ == "pressurized"@,
        sound == Sound::Landed <==> name@ == "landed"@,
        sound == Sound::Ignition <==> name@ == "ignition"@,
        sound == Sound::Mario <==> name@ == "mario"@,
{
    reveal_strlit("startup");
    reveal_strlit("battery_low");
    reveal_strlit("battery_extreme_low");
    reveal_strlit("mode_change");
    reveal_strlit("pressurized");
    reveal_strlit("landed");
    reveal_strlit("ignition");
    reveal_strlit("mario");
    assert(sound_name(Sound::BatteryLow)[0] == 'b' && sound_name(Sound::ModeChange)[0] == 'm'
        && sound_name(Sound::Pressurized)[0] == 'p');
    assert(sound_name(Sound::StartupTech).len() == 7);
    assert(sound_name(Sound::Landed).len() == 6);
    assert(sound_name(Sound::Ignition).len() == 8);
    assert(sound_name(Sound::Mario).len() == 5);
    assert(sound_name(Sound::BatteryExtremeLow).len() == 19);
}

/// The buzzer is on for thirty percent of each period.
pub proof fn law_the_volume()
    ensures
        VOLUME_PERCENT == 30,
{
}

/// What should be playing: the one-shot, once; without one the loop, over and over; else nothing.
pub proof fn law_what_should_be_playing(state: PlayerState)
    ensures
        match state.one_shot {
            Some(sound) => state.wanted() is Some && state.wanted()->0.sound == sound
                && !state.wanted()->0.repeat,
            None => match state.alert_loop {
                Some(sound) => state.wanted() is Some && state.wanted()->0.sound == sound
                    && state.wanted()->0.repeat,
                None => state.wanted() is None,
            },
        },
{
}

/// The vehicle is taken for pressurized from the command to pressurize on, while it is held, armed
/// and ignited, and in no other mode.
pub proof fn law_when_the_vehicle_is_pressurized(mode: FlightMode, before: bool)
    ensures
        pressurized_in(mode, before) <==> mode == FlightMode::Pressurize || (before && (mode
            == FlightMode::Hold || mode == FlightMode::DetectLaunch || mode == FlightMode::Ignite)),
        loop_in(mode, before) == Some(Sound::Landed) <==> mode == FlightMode::Landed,
        loop_in(mode, before) == Some(Sound::Pressurized) <==> before && mode != FlightMode::Landed,
        loop_in(mode, before) is None <==> !before && mode != FlightMode::Landed,
{
}

/// A battery is low below 11.5 volts and nearly empty below 10 volts. It recovers from either with
/// 0.3 volts more. Below 5 volts there is none, unless one is known to run low.
pub proof fn law_what_a_voltage_says_of_the_battery(battery: BatteryState, mv: u16)
    ensures
        battery == BatteryState::Good ==> {
            &&& called_for(battery, mv) == BatteryState::ExtremeLow <==> 5000 <= mv < 10_000
            &&& called_for(battery, mv) == BatteryState::Low <==> 10_000 <= mv < 11_500
        },
        battery == BatteryState::Low ==> {
            &&& called_for(battery, mv) == BatteryState::ExtremeLow <==> mv < 10_000
            &&& called_for(battery, mv) == BatteryState::Good <==> mv >= 11_800
        },
        battery == BatteryState::ExtremeLow ==> {
            &&& called_for(battery, mv) == BatteryState::Low <==> 10_300 <= mv < 11_500
            &&& called_for(battery, mv) == BatteryState::Good <==> mv >= 11_500
        },
{
}

/// A battery is warned about right away and then every 30 seconds, or every 10 where it is nearly
/// empty, on the ground and while no loop is playing.
pub proof fn law_when_the_battery_is_warned_about(state: AlertState, now: u64)
    requires
        state.battery_warned_at matches Some(t) ==> t <= now,
    ensures
        ({
            let quiet = state.alert_loop is None && state.mode != FlightMode::Burn && state.mode
                != FlightMode::Coast && state.mode != FlightMode::DeployDrogue && state.mode
                != FlightMode::DeployMain && state.mode != FlightMode::Landed;
            let waited = |micros: int|
                match state.battery_warned_at {
                    Some(t) => now - t >= micros,
                    None => true,
                };
            &&& state.warning(now) == Some(Sound::BatteryLow) <==> quiet && state.battery
                == BatteryState::Low && waited(30_000_000)
            &&& state.warning(now) == Some(Sound::BatteryExtremeLow) <==> quiet && state.battery
                == BatteryState::ExtremeLow && waited(10_000_000)
            &&& state.warning(now) is Some ==> state.battery != BatteryState::Good
        }),
{
}

/// What is thought of the battery changes once the voltage has called for another state for two
/// seconds on end, and is then warned about anew.
pub proof fn law_the_battery_state_follows_the_voltage(
    state: AlertState,
    mv: u16,
    now: u64,
    later: u64,
)
    requires
        state.battery_pending is None,
        now <= later,
        called_for(state.battery, mv) != state.battery,
    ensures
        ({
            let called = called_for(state.battery, mv);
            let first = state.with_voltage(Some(mv), now);
            let second = first.with_voltage(Some(mv), later);
            &&& first.battery == state.battery
            &&& second.battery == if later - now >= 2_000_000 {
                called
            } else {
                state.battery
            }
            &&& second.battery != state.battery ==> second.battery_warned_at is None
            &&& second.battery == state.battery ==> second.battery_warned_at
                == state.battery_warned_at
        }),
        state.with_voltage(None, now) == state,
{
}

/// What is asked of the buzzer in an update: on a change of mode the loop, where it changes, and
/// then the chirp; and last a warning, where one is due.
pub proof fn law_what_is_asked_of_the_buzzer(
    alerts: &mut Alerts,
    mode: FlightMode,
    mv: Option<u16>,
    now: u64,
    requests: Vec<Command>,
)
    requires
        (*old(alerts))@.wf_at(now as int),
        call_ensures(Alerts::update, (alerts, mode, mv, now), requests),
    ensures
        ({
            let (before, after) = ((*old(alerts))@, (*final(alerts))@);
            &&& after.mode == mode
            &&& mode == before.mode ==> after.alert_loop == before.alert_loop
            &&& mode != before.mode && after.alert_loop != before.alert_loop ==> requests.len() >= 2
                && requests@[0] == Command::SetLoop(after.alert_loop) && requests@[1]
                == Command::PlayOnce(Sound::ModeChange)
            &&& mode != before.mode && after.alert_loop == before.alert_loop ==> requests.len() >= 1
                && requests@[0] == Command::PlayOnce(Sound::ModeChange)
            &&& mode == before.mode ==> requests.len() <= 1
            &&& mode != before.mode ==> after.pressurized == (mode == FlightMode::Pressurize || (
            before.pressurized && (mode == FlightMode::Hold || mode == FlightMode::DetectLaunch
                || mode == FlightMode::Ignite)))
            &&& mode != before.mode ==> after.alert_loop == (if mode == FlightMode::Landed {
                Some(Sound::Landed)
            } else if after.pressurized {
                Some(Sound::Pressurized)
            } else {
                None
            })
        }),
{
}

/// What a command does to what should be playing.
pub proof fn law_what_a_command_does_to_the_player(state: &mut PlayerState, command: Command)
    requires
        call_ensures(PlayerState::apply, (state, command), ()),
    ensures
        match command {
            Command::PlayOnce(sound) => (*final(state)).one_shot == Some(sound) && (*final(state)).alert_loop == (*old(state)).alert_loop && (*final(state)).generation != (*old(state)).generation,
            Command::SetLoop(sound) => (*final(state)).alert_loop == sound && (*final(state)).one_shot == (*old(state)).one_shot,
            Command::Stop => (*final(state)).alert_loop is None && (*final(state)).one_shot is None,
        },
{
}

/// The notes of a sound are played one after the other, from the first. At its end a loop starts
/// again, and a one-shot gives way.
pub proof fn law_notes_follow_each_other(
    player: &mut Player,
    tune: &Vec<Note>,
    action: PlayerAction,
    notes: Vec<Note>,
)
    requires
        tune.len() > 0,
        (*old(player)).position is Some,
        call_ensures(Player::step, (player, PlayerEvent::NoteOver, tune), action),
        call_ensures(
            get_song_notes,
            ((*old(player)).position->0.playback.sound, tune),
            notes,
        ),
    ensures
        ({
            let at = (*old(player)).position->0;
            &&& at.index + 1 < notes.len() ==> action == PlayerAction::Start(notes@[at.index + 1])
                && (*final(player)).position == Some(
                Position { playback: at.playback, index: (at.index + 1) as usize },
            )
            &&& at.index + 1 >= notes.len() && at.playback.repeat ==> action == PlayerAction::Start(
                notes@[0],
            ) && (*final(player)).position == Some(Position { playback: at.playback, index: 0 })
        }),
{
}

/// A one-shot starts with its first note, whatever was playing. A stop silences the buzzer. A loop
/// starts with its first note where nothing was playing, and does not cut a one-shot short.
pub proof fn law_what_a_command_starts(
    player: &mut Player,
    command: Command,
    tune: &Vec<Note>,
    action: PlayerAction,
    sound: Sound,
    notes: Vec<Note>,
)
    requires
        tune.len() > 0,
        call_ensures(Player::step, (player, PlayerEvent::Command(command), tune), action),
        call_ensures(get_song_notes, (sound, tune), notes),
        // What is being played is what should be.
        (*old(player)).position matches Some(at) ==> (*old(player)).state.wanted() == Some(
            at.playback,
        ),
        (*old(player)).position is None ==> (*old(player)).state.wanted() is None,
    ensures
        command == Command::PlayOnce(sound) ==> action == PlayerAction::Start(notes@[0]),
        command == Command::Stop ==> action == PlayerAction::Rest,
        command == Command::SetLoop(Some(sound)) && (*old(player)).position is None ==> action
            == PlayerAction::Start(notes@[0]),
        command is SetLoop && (*old(player)).state.one_shot is Some ==> action
            == PlayerAction::KeepOn,
{
}

/// At the end of a one-shot the loop starts with its first note, where there is one, and the buzzer
/// rests where there is none.
pub proof fn law_what_follows_a_one_shot(
    player: &mut Player,
    tune: &Vec<Note>,
    action: PlayerAction,
    played: Vec<Note>,
    sound: Sound,
    notes: Vec<Note>,
)
    requires
        tune.len() > 0,
        (*old(player)).position is Some,
        !(*old(player)).position->0.playback.repeat,
        (*old(player)).state.wanted() == Some((*old(player)).position->0.playback),
        call_ensures(Player::step, (player, PlayerEvent::NoteOver, tune), action),
        call_ensures(
            get_song_notes,
            ((*old(player)).position->0.playback.sound, tune),
            played,
        ),
        (*old(player)).position->0.index + 1 >= played.len(),
        call_ensures(get_song_notes, (sound, tune), notes),
    ensures
        (*old(player)).state.alert_loop == Some(sound) ==> action == PlayerAction::Start(notes@[0]),
        (*old(player)).state.alert_loop is None ==> action == PlayerAction::Rest,
{
}

} // verus!
