//! The sounds of the buzzer, and what it plays.
//!
//! There are two kinds of sounds:
//!
//! * *One-shots* are played once and interrupt whatever is currently playing, e.g. the chirp on
//!   every change of the flight mode.
//! * The *alert loop* repeats until it is replaced or cleared. It is for the continuous warnings
//!   that have to outlast a single sound, e.g. the landing beacon.
//!
//! A one-shot takes over from the alert loop for a while; once it has finished, the loop resumes
//! on its own. Which sound is played when is decided in [`alerts`].

use vstd::prelude::*;

use crate::text::{eq_ignore_ascii_case, same_ignoring_case};

pub mod alerts;
pub mod scores;

verus! {

/// Duty cycle of the PWM signal, in percent. A buzzer is loudest at 50%, this trades some volume
/// for a lower current draw.
pub const VOLUME_PERCENT: u8 = 30;

#[derive(Copy, Clone, Debug, PartialEq, Eq, Structural)]
pub enum Semitone {
    C,
    Cs,
    D,
    Ds,
    E,
    F,
    Fs,
    G,
    Gs,
    A,
    As,
    B,
}

#[derive(Copy, Clone, Debug, PartialEq, Eq, Structural)]
pub struct Pitch {
    pub semitone: Semitone,
    pub octave: u8,
}

impl Semitone {
    /// How many semitones it lies above the C of its octave.
    pub open spec fn step(self) -> int {
        self as int
    }
}

impl Pitch {
    /// How many semitones the pitch lies above the reference tone A4 of 440 Hz; twelve of them
    /// double the frequency.
    pub fn semitones_above_reference(&self) -> (semitones: i32)
        ensures
            semitones == 12 * (self.octave - 4) + self.semitone.step() - Semitone::A.step(),
    {
        let reference: i32 = 4 * 12 + Semitone::A as i32;
        let note: i32 = self.octave as i32 * 12 + self.semitone as i32;
        note - reference
    }
}

/// A tone or, without a pitch, a pause.
#[derive(Copy, Clone, Debug, PartialEq, Eq, Structural)]
pub struct Note {
    pub pitch: Option<Pitch>,
    /// \[ms\]
    pub duration: u32,
}

impl Note {
    pub fn new(semitone: Semitone, octave: u8, duration: u32) -> (note: Self)
        ensures
            note == tone(semitone, octave, duration),
    {
        Note { pitch: Some(Pitch { semitone, octave }), duration }
    }

    pub fn pause(duration: u32) -> (note: Self)
        ensures
            note == silence(duration),
    {
        Note { pitch: None, duration }
    }
}

/// The note with the pitch.
pub open spec fn tone(semitone: Semitone, octave: u8, duration: u32) -> Note {
    Note { pitch: Some(Pitch { semitone, octave }), duration }
}

/// The pause.
pub open spec fn silence(duration: u32) -> Note {
    Note { pitch: None, duration }
}

#[derive(Copy, Clone, Debug, PartialEq, Eq, Structural)]
pub enum Sound {
    StartupTech,
    BatteryLow,
    BatteryExtremeLow,
    ModeChange,
    Pressurized,
    Landed,
    Ignition,
    Mario,
}

/// The name by which a sound can be requested.
pub open spec fn sound_name(sound: Sound) -> Seq<char> {
    match sound {
        Sound::StartupTech => "startup"@,
        Sound::BatteryLow => "battery_low"@,
        Sound::BatteryExtremeLow => "battery_extreme_low"@,
        Sound::ModeChange => "mode_change"@,
        Sound::Pressurized => "pressurized"@,
        Sound::Landed => "landed"@,
        Sound::Ignition => "ignition"@,
        Sound::Mario => "mario"@,
    }
}

impl Sound {
    /// All sounds.
    pub const ALL: [Self; 8] = [
        Self::StartupTech,
        Self::BatteryLow,
        Self::BatteryExtremeLow,
        Self::ModeChange,
        Self::Pressurized,
        Self::Landed,
        Self::Ignition,
        Self::Mario,
    ];

    /// The name by which the sound can be requested.
    pub fn name(self) -> (name: &'static str)
        ensures
            name@ == sound_name(self),
    {
        match self {
            Sound::StartupTech => "startup",
            Sound::BatteryLow => "battery_low",
            Sound::BatteryExtremeLow => "battery_extreme_low",
            Sound::ModeChange => "mode_change",
            Sound::Pressurized => "pressurized",
            Sound::Landed => "landed",
            Sound::Ignition => "ignition",
            Sound::Mario => "mario",
        }
    }

    /// Look a sound up by name, ignoring case.
    pub fn from_name(name: &str) -> (sound: Option<Self>)
        ensures
            match sound {
                Some(sound) => same_ignoring_case(sound_name(sound), name@),
                None => forall|sound: Sound|
                    !same_ignoring_case(#[trigger] sound_name(sound), name@),
            },
    {
        let mut k: usize = 0;
        while k < 8
            invariant
                k <= 8,
                forall|j: int|
                    0 <= j < k ==> !same_ignoring_case(
                        #[trigger] sound_name(Sound::ALL@[j]),
                        name@,
                    ),
            decreases 8 - k,
        {
            let sound = Sound::ALL[k];
            if eq_ignore_ascii_case(sound.name(), name) {
                return Some(sound);
            }
            k += 1;
        }
        assert forall|sound: Sound| !same_ignoring_case(#[trigger] sound_name(sound), name@) by {
            assert(Sound::ALL@[sound as int] == sound);
            assert(!same_ignoring_case(sound_name(Sound::ALL@[sound as int]), name@));
        }
        None
    }
}

/// No two sounds share a name, so that a name asks for one sound at most.
pub proof fn law_a_name_is_of_one_sound(a: Sound, b: Sound, name: Seq<char>)
    requires
        same_ignoring_case(sound_name(a), name),
        same_ignoring_case(sound_name(b), name),
    ensures
        a == b,
{
    reveal_strlit("startup");
    reveal_strlit("battery_low");
    reveal_strlit("battery_extreme_low");
    reveal_strlit("mode_change");
    reveal_strlit("pressurized");
    reveal_strlit("landed");
    reveal_strlit("ignition");
    reveal_strlit("mario");
    assert(sound_name(a).len() == sound_name(b).len());
    assert(sound_name(Sound::BatteryLow)[0] == 'b' && sound_name(Sound::ModeChange)[0] == 'm'
        && sound_name(Sound::Pressurized)[0] == 'p');
    if a != b {
        assert(crate::text::folded(sound_name(a)[0]) == crate::text::folded(name[0]));
        assert(crate::text::folded(sound_name(b)[0]) == crate::text::folded(name[0]));
    }
}

/// The notes of a sound. The tune is the score of [`Sound::Mario`].
pub open spec fn song(sound: Sound, tune: Seq<Note>) -> Seq<Note> {
    match sound {
        Sound::StartupTech => seq![
            tone(Semitone::E, 4, 100),
            silence(20),
            tone(Semitone::A, 4, 100),
            silence(20),
            tone(Semitone::E, 5, 200),
            silence(100),
        ],
        Sound::BatteryLow => seq![
            tone(Semitone::E, 6, 120),
            silence(60),
            tone(Semitone::Cs, 6, 120),
            silence(60),
            tone(Semitone::A, 5, 250),
            silence(150),
        ],
        Sound::BatteryExtremeLow => seq![
            tone(Semitone::A, 6, 70),
            silence(50),
            tone(Semitone::A, 6, 70),
            silence(50),
            tone(Semitone::A, 6, 70),
            silence(50),
            tone(Semitone::A, 6, 70),
            silence(150),
            tone(Semitone::E, 6, 120),
            silence(60),
            tone(Semitone::Cs, 6, 120),
            silence(60),
            tone(Semitone::A, 5, 350),
            silence(150),
        ],
        Sound::ModeChange => seq![
            tone(Semitone::A, 5, 90),
            silence(30),
            tone(Semitone::E, 6, 140),
            silence(120),
        ],
        Sound::Pressurized => seq![
            tone(Semitone::Ds, 6, 220),
            silence(50),
            tone(Semitone::A, 5, 220),
            silence(50),
        ],
        Sound::Landed => seq![
            tone(Semitone::E, 6, 250),
            silence(180),
            tone(Semitone::E, 6, 250),
            silence(1300),
        ],
        Sound::Ignition => Seq::new(
            28,
            |k: int|
                if k % 2 == 1 {
                    silence(10)
                } else {
                    tone(Semitone::C, 4, ignition_beat(k / 2))
                },
        ),
        Sound::Mario => tune,
    }
}

/// How long the tones of the countdown to ignition are \[ms\]: they come faster and faster, and the
/// last one is held.
pub open spec fn ignition_beat(k: int) -> u32 {
    if k < 3 {
        1000
    } else if k < 6 {
        500
    } else if k < 9 {
        250
    } else if k < 13 {
        125
    } else {
        10000
    }
}

fn ignition_notes() -> (notes: Vec<Note>)
    ensures
        notes@ == song(Sound::Ignition, Seq::empty()),
{
    let mut notes: Vec<Note> = Vec::new();
    let mut k: usize = 0;
    while k < 14
        invariant
            k <= 14,
            notes.len() == 2 * k,
            forall|j: int|
                0 <= j < notes.len() ==> #[trigger] notes[j] == song(
                    Sound::Ignition,
                    Seq::empty(),
                )[j],
        decreases 14 - k,
    {
        let duration: u32 = if k < 3 {
            1000
        } else if k < 6 {
            500
        } else if k < 9 {
            250
        } else if k < 13 {
            125
        } else {
            10000
        };
        notes.push(Note::new(Semitone::C, 4, duration));
        notes.push(Note::pause(10));
        k += 1;
    }
    assert(notes@ =~= song(Sound::Ignition, Seq::empty()));
    notes
}

/// The notes of a sound. The tune is the score of [`Sound::Mario`].
pub fn get_song_notes(sound: Sound, tune: &Vec<Note>) -> (notes: Vec<Note>)
    ensures
        notes@ == song(sound, tune@),
{
    let notes: Vec<Note> = match sound {
        Sound::StartupTech => vec![
            Note::new(Semitone::E, 4, 100),
            Note::pause(20),
            Note::new(Semitone::A, 4, 100),
            Note::pause(20),
            Note::new(Semitone::E, 5, 200),
            Note::pause(100),
        ],
        // Three descending beeps, repeated every few seconds while the battery is low.
        Sound::BatteryLow => vec![
            Note::new(Semitone::E, 6, 120),
            Note::pause(60),
            Note::new(Semitone::Cs, 6, 120),
            Note::pause(60),
            Note::new(Semitone::A, 5, 250),
            Note::pause(150),
        ],
        // The same descending motif, but preceded by a burst of fast beeps, so that the two
        // warnings are easy to tell apart.
        Sound::BatteryExtremeLow => vec![
            Note::new(Semitone::A, 6, 70),
            Note::pause(50),
            Note::new(Semitone::A, 6, 70),
            Note::pause(50),
            Note::new(Semitone::A, 6, 70),
            Note::pause(50),
            Note::new(Semitone::A, 6, 70),
            Note::pause(150),
            Note::new(Semitone::E, 6, 120),
            Note::pause(60),
            Note::new(Semitone::Cs, 6, 120),
            Note::pause(60),
            Note::new(Semitone::A, 5, 350),
            Note::pause(150),
        ],
        // Short rising chirp, played whenever the flight mode changes.
        Sound::ModeChange => vec![
            Note::new(Semitone::A, 5, 90),
            Note::pause(30),
            Note::new(Semitone::E, 6, 140),
            Note::pause(120),
        ],
        // Two-tone hazard warning, looped while the vehicle is pressurized. Kept deliberately
        // unpleasant and gapless: it means "do not approach the rocket".
        Sound::Pressurized => vec![
            Note::new(Semitone::Ds, 6, 220),
            Note::pause(50),
            Note::new(Semitone::A, 5, 220),
            Note::pause(50),
        ],
        // Locator beacon, looped after touchdown. Two short high beeps followed by a long pause:
        // high notes carry the furthest, the pause makes the direction that the sound comes from
        // easier to make out, and saves some battery.
        Sound::Landed => vec![
            Note::new(Semitone::E, 6, 250),
            Note::pause(180),
            Note::new(Semitone::E, 6, 250),
            Note::pause(1300),
        ],
        Sound::Ignition => ignition_notes(),
        Sound::Mario => {
            let mut notes: Vec<Note> = Vec::new();
            let mut k: usize = 0;
            while k < tune.len()
                invariant
                    k <= tune.len(),
                    notes@ == tune@.take(k as int),
                decreases tune.len() - k,
            {
                notes.push(tune[k]);
                assert(tune@.take(k + 1) =~= tune@.take(k as int).push(tune@[k as int]));
                k += 1;
            }
            notes
        },
    };
    assert(notes@ =~= song(sound, tune@));
    notes
}

/// What the player can be told.
#[derive(Copy, Clone, Debug, PartialEq, Eq, Structural)]
pub enum Command {
    /// Play a sound once, interrupting whatever is currently playing.
    PlayOnce(Sound),
    /// Replace the looping alert sound (`None` clears it).
    SetLoop(Option<Sound>),
    /// Stop the one-shot and the alert loop.
    Stop,
}

/// A sound the player is (or should be) playing.
#[derive(Copy, Clone, Debug, PartialEq, Eq, Structural)]
pub struct Playback {
    pub sound: Sound,
    /// Keep repeating the sound until something else is requested.
    pub repeat: bool,
    /// Distinguishes two consecutive requests for the same one-shot sound, so that the second one
    /// restarts the sound instead of being swallowed.
    pub generation: u32,
}

/// What the player has been asked to play.
#[derive(Copy, Clone, Debug, PartialEq, Eq, Structural)]
pub struct PlayerState {
    pub alert_loop: Option<Sound>,
    pub one_shot: Option<Sound>,
    pub generation: u32,
}

impl Default for PlayerState {
    fn default() -> (state: Self)
        ensures
            state == (PlayerState { alert_loop: None, one_shot: None, generation: 0 }),
    {
        PlayerState { alert_loop: None, one_shot: None, generation: 0 }
    }
}

impl PlayerState {
    /// The state after a command.
    pub open spec fn after(self, command: Command) -> PlayerState {
        match command {
            Command::PlayOnce(sound) => PlayerState {
                one_shot: Some(sound),
                generation: ((self.generation + 1) % 0x1_0000_0000) as u32,
                ..self
            },
            Command::SetLoop(sound) => PlayerState { alert_loop: sound, ..self },
            Command::Stop => PlayerState { alert_loop: None, one_shot: None, ..self },
        }
    }

    /// What should be playing.
    pub open spec fn wanted(self) -> Option<Playback> {
        match (self.one_shot, self.alert_loop) {
            (Some(sound), _) => Some(
                Playback { sound, repeat: false, generation: self.generation },
            ),
            (None, Some(sound)) => Some(
                Playback { sound, repeat: true, generation: self.generation },
            ),
            (None, None) => None,
        }
    }

    /// The state once this has been played to the end.
    pub open spec fn done(self, playback: Playback) -> PlayerState {
        if self.wanted() == Some(playback) {
            PlayerState { one_shot: None, ..self }
        } else {
            self
        }
    }

    pub fn apply(&mut self, command: Command)
        ensures
            *final(self) == old(self).after(command),
    {
        match command {
            Command::PlayOnce(sound) => {
                self.one_shot = Some(sound);
                self.generation = if self.generation == u32::MAX {
                    0
                } else {
                    self.generation + 1
                };
            },
            Command::SetLoop(sound) => {
                self.alert_loop = sound;
            },
            Command::Stop => {
                self.one_shot = None;
                self.alert_loop = None;
            },
        }
    }

    /// The sound that should be playing right now, if any. One-shots take precedence over the alert
    /// loop.
    pub fn desired(&self) -> (playback: Option<Playback>)
        ensures
            playback == self.wanted(),
    {
        let (sound, repeat) = match (self.one_shot, self.alert_loop) {
            (Some(one_shot), _) => (one_shot, false),
            (None, Some(alert_loop)) => (alert_loop, true),
            (None, None) => {
                return None;
            },
        };
        Some(Playback { sound, repeat, generation: self.generation })
    }

    /// Called once a one-shot has been played to the end, so the alert loop can take over again.
    pub fn finished(&mut self, playback: Playback)
        ensures
            *final(self) == old(self).done(playback),
    {
        if let Some(desired) = self.desired() {
            if desired == playback {
                self.one_shot = None;
            }
        }
    }
}

/// What the player waits for.
#[derive(Copy, Clone, Debug, PartialEq, Eq, Structural)]
pub enum PlayerEvent {
    /// The time of the note is over.
    NoteOver,
    Command(Command),
}

/// What the player does next.
#[derive(Copy, Clone, Debug, PartialEq, Eq, Structural)]
pub enum PlayerAction {
    /// Start this note, and wait for its time or for a command.
    Start(Note),
    /// Leave the note alone, and go on waiting.
    KeepOn,
    /// Be silent, and wait for a command.
    Rest,
}

/// Where the player is in what it plays.
#[derive(Copy, Clone, Debug, PartialEq, Eq, Structural)]
pub struct Position {
    pub playback: Playback,
    pub index: usize,
}

/// Plays the sound selected by the commands so far, note by note, and keeps looping it if it is the
/// alert loop. New commands are applied immediately, even in the middle of a note.
#[derive(Copy, Clone, Debug, PartialEq, Eq, Structural)]
pub struct Player {
    pub state: PlayerState,
    pub position: Option<Position>,
}

impl Player {
    /// The player at the start of what it should play, and what it does there.
    pub open spec fn started(state: PlayerState, tune: Seq<Note>) -> (Player, PlayerAction) {
        match state.wanted() {
            None => (Player { state, position: None }, PlayerAction::Rest),
            Some(playback) => (
                Player { state, position: Some(Position { playback, index: 0 }) },
                PlayerAction::Start(song(playback.sound, tune)[0]),
            ),
        }
    }

    /// The player after an event, and what it does then.
    pub open spec fn stepped(self, event: PlayerEvent, tune: Seq<Note>) -> (Player, PlayerAction) {
        match event {
            PlayerEvent::Command(command) => {
                let state = self.state.after(command);
                if self.position is Some && state.wanted() == Some(self.position->0.playback) {
                    // The command does not change what should be playing.
                    (Player { state, ..self }, PlayerAction::KeepOn)
                } else {
                    Player::started(state, tune)
                }
            },
            PlayerEvent::NoteOver => match self.position {
                None => Player::started(self.state, tune),
                Some(at) => {
                    let notes = song(at.playback.sound, tune);
                    if at.index + 1 < notes.len() {
                        (
                            Player {
                                position: Some(
                                    Position { index: (at.index + 1) as usize, ..at },
                                ),
                                ..self
                            },
                            PlayerAction::Start(notes[at.index + 1]),
                        )
                    } else if at.playback.repeat {
                        (
                            Player { position: Some(Position { index: 0, ..at }), ..self },
                            PlayerAction::Start(notes[0]),
                        )
                    } else {
                        Player::started(self.state.done(at.playback), tune)
                    }
                },
            },
        }
    }

    /// Nothing has been asked for.
    pub fn new() -> (player: Self)
        ensures
            player.position is None,
            player.state == (PlayerState { alert_loop: None, one_shot: None, generation: 0 }),
    {
        Player { state: PlayerState::default(), position: None }
    }

    fn start(&mut self, tune: &Vec<Note>) -> (action: PlayerAction)
        requires
            tune.len() > 0,
        ensures
            (*final(self), action) == Player::started(old(self).state, tune@),
    {
        match self.state.desired() {
            None => {
                self.position = None;
                PlayerAction::Rest
            },
            Some(playback) => {
                self.position = Some(Position { playback, index: 0 });
                let notes = get_song_notes(playback.sound, tune);
                PlayerAction::Start(notes[0])
            },
        }
    }

    /// Takes an event. The tune is the score of [`Sound::Mario`].
    pub fn step(&mut self, event: PlayerEvent, tune: &Vec<Note>) -> (action: PlayerAction)
        requires
            tune.len() > 0,
        ensures
            (*final(self), action) == old(self).stepped(event, tune@),
    {
        match event {
            PlayerEvent::Command(command) => {
                let mut state = self.state;
                state.apply(command);
                self.state = state;
                if let Some(at) = self.position {
                    if let Some(desired) = self.state.desired() {
                        if desired == at.playback {
                            return PlayerAction::KeepOn;
                        }
                    }
                }
                self.start(tune)
            },
            PlayerEvent::NoteOver => {
                let at = match self.position {
                    None => {
                        return self.start(tune);
                    },
                    Some(at) => at,
                };
                let notes = get_song_notes(at.playback.sound, tune);
                if at.index < notes.len() - 1 {
                    self.position = Some(Position { index: at.index + 1, ..at });
                    return PlayerAction::Start(notes[at.index + 1]);
                }
                if at.playback.repeat {
                    self.position = Some(Position { index: 0, ..at });
                    return PlayerAction::Start(notes[0]);
                }
                let mut state = self.state;
                state.finished(at.playback);
                self.state = state;
                self.start(tune)
            },
        }
    }
}

/// A one-shot is what plays next, whatever was playing, and once it has finished the alert loop
/// resumes.
pub proof fn law_the_loop_resumes_after_a_one_shot(state: PlayerState, sound: Sound)
    ensures
        ({
            let asked = state.after(Command::PlayOnce(sound));
            &&& asked.wanted() is Some
            &&& asked.wanted()->0.sound == sound
            &&& !asked.wanted()->0.repeat
            // It is told from what was playing before, even where that is the same sound.
            &&& asked.wanted() != state.wanted()
            &&& match state.alert_loop {
                Some(looped) => {
                    let then = asked.done(asked.wanted()->0).wanted();
                    then is Some && then->0.sound == looped && then->0.repeat
                },
                None => asked.done(asked.wanted()->0).wanted() is None,
            }
        }),
{
}

/// Changing the alert loop never interrupts a one-shot: the note is left alone.
pub proof fn law_a_loop_does_not_interrupt_a_one_shot(
    player: Player,
    sound: Option<Sound>,
    tune: Seq<Note>,
)
    requires
        player.state.one_shot is Some,
        player.position is Some,
        player.state.wanted() == Some(player.position->0.playback),
    ensures
        player.stepped(PlayerEvent::Command(Command::SetLoop(sound)), tune).1 is KeepOn,
{
}

/// After a stop there is nothing left to play.
pub proof fn law_a_stop_silences_the_buzzer(player: Player, tune: Seq<Note>)
    ensures
        player.stepped(PlayerEvent::Command(Command::Stop), tune).1 is Rest,
        player.stepped(PlayerEvent::Command(Command::Stop), tune).0.state.wanted() is None,
{
}

} // verus!
