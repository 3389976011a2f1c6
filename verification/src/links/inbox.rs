//! The commands that the links have brought in, and the order in which the vehicle gets them.

use std::collections::VecDeque;

use vstd::prelude::*;

use crate::links::uplink::{
    asks_for_ignition, from_wired, wired_token, CommandToken, UplinkCommand, WiredLink,
};

verus! {

/// The commands that are waiting, by link and in the order in which they came in.
pub struct Links {
    lora: VecDeque<(u16, UplinkCommand)>,
    ethernet: VecDeque<UplinkCommand>,
    usb: VecDeque<UplinkCommand>,
}

/// The commands that are waiting.
pub struct Waiting {
    /// With the sequence number of the radio frame.
    pub lora: Seq<(u16, UplinkCommand)>,
    pub ethernet: Seq<UplinkCommand>,
    pub usb: Seq<UplinkCommand>,
}

impl View for Links {
    type V = Waiting;

    closed spec fn view(&self) -> Waiting {
        Waiting { lora: self.lora@, ethernet: self.ethernet@, usb: self.usb@ }
    }
}

/// What came of asking the links for a command.
pub enum Received {
    Nothing,
    Command(CommandToken, UplinkCommand),
    /// The command that came in on this link was denied, which is to be answered there.
    Denied(WiredLink),
}

/// The commands from the first one on that sets the flight mode.
pub open spec fn from_first_mode(commands: Seq<UplinkCommand>) -> Seq<UplinkCommand>
    decreases commands.len(),
{
    if commands.len() == 0 || commands[0] is SetFlightMode {
        commands
    } else {
        from_first_mode(commands.drop_first())
    }
}

/// What a command on a wired link comes to.
pub open spec fn wired_outcome(link: WiredLink, command: UplinkCommand) -> Received {
    if asks_for_ignition(command) {
        Received::Denied(link)
    } else {
        Received::Command(wired_token(link, command), command)
    }
}

impl Waiting {
    /// What the vehicle gets next, and what is waiting then: the radio goes first, then Ethernet,
    /// then USB, over which only flight modes can be commanded.
    pub open spec fn next(self) -> (Received, Waiting) {
        let usb = from_first_mode(self.usb);
        if self.lora.len() > 0 {
            let (seq, command) = self.lora[0];
            (
                Received::Command(CommandToken::Lora(seq), command),
                Waiting { lora: self.lora.drop_first(), ..self },
            )
        } else if self.ethernet.len() > 0 {
            (
                wired_outcome(WiredLink::Ethernet, self.ethernet[0]),
                Waiting { ethernet: self.ethernet.drop_first(), ..self },
            )
        } else if usb.len() > 0 {
            (wired_outcome(WiredLink::Usb, usb[0]), Waiting { usb: usb.drop_first(), ..self })
        } else {
            (Received::Nothing, Waiting { usb: Seq::empty(), ..self })
        }
    }
}

fn pass_on(link: WiredLink, command: UplinkCommand) -> (received: Received)
    ensures
        received == wired_outcome(link, command),
{
    match from_wired(link, command) {
        Some((token, command)) => Received::Command(token, command),
        None => Received::Denied(link),
    }
}

impl Links {
    pub fn new() -> (links: Self)
        ensures
            links@ == (Waiting {
                lora: Seq::empty(),
                ethernet: Seq::empty(),
                usb: Seq::empty(),
            }),
    {
        Links { lora: VecDeque::new(), ethernet: VecDeque::new(), usb: VecDeque::new() }
    }

    /// Takes a command that came in by radio.
    pub fn push_lora(&mut self, seq: u16, command: UplinkCommand)
        ensures
            final(self)@ == (Waiting { lora: old(self)@.lora.push((seq, command)), ..old(self)@ }),
    {
        self.lora.push_back((seq, command));
    }

    /// Takes a command that came in on a wired link.
    pub fn push_wired(&mut self, link: WiredLink, command: UplinkCommand)
        ensures
            final(self)@ == (match link {
                WiredLink::Ethernet => Waiting {
                    ethernet: old(self)@.ethernet.push(command),
                    ..old(self)@
                },
                WiredLink::Usb => Waiting { usb: old(self)@.usb.push(command), ..old(self)@ },
            }),
    {
        match link {
            WiredLink::Ethernet => self.ethernet.push_back(command),
            WiredLink::Usb => self.usb.push_back(command),
        }
    }

    /// The command that the vehicle gets next.
    pub fn try_recv_command(&mut self) -> (received: Received)
        ensures
            (received, final(self)@) == old(self)@.next(),
    {
        if let Some((seq, command)) = self.lora.pop_front() {
            assert(self@.lora =~= old(self)@.lora.drop_first());
            return Received::Command(CommandToken::Lora(seq), command);
        }
        assert(self@.lora =~= old(self)@.lora);
        if let Some(command) = self.ethernet.pop_front() {
            assert(self@.ethernet =~= old(self)@.ethernet.drop_first());
            return pass_on(WiredLink::Ethernet, command);
        }
        assert(self@.ethernet =~= old(self)@.ethernet);
        loop
            invariant
                self@.lora == old(self)@.lora,
                self@.ethernet == old(self)@.ethernet,
                old(self)@.lora.len() == 0,
                old(self)@.ethernet.len() == 0,
                from_first_mode(self@.usb) == from_first_mode(old(self)@.usb),
            decreases self@.usb.len(),
        {
            let ghost before = self@.usb;
            match self.usb.pop_front() {
                None => {
                    assert(self@.usb =~= Seq::empty());
                    return Received::Nothing;
                },
                Some(command) => {
                    assert(self@.usb =~= before.drop_first());
                    if let UplinkCommand::SetFlightMode(_) = command {
                        return pass_on(WiredLink::Usb, command);
                    }
                },
            }
        }
    }
}

/// Ignition only ever comes in by radio: whatever is waiting, the vehicle is not handed a command
/// to ignite under the token of a wired link.
pub proof fn law_only_the_radio_ignites(waiting: Waiting)
    ensures
        match waiting.next().0 {
            Received::Command(token, command) => asks_for_ignition(command) ==> token is Lora,
            _ => true,
        },
{
    if from_first_mode(waiting.usb).len() > 0 {
        lemma_from_first_mode(waiting.usb);
    }
}

proof fn lemma_from_first_mode(commands: Seq<UplinkCommand>)
    ensures
        from_first_mode(commands).len() > 0 ==> from_first_mode(commands)[0] is SetFlightMode,
        from_first_mode(commands).len() <= commands.len(),
    decreases commands.len(),
{
    if commands.len() > 0 && !(commands[0] is SetFlightMode) {
        lemma_from_first_mode(commands.drop_first());
    }
}

/// A command that came in by radio is never held up by one on a wired link, and all of the others
/// are left waiting.
pub proof fn law_the_radio_goes_first(waiting: Waiting)
    requires
        waiting.lora.len() > 0,
    ensures
        waiting.next().0 == Received::Command(
            CommandToken::Lora(waiting.lora[0].0),
            waiting.lora[0].1,
        ),
        waiting.next().1.ethernet == waiting.ethernet,
        waiting.next().1.usb == waiting.usb,
{
}

} // verus!
