//! The Adapter pattern: a pilot knows how to fly a [`RocketShip`]; a
//! [`SpaceXShip`] has other controls; a [`SpaceXAdapter`] owns such a ship
//! and offers the pilot the controls of a rocket ship.
//!
//! Neither interface is changed. The adapter maps each control of the
//! one onto controls of the other:
//!
//! | rocket ship | adapted ship       |
//! |-------------|--------------------|
//! | `turn_on`   | `ignition`, `on`   |
//! | `turn_off`  | `off`              |
//! | `blast_off` | `launch`           |
//! | `fly`       | `fly`              |

use vstd::prelude::*;
use crate::transcript::Transcript;

verus! {

/// The controls that a pilot expects of a rocket ship.
///
/// A control may record any number of notifications. Which ones is the
/// ship's own affair, and each ship states it for each control.
pub trait RocketShip {
    /// What this ship records when it is turned on.
    spec fn turn_on_notices(&self) -> Seq<Seq<char>>;

    /// What this ship records when it is turned off.
    spec fn turn_off_notices(&self) -> Seq<Seq<char>>;

    /// What this ship records when it blasts off.
    spec fn blast_off_notices(&self) -> Seq<Seq<char>>;

    /// What this ship records when it flies.
    spec fn fly_notices(&self) -> Seq<Seq<char>>;

    /// Turns the ship on.
    fn turn_on(&self, out: &mut Transcript)
        ensures
            final(out)@ == old(out)@ + self.turn_on_notices(),
    ;

    /// Turns the ship off.
    fn turn_off(&self, out: &mut Transcript)
        ensures
            final(out)@ == old(out)@ + self.turn_off_notices(),
    ;

    /// Has the ship blast off.
    fn blast_off(&self, out: &mut Transcript)
        ensures
            final(out)@ == old(out)@ + self.blast_off_notices(),
    ;

    /// Has the ship fly.
    fn fly(&self, out: &mut Transcript)
        ensures
            final(out)@ == old(out)@ + self.fly_notices(),
    ;
}

/// A ship that is a rocket ship by itself.
pub struct NASAShip;

impl RocketShip for NASAShip {
    open spec fn turn_on_notices(&self) -> Seq<Seq<char>> {
        seq!["NASA Ship is turning on."@]
    }

    open spec fn turn_off_notices(&self) -> Seq<Seq<char>> {
        seq!["NASA Ship is turning off."@]
    }

    open spec fn blast_off_notices(&self) -> Seq<Seq<char>> {
        seq!["NASA Ship is blasting off."@]
    }

    open spec fn fly_notices(&self) -> Seq<Seq<char>> {
        seq!["NASA Ship is flying away."@]
    }

    fn turn_on(&self, out: &mut Transcript) {
        out.notify("NASA Ship is turning on.");
    }

    fn turn_off(&self, out: &mut Transcript) {
        out.notify("NASA Ship is turning off.");
    }

    fn blast_off(&self, out: &mut Transcript) {
        out.notify("NASA Ship is blasting off.");
    }

    fn fly(&self, out: &mut Transcript) {
        out.notify("NASA Ship is flying away.");
    }
}

/// The controls of a ship that was not built for the pilot: they overlap
/// with those of a [`RocketShip`] in meaning, not in name or number.
///
/// Each control records exactly one notification.
pub trait SpaceXShip {
    /// What this ship records at ignition.
    spec fn ignition_notice(&self) -> Seq<char>;

    /// What this ship records when it is switched on.
    spec fn on_notice(&self) -> Seq<char>;

    /// What this ship records when it is switched off.
    spec fn off_notice(&self) -> Seq<char>;

    /// What this ship records at launch.
    spec fn launch_notice(&self) -> Seq<char>;

    /// What this ship records when it flies.
    spec fn fly_notice(&self) -> Seq<char>;

    /// Turns the ignition.
    fn ignition(&self, out: &mut Transcript)
        ensures
            final(out)@ == old(out)@.push(self.ignition_notice()),
    ;

    /// Switches the ship on.
    fn on(&self, out: &mut Transcript)
        ensures
            final(out)@ == old(out)@.push(self.on_notice()),
    ;

    /// Switches the ship off.
    fn off(&self, out: &mut Transcript)
        ensures
            final(out)@ == old(out)@.push(self.off_notice()),
    ;

    /// Launches the ship.
    fn launch(&self, out: &mut Transcript)
        ensures
            final(out)@ == old(out)@.push(self.launch_notice()),
    ;

    /// Has the ship fly.
    fn fly(&self, out: &mut Transcript)
        ensures
            final(out)@ == old(out)@.push(self.fly_notice()),
    ;
}

/// A ship with the controls of a [`SpaceXShip`], and no others.
pub struct SpaceXDragon;

impl SpaceXShip for SpaceXDragon {
    open spec fn ignition_notice(&self) -> Seq<char> {
        "Turning Dragon's ignition."@
    }

    open spec fn on_notice(&self) -> Seq<char> {
        "Turning on the Dragon."@
    }

    open spec fn off_notice(&self) -> Seq<char> {
        "Turning off the Dragon."@
    }

    open spec fn launch_notice(&self) -> Seq<char> {
        "Launching the Dragon"@
    }

    open spec fn fly_notice(&self) -> Seq<char> {
        "The Dragon is flying away."@
    }

    fn ignition(&self, out: &mut Transcript) {
        out.notify("Turning Dragon's ignition.");
    }

    fn on(&self, out: &mut Transcript) {
        out.notify("Turning on the Dragon.");
    }

    fn off(&self, out: &mut Transcript) {
        out.notify("Turning off the Dragon.");
    }

    fn launch(&self, out: &mut Transcript) {
        out.notify("Launching the Dragon");
    }

    fn fly(&self, out: &mut Transcript) {
        out.notify("The Dragon is flying away.");
    }
}

/// Owns a [`SpaceXShip`] and is a [`RocketShip`] in its place.
pub struct SpaceXAdapter<S: SpaceXShip> {
    pub ship: S,
}

impl<S: SpaceXShip> RocketShip for SpaceXAdapter<S> {
    open spec fn turn_on_notices(&self) -> Seq<Seq<char>> {
        seq![self.ship.ignition_notice(), self.ship.on_notice()]
    }

    open spec fn turn_off_notices(&self) -> Seq<Seq<char>> {
        seq![self.ship.off_notice()]
    }

    open spec fn blast_off_notices(&self) -> Seq<Seq<char>> {
        seq![self.ship.launch_notice()]
    }

    open spec fn fly_notices(&self) -> Seq<Seq<char>> {
        seq![self.ship.fly_notice()]
    }

    /// Turns the owned ship's ignition, then switches it on: two
    /// notifications, in that order.
    fn turn_on(&self, out: &mut Transcript)
        ensures
            final(out)@ == old(out)@.push(self.ship.ignition_notice()).push(self.ship.on_notice()),
    {
        self.ship.ignition(out);
        self.ship.on(out);
    }

    /// Switches the owned ship off: one notification.
    fn turn_off(&self, out: &mut Transcript)
        ensures
            final(out)@ == old(out)@.push(self.ship.off_notice()),
    {
        self.ship.off(out);
    }

    /// Launches the owned ship: one notification.
    fn blast_off(&self, out: &mut Transcript)
        ensures
            final(out)@ == old(out)@.push(self.ship.launch_notice()),
    {
        self.ship.launch(out);
    }

    /// Has the owned ship fly: one notification.
    fn fly(&self, out: &mut Transcript)
        ensures
            final(out)@ == old(out)@.push(self.ship.fly_notice()),
    {
        self.ship.fly(out);
    }
}

/// What piloting `ship` records: what turning it on records, then what
/// blasting off, flying and turning it off record, with nothing in between.
pub open spec fn pilot_notices<S: RocketShip>(ship: &S) -> Seq<Seq<char>> {
    ship.turn_on_notices() + ship.blast_off_notices() + ship.fly_notices()
        + ship.turn_off_notices()
}

/// Flies any rocket ship through one flight: on, blast off, fly, off.
pub fn pilot<S: RocketShip>(ship: &S, out: &mut Transcript)
    ensures
        final(out)@ == old(out)@ + pilot_notices(ship),
{
    ship.turn_on(out);
    ship.blast_off(out);
    ship.fly(out);
    ship.turn_off(out);
}

/// A flight with an adapter at the controls is, control for control, a
/// flight of the ship it owns: ignition, on, launch, fly, off.
pub proof fn lemma_pilot_through_adapter<S: SpaceXShip>(adapter: &SpaceXAdapter<S>)
    ensures
        pilot_notices(adapter) == seq![
            adapter.ship.ignition_notice(),
            adapter.ship.on_notice(),
            adapter.ship.launch_notice(),
            adapter.ship.fly_notice(),
            adapter.ship.off_notice(),
        ],
{
}

} // verus!
