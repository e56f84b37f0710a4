//! The Abstract Factory pattern: a factory hands out a phone and a tablet of
//! one family, and client code uses both through their capabilities alone.
//!
//! A product is a marker without data. What tells products apart is the
//! [`Family`] they belong to, and the family alone decides what a product
//! says when it is used.

use vstd::prelude::*;
use crate::transcript::Transcript;

verus! {

/// The families of products that the library declares.
pub enum Family {
    Apple,
    Google,
}

/// What a phone of `family` says when it places a call.
pub open spec fn call_notice(family: Family) -> Seq<char> {
    match family {
        Family::Apple => "Look! I'm calling on an IPhone!"@,
        Family::Google => "Look! I'm calling on a Nexus 4!"@,
    }
}

/// What a tablet of `family` says when games are played on it.
pub open spec fn play_games_notice(family: Family) -> Seq<char> {
    match family {
        Family::Apple => "Just playing some games on my IPad."@,
        Family::Google => "Just playing some games on my Nexus 10."@,
    }
}

/// A phone: it can place a call.
pub trait Phone {
    /// The family that this phone belongs to.
    spec fn family(&self) -> Family;

    /// Places a call, which records the one notification of this phone's
    /// family and leaves the earlier ones as they were.
    fn call(&self, out: &mut Transcript)
        ensures
            final(out)@ == old(out)@.push(call_notice(self.family())),
    ;
}

/// A tablet: games can be played on it.
pub trait Tablet {
    /// The family that this tablet belongs to.
    spec fn family(&self) -> Family;

    /// Plays games, which records the one notification of this tablet's
    /// family and leaves the earlier ones as they were.
    fn play_games(&self, out: &mut Transcript)
        ensures
            final(out)@ == old(out)@.push(play_games_notice(self.family())),
    ;
}

/// A factory of phones of type `P` and tablets of type `T`.
///
/// Whatever it makes belongs to the factory's own family, so no phone of one
/// family can come out of a factory beside a tablet of another.
pub trait Factory<P: Phone, T: Tablet> {
    /// The family whose products this factory makes.
    spec fn family(&self) -> Family;

    /// Makes a new phone of the factory's family.
    fn new_phone(&self) -> (phone: P)
        ensures
            phone.family() == self.family(),
    ;

    /// Makes a new tablet of the factory's family.
    fn new_tablet(&self) -> (tablet: T)
        ensures
            tablet.family() == self.family(),
    ;
}

/// The phone of the Apple family.
pub struct IPhone;

impl Phone for IPhone {
    open spec fn family(&self) -> Family {
        Family::Apple
    }

    fn call(&self, out: &mut Transcript) {
        out.notify("Look! I'm calling on an IPhone!");
    }
}

/// The tablet of the Apple family.
pub struct IPad;

impl Tablet for IPad {
    open spec fn family(&self) -> Family {
        Family::Apple
    }

    fn play_games(&self, out: &mut Transcript) {
        out.notify("Just playing some games on my IPad.");
    }
}

/// The factory of the Apple family.
pub struct AppleFactory;

impl Factory<IPhone, IPad> for AppleFactory {
    open spec fn family(&self) -> Family {
        Family::Apple
    }

    fn new_phone(&self) -> (phone: IPhone) {
        IPhone
    }

    fn new_tablet(&self) -> (tablet: IPad) {
        IPad
    }
}

/// The phone of the Google family.
pub struct Nexus4;

impl Phone for Nexus4 {
    open spec fn family(&self) -> Family {
        Family::Google
    }

    fn call(&self, out: &mut Transcript) {
        out.notify("Look! I'm calling on a Nexus 4!");
    }
}

/// The tablet of the Google family.
pub struct Nexus10;

impl Tablet for Nexus10 {
    open spec fn family(&self) -> Family {
        Family::Google
    }

    fn play_games(&self, out: &mut Transcript) {
        out.notify("Just playing some games on my Nexus 10.");
    }
}

/// The factory of the Google family.
pub struct GoogleFactory;

impl Factory<Nexus4, Nexus10> for GoogleFactory {
    open spec fn family(&self) -> Family {
        Family::Google
    }

    fn new_phone(&self) -> (phone: Nexus4) {
        Nexus4
    }

    fn new_tablet(&self) -> (tablet: Nexus10) {
        Nexus10
    }
}

/// Has `factory` make a phone and places a call on it.
///
/// Whichever factory is handed in, exactly one notification is recorded, and
/// it is the call notice of that factory's family.
pub fn call_on_new_phone<P: Phone, T: Tablet, F: Factory<P, T>>(factory: &F, out: &mut Transcript)
    ensures
        final(out)@ == old(out)@.push(call_notice(factory.family())),
{
    let phone = factory.new_phone();
    phone.call(out);
}

/// Has `factory` make a tablet and plays games on it.
///
/// Whichever factory is handed in, exactly one notification is recorded, and
/// it is the games notice of that factory's family.
pub fn play_on_new_tablet<P: Phone, T: Tablet, F: Factory<P, T>>(factory: &F, out: &mut Transcript)
    ensures
        final(out)@ == old(out)@.push(play_games_notice(factory.family())),
{
    let tablet = factory.new_tablet();
    tablet.play_games(out);
}

/// Products of different families never say the same thing: no notice of one
/// family, from its phone or its tablet, equals a notice of another family.
pub proof fn lemma_families_speak_differently(one: Family, other: Family)
    requires
        one != other,
    ensures
        call_notice(one) != call_notice(other),
        play_games_notice(one) != play_games_notice(other),
        call_notice(one) != play_games_notice(other),
        play_games_notice(one) != call_notice(other),
{
    reveal_strlit("Look! I'm calling on an IPhone!");
    reveal_strlit("Look! I'm calling on a Nexus 4!");
    reveal_strlit("Just playing some games on my IPad.");
    reveal_strlit("Just playing some games on my Nexus 10.");
    // The two call notices part ways after "on a", the two games notices at
    // the tablet's name, and a call notice and a games notice at once.
    assert(call_notice(Family::Apple)[22] == 'n');
    assert(call_notice(Family::Google)[22] == ' ');
    assert(play_games_notice(Family::Apple)[30] == 'I');
    assert(play_games_notice(Family::Google)[30] == 'N');
    assert(call_notice(one)[0] == 'L');
    assert(play_games_notice(other)[0] == 'J');
    assert(call_notice(other)[0] == 'L');
    assert(play_games_notice(one)[0] == 'J');
}

} // verus!
