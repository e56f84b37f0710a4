use patterns::abstract_factory::{
    call_on_new_phone, play_on_new_tablet, AppleFactory, Factory, GoogleFactory, IPad, IPhone,
    Nexus10, Nexus4, Phone, Tablet,
};
use patterns::transcript::Transcript;

#[test]
fn apple_factory_phone_calls_on_an_iphone() {
    let apple = AppleFactory;
    let mut out = Transcript::new();
    apple.new_phone().call(&mut out);
    assert_eq!(*out.lines(), vec!["Look! I'm calling on an IPhone!"]);
}

#[test]
fn google_factory_phone_calls_on_a_nexus_4() {
    let google = GoogleFactory;
    let mut out = Transcript::new();
    google.new_phone().call(&mut out);
    assert_eq!(*out.lines(), vec!["Look! I'm calling on a Nexus 4!"]);
}

#[test]
fn apple_factory_tablet_plays_on_an_ipad() {
    let apple = AppleFactory;
    let mut out = Transcript::new();
    apple.new_tablet().play_games(&mut out);
    assert_eq!(*out.lines(), vec!["Just playing some games on my IPad."]);
}

#[test]
fn google_factory_tablet_plays_on_a_nexus_10() {
    let google = GoogleFactory;
    let mut out = Transcript::new();
    google.new_tablet().play_games(&mut out);
    assert_eq!(*out.lines(), vec!["Just playing some games on my Nexus 10."]);
}

#[test]
fn factories_make_the_products_of_their_own_family() {
    let _phone: IPhone = AppleFactory.new_phone();
    let _tablet: IPad = AppleFactory.new_tablet();
    let _phone: Nexus4 = GoogleFactory.new_phone();
    let _tablet: Nexus10 = GoogleFactory.new_tablet();
}

#[test]
fn products_made_by_hand_speak_as_those_of_a_factory() {
    let mut by_hand = Transcript::new();
    IPhone.call(&mut by_hand);
    IPad.play_games(&mut by_hand);
    Nexus4.call(&mut by_hand);
    Nexus10.play_games(&mut by_hand);

    let mut by_factory = Transcript::new();
    AppleFactory.new_phone().call(&mut by_factory);
    AppleFactory.new_tablet().play_games(&mut by_factory);
    GoogleFactory.new_phone().call(&mut by_factory);
    GoogleFactory.new_tablet().play_games(&mut by_factory);

    assert_eq!(by_hand.lines(), by_factory.lines());
}

#[test]
fn each_use_of_a_product_records_exactly_one_notification() {
    let mut out = Transcript::new();
    AppleFactory.new_phone().call(&mut out);
    assert_eq!(out.lines().len(), 1);
    AppleFactory.new_tablet().play_games(&mut out);
    assert_eq!(out.lines().len(), 2);
    GoogleFactory.new_phone().call(&mut out);
    assert_eq!(out.lines().len(), 3);
    GoogleFactory.new_tablet().play_games(&mut out);
    assert_eq!(out.lines().len(), 4);
}

#[test]
fn a_phone_says_the_same_on_every_call() {
    let phone = GoogleFactory.new_phone();
    let mut out = Transcript::new();
    phone.call(&mut out);
    phone.call(&mut out);
    phone.call(&mut out);
    assert_eq!(
        *out.lines(),
        vec![
            "Look! I'm calling on a Nexus 4!",
            "Look! I'm calling on a Nexus 4!",
            "Look! I'm calling on a Nexus 4!",
        ]
    );
}

#[test]
fn a_tablet_says_the_same_on_every_game() {
    let tablet = AppleFactory.new_tablet();
    let mut out = Transcript::new();
    tablet.play_games(&mut out);
    tablet.play_games(&mut out);
    assert_eq!(
        *out.lines(),
        vec!["Just playing some games on my IPad.", "Just playing some games on my IPad."]
    );
}

#[test]
fn every_new_product_of_a_factory_says_the_same() {
    let apple = AppleFactory;
    let mut first = Transcript::new();
    apple.new_phone().call(&mut first);
    apple.new_tablet().play_games(&mut first);
    let mut second = Transcript::new();
    apple.new_phone().call(&mut second);
    apple.new_tablet().play_games(&mut second);
    assert_eq!(first.lines(), second.lines());
}

#[test]
fn the_families_speak_differently() {
    let mut apple = Transcript::new();
    AppleFactory.new_phone().call(&mut apple);
    AppleFactory.new_tablet().play_games(&mut apple);
    let mut google = Transcript::new();
    GoogleFactory.new_phone().call(&mut google);
    GoogleFactory.new_tablet().play_games(&mut google);
    for ours in apple.lines() {
        for theirs in google.lines() {
            assert_ne!(ours, theirs);
        }
    }
}

#[test]
fn client_code_gets_the_phone_of_the_factory_it_is_given() {
    let mut out = Transcript::new();
    call_on_new_phone(&AppleFactory, &mut out);
    call_on_new_phone(&GoogleFactory, &mut out);
    assert_eq!(
        *out.lines(),
        vec!["Look! I'm calling on an IPhone!", "Look! I'm calling on a Nexus 4!"]
    );
}

#[test]
fn client_code_gets_the_tablet_of_the_factory_it_is_given() {
    let mut out = Transcript::new();
    play_on_new_tablet(&AppleFactory, &mut out);
    play_on_new_tablet(&GoogleFactory, &mut out);
    assert_eq!(
        *out.lines(),
        vec!["Just playing some games on my IPad.", "Just playing some games on my Nexus 10."]
    );
}

#[test]
fn phones_first_then_tablets_of_both_factories() {
    let apple = AppleFactory;
    let google = GoogleFactory;
    let mut out = Transcript::new();
    call_on_new_phone(&apple, &mut out);
    call_on_new_phone(&google, &mut out);
    play_on_new_tablet(&apple, &mut out);
    play_on_new_tablet(&google, &mut out);
    assert_eq!(
        *out.lines(),
        vec![
            "Look! I'm calling on an IPhone!",
            "Look! I'm calling on a Nexus 4!",
            "Just playing some games on my IPad.",
            "Just playing some games on my Nexus 10.",
        ]
    );
}

#[test]
fn products_leave_earlier_notifications_alone() {
    let mut out = Transcript::new();
    out.notify("before");
    AppleFactory.new_phone().call(&mut out);
    assert_eq!(*out.lines(), vec!["before", "Look! I'm calling on an IPhone!"]);
}
