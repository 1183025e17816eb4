use consort::notifications::{interrupts, is_mention, wants_sound, PushAction, PushTweak};

fn sound() -> PushAction {
    PushAction::SetTweak(PushTweak::Sound("default".to_owned()))
}

fn highlight() -> PushAction {
    PushAction::SetTweak(PushTweak::Highlight(true))
}

#[test]
fn an_ordinary_message_in_a_room_worth_watching_interrupts() {
    assert!(interrupts(&[PushAction::Notify]));
}

#[test]
fn a_muted_room_says_nothing() {
    // Which is what a mute is on the wire: rules that match and produce no
    // notify action. There is no separate mute flag to check, and looking
    // for one would be inventing a second answer to a question the account
    // has already answered.
    assert!(!interrupts(&[]));
}

#[test]
fn a_tweak_on_its_own_is_not_a_reason_to_interrupt() {
    // A rule can set a tweak without notifying. Treating any action at all
    // as a notification would announce every message in every muted room.
    assert!(!interrupts(&[highlight(), sound()]));
}

#[test]
fn somebody_saying_your_name_is_a_mention() {
    assert!(is_mention(&[PushAction::Notify, highlight()]));
}

#[test]
fn an_ordinary_message_is_not_one() {
    assert!(!is_mention(&[PushAction::Notify]));
}

#[test]
fn a_highlight_set_to_no_is_not_a_mention() {
    // The rules say this explicitly rather than by omission, and reading
    // the tweak as present-means-true would mark every message in a room
    // whose rules turn highlighting off.
    assert!(!is_mention(&[
        PushAction::Notify,
        PushAction::SetTweak(PushTweak::Highlight(false)),
    ]));
}

#[test]
fn a_rule_asking_for_a_sound_gets_one() {
    assert!(wants_sound(&[PushAction::Notify, sound()]));
}

#[test]
fn a_rule_that_asks_for_none_stays_quiet() {
    assert!(!wants_sound(&[PushAction::Notify, highlight()]));
}
