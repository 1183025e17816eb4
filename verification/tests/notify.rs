use std::sync::Arc;
use std::sync::Mutex;

use consort::notifications::Notification;
use consort::notify::{
    clicked, wording, worth_drawing, AppEvent, EventSink, Front, NotificationSettings, CLICKED,
};

/// A shell that records every event it is handed.
#[derive(Default)]
struct RecordingSink {
    seen: Mutex<Vec<AppEvent>>,
}

impl RecordingSink {
    fn new() -> Self {
        Self::default()
    }

    fn events(&self) -> Vec<AppEvent> {
        self.seen.lock().unwrap().clone()
    }
}

impl EventSink for RecordingSink {
    fn emit(&self, event: AppEvent) {
        self.seen.lock().unwrap().push(event);
    }
}

/// A window that records being asked to come forward.
#[derive(Default)]
struct FakeFront {
    raised: std::sync::atomic::AtomicBool,
}

impl FakeFront {
    fn was_raised(&self) -> bool {
        self.raised.load(std::sync::atomic::Ordering::Relaxed)
    }
}

impl Front for FakeFront {
    fn raise(&self) {
        self.raised
            .store(true, std::sync::atomic::Ordering::Relaxed);
    }
}

fn arrived() -> Notification {
    Notification {
        room_id: "!general:example.org".to_owned(),
        room_name: "general".to_owned(),
        event_id: "$said:example.org".to_owned(),
        sender: "@ada:example.org".to_owned(),
        sender_name: "Ada".to_owned(),
        body: "are you about?".to_owned(),
        mention: false,
        sound: false,
    }
}

fn mentioned() -> Notification {
    Notification {
        mention: true,
        ..arrived()
    }
}

#[test]
fn a_message_in_a_room_nobody_is_looking_at_is_drawn() {
    assert!(worth_drawing(
        &arrived(),
        NotificationSettings::default(),
        false,
        None
    ));
}

#[test]
fn nothing_is_drawn_when_notifications_are_off() {
    let off = NotificationSettings {
        enabled: false,
        ..NotificationSettings::default()
    };

    assert!(!worth_drawing(&mentioned(), off, false, None));
}

#[test]
fn mentions_only_lets_a_mention_through() {
    let picky = NotificationSettings {
        mentions_only: true,
        ..NotificationSettings::default()
    };

    assert!(worth_drawing(&mentioned(), picky, false, None));
}

#[test]
fn mentions_only_keeps_everything_else_out() {
    let picky = NotificationSettings {
        mentions_only: true,
        ..NotificationSettings::default()
    };

    assert!(!worth_drawing(&arrived(), picky, false, None));
}

#[test]
fn the_room_on_screen_in_the_window_in_front_says_nothing() {
    // Telling somebody about a message they are watching arrive.
    assert!(!worth_drawing(
        &mentioned(),
        NotificationSettings::default(),
        true,
        Some("!general:example.org"),
    ));
}

#[test]
fn a_room_open_behind_another_window_still_says_something() {
    // Consort in the background with a room open is a Consort nobody can
    // see, whatever it happens to be showing.
    assert!(worth_drawing(
        &arrived(),
        NotificationSettings::default(),
        false,
        Some("!general:example.org"),
    ));
}

#[test]
fn another_room_in_the_window_in_front_still_says_something() {
    assert!(worth_drawing(
        &arrived(),
        NotificationSettings::default(),
        true,
        Some("!elsewhere:example.org"),
    ));
}

#[test]
fn the_heading_says_who_and_where() {
    let (heading, body) = wording(&arrived());

    assert_eq!(heading, "Ada in general");
    assert_eq!(body, "are you about?");
}

#[test]
fn a_direct_message_is_not_a_name_said_twice() {
    // A direct message's room is calculated from its members, so it is
    // called after the person in it. "Ada in Ada" is what not checking
    // looks like.
    let direct = Notification {
        room_name: "Ada".to_owned(),
        ..arrived()
    };

    assert_eq!(wording(&direct).0, "Ada");
}

#[test]
fn clicking_one_raises_the_window_and_names_the_room() {
    let events = Arc::new(RecordingSink::new());
    let front = Arc::new(FakeFront::default());

    clicked(
        CLICKED,
        "!general:example.org".to_owned(),
        events.as_ref(),
        front.as_ref(),
    );

    assert!(front.was_raised());
    assert_eq!(
        events.events(),
        vec![AppEvent::ShowRoom("!general:example.org".to_owned())]
    );
}

#[test]
fn letting_one_expire_moves_nothing() {
    // Somebody deciding not to look now. A window that came forward for
    // every notification that timed out would be a window that takes over
    // the screen while nobody is at the machine.
    let events = Arc::new(RecordingSink::new());
    let front = Arc::new(FakeFront::default());

    clicked(
        "__closed",
        "!general:example.org".to_owned(),
        events.as_ref(),
        front.as_ref(),
    );

    assert!(!front.was_raised());
    assert!(events.events().is_empty());
}

#[test]
fn the_defaults_interrupt_for_anything_the_push_rules_would() {
    // Not mentions-only. Somebody who wanted less than their push rules
    // give them can say so; somebody who has never opened the settings
    // should get what every other client on their account gives them.
    let settings = NotificationSettings::default();

    assert!(settings.enabled);
    assert!(!settings.mentions_only);
    assert!(settings.sound);
}
