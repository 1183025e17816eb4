//! Whether to interrupt somebody now, and what the interruption says.
use vstd::prelude::*;

use crate::notifications::Notification;
use crate::text::same_text;

verus! {

/// The action identifier a click on the notification body carries.
pub const CLICKED: &'static str = "default";

/// When to interrupt somebody, and how loudly.
#[derive(Clone, Copy, Debug, PartialEq, Eq)]
pub struct NotificationSettings {
    /// Whether to draw notifications at all.
    pub enabled: bool,
    /// Whether to draw one only when somebody said your name.
    pub mentions_only: bool,
    /// Whether to ask the desktop for a sound when the push rules wanted one.
    pub sound: bool,
}

impl Default for NotificationSettings {
    /// Everything the push rules would interrupt for, with sound.
    fn default() -> (r: Self)
        ensures
            r.enabled,
            !r.mentions_only,
            r.sound,
    {
        NotificationSettings { enabled: true, mentions_only: false, sound: true }
    }
}

/// The room `room` is the one open in the window in front.
pub open spec fn room_on_screen(focused: bool, open_room: Option<&str>, room: Seq<char>) -> bool {
    focused && match open_room {
        Some(open) => open@ == room,
        None => false,
    }
}

/// Whether this notification is worth drawing right now: not when
/// notifications are off, not for anything but a mention when only
/// mentions are wanted, and not for the room already on screen in the
/// window in front.
pub fn worth_drawing(
    one: &Notification,
    settings: NotificationSettings,
    focused: bool,
    open_room: Option<&str>,
) -> (r: bool)
    ensures
        r == (settings.enabled && (!settings.mentions_only || one.mention) && !room_on_screen(
            focused,
            open_room,
            one.room_id@,
        )),
{
    if !settings.enabled {
        return false;
    }
    if settings.mentions_only && !one.mention {
        return false;
    }
    if focused {
        if let Some(room) = open_room {
            if same_text(room, one.room_id.as_str()) {
                return false;
            }
        }
    }
    true
}

/// The heading a notification for `one` carries: who said it and where,
/// or only who when the room is called after them.
pub open spec fn heading_of(one: Notification) -> Seq<char> {
    if one.room_name@ == one.sender_name@ {
        one.sender_name@
    } else {
        one.sender_name@ + " in "@ + one.room_name@
    }
}

/// The heading and the line under it: the person and the room, then what
/// they said.
pub fn wording(one: &Notification) -> (r: (String, String))
    ensures
        r.0@ == heading_of(*one),
        one.room_name@ == one.sender_name@ ==> r.0@ == one.sender_name@,
        one.room_name@ != one.sender_name@ ==> r.0@ == one.sender_name@ + " in "@
            + one.room_name@,
        r.1@ == one.body@,
{
    let heading = if one.room_name == one.sender_name {
        one.sender_name.clone()
    } else {
        let mut heading = one.sender_name.clone();
        heading.append(" in ");
        heading.append(one.room_name.as_str());
        heading
    };
    (heading, one.body.clone())
}

/// The room is left out of a heading exactly when it is called the same as
/// the sender, as a direct chat is: every other heading is the sender's
/// name, ` in `, and the room's name, so a room whose name is shorter than
/// its sender's, or merely starts the same, is still named.
pub proof fn law_only_a_room_named_after_its_sender_is_left_out(one: Notification)
    ensures
        one.room_name@ == one.sender_name@ ==> heading_of(one) == one.sender_name@,
        one.room_name@ != one.sender_name@ ==> heading_of(one) == one.sender_name@ + " in "@
            + one.room_name@,
        one.room_name@ != one.sender_name@ ==> heading_of(one).len() == one.sender_name@.len()
            + 4 + one.room_name@.len(),
{
    reveal_strlit(" in ");
}

/// Bringing the window to the front.
pub trait Front: Send + Sync + 'static {
    /// Show the window and give it focus.
    fn raise(&self);
}

/// Something the shell is told about.
#[derive(Clone, Debug, PartialEq, Eq)]
pub enum AppEvent {
    /// Open this room.
    ShowRoom(String),
}

/// Somewhere the shell's events go.
pub trait EventSink: Send + Sync + 'static {
    /// Hand one event over.
    fn emit(&self, event: AppEvent);
}

/// One thing done in answer to somebody acting on a notification.
#[derive(Clone, Debug, PartialEq, Eq)]
pub enum ClickStep {
    /// Bring the window forward.
    Raise,
    /// Tell the shell to open this room.
    Show(String),
}

/// What answering `action` on the notification for `room_id` takes, in
/// order: a click brings the window forward and then names the room, and
/// anything else (dismissing it, letting it expire) does nothing.
pub fn click_steps(action: &str, room_id: String) -> (steps: Vec<ClickStep>)
    ensures
        action@ == CLICKED@ ==> steps@ == seq![ClickStep::Raise, ClickStep::Show(room_id)],
        action@ != CLICKED@ ==> steps@ == Seq::<ClickStep>::empty(),
{
    let mut steps: Vec<ClickStep> = Vec::new();
    if !same_text(action, CLICKED) {
        return steps;
    }
    steps.push(ClickStep::Raise);
    steps.push(ClickStep::Show(room_id));
    steps
}

/// Carry out one step against the window or the shell, and add it to the
/// record of what has been done.
fn carry_out<E: EventSink, F: Front>(
    step: &ClickStep,
    events: &E,
    front: &F,
    Ghost(done): Ghost<Seq<ClickStep>>,
) -> (r: Ghost<Seq<ClickStep>>)
    ensures
        r@ == done.push(*step),
{
    match step {
        ClickStep::Raise => front.raise(),
        ClickStep::Show(room) => events.emit(AppEvent::ShowRoom(room.clone())),
    }
    Ghost(done.push(*step))
}

/// Answer somebody acting on a notification: carry out [`click_steps`]
/// against the window and the shell, front to back. The record that comes
/// back is the steps carried out, in the order they were: on a click the
/// window is raised and only then is the room named, and on anything else
/// nothing is done at all.
pub fn clicked<E: EventSink, F: Front>(action: &str, room_id: String, events: &E, front: &F) -> (done:
    Ghost<Seq<ClickStep>>)
    ensures
        action@ == CLICKED@ ==> done@ == seq![ClickStep::Raise, ClickStep::Show(room_id)],
        action@ != CLICKED@ ==> done@ == Seq::<ClickStep>::empty(),
{
    let steps = click_steps(action, room_id);
    let mut done: Ghost<Seq<ClickStep>> = Ghost(Seq::empty());
    let mut i: usize = 0;
    assert(steps@.take(0) =~= Seq::<ClickStep>::empty());
    while i < steps.len()
        invariant
            i <= steps.len(),
            done@ == steps@.take(i as int),
        decreases steps.len() - i,
    {
        done = carry_out(&steps[i], events, front, done);
        assert(steps@.take(i + 1) =~= steps@.take(i as int).push(steps@[i as int]));
        i = i + 1;
    }
    assert(steps@.take(steps.len() as int) =~= steps@);
    done
}

/// Somewhere to draw a notification: what a click on one needs, which is
/// the shell to tell and the window to raise.
pub struct Notifier<E, F> {
    events: std::sync::Arc<E>,
    front: std::sync::Arc<F>,
}

impl<E, F> Notifier<E, F> {
    pub fn new(events: std::sync::Arc<E>, front: std::sync::Arc<F>) -> (r: Self)
        ensures
            r.events() == events,
            r.front() == front,
    {
        Notifier { events, front }
    }

    pub closed spec fn events(&self) -> std::sync::Arc<E> {
        self.events
    }

    pub closed spec fn front(&self) -> std::sync::Arc<F> {
        self.front
    }

    /// The shell a click is reported to.
    pub fn event_sink(&self) -> (r: &std::sync::Arc<E>)
        ensures
            *r == self.events(),
    {
        &self.events
    }

    /// The window a click raises.
    pub fn window(&self) -> (r: &std::sync::Arc<F>)
        ensures
            *r == self.front(),
    {
        &self.front
    }
}

} // verus!
