//! What is worth interrupting somebody for, read from the account's own
//! push rules rather than decided here.
use vstd::prelude::*;

use crate::text::same_text;

verus! {

/// One thing worth interrupting somebody for.
#[derive(Clone, Debug, PartialEq, Eq)]
pub struct Notification {
    /// Where it happened, so a click can go there.
    pub room_id: String,
    /// What that room is called.
    pub room_name: String,
    /// The message itself.
    pub event_id: String,
    /// Who said it.
    pub sender: String,
    /// What to call them.
    pub sender_name: String,
    /// A line of what they said, as plain text.
    pub body: String,
    /// Whether the push rules called it a highlight.
    pub mention: bool,
    /// Whether the push rules asked for a sound.
    pub sound: bool,
}

/// A tweak a push rule sets on the notification it asks for.
#[derive(Clone, Debug, PartialEq, Eq)]
pub enum PushTweak {
    /// A sound to play, by name.
    Sound(String),
    /// Whether to highlight the message.
    Highlight(bool),
    /// A tweak this build does not know.
    Other,
}

/// One action a matching push rule asks for.
#[derive(Clone, Debug, PartialEq, Eq)]
pub enum PushAction {
    /// Notify about the event.
    Notify,
    /// Set a tweak on the notification.
    SetTweak(PushTweak),
    /// An action this build does not know.
    Other,
}

impl PushAction {
    /// Whether this action asks for a notification.
    pub open spec fn notifies(self) -> bool {
        self is Notify
    }

    /// Whether this action highlights the event.
    pub open spec fn highlights(self) -> bool {
        self matches PushAction::SetTweak(PushTweak::Highlight(true))
    }

    /// Whether this action asks for a sound.
    pub open spec fn sounds(self) -> bool {
        self matches PushAction::SetTweak(PushTweak::Sound(_))
    }

    pub fn should_notify(&self) -> (r: bool)
        ensures
            r == self.notifies(),
    {
        matches!(self, PushAction::Notify)
    }

    pub fn is_highlight(&self) -> (r: bool)
        ensures
            r == self.highlights(),
    {
        match self {
            PushAction::SetTweak(PushTweak::Highlight(yes)) => *yes,
            _ => false,
        }
    }

    /// The sound this action asks for, if any.
    pub fn sound(&self) -> (r: Option<&String>)
        ensures
            r is Some == self.sounds(),
            self matches PushAction::SetTweak(PushTweak::Sound(name)) ==> r == Some(name),
    {
        match self {
            PushAction::SetTweak(PushTweak::Sound(name)) => Some(name),
            _ => None,
        }
    }
}

/// Whether any of these push actions asks for somebody to be interrupted.
pub fn interrupts(actions: &[PushAction]) -> (r: bool)
    ensures
        r == exists|i: int| 0 <= i < actions@.len() && (#[trigger] actions@[i]).notifies(),
{
    let mut i: usize = 0;
    while i < actions.len()
        invariant
            i <= actions@.len(),
            forall|j: int| 0 <= j < i ==> !(#[trigger] actions@[j]).notifies(),
        decreases actions@.len() - i,
    {
        if actions[i].should_notify() {
            return true;
        }
        i = i + 1;
    }
    false
}

/// Whether they say it was about this account.
pub fn is_mention(actions: &[PushAction]) -> (r: bool)
    ensures
        r == exists|i: int| 0 <= i < actions@.len() && (#[trigger] actions@[i]).highlights(),
{
    let mut i: usize = 0;
    while i < actions.len()
        invariant
            i <= actions@.len(),
            forall|j: int| 0 <= j < i ==> !(#[trigger] actions@[j]).highlights(),
        decreases actions@.len() - i,
    {
        if actions[i].is_highlight() {
            return true;
        }
        i = i + 1;
    }
    false
}

/// Whether they ask for a sound, any sound.
pub fn wants_sound(actions: &[PushAction]) -> (r: bool)
    ensures
        r == exists|i: int| 0 <= i < actions@.len() && (#[trigger] actions@[i]).sounds(),
{
    let mut i: usize = 0;
    while i < actions.len()
        invariant
            i <= actions@.len(),
            forall|j: int| 0 <= j < i ==> !(#[trigger] actions@[j]).sounds(),
        decreases actions@.len() - i,
    {
        if actions[i].sound().is_some() {
            return true;
        }
        i = i + 1;
    }
    false
}

/// Somebody saying something in a room: the part of a timeline event a
/// notification is made from.
#[derive(Clone, Debug, PartialEq, Eq)]
pub struct Message {
    pub id: String,
    pub sender: String,
    pub body: String,
}

/// `sender` is this account.
pub open spec fn said_by_me(me: Option<&str>, sender: Seq<char>) -> bool {
    match me {
        Some(m) => m@ == sender,
        None => false,
    }
}

/// The push actions were computed, and one of them asks for a notification.
pub open spec fn asks_to_notify(actions: Option<&[PushAction]>) -> bool {
    match actions {
        Some(a) => exists|i: int| 0 <= i < a@.len() && (#[trigger] a@[i]).notifies(),
        None => false,
    }
}

/// Whether one message is worth interrupting somebody for: not what they
/// said themselves, not a message this session cannot decrypt, and only
/// when the push rules computed for it ask for a notification.
pub fn worth_saying(
    message: &Message,
    me: Option<&str>,
    undecryptable: bool,
    actions: Option<&[PushAction]>,
) -> (r: bool)
    ensures
        r == (!said_by_me(me, message.sender@) && !undecryptable && asks_to_notify(actions)),
{
    if let Some(me) = me {
        if same_text(message.sender.as_str(), me) {
            return false;
        }
    }
    if undecryptable {
        return false;
    }
    match actions {
        None => false,
        Some(actions) => interrupts(actions),
    }
}

/// The notification for a message worth saying: named after its sender's
/// display name in the room, or their user ID when the room has not told
/// us one, and a mention or a sound exactly when the push actions say so.
pub fn notification_of(
    room_id: String,
    room_name: String,
    message: Message,
    sender_name: Option<String>,
    actions: &[PushAction],
) -> (r: Notification)
    ensures
        r.room_id == room_id,
        r.room_name == room_name,
        r.event_id == message.id,
        r.sender == message.sender,
        r.sender_name == (match sender_name {
            Some(name) => name,
            None => message.sender,
        }),
        r.body == message.body,
        r.mention == exists|i: int| 0 <= i < actions@.len() && (#[trigger] actions@[i]).highlights(),
        r.sound == exists|i: int| 0 <= i < actions@.len() && (#[trigger] actions@[i]).sounds(),
{
    let sender_name = match sender_name {
        Some(name) => name,
        None => message.sender.clone(),
    };
    Notification {
        room_id,
        room_name,
        event_id: message.id,
        sender: message.sender,
        sender_name,
        body: message.body,
        mention: is_mention(actions),
        sound: wants_sound(actions),
    }
}

/// What the watcher received from the room updates it is subscribed to.
#[derive(Clone, Copy, Debug, PartialEq, Eq)]
pub enum Received {
    /// One batch of room updates.
    Update,
    /// This many batches went by while the watcher was busy.
    Lagged(u64),
    /// The client is gone.
    Closed,
}

/// What the watcher does with what it received.
#[derive(Clone, Copy, Debug, PartialEq, Eq)]
pub enum Step {
    /// Look through the batch for something worth saying.
    Announce,
    /// Go on to the next one and say nothing.
    Skip,
    /// Stop watching.
    Stop,
}

/// What a watcher that has or has not caught up does with what it
/// received, and whether it has caught up afterwards.
pub open spec fn next_step(caught_up: bool, got: Received) -> (Step, bool) {
    match got {
        Received::Update => (if caught_up { Step::Announce } else { Step::Skip }, true),
        Received::Lagged(_) => (Step::Skip, caught_up),
        Received::Closed => (Step::Stop, caught_up),
    }
}

/// The steps a watcher takes over everything it receives, in order.
pub open spec fn steps_over(caught_up: bool, got: Seq<Received>) -> Seq<Step>
    decreases got.len(),
{
    if got.len() == 0 {
        Seq::<Step>::empty()
    } else {
        let (first, after) = next_step(caught_up, got[0]);
        seq![first] + steps_over(after, got.drop_first())
    }
}

/// Some batch of room updates comes before position `i`.
pub open spec fn update_before(got: Seq<Received>, i: int) -> bool {
    exists|j: int| 0 <= j < i && got[j] is Update
}

/// The notification watcher's state: whether the catch-up batch that a
/// restored session starts with has been through yet.
pub struct Watching {
    caught_up: bool,
}

impl Watching {
    pub closed spec fn has_caught_up(&self) -> bool {
        self.caught_up
    }

    /// Nothing has been received yet.
    pub fn new() -> (r: Self)
        ensures
            !r.has_caught_up(),
    {
        Watching { caught_up: false }
    }

    /// Decide what to do with what was received. The first batch of room
    /// updates is the catch-up and says nothing; every batch after it is
    /// looked through. Batches missed while busy are not announced late,
    /// and a closed channel ends the watch.
    pub fn step(&mut self, got: Received) -> (r: Step)
        ensures
            (r, final(self).has_caught_up()) == next_step(old(self).has_caught_up(), got),
    {
        match got {
            Received::Lagged(_) => Step::Skip,
            Received::Closed => Step::Stop,
            Received::Update => {
                if !self.caught_up {
                    self.caught_up = true;
                    Step::Skip
                } else {
                    Step::Announce
                }
            },
        }
    }
}

/// Nothing about what happened while Consort was closed: from a fresh
/// watcher, the first batch of room updates is never announced, every
/// batch after it is, nothing else ever is, and a closed channel always
/// stops the watch.
pub proof fn law_only_batches_after_the_first_are_announced(got: Seq<Received>, i: int)
    requires
        0 <= i < got.len(),
    ensures
        steps_over(false, got).len() == got.len(),
        steps_over(false, got)[i] == Step::Announce <==> (got[i] is Update && update_before(got, i)),
        got[i] is Closed <==> steps_over(false, got)[i] == Step::Stop,
{
    lemma_steps_over(false, got, i);
}

proof fn lemma_steps_over(caught_up: bool, got: Seq<Received>, i: int)
    requires
        0 <= i < got.len(),
    ensures
        steps_over(caught_up, got).len() == got.len(),
        steps_over(caught_up, got)[i] == Step::Announce <==> (got[i] is Update && (caught_up
            || update_before(got, i))),
        got[i] is Closed <==> steps_over(caught_up, got)[i] == Step::Stop,
    decreases got.len(),
{
    lemma_steps_len(caught_up, got);
    let (first, after) = next_step(caught_up, got[0]);
    if i > 0 {
        let rest = got.drop_first();
        lemma_steps_over(after, rest, i - 1);
        assert(steps_over(caught_up, got)[i] == steps_over(after, rest)[i - 1]);
        assert(rest[i - 1] == got[i]);
        if update_before(rest, i - 1) {
            let j = choose|j: int| 0 <= j < i - 1 && rest[j] is Update;
            assert(got[j + 1] is Update);
        }
        if update_before(got, i) && !(got[0] is Update) {
            let j = choose|j: int| 0 <= j < i && got[j] is Update;
            assert(rest[j - 1] is Update);
        }
    }
}

proof fn lemma_steps_len(caught_up: bool, got: Seq<Received>)
    ensures
        steps_over(caught_up, got).len() == got.len(),
    decreases got.len(),
{
    if got.len() > 0 {
        let (first, after) = next_step(caught_up, got[0]);
        lemma_steps_len(after, got.drop_first());
    }
}

} // verus!
