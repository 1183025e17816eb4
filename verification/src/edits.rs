//! Which correction a message is currently showing.
//!
//! Every `m.replace` is held on its own, under its own event ID, because a
//! redaction names only the event it removes and which edit wins changes
//! when a later one arrives.
use vstd::prelude::*;

use crate::text::{
    comes_before, lemma_text_before_strict, lemma_text_before_total,
    lemma_text_before_transitive, opt_text, same_text, text_before,
};

verus! {

/// One `m.replace` event, unpacked and held.
#[derive(Clone, Debug, PartialEq, Eq)]
pub struct Edit {
    /// The message it replaces.
    pub target: String,
    /// Who sent it.
    pub sender: String,
    /// Its own `origin_server_ts`, in milliseconds. Which edit wins.
    pub at: u64,
    /// What the message now says, with no formatting.
    pub body: String,
    /// What it now says as HTML, or `None` for an edit that carried none.
    pub html: Option<String>,
}

/// What an edit says, as plain values.
pub struct EditView {
    pub target: Seq<char>,
    pub sender: Seq<char>,
    pub at: u64,
    pub body: Seq<char>,
    pub html: Option<Seq<char>>,
}

impl View for Edit {
    type V = EditView;

    open spec fn view(&self) -> EditView {
        EditView {
            target: self.target@,
            sender: self.sender@,
            at: self.at,
            body: self.body@,
            html: opt_text(self.html),
        }
    }
}

/// One held edit, under its own event ID.
#[derive(Debug)]
struct Held {
    event_id: String,
    edit: Edit,
}

/// The corrections currently known, for one room: every edit held, in the
/// order it arrived, each under the event ID a redaction would name.
#[derive(Debug)]
pub struct Edits {
    held: Vec<Held>,
}

/// Whether an edit with event ID `id` is held.
pub open spec fn holds(v: Seq<(Seq<char>, EditView)>, id: Seq<char>) -> bool {
    exists|i: int| 0 <= i < v.len() && (#[trigger] v[i]).0 == id
}

/// Where the edit with event ID `id` is held.
pub open spec fn position_of(v: Seq<(Seq<char>, EditView)>, id: Seq<char>) -> int {
    choose|i: int| 0 <= i < v.len() && (#[trigger] v[i]).0 == id
}

/// No event ID is held twice.
pub open spec fn ids_distinct(v: Seq<(Seq<char>, EditView)>) -> bool {
    forall|i: int, j: int| 0 <= i < v.len() && 0 <= j < v.len() && i != j ==> (#[trigger] v[i]).0 != (#[trigger] v[j]).0
}

/// The edit at `i` is on `target` and was sent by `author`.
pub open spec fn is_candidate(
    v: Seq<(Seq<char>, EditView)>,
    target: Seq<char>,
    author: Seq<char>,
    i: int,
) -> bool {
    0 <= i < v.len() && v[i].1.target == target && v[i].1.sender == author
}

/// The edit at `i` ranks no higher than the one at `j`: stamped earlier, or
/// stamped the same millisecond with an event ID that sorts no later.
pub open spec fn ranks_below(v: Seq<(Seq<char>, EditView)>, i: int, j: int) -> bool {
    v[i].1.at < v[j].1.at || (v[i].1.at == v[j].1.at && (v[i].0 == v[j].0 || text_before(
        v[i].0,
        v[j].0,
    )))
}

/// The edit at `i` is the one that wins on `target` for `author`: the
/// newest of the edits on `target` that `author` sent, with the event ID
/// breaking a tie.
pub open spec fn is_latest(
    v: Seq<(Seq<char>, EditView)>,
    target: Seq<char>,
    author: Seq<char>,
    i: int,
) -> bool {
    &&& is_candidate(v, target, author, i)
    &&& forall|k: int| #[trigger] is_candidate(v, target, author, k) ==> ranks_below(v, k, i)
}

/// The edit that wins on `target` for `author`, if any edit is on it.
pub open spec fn latest(v: Seq<(Seq<char>, EditView)>, target: Seq<char>, author: Seq<char>) -> Option<
    EditView,
> {
    if exists|i: int| is_latest(v, target, author, i) {
        Some(v[choose|i: int| is_latest(v, target, author, i)].1)
    } else {
        None
    }
}

/// The view of an edit made of these parts.
pub open spec fn edit_of(
    target: Seq<char>,
    sender: Seq<char>,
    at: u64,
    body: Seq<char>,
    html: Option<Seq<char>>,
) -> EditView {
    EditView { target, sender, at, body, html }
}

impl Edits {
    /// The held edits in arrival order, each with its event ID.
    pub closed spec fn view(&self) -> Seq<(Seq<char>, EditView)> {
        self.held@.map_values(|h: Held| (h.event_id@, h.edit@))
    }

    #[verifier::type_invariant]
    closed spec fn well_formed(&self) -> bool {
        ids_distinct(self.view())
    }

    /// Nothing known yet.
    pub fn new() -> (r: Self)
        ensures
            r.view() == Seq::<(Seq<char>, EditView)>::empty(),
            ids_distinct(r.view()),
    {
        let r = Edits { held: Vec::new() };
        assert(r.view() =~= Seq::<(Seq<char>, EditView)>::empty());
        r
    }

    /// Where `event_id` is held, if it is.
    fn find(&self, event_id: &str) -> (r: Option<usize>)
        ensures
            match r {
                Some(i) => i < self.view().len() && self.view()[i as int].0 == event_id@,
                None => !holds(self.view(), event_id@),
            },
    {
        let ghost v = self.view();
        let mut i: usize = 0;
        while i < self.held.len()
            invariant
                v == self.view(),
                v.len() == self.held@.len(),
                i <= self.held@.len(),
                forall|j: int| 0 <= j < i ==> (#[trigger] v[j]).0 != event_id@,
            decreases self.held@.len() - i,
        {
            assert(v[i as int].0 == self.held@[i as int].event_id@);
            if same_text(self.held[i].event_id.as_str(), event_id) {
                return Some(i);
            }
            i = i + 1;
        }
        None
    }

    /// Take note of one edit, and say whether anything changed: an edit
    /// whose event ID is already held changes nothing, and any other is
    /// held after the ones before it, whoever sent it.
    pub fn added(
        &mut self,
        event_id: &str,
        target: &str,
        sender: &str,
        at: u64,
        body: String,
        html: Option<String>,
    ) -> (changed: bool)
        ensures
            changed == !holds(old(self).view(), event_id@),
            changed ==> final(self).view() == old(self).view().push(
                (event_id@, edit_of(target@, sender@, at, body@, opt_text(html))),
            ),
            !changed ==> final(self).view() == old(self).view(),
            ids_distinct(final(self).view()),
    {
        proof {
            use_type_invariant(&*self);
        }
        if self.find(event_id).is_some() {
            return false;
        }
        let ghost before = self.view();
        let held = Held {
            event_id: event_id.to_owned(),
            edit: Edit {
                target: target.to_owned(),
                sender: sender.to_owned(),
                at,
                body,
                html,
            },
        };
        assert(before.push((held.event_id@, held.edit@)) =~= self.held@.push(held).map_values(
            |h: Held| (h.event_id@, h.edit@),
        ));
        assert(ids_distinct(before.push((held.event_id@, held.edit@)))) by {
            let w = before.push((held.event_id@, held.edit@));
            assert forall|i: int, j: int|
                0 <= i < w.len() && 0 <= j < w.len() && i != j implies (#[trigger] w[i]).0 != (
            #[trigger] w[j]).0 by {
                if i < before.len() && j < before.len() {
                    assert(w[i] == before[i] && w[j] == before[j]);
                } else if i < before.len() {
                    assert(w[i] == before[i]);
                } else {
                    assert(w[j] == before[j]);
                }
            }
        }
        let mut all = Vec::new();
        std::mem::swap(&mut all, &mut self.held);
        all.push(held);
        self.held = all;
        true
    }

    /// Forget the edit `event_id` was, if it was one, and say whether
    /// anything changed. The other edits stay held in the order they
    /// arrived.
    pub fn redacted(&mut self, event_id: &str) -> (changed: bool)
        ensures
            changed == holds(old(self).view(), event_id@),
            changed ==> final(self).view() == old(self).view().remove(
                position_of(old(self).view(), event_id@),
            ),
            !changed ==> final(self).view() == old(self).view(),
            ids_distinct(final(self).view()),
    {
        proof {
            use_type_invariant(&*self);
        }
        let ghost before = self.view();
        match self.find(event_id) {
            None => false,
            Some(i) => {
                proof {
                    let p = position_of(before, event_id@);
                    assert(before[i as int].0 == event_id@);
                    assert(holds(before, event_id@));
                    assert(0 <= p < before.len() && before[p].0 == event_id@);
                    assert(p == i as int);
                    let w = before.remove(i as int);
                    assert(w =~= self.held@.remove(i as int).map_values(
                        |h: Held| (h.event_id@, h.edit@),
                    ));
                    assert forall|a: int, b: int|
                        0 <= a < w.len() && 0 <= b < w.len() && a != b implies (#[trigger] w[a]).0
                        != (#[trigger] w[b]).0 by {
                        let a2 = if a < i { a } else { a + 1 };
                        let b2 = if b < i { b } else { b + 1 };
                        assert(w[a] == before[a2] && w[b] == before[b2]);
                    }
                }
                let mut all = Vec::new();
                std::mem::swap(&mut all, &mut self.held);
                all.remove(i);
                self.held = all;
                true
            },
        }
    }

    /// The edit that wins on `target`, if `author` is allowed to have made
    /// it: the newest of the edits on `target` that `author` sent, with the
    /// event ID breaking a tie between two stamped the same millisecond.
    /// An edit from anybody but `author` is never the answer.
    pub fn latest_on(&self, target: &str, author: &str) -> (r: Option<&Edit>)
        ensures
            match r {
                Some(e) => latest(self.view(), target@, author@) == Some(e@),
                None => latest(self.view(), target@, author@) is None,
            },
            r is None <==> forall|i: int| !is_candidate(self.view(), target@, author@, i),
            ids_distinct(self.view()),
    {
        proof {
            use_type_invariant(self);
        }
        let ghost v = self.view();
        let mut best: Option<usize> = None;
        let mut i: usize = 0;
        while i < self.held.len()
            invariant
                v == self.view(),
                v.len() == self.held@.len(),
                ids_distinct(v),
                i <= self.held@.len(),
                match best {
                    Some(b) => b < i && is_candidate(v, target@, author@, b as int) && forall|k: int|
                        0 <= k < i && #[trigger] is_candidate(v, target@, author@, k) ==> ranks_below(
                            v,
                            k,
                            b as int,
                        ),
                    None => forall|k: int| 0 <= k < i ==> !#[trigger] is_candidate(v, target@, author@, k),
                },
            decreases self.held@.len() - i,
        {
            let held = &self.held[i];
            assert(v[i as int] == (held.event_id@, held.edit@));
            if same_text(held.edit.target.as_str(), target) && same_text(
                held.edit.sender.as_str(),
                author,
            ) {
                match best {
                    None => {
                        best = Some(i);
                    },
                    Some(b) => {
                        let champion = &self.held[b];
                        assert(v[b as int] == (champion.event_id@, champion.edit@));
                        let newer = held.edit.at > champion.edit.at || (held.edit.at
                            == champion.edit.at && comes_before(
                            champion.event_id.as_str(),
                            held.event_id.as_str(),
                        ));
                        proof {
                            lemma_text_before_strict(v[b as int].0, v[i as int].0);
                            if v[b as int].0 != v[i as int].0 {
                                lemma_text_before_total(v[b as int].0, v[i as int].0);
                            }
                        }
                        if newer {
                            proof {
                                assert forall|k: int|
                                    0 <= k < i + 1 && #[trigger] is_candidate(
                                        v,
                                        target@,
                                        author@,
                                        k,
                                    ) implies ranks_below(v, k, i as int) by {
                                    if k < i {
                                        assert(ranks_below(v, k, b as int));
                                        if v[k].1.at == v[b as int].1.at && v[b as int].1.at
                                            == v[i as int].1.at && v[k].0 != v[b as int].0 {
                                            lemma_text_before_transitive(
                                                v[k].0,
                                                v[b as int].0,
                                                v[i as int].0,
                                            );
                                        }
                                    }
                                }
                            }
                            best = Some(i);
                        }
                    },
                }
            }
            i = i + 1;
        }
        match best {
            None => {
                proof {
                    assert forall|k: int| !is_candidate(v, target@, author@, k) by {
                        if is_candidate(v, target@, author@, k) {
                            assert(0 <= k < i);
                        }
                    }
                    assert(!exists|k: int| is_latest(v, target@, author@, k));
                }
                None
            },
            Some(b) => {
                proof {
                    assert(is_latest(v, target@, author@, b as int));
                    lemma_latest_unique(v, target@, author@, b as int);
                }
                Some(&self.held[b].edit)
            },
        }
    }
}

impl Default for Edits {
    /// Nothing known yet.
    fn default() -> (r: Self)
        ensures
            r.view() == Seq::<(Seq<char>, EditView)>::empty(),
            ids_distinct(r.view()),
    {
        Edits::new()
    }
}

/// Two winners are the same held edit.
proof fn lemma_winners_agree(
    v: Seq<(Seq<char>, EditView)>,
    target: Seq<char>,
    author: Seq<char>,
    i: int,
    j: int,
)
    requires
        ids_distinct(v),
        is_latest(v, target, author, i),
        is_latest(v, target, author, j),
    ensures
        i == j,
{
    assert(ranks_below(v, i, j));
    assert(ranks_below(v, j, i));
    lemma_text_before_strict(v[i].0, v[j].0);
}

/// The winner is what [`latest`] names.
proof fn lemma_latest_unique(
    v: Seq<(Seq<char>, EditView)>,
    target: Seq<char>,
    author: Seq<char>,
    i: int,
)
    requires
        ids_distinct(v),
        is_latest(v, target, author, i),
    ensures
        latest(v, target, author) == Some(v[i].1),
{
    let c = choose|k: int| is_latest(v, target, author, k);
    lemma_winners_agree(v, target, author, i, c);
}

/// Redacting an edit undoes having added it: an edit whose event ID was not
/// held yet, once added and then redacted, leaves the held edits exactly
/// as they were.
pub proof fn law_redacting_undoes_adding(v: Seq<(Seq<char>, EditView)>, id: Seq<char>, edit: EditView)
    requires
        ids_distinct(v),
        !holds(v, id),
    ensures
        holds(v.push((id, edit)), id),
        v.push((id, edit)).remove(position_of(v.push((id, edit)), id)) == v,
{
    let w = v.push((id, edit));
    assert(w[v.len() as int].0 == id);
    let p = position_of(w, id);
    assert(0 <= p < w.len() && w[p].0 == id);
    if p < v.len() {
        assert(w[p] == v[p]);
        assert(holds(v, id));
    }
    assert(w.remove(p) =~= v);
}

/// Which edit wins does not depend on the order the edits arrived in: two
/// rooms holding the same edits, in any order, show the same correction.
pub proof fn law_winner_is_order_independent(
    v1: Seq<(Seq<char>, EditView)>,
    v2: Seq<(Seq<char>, EditView)>,
    target: Seq<char>,
    author: Seq<char>,
)
    requires
        ids_distinct(v1),
        ids_distinct(v2),
        forall|x: (Seq<char>, EditView)| v1.contains(x) <==> v2.contains(x),
    ensures
        latest(v1, target, author) == latest(v2, target, author),
{
    lemma_winner_carries_over(v1, v2, target, author);
    lemma_winner_carries_over(v2, v1, target, author);
}

proof fn lemma_winner_carries_over(
    v1: Seq<(Seq<char>, EditView)>,
    v2: Seq<(Seq<char>, EditView)>,
    target: Seq<char>,
    author: Seq<char>,
)
    requires
        ids_distinct(v1),
        ids_distinct(v2),
        forall|x: (Seq<char>, EditView)| v1.contains(x) <==> v2.contains(x),
    ensures
        latest(v1, target, author) is Some ==> latest(v1, target, author) == latest(v2, target, author),
{
    if exists|i: int| is_latest(v1, target, author, i) {
        let i = choose|i: int| is_latest(v1, target, author, i);
        assert(v1.contains(v1[i]));
        let j = choose|j: int| 0 <= j < v2.len() && v2[j] == v1[i];
        assert(is_latest(v2, target, author, j)) by {
            assert forall|k: int| #[trigger] is_candidate(v2, target, author, k) implies ranks_below(
                v2,
                k,
                j,
            ) by {
                assert(v2.contains(v2[k]));
                let k1 = choose|k1: int| 0 <= k1 < v1.len() && v1[k1] == v2[k];
                assert(is_candidate(v1, target, author, k1));
            }
        }
        lemma_latest_unique(v2, target, author, j);
        lemma_latest_unique(v1, target, author, i);
    }
}

/// An edit that is not a candidate on `target` for `author` (it corrects
/// another message, or somebody other than `author` sent it) leaves the
/// correction shown for `author`'s message `target` as it was.
pub proof fn law_other_edits_leave_the_winner(
    v: Seq<(Seq<char>, EditView)>,
    id: Seq<char>,
    edit: EditView,
    target: Seq<char>,
    author: Seq<char>,
)
    requires
        ids_distinct(v),
        !holds(v, id),
        edit.target != target || edit.sender != author,
    ensures
        latest(v.push((id, edit)), target, author) == latest(v, target, author),
{
    let w = v.push((id, edit));
    assert forall|k: int| #[trigger] is_candidate(w, target, author, k) implies 0 <= k < v.len()
        && is_candidate(v, target, author, k) by {
        if k == v.len() {
            assert(w[k] == (id, edit));
        }
        assert(w[k] == v[k]);
    }
    assert forall|k: int| #[trigger] is_candidate(v, target, author, k) implies is_candidate(
        w,
        target,
        author,
        k,
    ) by {
        assert(w[k] == v[k]);
    }
    assert(ids_distinct(w)) by {
        assert forall|i: int, j: int|
            0 <= i < w.len() && 0 <= j < w.len() && i != j implies (#[trigger] w[i]).0 != (
        #[trigger] w[j]).0 by {
            if i < v.len() && j < v.len() {
                assert(w[i] == v[i] && w[j] == v[j]);
            } else if i < v.len() {
                assert(w[i] == v[i]);
            } else {
                assert(w[j] == v[j]);
            }
        }
    }
    if exists|i: int| is_latest(v, target, author, i) {
        let i = choose|i: int| is_latest(v, target, author, i);
        assert(w[i] == v[i]);
        assert(is_latest(w, target, author, i)) by {
            assert forall|k: int| #[trigger] is_candidate(w, target, author, k) implies ranks_below(
                w,
                k,
                i,
            ) by {
                assert(w[k] == v[k]);
                assert(is_candidate(v, target, author, k));
            }
        }
        lemma_latest_unique(v, target, author, i);
        lemma_latest_unique(w, target, author, i);
    } else {
        assert forall|i: int| !is_latest(w, target, author, i) by {
            if is_latest(w, target, author, i) {
                assert(w[i] == v[i]);
                assert(is_latest(v, target, author, i)) by {
                    assert forall|k: int| #[trigger] is_candidate(v, target, author, k) implies ranks_below(
                        v,
                        k,
                        i,
                    ) by {
                        assert(is_candidate(w, target, author, k));
                        assert(w[k] == v[k]);
                    }
                }
            }
        }
    }
}

/// Only an edit on the message asked about, sent by the message's own
/// author, is ever the correction shown.
pub proof fn law_only_the_author_corrects(
    v: Seq<(Seq<char>, EditView)>,
    target: Seq<char>,
    author: Seq<char>,
)
    ensures
        latest(v, target, author) matches Some(e) ==> e.target == target && e.sender == author,
{
}

} // verus!
