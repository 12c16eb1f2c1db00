//! Queries over the reminders.

use crate::models::reminder::Reminder;
use crate::text::{
    comes_before, lemma_text_before_asymmetric, lemma_text_before_total,
    lemma_text_before_transitive, text_before,
};
use vstd::prelude::*;

verus! {

/// The time of day of the reminder lies after `current_time` on the same
/// day; both are written `HH:MM`.
pub open spec fn is_upcoming(reminder: Reminder, current_time: Seq<char>) -> bool {
    text_before(current_time, reminder.remind_time@)
}

/// Position `i` holds the next reminder of the day: it is upcoming, no
/// upcoming reminder has an earlier time of day, and those before it in the
/// list have a later one.
pub open spec fn is_next_upcoming(reminders: Seq<Reminder>, current_time: Seq<char>, i: int) -> bool {
    &&& 0 <= i < reminders.len()
    &&& is_upcoming(reminders[i], current_time)
    &&& forall|j: int|
        0 <= j < reminders.len() && is_upcoming(#[trigger] reminders[j], current_time)
            ==> !text_before(reminders[j].remind_time@, reminders[i].remind_time@)
    &&& forall|j: int|
        0 <= j < i && is_upcoming(#[trigger] reminders[j], current_time) ==> text_before(
            reminders[i].remind_time@,
            reminders[j].remind_time@,
        )
}

/// No reminder of the list is upcoming.
pub open spec fn none_upcoming(reminders: Seq<Reminder>, current_time: Seq<char>) -> bool {
    forall|j: int| 0 <= j < reminders.len() ==> !is_upcoming(#[trigger] reminders[j], current_time)
}

/// Only one position holds the next reminder of the day.
pub proof fn lemma_next_upcoming_unique(
    reminders: Seq<Reminder>,
    current_time: Seq<char>,
    i: int,
    k: int,
)
    requires
        is_next_upcoming(reminders, current_time, i),
        is_next_upcoming(reminders, current_time, k),
    ensures
        i == k,
{
    if i < k {
        assert(is_upcoming(reminders[i], current_time));
        assert(text_before(reminders[k].remind_time@, reminders[i].remind_time@));
    } else if k < i {
        assert(is_upcoming(reminders[k], current_time));
        assert(text_before(reminders[i].remind_time@, reminders[k].remind_time@));
    }
}

/// Position of the reminder to show as the next one: among the reminders
/// whose time of day lies after `current_time`, the first with the earliest
/// time; where the day has none left, the first of the list; `None` for an
/// empty list.
pub fn next_reminder_position(reminders: &Vec<Reminder>, current_time: &str) -> (r: Option<usize>)
    ensures
        reminders@.len() == 0 <==> r is None,
        r matches Some(i) ==> {
            ||| is_next_upcoming(reminders@, current_time@, i as int)
            ||| (none_upcoming(reminders@, current_time@) && i == 0)
        },
{
    let mut best: Option<usize> = None;
    let mut i: usize = 0;
    while i < reminders.len()
        invariant
            i <= reminders@.len(),
            best is None ==> none_upcoming(reminders@.take(i as int), current_time@),
            best matches Some(b) ==> b < i && is_next_upcoming(
                reminders@.take(i as int),
                current_time@,
                b as int,
            ),
        decreases reminders@.len() - i,
    {
        let candidate = &reminders[i];
        let ghost seen = reminders@.take(i as int);
        let ghost next = reminders@.take(i + 1);
        proof {
            assert(forall|j: int| 0 <= j < i ==> #[trigger] next[j] == seen[j]);
            assert(next[i as int] == reminders@[i as int]);
        }
        if comes_before(current_time, candidate.remind_time.as_str()) {
            match best {
                Some(b) => {
                    if comes_before(
                        candidate.remind_time.as_str(),
                        reminders[b].remind_time.as_str(),
                    ) {
                        proof {
                            let t = candidate.remind_time@;
                            let tb = reminders@[b as int].remind_time@;
                            assert(seen[b as int] == reminders@[b as int]);
                            assert forall|j: int|
                                0 <= j < next.len() && is_upcoming(
                                    #[trigger] next[j],
                                    current_time@,
                                ) implies !text_before(next[j].remind_time@, t) by {
                                if j < i {
                                    assert(is_upcoming(seen[j], current_time@));
                                    if text_before(next[j].remind_time@, t) {
                                        lemma_text_before_transitive(next[j].remind_time@, t, tb);
                                    }
                                } else {
                                    lemma_text_before_asymmetric(t, tb);
                                    if text_before(t, t) {
                                        lemma_text_before_transitive(t, t, tb);
                                    }
                                    crate::text::lemma_text_before_irreflexive(t);
                                }
                            }
                            assert forall|j: int|
                                0 <= j < i && is_upcoming(
                                    #[trigger] next[j],
                                    current_time@,
                                ) implies text_before(t, next[j].remind_time@) by {
                                let tj = next[j].remind_time@;
                                assert(is_upcoming(seen[j], current_time@));
                                assert(!text_before(tj, tb));
                                lemma_text_before_total(tj, tb);
                                if tj != tb {
                                    lemma_text_before_transitive(t, tb, tj);
                                }
                            }
                        }
                        best = Some(i);
                    } else {
                        proof {
                            assert(seen[b as int] == reminders@[b as int]);
                            assert(is_next_upcoming(next, current_time@, b as int));
                        }
                    }
                },
                None => {
                    proof {
                        crate::text::lemma_text_before_irreflexive(candidate.remind_time@);
                        assert(is_next_upcoming(next, current_time@, i as int)) by {
                            assert forall|j: int|
                                0 <= j < next.len() && is_upcoming(
                                    #[trigger] next[j],
                                    current_time@,
                                ) implies !text_before(
                                next[j].remind_time@,
                                next[i as int].remind_time@,
                            ) by {
                                if j < i {
                                    assert(!is_upcoming(seen[j], current_time@));
                                }
                            }
                            assert forall|j: int|
                                0 <= j < i && is_upcoming(
                                    #[trigger] next[j],
                                    current_time@,
                                ) implies text_before(
                                next[i as int].remind_time@,
                                next[j].remind_time@,
                            ) by {
                                assert(!is_upcoming(seen[j], current_time@));
                            }
                        }
                    }
                    best = Some(i);
                },
            }
        } else {
            proof {
                match best {
                    Some(b) => {
                        assert(seen[b as int] == reminders@[b as int]);
                        assert(is_next_upcoming(next, current_time@, b as int));
                    },
                    None => {
                        assert forall|j: int| 0 <= j < next.len() implies !is_upcoming(
                            #[trigger] next[j],
                            current_time@,
                        ) by {
                            if j < i {
                                assert(!is_upcoming(seen[j], current_time@));
                            }
                        }
                    },
                }
            }
        }
        i += 1;
    }
    proof {
        assert(reminders@.take(i as int) =~= reminders@);
    }
    match best {
        Some(b) => Some(b),
        None => {
            if reminders.len() > 0 {
                Some(0)
            } else {
                None
            }
        },
    }
}

/// The reminder to show as the next one: see `next_reminder_position`.
pub fn get_next_reminder<'a>(reminders: &'a Vec<Reminder>, current_time: &str) -> (r: Option<
    &'a Reminder,
>)
    ensures
        reminders@.len() == 0 <==> r is None,
        r matches Some(reminder) ==> exists|i: int|
            0 <= i < reminders@.len() && *reminder == #[trigger] reminders@[i] && {
                ||| is_next_upcoming(reminders@, current_time@, i)
                ||| (none_upcoming(reminders@, current_time@) && i == 0)
            },
{
    match next_reminder_position(reminders, current_time) {
        Some(i) => Some(&reminders[i]),
        None => None,
    }
}

} // verus!
