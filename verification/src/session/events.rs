//! The log of a session's events, read page by page.

use vstd::prelude::*;
use vstd::string::*;

use crate::ids::Uuid;
use crate::session::{SessionStatus, StoredEvent, StoredView};
use crate::text::same_text;

verus! {

/// The events that a reader gets at once.
#[derive(Debug)]
pub struct EventPage {
    pub session_id: Uuid,
    pub status: String,
    pub events: Vec<StoredEvent>,
    pub next_cursor: u64,
}

/// What stored events say.
pub open spec fn stored_views(events: Seq<StoredEvent>) -> Seq<StoredView> {
    events.map_values(|event: StoredEvent| event@)
}

/// What the lines of a log say: an event each, or why a line cannot be read.
pub open spec fn line_views(lines: Seq<Result<StoredEvent, String>>) -> Seq<
    Result<StoredView, Seq<char>>,
> {
    lines.map_values(
        |line: Result<StoredEvent, String>|
            match line {
                Ok(event) => Ok(event@),
                Err(cause) => Err(cause@),
            },
    )
}

/// The events in a log, or what is wrong with the first line that cannot be read.
pub open spec fn logged(lines: Seq<Result<StoredView, Seq<char>>>) -> Result<
    Seq<StoredView>,
    Seq<char>,
>
    decreases lines.len(),
{
    if lines.len() == 0 {
        Ok(Seq::empty())
    } else {
        match (logged(lines.drop_last()), lines.last()) {
            (Err(cause), _) => Err(cause),
            (Ok(_), Err(cause)) => Err(cause),
            (Ok(events), Ok(event)) => Ok(events.push(event)),
        }
    }
}

/// The events after a place in the log.
pub open spec fn page_of(events: Seq<StoredView>, after: u64) -> Seq<StoredView> {
    events.filter(|event: StoredView| event.cursor > after)
}

/// Where the next page begins: after the last event of this one.
pub open spec fn cursor_after(page: Seq<StoredView>, after: u64) -> u64 {
    if page.len() > 0 {
        page.last().cursor
    } else {
        after
    }
}

/// Whether each event has a later place than those before it.
pub open spec fn is_increasing(events: Seq<StoredView>) -> bool {
    forall|i: int, j: int| 0 <= i < j < events.len() ==> events[i].cursor < events[j].cursor
}

proof fn lemma_log_fault_lasts(lines: Seq<Result<StoredView, Seq<char>>>, count: int)
    requires
        0 <= count <= lines.len(),
        logged(lines.take(count)) is Err,
    ensures
        logged(lines) == logged(lines.take(count)),
    decreases lines.len(),
{
    if count < lines.len() {
        assert(lines.drop_last().take(count) =~= lines.take(count));
        lemma_log_fault_lasts(lines.drop_last(), count);
    } else {
        assert(lines.take(count) =~= lines);
    }
}

/// The events of a log after a place in it. The first line that cannot be read spoils the whole.
pub fn select_events(lines: Vec<Result<StoredEvent, String>>, after: u64) -> (events: Result<
    Vec<StoredEvent>,
    String,
>)
    ensures
        match logged(line_views(lines@)) {
            Ok(log) => events is Ok && stored_views(events->Ok_0@) == page_of(log, after),
            Err(cause) => events is Err && events->Err_0@ == cause,
        },
{
    let ghost views = line_views(lines@);
    let mut selected: Vec<StoredEvent> = Vec::new();
    let ghost mut log: Seq<StoredView> = Seq::empty();
    let ghost late = |event: StoredView| event.cursor > after;
    proof {
        reveal(Seq::filter);
        assert(views.take(0) =~= Seq::empty());
        assert(stored_views(selected@) =~= log.filter(late));
    }
    for line in iter: lines
        invariant
            iter.seq() == lines@,
            views == line_views(lines@),
            late == (|event: StoredView| event.cursor > after),
            logged(views.take(iter.index())) == Ok::<_, Seq<char>>(log),
            stored_views(selected@) == log.filter(late),
    {
        let ghost index = iter.index();
        assert(views.take(index + 1).drop_last() =~= views.take(index));
        assert(views.take(index + 1).last() == views[index]);
        match line {
            Ok(event) => {
                let ghost before = selected@;
                let ghost view = event@;
                if event.cursor > after {
                    selected.push(event);
                    assert(stored_views(selected@) =~= stored_views(before).push(view));
                }
                proof {
                    reveal(Seq::filter);
                    assert(log.push(view).drop_last() =~= log);
                    log = log.push(view);
                }
            },
            Err(cause) => {
                proof {
                    lemma_log_fault_lasts(views, index + 1);
                }
                return Err(cause);
            },
        }
    }
    assert(views.take(views.len() as int) =~= views);
    Ok(selected)
}

impl EventPage {
    /// The page that holds `events`, which a reader asked for after the place `after`.
    pub fn new(session_id: Uuid, status: String, events: Vec<StoredEvent>, after: u64) -> (page:
        EventPage)
        ensures
            page.session_id@ == session_id@,
            page.status@ == status@,
            page.events@ == events@,
            page.next_cursor == cursor_after(stored_views(events@), after),
            events@.len() == 0 ==> page.next_cursor == after,
            events@.len() > 0 ==> page.next_cursor == events@.last().cursor,
    {
        let next_cursor: u64 = if events.len() > 0 {
            events[events.len() - 1].cursor
        } else {
            after
        };
        EventPage { session_id, status, events, next_cursor }
    }
}

/// How long a reader waits for events.
#[derive(Debug, Clone, Copy, PartialEq, Eq, Structural)]
pub enum Patience {
    /// Not at all.
    Absent,
    /// Until a time that is still to come.
    Left,
    /// Until a time that has come.
    Over,
}

/// Whether a reader gets a page now: there are events, or there will be none, or it waits no
/// longer.
pub open spec fn is_due(found: Seq<StoredEvent>, state: Seq<char>, patience: Patience) -> bool {
    found.len() > 0 || state == "closed"@ || patience != Patience::Left
}

/// The page for a reader who asked for the events after a place; `None` if it is to wait.
pub fn collect_events(
    status: &SessionStatus,
    found: Vec<StoredEvent>,
    after: u64,
    patience: Patience,
) -> (page: Option<EventPage>)
    ensures
        page is Some <==> is_due(found@, status.state@, patience),
        page is None <==> found@.len() == 0 && status.state@ != "closed"@ && patience
            == Patience::Left,
        page matches Some(p) ==> {
            &&& p.session_id@ == status.session_id@
            &&& p.status@ == status.state@
            &&& p.events@ == found@
            &&& p.next_cursor == cursor_after(stored_views(found@), after)
        },
{
    if found.len() > 0 || patience != Patience::Left || same_text(status.state.as_str(), "closed") {
        Some(EventPage::new(status.session_id, status.state.clone(), found, after))
    } else {
        None
    }
}

proof fn lemma_page_split(log: Seq<StoredView>, more: Seq<StoredView>, after: u64)
    ensures
        page_of(log + more, after) == page_of(log, after) + page_of(more, after),
    decreases more.len(),
{
    reveal(Seq::filter);
    let late = |event: StoredView| event.cursor > after;
    if more.len() == 0 {
        assert(log + more =~= log);
        assert(page_of(log, after) + page_of(more, after) =~= page_of(log, after));
    } else {
        let whole = log + more;
        assert(whole.drop_last() =~= log + more.drop_last());
        assert(whole.last() == more.last());
        lemma_page_split(log, more.drop_last(), after);
        if late(more.last()) {
            assert(page_of(whole, after) =~= page_of(log, after) + page_of(more, after));
        }
    }
}

proof fn lemma_page_bounds(log: Seq<StoredView>, after: u64)
    requires
        is_increasing(log),
    ensures
        after <= cursor_after(page_of(log, after), after),
        forall|i: int|
            0 <= i < log.len() ==> (#[trigger] log[i]).cursor <= cursor_after(
                page_of(log, after),
                after,
            ),
    decreases log.len(),
{
    reveal(Seq::filter);
    if log.len() > 0 {
        lemma_page_bounds(log.drop_last(), after);
        let next = cursor_after(page_of(log, after), after);
        assert forall|i: int| 0 <= i < log.len() implies (#[trigger] log[i]).cursor <= next by {
            if i < log.len() - 1 {
                assert(log.drop_last()[i].cursor == log[i].cursor);
                assert(log[i].cursor < log[log.len() - 1].cursor);
            }
        }
    }
}

proof fn lemma_page_all_or_none(events: Seq<StoredView>, after: u64)
    ensures
        (forall|i: int| 0 <= i < events.len() ==> (#[trigger] events[i]).cursor > after) ==> page_of(
            events,
            after,
        ) == events,
        (forall|i: int| 0 <= i < events.len() ==> (#[trigger] events[i]).cursor <= after)
            ==> page_of(events, after) == Seq::<StoredView>::empty(),
    decreases events.len(),
{
    reveal(Seq::filter);
    if events.len() == 0 {
        assert(events =~= Seq::empty());
    } else {
        let front = events.drop_last();
        lemma_page_all_or_none(front, after);
        assert(forall|i: int| 0 <= i < front.len() ==> front[i] == events[i]);
        assert(events.last() == events[events.len() - 1]);
        assert(front.push(events.last()) =~= events);
    }
}

proof fn lemma_increasing_parts(log: Seq<StoredView>, more: Seq<StoredView>)
    requires
        is_increasing(log + more),
    ensures
        is_increasing(log),
        forall|k: int, i: int|
            0 <= k < log.len() && 0 <= i < more.len() ==> (#[trigger] log[k]).cursor < (
            #[trigger] more[i]).cursor,
{
    let whole = log + more;
    assert forall|i: int, j: int| 0 <= i < j < log.len() implies log[i].cursor < log[j].cursor by {
        assert(whole[i].cursor < whole[j].cursor);
    }
    assert forall|k: int, i: int| 0 <= k < log.len() && 0 <= i < more.len() implies (
    #[trigger] log[k]).cursor < (#[trigger] more[i]).cursor by {
        assert(whole[k].cursor < whole[log.len() + i].cursor);
    }
}

/// Law: a reader who goes on where the last page ended gets every later event once. What a reader
/// sees of the grown log in one page is the same as two pages, one read before the log grew and
/// one after.
pub proof fn law_pages_lose_nothing(log: Seq<StoredView>, more: Seq<StoredView>, after: u64)
    requires
        is_increasing(log + more),
    ensures
        ({
            let first = page_of(log, after);
            let next = cursor_after(first, after);
            page_of(log + more, after) == first + page_of(log + more, next)
        }),
{
    let whole = log + more;
    let first = page_of(log, after);
    let next = cursor_after(first, after);
    if first.len() == 0 {
        assert(first + page_of(whole, after) =~= page_of(whole, after));
    } else {
        lemma_increasing_parts(log, more);
        lemma_page_split(log, more, after);
        lemma_page_split(log, more, next);
        lemma_page_bounds(log, after);
        lemma_page_all_or_none(log, next);
        lemma_page_members(log, after);
        let k = choose|k: int| 0 <= k < log.len() && log[k] == first[first.len() - 1];
        assert(next == log[k].cursor);
        lemma_page_all_or_none(more, next);
        lemma_page_all_or_none(more, after);
        assert(first + (Seq::<StoredView>::empty() + more) =~= first + more);
    }
}

proof fn lemma_page_members(log: Seq<StoredView>, after: u64)
    ensures
        forall|i: int|
            0 <= i < page_of(log, after).len() ==> exists|k: int|
                0 <= k < log.len() && log[k] == #[trigger] page_of(log, after)[i],
    decreases log.len(),
{
    reveal(Seq::filter);
    if log.len() > 0 {
        let front = log.drop_last();
        lemma_page_members(front, after);
        assert forall|i: int| 0 <= i < page_of(log, after).len() implies exists|k: int|
            0 <= k < log.len() && log[k] == #[trigger] page_of(log, after)[i] by {
            if i < page_of(front, after).len() {
                let k = choose|k: int|
                    0 <= k < front.len() && front[k] == #[trigger] page_of(front, after)[i];
                assert(log[k] == page_of(log, after)[i]);
            } else {
                assert(log[log.len() - 1] == page_of(log, after)[i]);
            }
        }
    }
}

/// Law: a page holds the events of the log whose place is after the one that was asked for, all of
/// them and in their order.
pub proof fn law_pages_hold_what_is_later(log: Seq<StoredView>, event: StoredView, after: u64)
    ensures
        page_of(Seq::empty(), after) == Seq::<StoredView>::empty(),
        event.cursor > after ==> page_of(log.push(event), after) == page_of(log, after).push(event),
        event.cursor <= after ==> page_of(log.push(event), after) == page_of(log, after),
{
    reveal(Seq::filter);
    assert(log.push(event).drop_last() =~= log);
    assert(page_of(Seq::empty(), after) =~= Seq::<StoredView>::empty());
}

/// Law: a log is the events of its lines in their order, and cannot be read from the first line on
/// that cannot, for the reason that this line gives.
pub proof fn law_logs_are_their_lines(
    lines: Seq<Result<StoredView, Seq<char>>>,
    event: StoredView,
    cause: Seq<char>,
)
    ensures
        logged(Seq::empty()) == Ok::<_, Seq<char>>(Seq::<StoredView>::empty()),
        logged(lines) matches Ok(events) ==> logged(lines.push(Ok(event))) == Ok::<_, Seq<char>>(
            events.push(event),
        ) && logged(lines.push(Err(cause))) == Err::<Seq<StoredView>, _>(cause),
        logged(lines) is Err ==> logged(lines.push(Ok(event))) == logged(lines) && logged(
            lines.push(Err(cause)),
        ) == logged(lines),
{
    assert(lines.push(Ok(event)).drop_last() =~= lines);
    assert(lines.push(Err(cause)).drop_last() =~= lines);
}

/// Law: the next page begins after the last event of this one, or where this one did if it is empty;
/// a page is due where it holds events, where none will come, or where its reader waits no longer.
pub proof fn law_pages_go_on(
    page: Seq<StoredView>,
    after: u64,
    found: Seq<StoredEvent>,
    state: Seq<char>,
    patience: Patience,
)
    ensures
        page.len() == 0 ==> cursor_after(page, after) == after,
        page.len() > 0 ==> cursor_after(page, after) == page[page.len() - 1].cursor,
        is_due(found, state, patience) <==> found.len() > 0 || state == "closed"@ || patience
            == Patience::Absent || patience == Patience::Over,
{
}

/// Law: stored events and the lines of a log are seen one by one.
pub proof fn law_events_are_seen_one_by_one(
    events: Seq<StoredEvent>,
    lines: Seq<Result<StoredEvent, String>>,
    i: int,
)
    ensures
        stored_views(events).len() == events.len(),
        line_views(lines).len() == lines.len(),
        0 <= i < events.len() ==> stored_views(events)[i].cursor == events[i].cursor
            && stored_views(events)[i].event == events[i].event@,
        0 <= i < lines.len() ==> match lines[i] {
            Ok(event) => line_views(lines)[i] == Ok::<StoredView, Seq<char>>(event@),
            Err(cause) => line_views(lines)[i] == Err::<StoredView, Seq<char>>(cause@),
        },
{
}

} // verus!
