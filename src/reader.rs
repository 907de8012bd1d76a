//! The response reader: what becomes of each line that the worker writes.
//!
//! A line that parses as JSON with a string member `id` is emitted as a
//! notification under a label made from that identifier, carrying the line
//! itself. Any other line is dropped, and the reader goes on. The reader
//! stops when the worker's output ends or can no longer be read.

use vstd::prelude::*;
use crate::json::{json_string_member, string_member};
use crate::protocol::{frame_of, label_of, no_line_break, read_lines, response_label};

verus! {

/// Name of the member of a response that holds its correlation identifier.
pub const ID_FIELD: &'static str = "id";

/// A notification for the front-end: a label and the raw response line.
pub struct Notification {
    pub label: String,
    pub payload: String,
}

/// What reading the worker's output produced.
pub enum ReadEvent {
    /// One line, without its terminator.
    Line(String),
    /// The output reached its end: the worker exited.
    Closed,
    /// The output could not be read.
    Failed,
}

/// What the reader does next.
pub enum ReaderAction {
    /// Emit this notification, then read on.
    Emit(Notification),
    /// Drop the line, then read on.
    Skip,
    /// Stop reading.
    Stop,
}

/// The correlation identifier of a response line, if it has one.
pub open spec fn response_id(line: Seq<char>) -> Option<Seq<char>> {
    json_string_member(line, ID_FIELD@)
}

/// The notifications, as (label, payload) pairs, that the lines `lines`
/// give rise to, in order.
pub open spec fn notifications_of(lines: Seq<Seq<char>>) -> Seq<(Seq<char>, Seq<char>)>
    decreases lines.len(),
{
    if lines.len() == 0 {
        Seq::empty()
    } else {
        let earlier = notifications_of(lines.drop_last());
        match response_id(lines.last()) {
            Some(id) => earlier.push((label_of(id), lines.last())),
            None => earlier,
        }
    }
}

/// True when `n` is the notification for `line` with identifier `id`.
pub open spec fn is_notification_for(n: Notification, line: Seq<char>, id: Seq<char>) -> bool {
    n.label@ == label_of(id) && n.payload@ == line
}

/// Routes `line` given its identifier `id`, as found by parsing it: a
/// notification when there is one, nothing when there is none.
pub fn route_with_id(line: &str, id: Option<String>) -> (r: Option<Notification>)
    ensures
        id is None ==> r is None,
        id is Some ==> r is Some && is_notification_for(r->Some_0, line@, id->Some_0@),
{
    match id {
        Some(id) => Some(Notification { label: response_label(id.as_str()), payload: String::from_str(line) }),
        None => None,
    }
}

/// Routes one response line: a notification under the label for its `id`
/// member carrying the line, or nothing when the line has no such member.
pub fn route_line(line: &str) -> (r: Option<Notification>)
    ensures
        response_id(line@) is None ==> r is None,
        response_id(line@) is Some ==> r is Some && is_notification_for(
            r->Some_0,
            line@,
            response_id(line@)->Some_0,
        ),
{
    let id = string_member(line, ID_FIELD);
    route_with_id(line, id)
}

/// Decides what the reader does with one read outcome.
pub fn reader_step(event: ReadEvent) -> (r: ReaderAction)
    ensures
        event is Closed ==> r is Stop,
        event is Failed ==> r is Stop,
        event is Line ==> match r {
            ReaderAction::Emit(n) => response_id(event->Line_0@) matches Some(id)
                && is_notification_for(n, event->Line_0@, id),
            ReaderAction::Skip => response_id(event->Line_0@) is None,
            ReaderAction::Stop => false,
        },
{
    match event {
        ReadEvent::Line(line) => match route_line(line.as_str()) {
            Some(n) => ReaderAction::Emit(n),
            None => ReaderAction::Skip,
        },
        ReadEvent::Closed => ReaderAction::Stop,
        ReadEvent::Failed => ReaderAction::Stop,
    }
}

/// A response line that the worker writes with its terminator, and whose
/// `id` member is `id`, gives exactly one notification: under the label for
/// `id`, carrying that line.
pub proof fn lemma_response_notified_once(line: Seq<char>, id: Seq<char>)
    requires
        no_line_break(line),
        response_id(line) == Some(id),
    ensures
        notifications_of(read_lines(frame_of(line)).0) == seq![(label_of(id), line)],
{
    crate::protocol::lemma_frame_is_one_line(line);
    let lines = seq![line];
    assert(lines.drop_last() =~= Seq::<Seq<char>>::empty());
    assert(notifications_of(lines.drop_last()) == Seq::<(Seq<char>, Seq<char>)>::empty());
    assert(lines.last() == line);
    assert(Seq::<(Seq<char>, Seq<char>)>::empty().push((label_of(id), line)) =~= seq![
        (label_of(id), line),
    ]);
}

/// Lines without an identifier give no notification at all.
pub proof fn lemma_lines_without_id_silent(lines: Seq<Seq<char>>)
    requires
        forall|k: int| 0 <= k < lines.len() ==> (#[trigger] response_id(lines[k])) is None,
    ensures
        notifications_of(lines) == Seq::<(Seq<char>, Seq<char>)>::empty(),
    decreases lines.len(),
{
    if lines.len() > 0 {
        let init = lines.drop_last();
        assert forall|k: int| 0 <= k < init.len() implies (#[trigger] response_id(init[k])) is None by {
            assert(init[k] == lines[k]);
        }
        lemma_lines_without_id_silent(init);
        assert(response_id(lines[lines.len() - 1]) is None);
    }
}

} // verus!
