//! The line protocol: how a request is framed on the worker's input, how a
//! stream of characters falls apart into lines, and how the label of a
//! response notification is formed.

use vstd::prelude::*;

verus! {

/// Label prefix under which each response notification is emitted.
pub const RESPONSE_EVENT_PREFIX: &'static str = "py-response-";

/// File name of the worker executable on the Windows platform family.
pub const WORKER_BINARY_WINDOWS: &'static str = "populator.exe";

/// File name of the worker executable everywhere else.
pub const WORKER_BINARY: &'static str = "populator";

/// True when `s` holds no line terminator.
pub open spec fn no_line_break(s: Seq<char>) -> bool {
    forall|i: int| 0 <= i < s.len() ==> s[i] != '\n'
}

/// What is written to the worker for the request `payload`.
pub open spec fn frame_of(payload: Seq<char>) -> Seq<char> {
    payload.push('\n')
}

/// The characters written to the worker for the requests `payloads`, in order.
pub open spec fn frames_of(payloads: Seq<Seq<char>>) -> Seq<char>
    decreases payloads.len(),
{
    if payloads.len() == 0 {
        Seq::empty()
    } else {
        frames_of(payloads.drop_last()) + frame_of(payloads.last())
    }
}

/// How a reader of `s` sees it: the complete lines, terminators removed, and
/// the characters after the last terminator that do not yet form a line.
pub open spec fn read_lines(s: Seq<char>) -> (Seq<Seq<char>>, Seq<char>)
    decreases s.len(),
{
    if s.len() == 0 {
        (Seq::empty(), Seq::empty())
    } else {
        let (lines, pending) = read_lines(s.drop_last());
        if s.last() == '\n' {
            (lines.push(pending), Seq::empty())
        } else {
            (lines, pending.push(s.last()))
        }
    }
}

/// The notification label for responses that carry the identifier `id`.
pub open spec fn label_of(id: Seq<char>) -> Seq<char> {
    RESPONSE_EVENT_PREFIX@ + id
}

/// Frames one request: the payload followed by a single line terminator.
pub fn frame_request(payload: &str) -> (r: String)
    ensures
        r@ == frame_of(payload@),
{
    let mut line = String::from_str(payload);
    let terminator = "\n";
    proof {
        reveal_strlit("\n");
    }
    line.append(terminator);
    proof {
        assert(line@ =~= frame_of(payload@));
    }
    line
}

/// The label under which a response with identifier `id` is emitted.
pub fn response_label(id: &str) -> (r: String)
    ensures
        r@ == label_of(id@),
{
    let label = String::from_str(RESPONSE_EVENT_PREFIX);
    label.concat(id)
}

/// File name of the worker executable, which lies next to the application's
/// own executable.
pub fn worker_binary_name(windows: bool) -> (r: &'static str)
    ensures
        windows ==> r@ == WORKER_BINARY_WINDOWS@,
        !windows ==> r@ == WORKER_BINARY@,
{
    if windows {
        WORKER_BINARY_WINDOWS
    } else {
        WORKER_BINARY
    }
}

/// Reading a stream that ends on a line boundary, followed by the characters
/// `p` of a partial line, leaves those characters pending.
proof fn lemma_read_partial(a: Seq<char>, p: Seq<char>)
    requires
        no_line_break(p),
    ensures
        read_lines(a + p) == (read_lines(a).0, read_lines(a).1 + p),
    decreases p.len(),
{
    if p.len() == 0 {
        assert(a + p =~= a);
        assert(read_lines(a).1 + p =~= read_lines(a).1);
    } else {
        let q = p.drop_last();
        assert((a + p).drop_last() =~= a + q);
        assert((a + p).last() == p.last());
        lemma_read_partial(a, q);
        assert(read_lines(a).1 + q.push(p.last()) =~= read_lines(a).1 + p);
    }
}

/// A framed request is read back as exactly one line, equal to its payload,
/// with nothing left pending, provided the payload holds no line terminator.
pub proof fn lemma_frame_is_one_line(payload: Seq<char>)
    requires
        no_line_break(payload),
    ensures
        read_lines(frame_of(payload)) == (seq![payload], Seq::<char>::empty()),
{
    lemma_read_partial(Seq::empty(), payload);
    assert(Seq::<char>::empty() + payload =~= payload);
    assert(frame_of(payload).drop_last() =~= payload);
    assert(Seq::<Seq<char>>::empty().push(payload) =~= seq![payload]);
}

/// Requests written one after another are read by the worker as the same
/// lines, in the order in which they were written, with nothing pending.
pub proof fn lemma_frames_read_back_in_order(payloads: Seq<Seq<char>>)
    requires
        forall|k: int| 0 <= k < payloads.len() ==> no_line_break(#[trigger] payloads[k]),
    ensures
        read_lines(frames_of(payloads)) == (payloads, Seq::<char>::empty()),
    decreases payloads.len(),
{
    if payloads.len() == 0 {
        assert(read_lines(frames_of(payloads)).0 =~= payloads);
    } else {
        let init = payloads.drop_last();
        let last = payloads.last();
        assert forall|k: int| 0 <= k < init.len() implies no_line_break(#[trigger] init[k]) by {
            assert(init[k] == payloads[k]);
        }
        lemma_frames_read_back_in_order(init);
        assert(no_line_break(payloads[payloads.len() - 1]));
        let before = frames_of(init);
        let s = frames_of(payloads);
        assert(s == before + frame_of(last));
        assert(s.drop_last() =~= before + last);
        lemma_read_partial(before, last);
        assert(Seq::<char>::empty() + last =~= last);
        assert(init.push(last) =~= payloads);
    }
}

} // verus!
