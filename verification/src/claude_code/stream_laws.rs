//! What holds of a native stream from its first byte to its end.
use crate::chat_completions::laws::bytes_of;
use crate::claude_code::stream::{
    after_breaks, decoded_stream, double_break_from, events_from, events_step, feed_step, frame_boundary,
    frame_event, frame_lines_from, frame_step, framed_event, frames_step, fresh_session, line_added,
    long_break_from, session_closed, session_end, sse_events, stream_step, DecodeErrorModel, ResponseStateModel,
    SessionModel, SessionStep, SseEventModel,
};
use crate::claude_code::types::{DecodedStreamModel, PresentationDeltaModel};
use crate::text::{
    all_lines, all_white, is_white, joined, letter_from, lines_from, split_first, utf8_chars, with_line_feeds,
};
use vstd::prelude::*;
use vstd::utf8::{encode_scalar, encode_utf8, encode_utf8_decode_utf8, encode_utf8_valid_utf8};

verus! {

// ---- cuts ----

/// A session after the fragments from `at` on, up to the first that fails.
pub open spec fn run(session: SessionModel, fragments: Seq<Seq<u8>>, at: int) -> SessionStep
    decreases fragments.len() - at,
{
    if at < 0 || at >= fragments.len() {
        (session, Ok(()))
    } else {
        let (next, fed) = feed_step(session, fragments[at]);
        match fed {
            Err(error) => (next, Err(error)),
            Ok(_) => run(next, fragments, at + 1),
        }
    }
}

/// How the lines of a stream end.
#[derive(Debug, Clone, Copy, PartialEq, Eq, Structural)]
pub enum LineEnd {
    /// With a line feed.
    Feed,
    /// With a carriage return.
    Return,
    /// With both.
    Both,
}

/// Whether the bytes at a place are as they are in a stream whose lines all end
/// alike, that starts with no empty line, and has no two empty lines after one
/// another.
pub open spec fn tidy_at(bytes: Seq<u8>, i: int, end: LineEnd) -> bool {
    match end {
        LineEnd::Feed => {
            &&& bytes[i] != 13
            &&& i == 0 ==> bytes[i] != 10
            &&& !(i + 2 < bytes.len() && bytes[i] == 10 && bytes[i + 1] == 10 && bytes[i + 2] == 10)
        },
        LineEnd::Return => {
            &&& bytes[i] != 10
            &&& i == 0 ==> bytes[i] != 13
            &&& !(i + 2 < bytes.len() && bytes[i] == 13 && bytes[i + 1] == 13 && bytes[i + 2] == 13)
        },
        LineEnd::Both => {
            &&& bytes[i] == 10 ==> i > 0 && bytes[i - 1] == 13
            &&& bytes[i] == 13 && i + 1 < bytes.len() ==> bytes[i + 1] == 10
            &&& i == 0 ==> bytes[i] != 13
            &&& !(i + 4 < bytes.len() && bytes[i] == 13 && bytes[i + 2] == 13 && bytes[i + 4] == 13)
        },
    }
}

/// Whether the lines of bytes all end alike, the first is not empty, and no two
/// empty lines follow one another.
pub open spec fn tidy(bytes: Seq<u8>, end: LineEnd) -> bool {
    forall|i: int| 0 <= i < bytes.len() ==> #[trigger] tidy_at(bytes, i, end)
}

/// Whether a place is behind an empty line.
pub open spec fn behind_empty_line(bytes: Seq<u8>, place: int, end: LineEnd) -> bool {
    match end {
        LineEnd::Feed => 2 <= place <= bytes.len() && bytes[place - 2] == 10 && bytes[place - 1] == 10,
        LineEnd::Return => 2 <= place <= bytes.len() && bytes[place - 2] == 13 && bytes[place - 1] == 13,
        LineEnd::Both => 4 <= place <= bytes.len() && bytes[place - 4] == 13 && bytes[place - 3] == 10 && bytes[place
            - 2] == 13 && bytes[place - 1] == 10,
    }
}

/// What a session has of a response.
pub open spec fn heard(session: SessionModel) -> (ResponseStateModel, bool) {
    (session.state, session.saw_event)
}

proof fn lemma_long_break(bytes: Seq<u8>, at: int, end: LineEnd)
    requires
        tidy(bytes, end),
        0 <= at,
    ensures
        long_break_from(bytes, at) matches Some(place) ==> at <= place && end == LineEnd::Both && behind_empty_line(
            bytes,
            place + 4,
            end,
        ),
    decreases bytes.len() - at,
{
    if at + 3 < bytes.len() {
        assert(tidy_at(bytes, at, end) && tidy_at(bytes, at + 1, end));
        lemma_long_break(bytes, at + 1, end);
    }
}

proof fn lemma_double_break(bytes: Seq<u8>, at: int, end: LineEnd)
    requires
        tidy(bytes, end),
        0 <= at,
    ensures
        double_break_from(bytes, at) matches Some(place) ==> at <= place && end != LineEnd::Both && behind_empty_line(
            bytes,
            place + 2,
            end,
        ),
    decreases bytes.len() - at,
{
    if at + 1 < bytes.len() {
        assert(tidy_at(bytes, at, end) && tidy_at(bytes, at + 1, end));
        lemma_double_break(bytes, at + 1, end);
    }
}

proof fn lemma_double_break_stays(bytes: Seq<u8>, more: Seq<u8>, at: int)
    requires
        0 <= at,
        double_break_from(bytes, at) is Some,
    ensures
        double_break_from(bytes + more, at) == double_break_from(bytes, at),
    decreases bytes.len() - at,
{
    let all = bytes + more;
    assert(all[at] == bytes[at] && all[at + 1] == bytes[at + 1]);
    if !((bytes[at] == 10 && bytes[at + 1] == 10) || (bytes[at] == 13 && bytes[at + 1] == 13)) {
        lemma_double_break_stays(bytes, more, at + 1);
    }
}

proof fn lemma_long_break_stays(bytes: Seq<u8>, more: Seq<u8>, at: int)
    requires
        0 <= at,
        long_break_from(bytes, at) is Some,
    ensures
        long_break_from(bytes + more, at) == long_break_from(bytes, at),
    decreases bytes.len() - at,
{
    let all = bytes + more;
    assert(all[at] == bytes[at] && all[at + 1] == bytes[at + 1] && all[at + 2] == bytes[at + 2] && all[at + 3]
        == bytes[at + 3]);
    if !(bytes[at] == 13 && bytes[at + 1] == 10 && bytes[at + 2] == 13 && bytes[at + 3] == 10) {
        lemma_long_break_stays(bytes, more, at + 1);
    }
}

proof fn lemma_tidy_parts(bytes: Seq<u8>, more: Seq<u8>, end: LineEnd)
    requires
        tidy(bytes + more, end),
    ensures
        tidy(bytes, end),
{
    let all = bytes + more;
    assert forall|i: int| 0 <= i < bytes.len() implies #[trigger] tidy_at(bytes, i, end) by {
        assert(tidy_at(all, i, end));
        assert(forall|k: int| 0 <= k < bytes.len() ==> all[k] == bytes[k]);
    }
}

proof fn lemma_tidy_rest(bytes: Seq<u8>, place: int, end: LineEnd)
    requires
        tidy(bytes, end),
        behind_empty_line(bytes, place, end),
    ensures
        tidy(bytes.skip(place), end),
        after_breaks(bytes.skip(place)) == bytes.skip(place),
{
    let rest = bytes.skip(place);
    assert(forall|k: int| 0 <= k < rest.len() ==> rest[k] == bytes[place + k]);
    if rest.len() > 0 {
        assert(rest[0] == bytes[place]);
        assert(tidy_at(bytes, place, end) && tidy_at(bytes, place - 2, end));
        if end == LineEnd::Both {
            assert(tidy_at(bytes, place - 4, end));
        }
    }
    assert forall|i: int| 0 <= i < rest.len() implies #[trigger] tidy_at(rest, i, end) by {
        assert(tidy_at(bytes, place + i, end));
        if i > 0 {
            assert(rest[i - 1] == bytes[place + i - 1]);
        }
    }
}

proof fn lemma_tidy_boundary(bytes: Seq<u8>, end: LineEnd)
    requires
        tidy(bytes, end),
    ensures
        frame_boundary(bytes) matches Some(place) ==> behind_empty_line(bytes, place, end),
{
    lemma_double_break(bytes, 0, end);
    lemma_long_break(bytes, 0, end);
}

proof fn lemma_boundary_stays(bytes: Seq<u8>, more: Seq<u8>, end: LineEnd)
    requires
        tidy(bytes + more, end),
        tidy(bytes, end),
        frame_boundary(bytes) is Some,
    ensures
        frame_boundary(bytes + more) == frame_boundary(bytes),
{
    lemma_double_break(bytes, 0, end);
    lemma_long_break(bytes, 0, end);
    lemma_double_break(bytes + more, 0, end);
    if double_break_from(bytes, 0) is Some {
        lemma_double_break_stays(bytes, more, 0);
    } else {
        lemma_long_break_stays(bytes, more, 0);
    }
}

/// Bytes that stay behind do not matter to the frames before them.
proof fn lemma_frames_cut(session: SessionModel, more: Seq<u8>, end: LineEnd)
    requires
        tidy(session.frame + more, end),
    ensures
        ({
            let (between, first) = frames_step(session);
            let (whole, applied) = frames_step(SessionModel { frame: session.frame + more, ..session });
            match first {
                Err(error) => heard(whole) == heard(between) && applied == Err::<(), _>(error),
                Ok(_) => tidy(between.frame + more, end) && (whole, applied) == frames_step(
                    SessionModel { frame: between.frame + more, ..between },
                ),
            }
        }),
    decreases session.frame.len(),
{
    let bytes = session.frame;
    let all = bytes + more;
    lemma_tidy_parts(bytes, more, end);
    lemma_tidy_boundary(bytes, end);
    lemma_tidy_boundary(all, end);
    if let Some(place) = frame_boundary(bytes) {
        lemma_boundary_stays(bytes, more, end);
        lemma_tidy_rest(bytes, place, end);
        lemma_tidy_rest(all, place, end);
        assert(all.take(place) =~= bytes.take(place));
        assert(all.skip(place) =~= bytes.skip(place) + more);
        let (next, applied) = frame_step(SessionModel { frame: bytes.skip(place), ..session }, bytes.take(place));
        if applied is Ok {
            lemma_frames_cut(SessionModel { frame: bytes.skip(place), ..next }, more, end);
        }
    }
}

proof fn lemma_settled(session: SessionModel, end: LineEnd)
    requires
        tidy(session.frame, end),
    ensures
        frames_step(session).1 is Ok ==> frame_boundary(frames_step(session).0.frame) is None,
    decreases session.frame.len(),
{
    lemma_tidy_boundary(session.frame, end);
    if let Some(place) = frame_boundary(session.frame) {
        lemma_tidy_rest(session.frame, place, end);
        let rest = session.frame.skip(place);
        let (next, applied) = frame_step(SessionModel { frame: rest, ..session }, session.frame.take(place));
        if applied is Ok {
            lemma_settled(SessionModel { frame: rest, ..next }, end);
        }
    }
}

proof fn lemma_run_as_one(session: SessionModel, fragments: Seq<Seq<u8>>, at: int, end: LineEnd)
    requires
        tidy(session.frame + bytes_of(fragments, at), end),
        frame_boundary(session.frame) is None,
        0 <= at <= fragments.len(),
    ensures
        ({
            let (last, fed) = run(session, fragments, at);
            let (whole, applied) = feed_step(session, bytes_of(fragments, at));
            fed == applied && heard(last) == heard(whole) && (fed is Ok ==> last == whole)
        }),
    decreases fragments.len() - at,
{
    let all = bytes_of(fragments, at);
    if at < fragments.len() {
        let rest = bytes_of(fragments, at + 1);
        let begun = SessionModel { frame: session.frame + fragments[at], ..session };
        assert(session.frame + all =~= begun.frame + rest);
        lemma_frames_cut(begun, rest, end);
        lemma_tidy_parts(begun.frame, rest, end);
        lemma_settled(begun, end);
        let (next, fed) = feed_step(session, fragments[at]);
        if fed is Ok {
            lemma_run_as_one(next, fragments, at + 1, end);
        }
    } else {
        assert(session.frame + all =~= session.frame);
    }
}

/// Where a stream is cut does not matter, where its lines all end alike, with a
/// line feed, a carriage return or both, and it has no empty line but one behind
/// each frame: two ways to cut it fail alike, with the same response so far, or
/// leave the same session.
pub proof fn law_cuts_do_not_matter(fragments: Seq<Seq<u8>>, others: Seq<Seq<u8>>, end: LineEnd)
    requires
        bytes_of(fragments, 0) == bytes_of(others, 0),
        tidy(bytes_of(fragments, 0), end),
    ensures
        run(fresh_session(), fragments, 0).1 == run(fresh_session(), others, 0).1,
        run(fresh_session(), fragments, 0).0.state == run(fresh_session(), others, 0).0.state,
        run(fresh_session(), fragments, 0).1 is Ok ==> run(fresh_session(), fragments, 0).0 == run(
            fresh_session(),
            others,
            0,
        ).0,
{
    let session = fresh_session();
    let bytes = bytes_of(fragments, 0);
    assert(session.frame + bytes =~= bytes);
    lemma_run_as_one(session, fragments, 0, end);
    lemma_run_as_one(session, others, 0, end);
}

// ---- frames ----

/// Whether a text has no line break.
pub open spec fn unbroken(line: Seq<char>) -> bool {
    forall|i: int| 0 <= i < line.len() ==> #[trigger] line[i] != '\n' && line[i] != '\r'
}

/// Whether a text can be a line: it is not empty and holds no line break.
pub open spec fn is_line(line: Seq<char>) -> bool {
    line.len() > 0 && unbroken(line)
}

/// The event that the lines of a frame hold.
pub open spec fn event_in(lines: Seq<Seq<char>>) -> Result<SseEventModel, DecodeErrorModel> {
    match frame_lines_from(lines, 0, None, Seq::empty()) {
        Err(error) => Err(error),
        Ok((event, data)) => frame_event(event, data),
    }
}

/// Whether lines are a frame with an event.
pub open spec fn is_frame(lines: Seq<Seq<char>>) -> bool {
    (forall|i: int| 0 <= i < lines.len() ==> is_line(#[trigger] lines[i])) && event_in(lines) is Ok
}

/// The characters that end a line.
pub open spec fn end_text(end: LineEnd) -> Seq<char> {
    match end {
        LineEnd::Feed => seq!['\n'],
        LineEnd::Return => seq!['\r'],
        LineEnd::Both => seq!['\r', '\n'],
    }
}

/// The bytes that end a line.
pub open spec fn end_bytes(end: LineEnd) -> Seq<u8> {
    match end {
        LineEnd::Feed => seq![10u8],
        LineEnd::Return => seq![13u8],
        LineEnd::Both => seq![13u8, 10u8],
    }
}

/// The text of lines from `at` on, each ended in the same way.
pub open spec fn text_of(lines: Seq<Seq<char>>, end: LineEnd, at: int) -> Seq<char>
    decreases lines.len() - at,
{
    if at < 0 || at >= lines.len() {
        Seq::empty()
    } else {
        lines[at] + end_text(end) + text_of(lines, end, at + 1)
    }
}

/// The lines of frames from `at` on, with an empty line behind each frame.
pub open spec fn frames_lines(frames: Seq<Seq<Seq<char>>>, at: int) -> Seq<Seq<char>>
    decreases frames.len() - at,
{
    if at < 0 || at >= frames.len() {
        Seq::empty()
    } else {
        frames[at].push(Seq::empty()) + frames_lines(frames, at + 1)
    }
}

/// The bytes of a stream of frames.
pub open spec fn stream_bytes(frames: Seq<Seq<Seq<char>>>, end: LineEnd) -> Seq<u8> {
    encode_utf8(text_of(frames_lines(frames, 0), end, 0))
}

/// The events of frames.
pub open spec fn frames_events(frames: Seq<Seq<Seq<char>>>) -> Seq<SseEventModel> {
    Seq::new(frames.len(), |k: int| event_in(frames[k])->Ok_0)
}

proof fn lemma_text_sum(lines: Seq<Seq<char>>, more: Seq<Seq<char>>, end: LineEnd, at: int)
    requires
        0 <= at <= lines.len(),
    ensures
        text_of(lines + more, end, at) == text_of(lines, end, at) + text_of(more, end, 0),
    decreases lines.len() - at,
{
    let all = lines + more;
    if at < lines.len() {
        lemma_text_sum(lines, more, end, at + 1);
        assert(all[at] == lines[at]);
        assert(text_of(all, end, at) =~= text_of(lines, end, at) + text_of(more, end, 0));
    } else {
        lemma_text_shift(lines, more, end, 0);
        assert(text_of(lines, end, at) + text_of(more, end, 0) =~= text_of(more, end, 0));
    }
}

proof fn lemma_text_shift(lines: Seq<Seq<char>>, more: Seq<Seq<char>>, end: LineEnd, at: int)
    requires
        0 <= at <= more.len(),
    ensures
        text_of(lines + more, end, lines.len() + at) == text_of(more, end, at),
    decreases more.len() - at,
{
    if at < more.len() {
        assert((lines + more)[lines.len() + at] == more[at]);
        lemma_text_shift(lines, more, end, at + 1);
    }
}

// Line breaks within a text of lines.

proof fn lemma_part(text: Seq<char>, at: int, part: Seq<char>, rest: Seq<char>)
    requires
        0 <= at <= text.len(),
        text.skip(at) == part + rest,
    ensures
        at + part.len() <= text.len(),
        text.subrange(at, at + part.len()) == part,
        text.skip(at + part.len()) == rest,
{
    let tail = text.skip(at);
    assert(tail.len() == text.len() - at);
    assert(tail.len() == part.len() + rest.len());
    assert(text.subrange(at, at + part.len()) =~= part) by {
        assert forall|i: int| 0 <= i < part.len() implies text.subrange(at, at + part.len())[i] == part[i] by {
            assert(tail[i] == text[at + i]);
        }
    }
    assert(text.skip(at + part.len()) =~= rest) by {
        assert forall|i: int| 0 <= i < rest.len() implies text.skip(at + part.len())[i] == rest[i] by {
            assert(tail[part.len() + i] == text[at + part.len() + i]);
        }
    }
}

proof fn lemma_line_kept(text: Seq<char>, at: int, left: Seq<char>, done: Seq<char>)
    requires
        0 <= at,
        at + left.len() <= text.len(),
        unbroken(left),
        text.subrange(at, at + left.len()) == left,
    ensures
        with_line_feeds(text, at, done) == with_line_feeds(text, at + left.len(), done + left),
    decreases left.len(),
{
    if left.len() == 0 {
        assert(done + left =~= done);
    } else {
        let rest = left.drop_first();
        assert(text[at] == text.subrange(at, at + left.len())[0]);
        assert(left[0] != '\r');
        assert(text.subrange(at + 1, at + 1 + rest.len()) =~= rest) by {
            assert forall|i: int| 0 <= i < rest.len() implies text.subrange(at + 1, at + 1 + rest.len())[i] == rest[i] by {
                assert(text.subrange(at, at + left.len())[i + 1] == left[i + 1]);
            }
        }
        assert(unbroken(rest)) by {
            assert forall|i: int| 0 <= i < rest.len() implies #[trigger] rest[i] != '\n' && rest[i] != '\r' by {
                assert(rest[i] == left[i + 1]);
            }
        }
        lemma_line_kept(text, at + 1, rest, done.push(left[0]));
        assert(done.push(left[0]) + rest =~= done + left);
    }
}

proof fn lemma_feeds(lines: Seq<Seq<char>>, end: LineEnd, k: int, text: Seq<char>, at: int, done: Seq<char>)
    requires
        0 <= k <= lines.len(),
        0 <= at <= text.len(),
        text.skip(at) == text_of(lines, end, k),
        forall|i: int| 0 <= i < lines.len() ==> unbroken(#[trigger] lines[i]),
    ensures
        with_line_feeds(text, at, done) == done + text_of(lines, LineEnd::Feed, k),
    decreases lines.len() - k,
{
    if k < lines.len() {
        let line = lines[k];
        let ending = end_text(end);
        let rest = text_of(lines, end, k + 1);
        assert(unbroken(line));
        assert(text.skip(at) =~= line + (ending + rest));
        lemma_part(text, at, line, ending + rest);
        lemma_line_kept(text, at, line, done);
        let place = at + line.len();
        lemma_part(text, place, ending, rest);
        let next = place + ending.len();
        assert(text[place] == text.subrange(place, next)[0]);
        if end == LineEnd::Both {
            assert(text[place + 1] == text.subrange(place, next)[1]);
        }
        if end == LineEnd::Return && next < text.len() {
            assert(text[next] == text.skip(next)[0]);
            assert(unbroken(lines[k + 1]));
            if lines[k + 1].len() > 0 {
                assert(rest[0] == lines[k + 1][0]);
            } else {
                assert(rest[0] == '\r');
            }
        }
        let fed = (done + line).push('\n');
        assert(with_line_feeds(text, place, done + line) == with_line_feeds(text, next, fed));
        lemma_feeds(lines, end, k + 1, text, next, fed);
        assert(fed + text_of(lines, LineEnd::Feed, k + 1) =~= done + text_of(lines, LineEnd::Feed, k));
    } else {
        assert(text.skip(at).len() == 0);
        assert(done + text_of(lines, LineEnd::Feed, k) =~= done);
    }
}

proof fn lemma_line_taken(text: Seq<char>, at: int, line: Seq<char>, left: Seq<char>, done: Seq<Seq<char>>)
    requires
        0 <= at,
        at + left.len() < text.len(),
        unbroken(left),
        text.subrange(at, at + left.len()) == left,
        text[at + left.len()] == '\n',
    ensures
        lines_from(text, at, line, done) == lines_from(text, at + left.len() + 1, Seq::empty(), done.push(line + left)),
    decreases left.len(),
{
    if left.len() == 0 {
        assert(line + left =~= line);
    } else {
        assert(text[at] == text.subrange(at, at + left.len())[0]);
        assert(left[0] != '\n');
        let rest = left.drop_first();
        assert(text.subrange(at + 1, at + 1 + rest.len()) =~= rest) by {
            assert forall|i: int| 0 <= i < rest.len() implies text.subrange(at + 1, at + 1 + rest.len())[i] == rest[i] by {
                assert(text.subrange(at, at + left.len())[i + 1] == left[i + 1]);
            }
        }
        assert(unbroken(rest)) by {
            assert forall|i: int| 0 <= i < rest.len() implies #[trigger] rest[i] != '\n' && rest[i] != '\r' by {
                assert(rest[i] == left[i + 1]);
            }
        }
        lemma_line_taken(text, at + 1, line.push(left[0]), rest, done);
        assert(line.push(left[0]) + rest =~= line + left);
    }
}

proof fn lemma_lines_back(lines: Seq<Seq<char>>, k: int, text: Seq<char>, at: int, done: Seq<Seq<char>>)
    requires
        0 <= k <= lines.len(),
        0 <= at <= text.len(),
        text.skip(at) == text_of(lines, LineEnd::Feed, k),
        forall|i: int| 0 <= i < lines.len() ==> unbroken(#[trigger] lines[i]),
    ensures
        lines_from(text, at, Seq::empty(), done) == (done + lines.skip(k)).push(Seq::empty()),
    decreases lines.len() - k,
{
    if k < lines.len() {
        let line = lines[k];
        let feed = end_text(LineEnd::Feed);
        let rest = text_of(lines, LineEnd::Feed, k + 1);
        assert(unbroken(line));
        assert(text.skip(at) =~= line + (feed + rest));
        lemma_part(text, at, line, feed + rest);
        lemma_part(text, at + line.len(), feed, rest);
        assert(text[at + line.len()] == text.subrange(at + line.len(), at + line.len() + feed.len())[0]);
        lemma_line_taken(text, at, Seq::empty(), line, done);
        assert(Seq::<char>::empty() + line =~= line);
        lemma_lines_back(lines, k + 1, text, at + line.len() + 1, done.push(line));
        assert(done.push(line) + lines.skip(k + 1) =~= done + lines.skip(k));
    } else {
        assert(text.skip(at).len() == 0);
        assert(done + lines.skip(k) =~= done);
    }
}

/// The lines of a text of lines are these lines and, behind the last line end,
/// an empty one.
proof fn lemma_all_lines(lines: Seq<Seq<char>>, end: LineEnd)
    requires
        forall|i: int| 0 <= i < lines.len() ==> unbroken(#[trigger] lines[i]),
    ensures
        all_lines(text_of(lines, end, 0)) == lines.push(Seq::empty()),
{
    let text = text_of(lines, end, 0);
    let fed = text_of(lines, LineEnd::Feed, 0);
    assert(text.skip(0) =~= text);
    lemma_feeds(lines, end, 0, text, 0, Seq::empty());
    assert(Seq::<char>::empty() + fed =~= fed);
    assert(fed.skip(0) =~= fed);
    lemma_lines_back(lines, 0, fed, 0, Seq::empty());
    assert(Seq::<Seq<char>>::empty() + lines.skip(0) =~= lines);
}

// The events in the lines of frames.

proof fn lemma_frame_taken(
    lines: Seq<Seq<char>>,
    at: int,
    frame: Seq<Seq<char>>,
    j: int,
    event: Option<Seq<char>>,
    data: Seq<Seq<char>>,
    done: Seq<SseEventModel>,
)
    requires
        0 <= at,
        0 <= j <= frame.len(),
        at + frame.len() < lines.len(),
        forall|i: int| 0 <= i < frame.len() ==> lines[at + i] == #[trigger] frame[i],
        forall|i: int| 0 <= i < frame.len() ==> is_line(#[trigger] frame[i]),
        lines[at + frame.len()].len() == 0,
        frame_lines_from(frame, j, event, data) is Ok,
        ({
            let (event, data) = frame_lines_from(frame, j, event, data)->Ok_0;
            frame_event(event, data) is Ok
        }),
    ensures
        ({
            let (name, values) = frame_lines_from(frame, j, event, data)->Ok_0;
            events_from(lines, at + j, event, data, done) == events_from(
                lines,
                at + frame.len() + 1,
                None,
                Seq::empty(),
                done.push(frame_event(name, values)->Ok_0),
            )
        }),
    decreases frame.len() - j,
{
    if j < frame.len() {
        assert(lines[at + j] == frame[j]);
        assert(is_line(frame[j]));
        let (next_event, next_data) = line_added(event, data, frame[j])->Ok_0;
        lemma_frame_taken(lines, at, frame, j + 1, next_event, next_data, done);
    }
}

proof fn lemma_frames_taken(
    lines: Seq<Seq<char>>,
    at: int,
    frames: Seq<Seq<Seq<char>>>,
    k: int,
    done: Seq<SseEventModel>,
)
    requires
        0 <= at <= lines.len(),
        0 <= k <= frames.len(),
        forall|i: int| 0 <= i < frames.len() ==> is_frame(#[trigger] frames[i]),
        lines.skip(at) == frames_lines(frames, k) + seq![Seq::<char>::empty(), Seq::<char>::empty()],
    ensures
        events_from(lines, at, None, Seq::empty(), done) == Ok::<_, DecodeErrorModel>(
            done + frames_events(frames).skip(k),
        ),
    decreases frames.len() - k,
{
    let blank = seq![Seq::<char>::empty(), Seq::<char>::empty()];
    let rest = lines.skip(at);
    let events = frames_events(frames);
    if k < frames.len() {
        let frame = frames[k];
        assert(is_frame(frame));
        let later = frames_lines(frames, k + 1) + blank;
        assert(rest =~= frame.push(Seq::empty()) + later);
        assert forall|i: int| 0 <= i < frame.len() implies lines[at + i] == #[trigger] frame[i] by {
            assert(rest[i] == lines[at + i]);
        }
        assert(rest[frame.len() as int] == lines[at + frame.len()]);
        assert(rest[frame.len() as int].len() == 0);
        lemma_frame_taken(lines, at, frame, 0, None, Seq::empty(), done);
        assert(lines.skip(at + frame.len() + 1) =~= later) by {
            assert forall|i: int| 0 <= i < later.len() implies lines.skip(at + frame.len() + 1)[i] == later[i] by {
                assert(rest[frame.len() + 1 + i] == later[i]);
            }
        }
        lemma_frames_taken(lines, at + frame.len() + 1, frames, k + 1, done.push(event_in(frame)->Ok_0));
        assert(done.push(events[k]) + events.skip(k + 1) =~= done + events.skip(k));
    } else {
        assert(rest =~= blank);
        assert(lines[at] == rest[0] && lines[at + 1] == rest[1]);
        assert(lines.len() == at + 2);
        reveal_with_fuel(events_from, 3);
        assert(done + events.skip(k) =~= done);
    }
}

proof fn lemma_frames_unbroken(frames: Seq<Seq<Seq<char>>>, k: int)
    requires
        0 <= k <= frames.len(),
        forall|i: int| 0 <= i < frames.len() ==> is_frame(#[trigger] frames[i]),
    ensures
        forall|i: int| 0 <= i < frames_lines(frames, k).len() ==> unbroken(#[trigger] frames_lines(frames, k)[i]),
    decreases frames.len() - k,
{
    if k < frames.len() {
        lemma_frames_unbroken(frames, k + 1);
        let head = frames[k].push(Seq::empty());
        let rest = frames_lines(frames, k + 1);
        assert(is_frame(frames[k]));
        assert forall|i: int| 0 <= i < (head + rest).len() implies unbroken(#[trigger] (head + rest)[i]) by {
            if i < frames[k].len() {
                assert((head + rest)[i] == frames[k][i]);
                assert(is_line(frames[k][i]));
            } else if i >= head.len() {
                assert((head + rest)[i] == rest[i - head.len()]);
            }
        }
    }
}

/// The events of a stream of frames are those of its frames.
proof fn lemma_stream_events(frames: Seq<Seq<Seq<char>>>, end: LineEnd)
    requires
        forall|i: int| 0 <= i < frames.len() ==> is_frame(#[trigger] frames[i]),
    ensures
        sse_events(text_of(frames_lines(frames, 0), end, 0)) == Ok::<_, DecodeErrorModel>(frames_events(frames)),
{
    let lines = frames_lines(frames, 0);
    lemma_frames_unbroken(frames, 0);
    lemma_all_lines(lines, end);
    let all = lines.push(Seq::empty()).push(Seq::empty());
    assert(all.skip(0) =~= lines + seq![Seq::<char>::empty(), Seq::<char>::empty()]);
    lemma_frames_taken(all, 0, frames, 0, Seq::empty());
    assert(Seq::<SseEventModel>::empty() + frames_events(frames).skip(0) =~= frames_events(frames));
}

proof fn lemma_blank_lines_dropped(
    frame: Seq<Seq<char>>,
    j: int,
    event: Option<Seq<char>>,
    data: Seq<Seq<char>>,
)
    requires
        0 <= j <= frame.len(),
    ensures
        frame_lines_from(frame.push(Seq::empty()).push(Seq::empty()), j, event, data) == frame_lines_from(
            frame,
            j,
            event,
            data,
        ),
    decreases frame.len() - j,
{
    let all = frame.push(Seq::empty()).push(Seq::empty());
    if j < frame.len() {
        assert(all[j] == frame[j]);
        if frame[j].len() == 0 {
            lemma_blank_lines_dropped(frame, j + 1, event, data);
        } else if let Ok((next_event, next_data)) = line_added(event, data, frame[j]) {
            lemma_blank_lines_dropped(frame, j + 1, next_event, next_data);
        }
    } else {
        reveal_with_fuel(frame_lines_from, 3);
    }
}

// The bytes of frames.

proof fn lemma_encode_sum(first: Seq<char>, second: Seq<char>)
    ensures
        encode_utf8(first + second) == encode_utf8(first) + encode_utf8(second),
    decreases first.len(),
{
    if first.len() == 0 {
        assert(first + second =~= second);
        assert(encode_utf8(first) + encode_utf8(second) =~= encode_utf8(second));
    } else {
        assert((first + second).drop_first() =~= first.drop_first() + second);
        lemma_encode_sum(first.drop_first(), second);
        assert(encode_utf8(first + second) =~= encode_utf8(first) + encode_utf8(second));
    }
}

/// Of the bytes of a character only the only one of an ASCII character is ASCII.
pub proof fn lemma_scalar_bytes(scalar: u32)
    ensures
        scalar < 0x80 ==> (scalar & 0x7F) as u8 == scalar,
        0xC0u8 | ((scalar >> 6) & 0x1F) as u8 >= 0x80,
        0xE0u8 | ((scalar >> 12) & 0x0F) as u8 >= 0x80,
        0xF0u8 | ((scalar >> 18) & 0x7) as u8 >= 0x80,
        0x80u8 | (scalar & 0x3F) as u8 >= 0x80,
        0x80u8 | ((scalar >> 6) & 0x3F) as u8 >= 0x80,
        0x80u8 | ((scalar >> 12) & 0x3F) as u8 >= 0x80,
{
    assert(scalar < 0x80 ==> (scalar & 0x7F) as u8 == scalar) by (bit_vector);
    assert(0xC0u8 | ((scalar >> 6) & 0x1F) as u8 >= 0x80) by (bit_vector);
    assert(0xE0u8 | ((scalar >> 12) & 0x0F) as u8 >= 0x80) by (bit_vector);
    assert(0xF0u8 | ((scalar >> 18) & 0x7) as u8 >= 0x80) by (bit_vector);
    assert(0x80u8 | (scalar & 0x3F) as u8 >= 0x80) by (bit_vector);
    assert(0x80u8 | ((scalar >> 6) & 0x3F) as u8 >= 0x80) by (bit_vector);
    assert(0x80u8 | ((scalar >> 12) & 0x3F) as u8 >= 0x80) by (bit_vector);
}

proof fn lemma_scalar_unbroken(letter: char)
    requires
        letter != '\n',
        letter != '\r',
    ensures
        encode_scalar(letter as u32).len() > 0,
        forall|i: int|
            0 <= i < encode_scalar(letter as u32).len() ==> #[trigger] encode_scalar(letter as u32)[i] != 10
                && encode_scalar(letter as u32)[i] != 13,
{
    lemma_scalar_bytes(letter as u32);
    assert(letter as u32 != 10 && letter as u32 != 13);
}

/// The bytes of a text without line breaks hold none.
pub proof fn lemma_line_bytes(line: Seq<char>)
    requires
        unbroken(line),
    ensures
        line.len() > 0 ==> encode_utf8(line).len() > 0,
        forall|i: int|
            0 <= i < encode_utf8(line).len() ==> #[trigger] encode_utf8(line)[i] != 10 && encode_utf8(line)[i] != 13,
    decreases line.len(),
{
    if line.len() > 0 {
        let rest = line.drop_first();
        assert(line[0] != '\n' && line[0] != '\r');
        assert(unbroken(rest)) by {
            assert forall|i: int| 0 <= i < rest.len() implies #[trigger] rest[i] != '\n' && rest[i] != '\r' by {
                assert(rest[i] == line[i + 1]);
            }
        }
        lemma_scalar_unbroken(line[0]);
        lemma_line_bytes(rest);
        let head = encode_scalar(line[0] as u32);
        let tail = encode_utf8(rest);
        assert forall|i: int| 0 <= i < (head + tail).len() implies #[trigger] (head + tail)[i] != 10 && (head + tail)[i]
            != 13 by {
            if i < head.len() {
                assert((head + tail)[i] == head[i]);
            } else {
                assert((head + tail)[i] == tail[i - head.len()]);
            }
        }
    }
}

proof fn lemma_end_bytes(end: LineEnd)
    ensures
        encode_utf8(end_text(end)) == end_bytes(end),
{
    lemma_scalar_bytes('\n' as u32);
    lemma_scalar_bytes('\r' as u32);
    let feed = seq!['\n'];
    let back = seq!['\r'];
    assert(feed.drop_first() =~= Seq::<char>::empty());
    assert(back.drop_first() =~= Seq::<char>::empty());
    assert(encode_utf8(feed) =~= seq![10u8]) by {
        reveal_with_fuel(encode_utf8, 2);
    }
    assert(encode_utf8(back) =~= seq![13u8]) by {
        reveal_with_fuel(encode_utf8, 2);
    }
    lemma_encode_sum(back, feed);
    assert(back + feed =~= seq!['\r', '\n']);
    assert(seq![13u8] + seq![10u8] =~= seq![13u8, 10u8]);
}

/// Whether the bytes at a place are as they are among lines that are not empty
/// and all end alike.
pub open spec fn lined_at(bytes: Seq<u8>, i: int, end: LineEnd) -> bool {
    match end {
        LineEnd::Feed => {
            &&& bytes[i] != 13
            &&& i == 0 ==> bytes[i] != 10
            &&& !(i + 1 < bytes.len() && bytes[i] == 10 && bytes[i + 1] == 10)
        },
        LineEnd::Return => {
            &&& bytes[i] != 10
            &&& i == 0 ==> bytes[i] != 13
            &&& !(i + 1 < bytes.len() && bytes[i] == 13 && bytes[i + 1] == 13)
        },
        LineEnd::Both => {
            &&& bytes[i] == 10 ==> i > 0 && bytes[i - 1] == 13
            &&& bytes[i] == 13 ==> i + 1 < bytes.len() && bytes[i + 1] == 10
            &&& i == 0 ==> bytes[i] != 13
            &&& !(i + 2 < bytes.len() && bytes[i] == 13 && bytes[i + 2] == 13)
        },
    }
}

/// Whether bytes are lines that are not empty and all end alike.
pub open spec fn lined(bytes: Seq<u8>, end: LineEnd) -> bool {
    &&& forall|i: int| 0 <= i < bytes.len() ==> #[trigger] lined_at(bytes, i, end)
    &&& bytes.len() > 0 ==> match end {
        LineEnd::Feed => bytes.len() > 1 && bytes.last() == 10,
        LineEnd::Return => bytes.len() > 1 && bytes.last() == 13,
        LineEnd::Both => bytes.len() > 2 && bytes[bytes.len() - 2] == 13 && bytes.last() == 10,
    }
}

proof fn lemma_lines_bytes(lines: Seq<Seq<char>>, end: LineEnd, at: int)
    requires
        0 <= at <= lines.len(),
        forall|i: int| 0 <= i < lines.len() ==> is_line(#[trigger] lines[i]),
    ensures
        lined(encode_utf8(text_of(lines, end, at)), end),
        at < lines.len() ==> encode_utf8(text_of(lines, end, at)).len() > 0,
    decreases lines.len() - at,
{
    let all = encode_utf8(text_of(lines, end, at));
    if at < lines.len() {
        lemma_lines_bytes(lines, end, at + 1);
        let line = lines[at];
        assert(is_line(line));
        lemma_line_bytes(line);
        lemma_end_bytes(end);
        lemma_encode_sum(line, end_text(end));
        lemma_encode_sum(line + end_text(end), text_of(lines, end, at + 1));
        let text = encode_utf8(line);
        let ending = end_bytes(end);
        let rest = encode_utf8(text_of(lines, end, at + 1));
        assert(all == text + ending + rest);
        let count = text.len() as int;
        let width = ending.len() as int;
        assert(forall|k: int| 0 <= k < count ==> all[k] == text[k]);
        assert(forall|k: int| 0 <= k < width ==> all[count + k] == ending[k]);
        assert(forall|k: int| 0 <= k < rest.len() ==> all[count + width + k] == rest[k]);
        assert(all[0] == text[0]);
        if rest.len() > 0 {
            assert(lined_at(rest, 0, end));
            assert(all[count + width] == rest[0]);
            assert(all.last() == rest.last());
            assert(rest.len() > 1 ==> all[all.len() - 2] == rest[rest.len() - 2]);
        } else {
            assert(all.len() == count + width);
            assert(all[count] == ending[0]);
            assert(all[count + width - 1] == ending[width - 1]);
        }
        assert forall|i: int| 0 <= i < all.len() implies #[trigger] lined_at(all, i, end) by {
            if i < count {
                assert(all[i] == text[i]);
                assert(text[i] != 10 && text[i] != 13);
            } else if i < count + width {
                assert(all[i] == ending[i - count]);
                assert(all[count] == ending[0]);
                if end == LineEnd::Both {
                    assert(all[count + 1] == ending[1]);
                }
            } else {
                let j = i - count - width;
                assert(all[i] == rest[j]);
                assert(lined_at(rest, j, end));
                if j > 0 {
                    assert(all[i - 1] == rest[j - 1]);
                }
                if j + 1 < rest.len() {
                    assert(all[i + 1] == rest[j + 1]);
                }
                if j + 2 < rest.len() {
                    assert(all[i + 2] == rest[j + 2]);
                }
            }
        }
    } else {
        assert(all =~= Seq::empty());
    }
}

/// The bytes of a frame.
pub open spec fn frame_bytes(frame: Seq<Seq<char>>, end: LineEnd) -> Seq<u8> {
    encode_utf8(text_of(frame.push(Seq::empty()), end, 0))
}

proof fn lemma_frame_bytes(frame: Seq<Seq<char>>, end: LineEnd)
    requires
        is_frame(frame),
    ensures
        frame_bytes(frame, end) == encode_utf8(text_of(frame, end, 0)) + end_bytes(end),
        lined(encode_utf8(text_of(frame, end, 0)), end),
        encode_utf8(text_of(frame, end, 0)).len() > 0,
        framed_event(frame_bytes(frame, end)) == event_in(frame),
{
    let blank = seq![Seq::<char>::empty()];
    assert(frame.push(Seq::empty()) =~= frame + blank);
    lemma_text_sum(frame, blank, end, 0);
    reveal_with_fuel(text_of, 2);
    assert(text_of(blank, end, 0) =~= end_text(end));
    lemma_encode_sum(text_of(frame, end, 0), end_text(end));
    lemma_end_bytes(end);
    lemma_lines_bytes(frame, end, 0);
    assert(frame.len() > 0);
    let lines = frame.push(Seq::empty());
    assert forall|i: int| 0 <= i < lines.len() implies unbroken(#[trigger] lines[i]) by {
        if i < frame.len() {
            assert(lines[i] == frame[i]);
            assert(is_line(frame[i]));
        }
    }
    let text = text_of(lines, end, 0);
    encode_utf8_valid_utf8(text);
    encode_utf8_decode_utf8(text);
    lemma_all_lines(lines, end);
    lemma_blank_lines_dropped(frame, 0, None, Seq::empty());
}

/// The bytes of the frames from `k` on.
pub open spec fn bytes_from(frames: Seq<Seq<Seq<char>>>, end: LineEnd, k: int) -> Seq<u8> {
    encode_utf8(text_of(frames_lines(frames, k), end, 0))
}

proof fn lemma_bytes_from(frames: Seq<Seq<Seq<char>>>, end: LineEnd, k: int)
    requires
        0 <= k <= frames.len(),
    ensures
        k < frames.len() ==> bytes_from(frames, end, k) == frame_bytes(frames[k], end) + bytes_from(frames, end, k + 1),
        k == frames.len() ==> bytes_from(frames, end, k) == Seq::<u8>::empty(),
{
    if k < frames.len() {
        let head = frames[k].push(Seq::empty());
        let rest = frames_lines(frames, k + 1);
        lemma_text_sum(head, rest, end, 0);
        lemma_encode_sum(text_of(head, end, 0), text_of(rest, end, 0));
    } else {
        assert(bytes_from(frames, end, k) =~= Seq::empty());
    }
}

proof fn lemma_frame_tidy(lines: Seq<u8>, rest: Seq<u8>, end: LineEnd)
    requires
        lined(lines, end),
        lines.len() > 0,
        tidy(rest, end),
    ensures
        tidy(lines + end_bytes(end) + rest, end),
{
    let ending = end_bytes(end);
    let all = lines + ending + rest;
    let count = lines.len() as int;
    let width = ending.len() as int;
    assert(forall|k: int| 0 <= k < count ==> all[k] == lines[k]);
    assert(forall|k: int| 0 <= k < width ==> all[count + k] == ending[k]);
    assert(forall|k: int| 0 <= k < rest.len() ==> all[count + width + k] == rest[k]);
    assert(all[count] == ending[0]);
    if end == LineEnd::Both {
        assert(all[count + 1] == ending[1]);
    }
    if rest.len() > 0 {
        assert(tidy_at(rest, 0, end));
        assert(all[count + width] == rest[0]);
    }
    assert forall|i: int| 0 <= i < all.len() implies #[trigger] tidy_at(all, i, end) by {
        if i < count {
            assert(lined_at(lines, i, end));
            if i + 1 < count {
                assert(lined_at(lines, i + 1, end));
            }
            if i + 2 < count {
                assert(lined_at(lines, i + 2, end));
            }
        } else if i >= count + width {
            let j = i - count - width;
            assert(tidy_at(rest, j, end));
            if j > 0 {
                assert(all[i - 1] == rest[j - 1]);
            }
            if j + 1 < rest.len() {
                assert(all[i + 1] == rest[j + 1]);
            }
            if j + 2 < rest.len() {
                assert(all[i + 2] == rest[j + 2]);
            }
            if j + 4 < rest.len() {
                assert(all[i + 4] == rest[j + 4]);
            }
        } else {
            assert(all[i] == ending[i - count]);
        }
    }
}

proof fn lemma_frames_tidy(frames: Seq<Seq<Seq<char>>>, end: LineEnd, k: int)
    requires
        0 <= k <= frames.len(),
        forall|i: int| 0 <= i < frames.len() ==> is_frame(#[trigger] frames[i]),
    ensures
        tidy(bytes_from(frames, end, k), end),
    decreases frames.len() - k,
{
    lemma_bytes_from(frames, end, k);
    if k < frames.len() {
        lemma_frames_tidy(frames, end, k + 1);
        lemma_frame_bytes(frames[k], end);
        lemma_frame_tidy(encode_utf8(text_of(frames[k], end, 0)), bytes_from(frames, end, k + 1), end);
    }
}

proof fn lemma_first_double_break(lines: Seq<u8>, rest: Seq<u8>, end: LineEnd, at: int)
    requires
        end != LineEnd::Both,
        lined(lines, end),
        lines.len() > 0,
        0 <= at < lines.len(),
    ensures
        double_break_from(lines + end_bytes(end) + rest, at) == Some(lines.len() - 1),
    decreases lines.len() - at,
{
    let all = lines + end_bytes(end) + rest;
    assert(all[at] == lines[at]);
    assert(lined_at(lines, at, end));
    if at + 1 < lines.len() {
        assert(all[at + 1] == lines[at + 1]);
        lemma_first_double_break(lines, rest, end, at + 1);
    } else {
        assert(all[at + 1] == end_bytes(end)[0]);
    }
}

proof fn lemma_first_long_break(lines: Seq<u8>, rest: Seq<u8>, at: int)
    requires
        lined(lines, LineEnd::Both),
        lines.len() > 0,
        0 <= at <= lines.len() - 2,
    ensures
        long_break_from(lines + end_bytes(LineEnd::Both) + rest, at) == Some(lines.len() - 2),
    decreases lines.len() - at,
{
    let end = LineEnd::Both;
    let all = lines + end_bytes(end) + rest;
    let count = lines.len() as int;
    assert(forall|k: int| 0 <= k < count ==> all[k] == lines[k]);
    assert(all[count] == end_bytes(end)[0] && all[count + 1] == end_bytes(end)[1]);
    assert(lined_at(lines, at, end));
    if at < count - 2 {
        assert(lined_at(lines, at + 1, end));
        assert(lined_at(lines, count - 1, end));
        lemma_first_long_break(lines, rest, at + 1);
    }
}

proof fn lemma_frame_found(lines: Seq<u8>, rest: Seq<u8>, end: LineEnd)
    requires
        lined(lines, end),
        lines.len() > 0,
        tidy(rest, end),
    ensures
        frame_boundary(lines + end_bytes(end) + rest) == Some((lines.len() + end_bytes(end).len()) as int),
{
    let all = lines + end_bytes(end) + rest;
    lemma_frame_tidy(lines, rest, end);
    lemma_double_break(all, 0, end);
    if end == LineEnd::Both {
        lemma_first_long_break(lines, rest, 0);
    } else {
        lemma_first_double_break(lines, rest, end, 0);
    }
}

proof fn lemma_frames_heard(session: SessionModel, frames: Seq<Seq<Seq<char>>>, end: LineEnd, k: int)
    requires
        0 <= k <= frames.len(),
        forall|i: int| 0 <= i < frames.len() ==> is_frame(#[trigger] frames[i]),
        session.frame == bytes_from(frames, end, k),
    ensures
        ({
            let (last, applied) = frames_step(session);
            &&& (last.state, applied) == events_step(session.state, frames_events(frames), k)
            &&& applied is Ok ==> last.frame.len() == 0 && last.saw_event == (session.saw_event || k < frames.len())
        }),
    decreases frames.len() - k,
{
    lemma_bytes_from(frames, end, k);
    if k < frames.len() {
        lemma_frame_bytes(frames[k], end);
        lemma_frames_tidy(frames, end, k);
        lemma_frames_tidy(frames, end, k + 1);
        let lines = encode_utf8(text_of(frames[k], end, 0));
        let frame = frame_bytes(frames[k], end);
        let rest = bytes_from(frames, end, k + 1);
        lemma_frame_found(lines, rest, end);
        let place = frame.len() as int;
        assert(frame_boundary(session.frame) == Some(place));
        assert(session.frame.take(place) =~= frame);
        assert(session.frame.skip(place) =~= rest);
        lemma_tidy_boundary(session.frame, end);
        lemma_tidy_rest(session.frame, place, end);
        let (next, applied) = frame_step(SessionModel { frame: rest, ..session }, frame);
        assert(frames_events(frames)[k] == event_in(frames[k])->Ok_0);
        if applied is Ok {
            lemma_frames_heard(SessionModel { frame: rest, ..next }, frames, end, k + 1);
        }
    } else {
        assert(frame_boundary(session.frame) is None);
    }
}

proof fn lemma_letter_place(text: Seq<char>, letter: char, at: int)
    requires
        0 <= at,
    ensures
        letter_from(text, letter, at) matches Some(place) ==> at <= place < text.len(),
    decreases text.len() - at,
{
    if at < text.len() {
        lemma_letter_place(text, letter, at + 1);
    }
}

proof fn lemma_starts_black(frames: Seq<Seq<Seq<char>>>, end: LineEnd)
    requires
        frames.len() > 0,
        is_frame(frames[0]),
    ensures
        !all_white(text_of(frames_lines(frames, 0), end, 0)),
{
    let frame = frames[0];
    assert(frame.len() > 0);
    let line = frame[0];
    assert(is_line(line));
    let lines = frames_lines(frames, 0);
    assert(lines[0] == frame.push(Seq::empty())[0]);
    let text = text_of(lines, end, 0);
    assert(text[0] == line[0]);
    assert(line_added(None, Seq::empty(), line) is Ok);
    let (field, rest) = split_first(line, ':')->0;
    reveal_strlit("event");
    reveal_strlit("data");
    assert(field[0] == 'e' || field[0] == 'd');
    lemma_letter_place(line, ':', 0);
    let place = letter_from(line, ':', 0)->0;
    assert(field == line.take(place));
    assert(field == "event"@ || field == "data"@);
    assert(field.len() == place);
    assert(line.take(place)[0] == line[0]);
    assert(!is_white(text[0]));
}

/// What a session gives at its end, or the error of the fragment that failed.
pub open spec fn run_result(fragments: Seq<Seq<u8>>) -> Result<
    DecodedStreamModel,
    DecodeErrorModel,
> {
    let (session, fed) = run(fresh_session(), fragments, 0);
    match fed {
        Err(error) => Err(error),
        Ok(_) => session_end(session),
    }
}

/// What a session has shown at its end, or when a fragment failed.
pub open spec fn run_presented(fragments: Seq<Seq<u8>>) -> Seq<PresentationDeltaModel> {
    let (session, fed) = run(fresh_session(), fragments, 0);
    match fed {
        Err(_) => session.state.presented,
        Ok(_) => session_closed(session).0.state.presented,
    }
}

/// A stream of frames that each hold an event decodes in fragments, wherever it
/// is cut, to what it decodes to as a whole, and shows the same on the way. Its
/// lines may end with a line feed, a carriage return or both.
pub proof fn law_fragments_decode_as_the_whole(
    frames: Seq<Seq<Seq<char>>>,
    end: LineEnd,
    fragments: Seq<Seq<u8>>,
)
    requires
        forall|i: int| 0 <= i < frames.len() ==> is_frame(#[trigger] frames[i]),
        bytes_of(fragments, 0) == stream_bytes(frames, end),
    ensures
        run_result(fragments) == decoded_stream(stream_bytes(frames, end)),
        run_presented(fragments) == stream_step(stream_bytes(frames, end)).0.presented,
{
    let session = fresh_session();
    let body = stream_bytes(frames, end);
    let text = text_of(frames_lines(frames, 0), end, 0);
    lemma_frames_tidy(frames, end, 0);
    assert(session.frame + body =~= body);
    lemma_run_as_one(session, fragments, 0, end);
    lemma_frames_heard(SessionModel { frame: body, ..session }, frames, end, 0);
    encode_utf8_valid_utf8(text);
    encode_utf8_decode_utf8(text);
    lemma_stream_events(frames, end);
    if frames.len() > 0 {
        lemma_starts_black(frames, end);
    } else {
        assert(text =~= Seq::empty());
    }
}

/// A line with the name of an event and one with its data are a frame that holds
/// this event.
pub proof fn law_plain_frames_hold_their_event(event: Seq<char>, data: Seq<char>)
    requires
        unbroken(event),
        unbroken(data),
    ensures
        is_frame(seq!["event: "@ + event, "data: "@ + data]),
        event_in(seq!["event: "@ + event, "data: "@ + data]) == Ok::<_, DecodeErrorModel>(
            SseEventModel { event, data },
        ),
{
    reveal_strlit("event: ");
    reveal_strlit("data: ");
    reveal_strlit("event");
    reveal_strlit("data");
    reveal_strlit(" ");
    let first = "event: "@ + event;
    let second = "data: "@ + data;
    let lines = seq![first, second];
    reveal_with_fuel(letter_from, 7);
    assert(letter_from(first, ':', 0) == Some(5int));
    assert(first.take(5) =~= "event"@);
    assert(first.skip(6).take(1) =~= " "@);
    assert(first.skip(6).skip(1) =~= event);
    assert(letter_from(second, ':', 0) == Some(4int));
    assert(second.take(4) =~= "data"@);
    assert(second.skip(5).take(1) =~= " "@);
    assert(second.skip(5).skip(1) =~= data);
    assert("event"@ != "data"@) by {
        assert("event"@.len() != "data"@.len());
    }
    assert forall|i: int| 0 <= i < first.len() implies #[trigger] first[i] != '\n' && first[i] != '\r' by {
        if i >= 7 {
            assert(first[i] == event[i - 7]);
        }
    }
    assert forall|i: int| 0 <= i < second.len() implies #[trigger] second[i] != '\n' && second[i] != '\r' by {
        if i >= 6 {
            assert(second[i] == data[i - 6]);
        }
    }
    assert(forall|i: int| 0 <= i < lines.len() ==> is_line(#[trigger] lines[i]));
    let values = Seq::<Seq<char>>::empty().push(data);
    assert(line_added(None, Seq::empty(), first) == Ok::<(Option<Seq<char>>, Seq<Seq<char>>), DecodeErrorModel>(
        (Some(event), Seq::empty()),
    ));
    assert(line_added(Some(event), Seq::empty(), second) == Ok::<(Option<Seq<char>>, Seq<Seq<char>>), DecodeErrorModel>(
        (Some(event), values),
    ));
    reveal_with_fuel(frame_lines_from, 3);
    assert(frame_lines_from(lines, 0, None, Seq::empty()) == Ok::<
        (Option<Seq<char>>, Seq<Seq<char>>),
        DecodeErrorModel,
    >((Some(event), values)));
    assert(joined(values) == data);
}

/// A stream of plain frames holds exactly their events, in order, whichever way its
/// lines end.
pub proof fn law_a_stream_holds_the_events_of_its_frames(events: Seq<SseEventModel>, end: LineEnd)
    requires
        forall|i: int|
            0 <= i < events.len() ==> unbroken((#[trigger] events[i]).event) && unbroken(events[i].data),
    ensures
        ({
            let frames = Seq::new(
                events.len(),
                |i: int| seq!["event: "@ + events[i].event, "data: "@ + events[i].data],
            );
            &&& utf8_chars(stream_bytes(frames, end)) is Some
            &&& sse_events(utf8_chars(stream_bytes(frames, end))->0) == Ok::<_, DecodeErrorModel>(events)
        }),
{
    let frames = Seq::new(events.len(), |i: int| seq!["event: "@ + events[i].event, "data: "@ + events[i].data]);
    assert forall|i: int| 0 <= i < frames.len() implies is_frame(#[trigger] frames[i]) && event_in(frames[i])
        == Ok::<_, DecodeErrorModel>(events[i]) by {
        assert(unbroken(events[i].event) && unbroken(events[i].data));
        law_plain_frames_hold_their_event(events[i].event, events[i].data);
    }
    let text = text_of(frames_lines(frames, 0), end, 0);
    encode_utf8_valid_utf8(text);
    encode_utf8_decode_utf8(text);
    lemma_stream_events(frames, end);
    assert(frames_events(frames) =~= events);
}

} // verus!
