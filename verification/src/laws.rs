//! What holds of every worker and every supervisor, proved from the step
//! functions that their contracts are stated in.

use vstd::prelude::*;

use crate::line::{
    bell,
    call_prompt,
    cleaned,
    ends_with_prompt,
    line_end,
    login_prompt,
    trim_bells,
    trim_whitespace,
    whitespace,
};
use crate::listener::{
    exit_result,
    exited_step,
    join_step,
    listen_step,
    stop_request_step,
    ListenError,
    ListenerView,
    RunState,
    WorkerExit,
};
use crate::recorder::{
    finished,
    recorder_join_step,
    recording,
    stop_requested_step,
    worker_exited_step,
    RecordError,
    RecorderView,
};
use crate::worker::{
    failed,
    forwarded,
    is_terminal,
    parsed,
    prompt_seen,
    read_step,
    result_of,
    step,
    stop_step,
    stopped,
    ActionView,
    ConnectOutcome,
    EventView,
    Phase,
    ReadOutcomeView,
    WorkerView,
    RETRY_BUDGET,
};

verus! {

/// The state of a worker after a run of events.
pub open spec fn run(s: WorkerView, events: Seq<EventView>) -> WorkerView
    decreases events.len(),
{
    if events.len() == 0 {
        s
    } else {
        step(run(s, events.drop_last()), events.last()).0
    }
}

/// The answers of a worker to a run of events, one for each event.
pub open spec fn replies(s: WorkerView, events: Seq<EventView>) -> Seq<ActionView>
    decreases events.len(),
{
    if events.len() == 0 {
        Seq::empty()
    } else {
        replies(s, events.drop_last()).push(step(run(s, events.drop_last()), events.last()).1)
    }
}

/// The reads that run out of time with the given texts, one after the other,
/// while no stop is requested.
pub open spec fn timeouts(texts: Seq<Seq<char>>) -> Seq<EventView> {
    Seq::new(
        texts.len(),
        |i: int| EventView::Read { stop: false, outcome: ReadOutcomeView::Timeout(texts[i]) },
    )
}

/// The reads that return the given lines, one after the other, while no stop
/// is requested.
pub open spec fn lines(texts: Seq<Seq<char>>) -> Seq<EventView> {
    Seq::new(
        texts.len(),
        |i: int| EventView::Read { stop: false, outcome: ReadOutcomeView::Line(texts[i]) },
    )
}

/// The texts put one behind the other.
pub open spec fn joined(texts: Seq<Seq<char>>) -> Seq<char>
    decreases texts.len(),
{
    if texts.len() == 0 {
        Seq::empty()
    } else {
        joined(texts.drop_last()) + texts.last()
    }
}

/// How far a phase is along the life of a connection.
pub open spec fn rank(phase: Phase) -> nat {
    match phase {
        Phase::Connecting => 0,
        Phase::Authenticating => 1,
        Phase::Streaming => 2,
        Phase::Stopped => 3,
        Phase::Failed(_) => 3,
    }
}

/// The number of answers that ask for a write.
pub open spec fn sends(answers: Seq<ActionView>) -> nat
    decreases answers.len(),
{
    if answers.len() == 0 {
        0
    } else if answers.last() is Send {
        sends(answers.drop_last()) + 1
    } else {
        sends(answers.drop_last())
    }
}

/// Trimming whitespace leaves a text that ends in none; what it removes is
/// whitespace throughout; and nothing else of the text is touched.
pub proof fn trim_whitespace_is_exact(s: Seq<char>)
    ensures
        trim_whitespace(s).is_prefix_of(s),
        trim_whitespace(s).len() > 0 ==> !whitespace(trim_whitespace(s).last()),
        forall|i: int| trim_whitespace(s).len() <= i < s.len() ==> whitespace(s[i]),
    decreases s.len(),
{
    if s.len() > 0 && whitespace(s.last()) {
        trim_whitespace_is_exact(s.drop_last());
        assert forall|i: int| trim_whitespace(s).len() <= i < s.len() implies whitespace(
            s[i],
        ) by {
            if i < s.len() - 1 {
                assert(s.drop_last()[i] == s[i]);
            }
        }
    }
}

/// Trimming bells leaves a text that ends in none; what it removes are bells
/// throughout; and nothing else of the text is touched.
pub proof fn trim_bells_is_exact(s: Seq<char>)
    ensures
        trim_bells(s).is_prefix_of(s),
        trim_bells(s).len() > 0 ==> trim_bells(s).last() != bell(),
        forall|i: int| trim_bells(s).len() <= i < s.len() ==> s[i] == bell(),
    decreases s.len(),
{
    if s.len() > 0 && s.last() == bell() {
        trim_bells_is_exact(s.drop_last());
        assert forall|i: int| trim_bells(s).len() <= i < s.len() implies s[i] == bell() by {
            if i < s.len() - 1 {
                assert(s.drop_last()[i] == s[i]);
            }
        }
    }
}

/// Whitespace behind a text is trimmed away with the whitespace that ends the
/// text itself.
pub proof fn trailing_whitespace_is_trimmed(text: Seq<char>, space: Seq<char>)
    requires
        forall|i: int| 0 <= i < space.len() ==> whitespace(space[i]),
    ensures
        trim_whitespace(text + space) == trim_whitespace(text),
    decreases space.len(),
{
    if space.len() == 0 {
        assert(text + space =~= text);
    } else {
        assert((text + space).drop_last() =~= text + space.drop_last());
        assert((text + space).last() == space[space.len() - 1]);
        trailing_whitespace_is_trimmed(text, space.drop_last());
    }
}

/// Bells behind a text are trimmed away with the bells that end the text
/// itself.
pub proof fn trailing_bells_are_trimmed(text: Seq<char>, bells: Seq<char>)
    requires
        forall|i: int| 0 <= i < bells.len() ==> bells[i] == bell(),
    ensures
        trim_bells(text + bells) == trim_bells(text),
    decreases bells.len(),
{
    if bells.len() == 0 {
        assert(text + bells =~= text);
    } else {
        assert((text + bells).drop_last() =~= text + bells.drop_last());
        assert((text + bells).last() == bells[bells.len() - 1]);
        trailing_bells_are_trimmed(text, bells.drop_last());
    }
}

/// A line is parsed without the noise at its end: of a text that ends in
/// neither whitespace nor a bell, followed by bells and then by whitespace
/// (a carriage return and a line feed, say), the text is what is left.
pub proof fn noise_is_stripped(text: Seq<char>, bells: Seq<char>, space: Seq<char>)
    requires
        text.len() > 0 ==> !whitespace(text.last()) && text.last() != bell(),
        forall|i: int| 0 <= i < bells.len() ==> bells[i] == bell(),
        forall|i: int| 0 <= i < space.len() ==> whitespace(space[i]),
    ensures
        cleaned(text + bells + space) == text,
{
    trailing_whitespace_is_trimmed(text + bells, space);
    assert(trim_whitespace(text + bells) == text + bells) by {
        if bells.len() > 0 {
            assert((text + bells).last() == bells[bells.len() - 1]);
        } else {
            assert(text + bells =~= text);
        }
    }
    trailing_bells_are_trimmed(text, bells);
}

/// A carriage return and a line feed at the end of a line are whitespace.
pub proof fn line_end_is_whitespace()
    ensures
        forall|i: int| 0 <= i < line_end().len() ==> whitespace(#[trigger] line_end()[i]),
{
}

/// A text that ends with a prompt is seen to do so, as a partial read and as
/// a complete line, and also where a line feed, or a carriage return and a
/// line feed, end the line behind the prompt.
#[verifier::rlimit(40)]
pub proof fn prompt_is_seen(before: Seq<char>, prompt: Seq<char>)
    requires
        prompt == login_prompt() || prompt == call_prompt(),
    ensures
        prompt_seen(before + prompt, false),
        prompt_seen(before + prompt, true),
        prompt_seen(before + prompt + seq!['\n'], true),
        prompt_seen(before + prompt + line_end(), true),
{
    reveal_strlit("login:");
    reveal_strlit("Please enter your call:");
    let all = before + prompt;
    assert(all.last() == ':');
    assert(prompt =~= all.subrange(all.len() - prompt.len(), all.len() as int));
    assert((all + seq!['\n']).drop_last() =~= all);
    assert((all + line_end()).drop_last().drop_last() =~= all);
    assert((all + line_end()).drop_last().last() == '\r');
}

/// The prompt, sent exactly, authenticates: whether the read returns with it
/// or runs out of time behind it, an authenticating worker on which no stop
/// is requested answers with the one write of the callsign and its line end,
/// and streams from then on.
pub proof fn prompt_authenticates(s: WorkerView, prompt: Seq<char>, complete: bool)
    requires
        s.phase is Authenticating,
        prompt == login_prompt() || prompt == call_prompt(),
    ensures
        read_step(
            s,
            false,
            if complete {
                ReadOutcomeView::Line(prompt)
            } else {
                ReadOutcomeView::Timeout(prompt)
            },
        ) == (
            WorkerView { phase: Phase::Streaming, buffer: Seq::empty(), ..s },
            ActionView::Send(s.callsign + line_end()),
        ),
{
    prompt_is_seen(s.buffer, prompt);
}

/// A prompt with a line end behind it is seen in a complete line, whatever
/// was read before it.
#[verifier::rlimit(40)]
pub proof fn prompt_line_is_seen(before: Seq<char>, prompt: Seq<char>, end: Seq<char>)
    requires
        prompt == login_prompt() || prompt == call_prompt(),
        end == seq!['\n'] || end == line_end(),
    ensures
        prompt_seen(before + (prompt + end), true),
{
    prompt_is_seen(before, prompt);
    regrouped(before, prompt, end);
}

/// Three texts, one behind the other, make the same text however they are
/// grouped.
pub proof fn regrouped(a: Seq<char>, b: Seq<char>, c: Seq<char>)
    ensures
        a + (b + c) == a + b + c,
{
    assert(a + (b + c) =~= a + b + c);
}

/// The prompt authenticates also where the server ends its line behind it,
/// with a line feed or with a carriage return and a line feed.
pub proof fn prompt_line_authenticates(s: WorkerView, prompt: Seq<char>, end: Seq<char>)
    requires
        s.phase is Authenticating,
        prompt == login_prompt() || prompt == call_prompt(),
        end == seq!['\n'] || end == line_end(),
    ensures
        read_step(s, false, ReadOutcomeView::Line(prompt + end)) == (
            WorkerView { phase: Phase::Streaming, buffer: Seq::empty(), ..s },
            ActionView::Send(s.callsign + line_end()),
        ),
{
    prompt_line_is_seen(s.buffer, prompt, end);
}

/// Text behind the prompt hides it from a read that ran out of time: where
/// what was read ends with neither prompt, as it does after a prompt that a
/// space follows, the worker writes nothing and spends a retry.
pub proof fn unmatched_timeout_sends_nothing(s: WorkerView, text: Seq<char>)
    requires
        s.phase is Authenticating,
        !ends_with_prompt(s.buffer + text),
    ensures
        !(read_step(s, false, ReadOutcomeView::Timeout(text)).1 is Send),
        s.retries > 1 ==> read_step(s, false, ReadOutcomeView::Timeout(text)) == (
            WorkerView { retries: (s.retries - 1) as nat, buffer: s.buffer + text, ..s },
            ActionView::Read,
        ),
        s.retries <= 1 ==> read_step(s, false, ReadOutcomeView::Timeout(text)).1
            == ActionView::Finish(Err(ListenError::AuthenticationError)),
{
}

/// A phase never goes back, and a worker that has ended stays as it is and
/// answers with its result whatever it is told.
pub proof fn phases_advance(s: WorkerView, event: EventView)
    ensures
        rank(s.phase) <= rank(step(s, event).0.phase),
        step(s, event).0.callsign == s.callsign,
        is_terminal(s.phase) ==> step(s, event) == (s, ActionView::Finish(result_of(s.phase)->0)),
{
}

/// A write is asked for only by an authenticating worker that turns to
/// streaming with it, and a delivery only by a streaming worker on a read
/// that returned a line while no stop was requested.
pub proof fn writes_and_deliveries_have_causes(s: WorkerView, event: EventView)
    ensures
        step(s, event).1 is Send ==> s.phase is Authenticating && step(s, event).0.phase
            is Streaming && step(s, event).1 == ActionView::Send(s.callsign + line_end()),
        step(s, event).1 is Deliver ==> s.phase is Streaming,
        step(s, event).1 is Deliver ==> (event matches EventView::Read {
            stop: false,
            outcome: ReadOutcomeView::Line(text),
        } && parsed(cleaned(s.buffer + text)) == Ok::<dxclparser::Spot, dxclparser::ParseError>(
            step(s, event).1->Deliver_0,
        )),
{
}

/// The phase after a run of events is no earlier than the phase before it.
pub proof fn runs_advance(s: WorkerView, events: Seq<EventView>)
    ensures
        rank(s.phase) <= rank(run(s, events).phase),
        replies(s, events).len() == events.len(),
    decreases events.len(),
{
    if events.len() > 0 {
        runs_advance(s, events.drop_last());
        phases_advance(run(s, events.drop_last()), events.last());
    }
}

/// In the whole life of a worker the callsign is written at most once, and
/// never by a worker that streams or has ended.
pub proof fn callsign_is_sent_at_most_once(s: WorkerView, events: Seq<EventView>)
    ensures
        sends(replies(s, events)) <= 1,
        rank(s.phase) >= 2 ==> sends(replies(s, events)) == 0,
        rank(run(s, events).phase) < 2 ==> sends(replies(s, events)) == 0,
    decreases events.len(),
{
    if events.len() > 0 {
        let before = run(s, events.drop_last());
        callsign_is_sent_at_most_once(s, events.drop_last());
        runs_advance(s, events.drop_last());
        phases_advance(before, events.last());
        writes_and_deliveries_have_causes(before, events.last());
        assert(replies(s, events).drop_last() =~= replies(s, events.drop_last()));
    }
}

/// The state of an authenticating worker part of the way through a run of
/// timeouts that bring no prompt: it still authenticates, has spent one
/// retry for each timeout, holds all the text that came, and has asked for
/// nothing but the next read.
pub proof fn timeouts_spend_retries(s: WorkerView, texts: Seq<Seq<char>>)
    requires
        s.phase is Authenticating,
        texts.len() < s.retries,
        forall|k: int| 0 < k <= texts.len() ==> !ends_with_prompt(
                s.buffer + joined(#[trigger] texts.take(k)),
            ),
    ensures
        run(s, timeouts(texts)) == (WorkerView {
            retries: (s.retries - texts.len()) as nat,
            buffer: s.buffer + joined(texts),
            ..s
        }),
        replies(s, timeouts(texts)).len() == texts.len(),
        forall|i: int| 0 <= i < texts.len() ==> replies(s, timeouts(texts))[i] == ActionView::Read,
    decreases texts.len(),
{
    if texts.len() == 0 {
        assert(s.buffer + joined(texts) =~= s.buffer);
    } else {
        let shorter = texts.drop_last();
        assert(timeouts(texts).drop_last() =~= timeouts(shorter));
        assert forall|k: int| 0 < k <= shorter.len() implies !ends_with_prompt(
            s.buffer + joined(#[trigger] shorter.take(k)),
    ) by {
            assert(shorter.take(k) =~= texts.take(k));
        }
        timeouts_spend_retries(s, shorter);
        assert(texts.take(texts.len() as int) =~= texts);
        assert((s.buffer + joined(shorter)) + texts.last() =~= s.buffer + joined(texts));
    }
}

/// Where nothing but timeouts comes and no prompt is ever seen, the worker
/// gives up exactly when the retry budget is spent: until then it goes on
/// reading, with the last timeout of the budget it fails with
/// `AuthenticationError`, and it has never asked for the callsign to be
/// written.
pub proof fn timeouts_exhaust_budget(s: WorkerView, texts: Seq<Seq<char>>)
    requires
        s.phase is Authenticating,
        s.retries == RETRY_BUDGET,
        texts.len() == RETRY_BUDGET,
        forall|k: int| 0 < k <= texts.len() ==> !ends_with_prompt(
                s.buffer + joined(#[trigger] texts.take(k)),
            ),
    ensures
        forall|k: int|
            0 <= k < RETRY_BUDGET ==> (#[trigger] run(s, timeouts(texts.take(k)))).phase
                is Authenticating,
        run(s, timeouts(texts)).phase == Phase::Failed(ListenError::AuthenticationError),
        replies(s, timeouts(texts)).len() == RETRY_BUDGET,
        replies(s, timeouts(texts)).last() == ActionView::Finish(
            Err(ListenError::AuthenticationError),
        ),
        forall|i: int| 0 <= i < RETRY_BUDGET ==> !(replies(s, timeouts(texts))[i] is Send),
{
    assert forall|k: int| 0 <= k < RETRY_BUDGET implies (#[trigger] run(
        s,
        timeouts(texts.take(k)),
    )).phase is Authenticating by {
        let part = texts.take(k);
        assert forall|j: int| 0 < j <= part.len() implies !ends_with_prompt(
            s.buffer + joined(#[trigger] part.take(j)),
    ) by {
            assert(part.take(j) =~= texts.take(j));
        }
        timeouts_spend_retries(s, part);
    }
    let shorter = texts.drop_last();
    assert(shorter =~= texts.take(texts.len() - 1));
    assert forall|j: int| 0 < j <= shorter.len() implies !ends_with_prompt(
        s.buffer + joined(#[trigger] shorter.take(j)),
    ) by {
        assert(shorter.take(j) =~= texts.take(j));
    }
    timeouts_spend_retries(s, shorter);
    assert(timeouts(texts).drop_last() =~= timeouts(shorter));
    assert(texts.take(texts.len() as int) =~= texts);
    assert((s.buffer + joined(shorter)) + texts.last() =~= s.buffer + joined(texts));
    callsign_is_sent_at_most_once(s, timeouts(texts));
    assert forall|i: int| 0 <= i < RETRY_BUDGET implies !(replies(s, timeouts(texts))[i]
        is Send) by {
        if i < RETRY_BUDGET - 1 {
            assert(replies(s, timeouts(texts))[i] == replies(s, timeouts(shorter))[i]);
        }
    }
}

/// An idle connection is no failed login: a streaming worker takes any
/// number of timeouts and goes on reading.
pub proof fn idle_stream_stays_alive(s: WorkerView, text: Seq<char>)
    requires
        s.phase is Streaming,
    ensures
        read_step(s, false, ReadOutcomeView::Timeout(text)) == (
            WorkerView { buffer: s.buffer + text, ..s },
            ActionView::Read,
        ),
{
}

/// Lines that arrive one by one while the worker streams are answered one
/// by one and in their order: each with the delivery of the spot that the
/// parser makes of the cleaned line, or, where it makes none, with the next
/// read. The worker streams on.
pub proof fn lines_are_forwarded_in_order(s: WorkerView, texts: Seq<Seq<char>>)
    requires
        s.phase is Streaming,
        s.buffer.len() == 0,
    ensures
        run(s, lines(texts)) == s,
        replies(s, lines(texts)).len() == texts.len(),
        forall|i: int|
            0 <= i < texts.len() ==> replies(s, lines(texts))[i] == forwarded(
                parsed(cleaned(texts[i])),
            ),
    decreases texts.len(),
{
    if texts.len() > 0 {
        let shorter = texts.drop_last();
        assert(lines(texts).drop_last() =~= lines(shorter));
        lines_are_forwarded_in_order(s, shorter);
        assert(s.buffer + texts.last() =~= texts.last());
        assert(s.buffer =~= Seq::<char>::empty());
    }
}

/// A line that the parser rejects reaches no sink and ends no worker: the
/// worker drops it and asks for the next read.
pub proof fn malformed_line_is_dropped(s: WorkerView, text: Seq<char>)
    requires
        s.phase is Streaming,
        parsed(cleaned(s.buffer + text)) is Err,
    ensures
        read_step(s, false, ReadOutcomeView::Line(text)) == (
            WorkerView { buffer: Seq::empty(), ..s },
            ActionView::Read,
        ),
{
}

/// The spots among the answers, in the order in which they go to the sink.
pub open spec fn deliveries(answers: Seq<ActionView>) -> Seq<dxclparser::Spot>
    decreases answers.len(),
{
    if answers.len() == 0 {
        Seq::empty()
    } else if answers.last() is Deliver {
        deliveries(answers.drop_last()).push(answers.last()->Deliver_0)
    } else {
        deliveries(answers.drop_last())
    }
}

/// A run of events can be taken in two parts: the second part goes on from
/// the state that the first part left, and the answers follow each other.
pub proof fn run_in_two_parts(s: WorkerView, first: Seq<EventView>, second: Seq<EventView>)
    ensures
        run(s, first + second) == run(run(s, first), second),
        replies(s, first + second) == replies(s, first) + replies(run(s, first), second),
    decreases second.len(),
{
    if second.len() == 0 {
        assert(first + second =~= first);
        assert(replies(s, first) + replies(run(s, first), second) =~= replies(s, first));
    } else {
        assert((first + second).drop_last() =~= first + second.drop_last());
        assert((first + second).last() == second.last());
        run_in_two_parts(s, first, second.drop_last());
        assert(replies(s, first + second) =~= replies(s, first) + replies(
            run(s, first),
            second,
        ));
    }
}

/// The spots and the writes of two runs of answers, one behind the other,
/// are those of the first followed by those of the second.
pub proof fn answers_in_two_parts(first: Seq<ActionView>, second: Seq<ActionView>)
    ensures
        deliveries(first + second) == deliveries(first) + deliveries(second),
        sends(first + second) == sends(first) + sends(second),
    decreases second.len(),
{
    if second.len() == 0 {
        assert(first + second =~= first);
        assert(deliveries(first) + deliveries(second) =~= deliveries(first));
    } else {
        assert((first + second).drop_last() =~= first + second.drop_last());
        assert((first + second).last() == second.last());
        answers_in_two_parts(first, second.drop_last());
        assert(deliveries(first + second) =~= deliveries(first) + deliveries(second));
    }
}

/// A streaming worker that is handed one whole line which the parser
/// rejects is afterwards as it was before, and has asked for the next read
/// and nothing else.
pub proof fn rejected_line_is_one_read(s: WorkerView, text: Seq<char>)
    requires
        s.phase is Streaming,
        s.buffer.len() == 0,
        parsed(cleaned(text)) is Err,
    ensures
        run(s, lines(seq![text])) == s,
        replies(s, lines(seq![text])) == seq![ActionView::Read],
        deliveries(replies(s, lines(seq![text]))).len() == 0,
        sends(replies(s, lines(seq![text]))) == 0,
{
    reveal_with_fuel(run, 2);
    reveal_with_fuel(replies, 2);
    reveal_with_fuel(deliveries, 2);
    reveal_with_fuel(sends, 2);
    let line = lines(seq![text]);
    assert(s.buffer =~= Seq::<char>::empty());
    assert(s.buffer + text =~= text);
    assert(line.len() == 1);
    assert(line.drop_last().len() == 0);
    assert(line.last() == EventView::Read { stop: false, outcome: ReadOutcomeView::Line(text) });
    assert(step(s, line.last()) == (s, ActionView::Read));
    assert(run(s, line) == s);
    assert(replies(s, line) =~= seq![ActionView::Read]);
    let answers = replies(s, line);
    assert(answers.len() == 1);
    assert(answers.drop_last().len() == 0);
    assert(answers.last() == ActionView::Read);
}

/// A line that the parser rejects might as well not have come: take it out
/// of any run of events in which it arrived whole at a streaming worker, and
/// the worker ends in the same state, with the same result, having
/// delivered the same spots in the same order and written as often. Taken
/// one after the other, all such lines can be left out.
pub proof fn malformed_line_changes_nothing(
    s: WorkerView,
    before: Seq<EventView>,
    text: Seq<char>,
    after: Seq<EventView>,
)
    requires
        run(s, before).phase is Streaming,
        run(s, before).buffer.len() == 0,
        parsed(cleaned(text)) is Err,
    ensures
        run(s, before + lines(seq![text]) + after) == run(s, before + after),
        result_of(run(s, before + lines(seq![text]) + after).phase) == result_of(
            run(s, before + after).phase,
        ),
        deliveries(replies(s, before + lines(seq![text]) + after)) == deliveries(
            replies(s, before + after),
        ),
        sends(replies(s, before + lines(seq![text]) + after)) == sends(
            replies(s, before + after),
        ),
{
    let there = run(s, before);
    let line = lines(seq![text]);
    rejected_line_is_one_read(there, text);
    run_in_two_parts(s, before, line);
    run_in_two_parts(s, before + line, after);
    run_in_two_parts(s, before, after);
    let dropped = replies(there, line);
    answers_in_two_parts(replies(s, before), dropped);
    answers_in_two_parts(replies(s, before) + dropped, replies(there, after));
    answers_in_two_parts(replies(s, before), replies(there, after));
    assert(deliveries(dropped) =~= Seq::<dxclparser::Spot>::empty());
    assert(deliveries(replies(s, before)) + deliveries(dropped) =~= deliveries(
        replies(s, before),
    ));
}

/// A stop request that a worker sees on a read that brought a line or ran
/// out of time ends it cleanly, whatever the read brought, and so does the
/// stop signal itself. The result is `Ok(())`, and a joined listener hands
/// out just that.
pub proof fn stop_ends_cleanly(s: WorkerView, outcome: ReadOutcomeView, l: ListenerView)
    requires
        s.phase is Authenticating || s.phase is Streaming,
        outcome is Line || outcome is Timeout,
        l.joinable,
    ensures
        read_step(s, true, outcome) == stopped(s),
        stop_step(s, true) == stopped(s),
        result_of(stopped(s).0.phase) == Some(Ok::<(), ListenError>(())),
        join_step(l, WorkerExit::Returned(result_of(stopped(s).0.phase)->0)).1 == Ok::<
            (),
            ListenError,
        >(()),
{
}

/// After a worker has ended nothing is delivered and nothing is written,
/// whatever events follow.
pub proof fn ended_worker_is_silent(s: WorkerView, events: Seq<EventView>)
    requires
        is_terminal(s.phase),
    ensures
        run(s, events) == s,
        replies(s, events).len() == events.len(),
        forall|i: int|
            0 <= i < events.len() ==> replies(s, events)[i] == ActionView::Finish(
                result_of(s.phase)->0,
            ),
    decreases events.len(),
{
    if events.len() > 0 {
        ended_worker_is_silent(s, events.drop_last());
        phases_advance(s, events.last());
    }
}

/// The server closing the connection ends an authenticating or streaming
/// worker with `ConnectionLost`, whether or not a stop was requested, and a
/// joined listener hands out just that.
pub proof fn closed_connection_is_lost(s: WorkerView, stop: bool, l: ListenerView)
    requires
        s.phase is Authenticating || s.phase is Streaming,
        l.joinable,
    ensures
        read_step(s, stop, ReadOutcomeView::Closed) == failed(s, ListenError::ConnectionLost),
        result_of(failed(s, ListenError::ConnectionLost).0.phase) == Some(
            Err::<(), ListenError>(ListenError::ConnectionLost),
        ),
        join_step(
            l,
            WorkerExit::Returned(result_of(failed(s, ListenError::ConnectionLost).0.phase)->0),
        ).1 == Err::<(), ListenError>(ListenError::ConnectionLost),
{
}

/// The result of a worker is handed out once: whatever the first `join`
/// returned, the second one fails with `AlreadyJoined` and changes nothing.
pub proof fn second_join_fails(l: ListenerView, first: WorkerExit, second: WorkerExit)
    ensures
        l.joinable ==> join_step(l, first).1 == exit_result(first),
        join_step(join_step(l, first).0, second) == (
            join_step(l, first).0,
            Err::<(), ListenError>(ListenError::AlreadyJoined),
        ),
{
}

/// A stop can be requested once: the second request fails with
/// `ShutdownAlreadyRequested` and changes nothing, and so does a request on
/// a listener that was never started.
pub proof fn second_stop_request_fails(l: ListenerView, first: bool, second: bool)
    ensures
        stop_request_step(stop_request_step(l, first).0, second) == (
            stop_request_step(l, first).0,
            Err::<(), ListenError>(ListenError::ShutdownAlreadyRequested),
        ),
        !l.stoppable ==> stop_request_step(l, first) == (
            l,
            Err::<(), ListenError>(ListenError::ShutdownAlreadyRequested),
        ),
{
}

/// A listener runs from the moment it has connected, and not before: a
/// failed attempt leaves it as it was.
pub proof fn listener_runs_once_connected(l: ListenerView, outcome: ConnectOutcome)
    requires
        l.state is NotStarted,
    ensures
        listen_step(l, outcome).1 is Ok <==> outcome is Connected,
        outcome is Connected ==> listen_step(l, outcome).0.state is Running,
        !(outcome is Connected) ==> listen_step(l, outcome).0 == l,
{
}

/// How far a listener is along its life.
pub open spec fn run_rank(state: RunState) -> nat {
    match state {
        RunState::NotStarted => 0,
        RunState::Running => 1,
        RunState::Stopped => 2,
    }
}

/// A listener never goes back, and never changes its target or callsign:
/// whatever is done with it, it is as far along as before or further, and a
/// signal or a result that was spent stays spent once it has been started.
pub proof fn listener_never_goes_back(
    l: ListenerView,
    outcome: ConnectOutcome,
    delivered: bool,
    exit: WorkerExit,
)
    ensures
        l.state is NotStarted ==> run_rank(l.state) <= run_rank(listen_step(l, outcome).0.state),
        run_rank(l.state) <= run_rank(stop_request_step(l, delivered).0.state),
        run_rank(l.state) <= run_rank(join_step(l, exit).0.state),
        run_rank(l.state) <= run_rank(exited_step(l).state),
        !l.stoppable ==> !stop_request_step(l, delivered).0.stoppable && !join_step(
            l,
            exit,
        ).0.stoppable && !exited_step(l).stoppable,
        !l.joinable ==> !stop_request_step(l, delivered).0.joinable && !join_step(
            l,
            exit,
        ).0.joinable && !exited_step(l).joinable,
        same_target(l, listen_step(l, outcome).0),
        same_target(l, stop_request_step(l, delivered).0),
        same_target(l, join_step(l, exit).0),
        same_target(l, exited_step(l)),
{
}

/// Whether two states of a listener name the same server and callsign.
pub open spec fn same_target(a: ListenerView, b: ListenerView) -> bool {
    a.host == b.host && a.port == b.port && a.callsign == b.callsign
}

/// A stop that was asked for is never an error: the result of a worker that
/// stopped on request reaches the caller of a recorder's `join` as `Ok(())`.
pub proof fn recorder_stop_is_ok(r: RecorderView)
    requires
        r.joinable,
    ensures
        finished(Ok(())) == Ok::<(), RecordError>(()),
        recorder_join_step(r, WorkerExit::Returned(Ok(()))).1 == Ok::<(), RecordError>(()),
{
}

/// A recorder runs until its worker has ended, and no longer: once the end
/// of the worker was noted, and once the recorder was joined, it is not
/// running, whatever the worker ended with and whether or not a stop was
/// requested.
pub proof fn ended_recorder_is_not_running(r: RecorderView, exit: WorkerExit)
    ensures
        !(worker_exited_step(r).state is Running),
        r.joinable ==> !(recorder_join_step(r, exit).0.state is Running),
        r.state is Running ==> stop_requested_step(r).state is Running,
{
}

/// The result of a recording is handed out once: whatever the first `join`
/// returned, the second one fails with `AlreadyJoined` and changes nothing.
pub proof fn second_recorder_join_fails(r: RecorderView, first: WorkerExit, second: WorkerExit)
    ensures
        recorder_join_step(recorder_join_step(r, first).0, second) == (
            recorder_join_step(r, first).0,
            Err::<(), RecordError>(RecordError::AlreadyJoined),
        ),
{
}

/// A stop request stands: a second request changes nothing, and neither
/// the end of the worker nor a join takes the request back.
pub proof fn stop_request_stands(r: RecorderView, exit: WorkerExit)
    ensures
        stop_requested_step(r).stop_requested,
        stop_requested_step(stop_requested_step(r)) == stop_requested_step(r),
        r.stop_requested ==> worker_exited_step(r).stop_requested && recorder_join_step(
            r,
            exit,
        ).0.stop_requested,
{
}

/// A connection that could not be opened is reported by `record` itself,
/// as `ConnectionError` and whether or not a worker could have been started;
/// a recorder comes back only for an open connection with a started worker,
/// and it is running then.
pub proof fn failed_connect_starts_no_recorder(
    host: Seq<char>,
    port: u16,
    callsign: Seq<char>,
    connect: ConnectOutcome,
    spawned: bool,
)
    ensures
        !(connect is Connected) ==> recording(host, port, callsign, connect, spawned) == Err::<
            RecorderView,
            RecordError,
        >(RecordError::ConnectionError),
        recording(host, port, callsign, connect, spawned) is Ok <==> connect is Connected
            && spawned,
        recording(host, port, callsign, connect, spawned) matches Ok(r) ==> r.state is Running
            && r.joinable && !r.stop_requested,
{
}

} // verus!
