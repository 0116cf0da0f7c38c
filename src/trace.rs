use vstd::prelude::*;

use crate::line::{end_marker, strip_terminator};
use crate::multipart::{
    closes_parts, initial, lemma_next_wf, next, ActionView, EventView, FailureView, Phase, UploadView,
    MAX_PART_NUMBER,
};

verus! {

/// The state reached and the actions given when the orchestrator takes in
/// `events` one after another, from state `s`.
pub open spec fn run(s: UploadView, events: Seq<EventView>) -> (UploadView, Seq<ActionView>)
    decreases events.len(),
{
    if events.len() == 0 {
        (s, seq![])
    } else {
        let first = next(s, events[0]);
        let rest = run(first.0, events.drop_first());
        (rest.0, seq![first.1] + rest.1)
    }
}

/// Taking in two runs of events one after the other is taking in their concatenation.
pub proof fn lemma_run_concat(s: UploadView, a: Seq<EventView>, b: Seq<EventView>)
    ensures
        run(s, a + b) == (run(run(s, a).0, b).0, run(s, a).1 + run(run(s, a).0, b).1),
    decreases a.len(),
{
    if a.len() == 0 {
        assert(a + b =~= b);
        assert(run(s, a).1 + run(run(s, a).0, b).1 =~= run(s, b).1);
    } else {
        let first = next(s, a[0]);
        assert((a + b)[0] == a[0]);
        assert((a + b).drop_first() =~= a.drop_first() + b);
        lemma_run_concat(first.0, a.drop_first(), b);
        let ra = run(first.0, a.drop_first());
        let rb = run(ra.0, b);
        assert(seq![first.1] + (ra.1 + rb.1) =~= (seq![first.1] + ra.1) + rb.1);
    }
}

/// Taking in a single event is one step.
pub proof fn lemma_run_one(s: UploadView, e: EventView)
    ensures
        run(s, seq![e]) == (next(s, e).0, seq![next(s, e).1]),
{
    let n = next(s, e);
    assert(seq![e].drop_first() =~= Seq::<EventView>::empty());
    assert(run(n.0, Seq::<EventView>::empty()).1 =~= Seq::<ActionView>::empty());
    assert(seq![n.1] + Seq::<ActionView>::empty() =~= seq![n.1]);
}

/// Once completed or failed, the orchestrator stays so and asks for nothing more.
pub proof fn lemma_terminal_halts(s: UploadView, events: Seq<EventView>)
    requires
        s.is_terminal(),
    ensures
        run(s, events).0 == s,
        run(s, events).1 =~= Seq::new(events.len(), |i: int| ActionView::Halt),
    decreases events.len(),
{
    if events.len() > 0 {
        lemma_terminal_halts(s, events.drop_first());
    }
}

/// The events of a run in which every part uploads: for each path, the line
/// read and then the tag returned for it.
pub open spec fn part_events(paths: Seq<Seq<char>>, etags: Seq<Seq<char>>, n: nat) -> Seq<
    EventView,
>
    decreases n,
{
    if n == 0 {
        seq![]
    } else {
        let i = n - 1;
        part_events(paths, etags, (n - 1) as nat) + seq![
            EventView::LineRead { line: paths[i] },
            EventView::PartUploaded { etag: Some(etags[i]) },
        ]
    }
}

/// The actions answering `part_events`: upload each path as the next part,
/// then read the next line.
pub open spec fn part_actions(
    bucket: Seq<char>,
    key: Seq<char>,
    upload_id: Seq<char>,
    paths: Seq<Seq<char>>,
    n: nat,
) -> Seq<ActionView>
    decreases n,
{
    if n == 0 {
        seq![]
    } else {
        let i = n - 1;
        part_actions(bucket, key, upload_id, paths, (n - 1) as nat) + seq![
            ActionView::UploadPart {
                bucket,
                key,
                upload_id,
                part_number: n as int,
                path: strip_terminator(paths[i]),
            },
            ActionView::ReadLine,
        ]
    }
}

/// Parts 1 to `n`, each with the tag returned for it.
pub open spec fn numbered_parts(etags: Seq<Seq<char>>, n: nat) -> Seq<(int, Seq<char>)> {
    Seq::new(n, |i: int| (i + 1, etags[i]))
}

pub open spec fn names_parts(paths: Seq<Seq<char>>) -> bool {
    forall|i: int| 0 <= i < paths.len() ==> #[trigger] strip_terminator(paths[i]) != end_marker()
}

proof fn lemma_part_events(
    s: UploadView,
    paths: Seq<Seq<char>>,
    etags: Seq<Seq<char>>,
    n: nat,
)
    requires
        s.phase == Phase::AwaitingLine,
        s.parts.len() == 0,
        n <= paths.len(),
        paths.len() == etags.len(),
        paths.len() <= MAX_PART_NUMBER,
        names_parts(paths),
    ensures
        run(s, part_events(paths, etags, n)) == (
        UploadView { parts: numbered_parts(etags, n), ..s },
        part_actions(s.bucket, s.key, s.upload_id, paths, n),
        ),
    decreases n,
{
    if n == 0 {
        assert(numbered_parts(etags, 0) =~= s.parts);
        assert(UploadView { parts: numbered_parts(etags, n), ..s } == s);
    } else {
        let i = n - 1;
        lemma_part_events(s, paths, etags, (n - 1) as nat);
        let mid = UploadView { parts: numbered_parts(etags, (n - 1) as nat), ..s };
        let line = EventView::LineRead { line: paths[i] };
        let uploaded = EventView::PartUploaded { etag: Some(etags[i]) };
        let pair = seq![line, uploaded];
        lemma_run_concat(s, part_events(paths, etags, (n - 1) as nat), pair);
        assert(pair =~= seq![line] + seq![uploaded]);
        lemma_run_concat(mid, seq![line], seq![uploaded]);
        assert(strip_terminator(paths[i]) != end_marker());
        assert(!closes_parts(line));
        let after_line = next(mid, line);
        assert(after_line.0 == mid.with_phase(Phase::UploadingPart));
        let after_part = next(after_line.0, uploaded);
        assert(after_part.0.parts =~= numbered_parts(etags, n));
        lemma_run_one(mid, line);
        lemma_run_one(after_line.0, uploaded);
        assert(run(mid, pair).1 =~= seq![after_line.1, after_part.1]);
        assert(part_events(paths, etags, n) == part_events(paths, etags, (n - 1) as nat) + pair);
    }
}

/// Every part that reaches completion: after the upload starts, `n` lines
/// naming files, each uploaded with the tag `etags[i]`, and then `END` or the
/// end of input, the completion call gets exactly parts 1 to `n` in order,
/// each with the tag returned for its upload; part `i + 1` was the file of
/// line `i`. With no part at all, completion still comes, with an empty list.
pub proof fn lemma_completion_gets_every_part(
    bucket: Seq<char>,
    key: Seq<char>,
    upload_id: Seq<char>,
    confirmed: Option<Seq<char>>,
    paths: Seq<Seq<char>>,
    etags: Seq<Seq<char>>,
    closing: EventView,
)
    requires
        paths.len() == etags.len(),
        paths.len() <= MAX_PART_NUMBER,
        names_parts(paths),
        closes_parts(closing),
    ensures
        ({
            let b = match confirmed {
                Some(c) => c,
                None => bucket,
            };
            let n = paths.len();
            let events = seq![EventView::Initiated { upload_id: Some(upload_id), bucket: confirmed }]
                + part_events(paths, etags, n) + seq![closing];
            run(initial(bucket, key), events).1 == seq![ActionView::ReadLine] + part_actions(
                b,
                key,
                upload_id,
                paths,
                n,
            ) + seq![
                ActionView::Complete {
                    bucket: b,
                    key,
                    upload_id,
                    parts: numbered_parts(etags, n),
                },
            ]
        }),
{
    let n = paths.len();
    let start = seq![EventView::Initiated { upload_id: Some(upload_id), bucket: confirmed }];
    let middle = part_events(paths, etags, n);
    let s0 = initial(bucket, key);
    let s1 = next(s0, start[0]).0;
    assert(start.drop_first() =~= Seq::<EventView>::empty());
    lemma_part_events(s1, paths, etags, n);
    lemma_run_concat(s0, start, middle);
    lemma_run_concat(s0, start + middle, seq![closing]);
    let s2 = run(s1, middle).0;
    lemma_run_one(s2, closing);
    lemma_run_one(s0, start[0]);
}

/// The end of input stands for `END`: at any point of any run, taking in the
/// end of input gives the same states and actions as taking in a line that
/// reads `END`.
pub proof fn lemma_input_end_is_end_line(
    s: UploadView,
    before: Seq<EventView>,
    after: Seq<EventView>,
    line: Seq<char>,
)
    requires
        strip_terminator(line) == end_marker(),
    ensures
        run(s, before + seq![EventView::InputEnded] + after) == run(
            s,
            before + seq![EventView::LineRead { line }] + after,
        ),
{
    let ended = seq![EventView::InputEnded];
    let read = seq![EventView::LineRead { line }];
    lemma_run_concat(s, before, ended + after);
    lemma_run_concat(s, before, read + after);
    assert(before + ended + after =~= before + (ended + after));
    assert(before + read + after =~= before + (read + after));
    let m = run(s, before).0;
    assert(next(m, ended[0]) == next(m, read[0]));
    assert((ended + after).drop_first() =~= after);
    assert((read + after).drop_first() =~= after);
}

/// A failed start ends everything: if the service refuses to start the
/// upload, the failure is reported, no part is uploaded, completion is never
/// asked for, no line is read, and no part is ever recorded.
pub proof fn lemma_initiate_failure_stops(
    bucket: Seq<char>,
    key: Seq<char>,
    message: Seq<char>,
    rest: Seq<EventView>,
)
    ensures
        ({
            let r = run(initial(bucket, key), seq![EventView::InitiateFailed { message }] + rest);
            &&& r.1.len() == rest.len() + 1
            &&& r.1[0] == (ActionView::Fail { failure: FailureView::Initiate { message } })
            &&& forall|i: int| 1 <= i < r.1.len() ==> r.1[i] == ActionView::Halt
            &&& r.0.parts.len() == 0
        }),
{
    let events = seq![EventView::InitiateFailed { message }] + rest;
    let s1 = next(initial(bucket, key), events[0]).0;
    assert(events.drop_first() =~= rest);
    lemma_terminal_halts(s1, rest);
}

/// A failed part ends everything: if uploading a part fails, the failure is
/// reported, completion is never asked for and no further line is read.
pub proof fn lemma_part_failure_stops(s: UploadView, message: Seq<char>, rest: Seq<EventView>)
    requires
        s.phase == Phase::UploadingPart,
    ensures
        ({
            let r = run(s, seq![EventView::PartFailed { message }] + rest);
            &&& r.1.len() == rest.len() + 1
            &&& r.1[0] == (ActionView::Fail {
                failure: FailureView::UploadPart { part_number: s.next_part_number(), message },
            })
            &&& forall|i: int| 1 <= i < r.1.len() ==> r.1[i] == ActionView::Halt
        }),
{
    let events = seq![EventView::PartFailed { message }] + rest;
    let s1 = next(s, events[0]).0;
    assert(events.drop_first() =~= rest);
    lemma_terminal_halts(s1, rest);
}

/// How many of `actions` ask to complete the upload.
pub open spec fn completions(actions: Seq<ActionView>) -> nat
    decreases actions.len(),
{
    if actions.len() == 0 {
        0
    } else {
        (if actions[0] is Complete { 1nat } else { 0nat }) + completions(actions.drop_first())
    }
}

/// How many completions may still be asked for from a state.
pub open spec fn completions_left(s: UploadView) -> nat {
    match s.phase {
        Phase::Initiating | Phase::AwaitingLine | Phase::UploadingPart => 1,
        _ => 0,
    }
}

/// Completion is asked for at most once per upload, whatever the events.
pub proof fn lemma_completion_at_most_once(s: UploadView, events: Seq<EventView>)
    ensures
        completions(run(s, events).1) <= completions_left(s),
    decreases events.len(),
{
    if events.len() > 0 {
        let first = next(s, events[0]);
        lemma_completion_at_most_once(first.0, events.drop_first());
        let actions = run(s, events).1;
        assert(actions.drop_first() =~= run(first.0, events.drop_first()).1);
    }
}

/// Every state reached from a well-formed one is well formed, so every
/// completion asked for carries parts numbered 1, 2, ... in order.
pub proof fn lemma_run_wf(s: UploadView, events: Seq<EventView>)
    requires
        s.wf(),
    ensures
        run(s, events).0.wf(),
        forall|i: int|
            #![trigger run(s, events).1[i]]
            0 <= i < run(s, events).1.len() ==> match run(s, events).1[i] {
                ActionView::Complete { parts, .. } => forall|j: int|
                    0 <= j < parts.len() ==> #[trigger] parts[j].0 == j + 1,
                _ => true,
            },
    decreases events.len(),
{
    if events.len() > 0 {
        let first = next(s, events[0]);
        lemma_next_wf(s, events[0]);
        lemma_run_wf(first.0, events.drop_first());
        let actions = run(s, events).1;
        let rest = run(first.0, events.drop_first()).1;
        assert forall|i: int| 0 <= i < actions.len() implies match #[trigger] actions[i] {
            ActionView::Complete { parts, .. } => forall|j: int|
                0 <= j < parts.len() ==> #[trigger] parts[j].0 == j + 1,
            _ => true,
        } by {
            if i > 0 {
                assert(actions[i] == rest[i - 1]);
            }
        }
    }
}

} // verus!
