//! The streaming engine cache and the handling of transcription segments
//! during a streaming session.

use vstd::prelude::*;
use crate::text::{TextAccumulator, display_of, pushed};

verus! {

/// The cached streaming engine: nothing, a load in progress, or a loaded
/// engine ready to be taken by a streaming session.
pub enum EngineSlot<E> {
    Empty,
    Loading,
    Ready(E),
}

/// The engine a session takes from the cache: the ready one, if any.
pub open spec fn taken_from<E>(slot: EngineSlot<E>) -> Option<E> {
    match slot {
        EngineSlot::Ready(e) => Some(e),
        _ => None,
    }
}

/// The cache after a session tried to take the engine.
pub open spec fn left_after_take<E>(slot: EngineSlot<E>) -> EngineSlot<E> {
    match slot {
        EngineSlot::Ready(_) => EngineSlot::Empty,
        other => other,
    }
}

/// A streaming session that takes the ready engine and, when it ends, puts
/// it back leaves the cache as it found it; with no ready engine, no session
/// starts and the cache is unchanged.
pub proof fn lemma_session_returns_engine<E>(slot: EngineSlot<E>)
    ensures
        slot is Ready ==> left_after_take(slot) is Empty && EngineSlot::Ready(
            taken_from(slot)->0,
        ) == slot,
        !(slot is Ready) ==> taken_from(slot) is None && left_after_take(slot) == slot,
{
}

/// The longest a waiter sleeps before looking at the cache again, in
/// nanoseconds (200 ms).
pub const WAIT_SLICE_NANOS: u64 = 200_000_000;

/// What a waiter for the engine does next.
#[derive(PartialEq, Eq, Structural, Debug)]
pub enum WaitStep {
    /// Stop waiting, reporting whether the engine is ready.
    Return(bool),
    /// Sleep on the condition variable for at most this many nanoseconds.
    Wait { nanos: u64 },
}

/// The waiter's next step: a ready or empty cache decides at once, before
/// cancellation or the deadline are looked at; while a load is in progress,
/// cancellation or a spent deadline give up, and otherwise the waiter sleeps
/// for the time left, at most `WAIT_SLICE_NANOS`.
pub open spec fn wait_step_for<E>(slot: EngineSlot<E>, cancelled: bool, remaining_nanos: u128) -> WaitStep {
    match slot {
        EngineSlot::Ready(_) => WaitStep::Return(true),
        EngineSlot::Empty => WaitStep::Return(false),
        EngineSlot::Loading => if cancelled || remaining_nanos == 0 {
            WaitStep::Return(false)
        } else if remaining_nanos < WAIT_SLICE_NANOS {
            WaitStep::Wait { nanos: remaining_nanos as u64 }
        } else {
            WaitStep::Wait { nanos: WAIT_SLICE_NANOS }
        },
    }
}

impl<E> EngineSlot<E> {
    /// A fresh cache holds no engine.
    pub fn new() -> (slot: Self)
        ensures
            slot is Empty,
    {
        EngineSlot::Empty
    }

    /// Whether a preload should start: only when nothing is loaded or loading.
    pub fn needs_load(&self) -> (b: bool)
        ensures
            b == (*self is Empty),
    {
        match self {
            EngineSlot::Empty => true,
            _ => false,
        }
    }

    /// Records that a load has started.
    pub fn begin_loading(&mut self)
        ensures
            *final(self) is Loading,
    {
        *self = EngineSlot::Loading;
    }

    /// Records the lookup of the model files that a preload starts with:
    /// when they were found the slot is marked as loading, and when not it
    /// is left as it was; the lookup's result is handed back.
    pub fn start_load<P, X>(&mut self, model_path: Result<P, X>) -> (r: Result<P, X>)
        ensures
            r == model_path,
            match model_path {
                Ok(_) => *final(self) is Loading,
                Err(_) => *final(self) == *old(self),
            },
    {
        if model_path.is_ok() {
            *self = EngineSlot::Loading;
        }
        model_path
    }

    /// Records the end of a load: the engine when it loaded, else nothing.
    pub fn finish_loading(&mut self, loaded: Option<E>)
        ensures
            match loaded {
                Some(e) => *final(self) == EngineSlot::Ready(e),
                None => *final(self) is Empty,
            },
    {
        match loaded {
            Some(e) => *self = EngineSlot::Ready(e),
            None => *self = EngineSlot::Empty,
        }
    }

    /// Takes a ready engine out of the cache, leaving it empty; any other
    /// state is left as it was and nothing is taken.
    pub fn take_engine(&mut self) -> (taken: Option<E>)
        ensures
            taken == taken_from(*old(self)),
            *final(self) == left_after_take(*old(self)),
    {
        let mut prev = EngineSlot::Empty;
        std::mem::swap(self, &mut prev);
        match prev {
            EngineSlot::Ready(e) => Some(e),
            other => {
                *self = other;
                None
            },
        }
    }

    /// Returns an engine to the cache for reuse.
    pub fn put_back(&mut self, engine: E)
        ensures
            *final(self) == EngineSlot::Ready(engine),
    {
        *self = EngineSlot::Ready(engine);
    }

    /// Releases whatever the cache holds.
    pub fn clear(&mut self)
        ensures
            *final(self) is Empty,
    {
        *self = EngineSlot::Empty;
    }

    /// The next step of a waiter that has `remaining_nanos` left before its
    /// deadline; `cancelled` is what its cancellation check said (it need
    /// only be asked while a load is in progress).
    pub fn wait_step(&self, cancelled: bool, remaining_nanos: u128) -> (step: WaitStep)
        ensures
            step == wait_step_for(*self, cancelled, remaining_nanos),
    {
        match self {
            EngineSlot::Ready(_) => WaitStep::Return(true),
            EngineSlot::Empty => WaitStep::Return(false),
            EngineSlot::Loading => {
                if cancelled || remaining_nanos == 0 {
                    WaitStep::Return(false)
                } else if remaining_nanos < WAIT_SLICE_NANOS as u128 {
                    WaitStep::Wait { nanos: remaining_nanos as u64 }
                } else {
                    WaitStep::Wait { nanos: WAIT_SLICE_NANOS }
                }
            },
        }
    }

    /// What a waiter concludes from the cache: `Some(true)` once an engine is
    /// ready, `Some(false)` when nothing is loaded or loading, and `None`
    /// while a load is in progress (keep waiting).
    pub fn ready_verdict(&self) -> (v: Option<bool>)
        ensures
            v == (match *self {
                EngineSlot::Ready(_) => Some(true),
                EngineSlot::Loading => None,
                EngineSlot::Empty => Some(false),
            }),
    {
        match self {
            EngineSlot::Ready(_) => Some(true),
            EngineSlot::Loading => None,
            EngineSlot::Empty => Some(false),
        }
    }
}


/// One piece of recognised text from the streaming engine.
pub struct Segment {
    pub text: String,
    pub is_endpoint: bool,
}

/// What to do after a chunk of audio was transcribed.
pub struct ChunkOutcome {
    /// An endpoint closed a sentence: reset the engine; the segments after
    /// it in this chunk were not used.
    pub reset_engine: bool,
    /// The text to show, when there is any.
    pub display: Option<String>,
}

/// The segments as (text, endpoint) pairs.
pub open spec fn segment_views(segments: Seq<Segment>) -> Seq<(Seq<char>, bool)> {
    segments.map_values(|s: Segment| (s.text@, s.is_endpoint))
}

/// Completed text, sentence in progress and whether a sentence was closed,
/// after pushing `segments` in order up to and including the first that
/// closes a sentence.
pub open spec fn after_segments(
    completed: Seq<char>,
    current: Seq<char>,
    segments: Seq<(Seq<char>, bool)>,
) -> (Seq<char>, Seq<char>, bool)
    decreases segments.len(),
{
    if segments.len() == 0 {
        (completed, current, false)
    } else {
        let (c, cur, moved) = pushed(completed, current, segments[0].0, segments[0].1);
        if moved {
            (c, cur, true)
        } else {
            after_segments(c, cur, segments.drop_first())
        }
    }
}

/// Completed text and sentence in progress after pushing every segment of
/// `segments` in order, whatever each push reports.
pub open spec fn push_all(
    completed: Seq<char>,
    current: Seq<char>,
    segments: Seq<(Seq<char>, bool)>,
) -> (Seq<char>, Seq<char>)
    decreases segments.len(),
{
    if segments.len() == 0 {
        (completed, current)
    } else {
        let (c, cur, _) = pushed(completed, current, segments[0].0, segments[0].1);
        push_all(c, cur, segments.drop_first())
    }
}

/// Whether pushing segment `k`, after the ones before it, closes a sentence.
pub open spec fn closes_sentence_at(
    completed: Seq<char>,
    current: Seq<char>,
    segments: Seq<(Seq<char>, bool)>,
    k: int,
) -> bool {
    let (c, cur) = push_all(completed, current, segments.take(k));
    pushed(c, cur, segments[k].0, segments[k].1).2
}

/// A chunk resets the engine exactly when one of its segments closes a
/// sentence, wherever that segment stands in the chunk.  The texts are those
/// after pushing the segments up to and including the first that closes a
/// sentence, or all of them when none does.
pub proof fn lemma_reset_exactly_when_a_sentence_closes(
    completed: Seq<char>,
    current: Seq<char>,
    segments: Seq<(Seq<char>, bool)>,
)
    ensures
        ({
            let (c, cur, reset) = after_segments(completed, current, segments);
            &&& reset <==> exists|k: int|
                0 <= k < segments.len() && closes_sentence_at(completed, current, segments, k)
            &&& reset ==> exists|k: int|
                0 <= k < segments.len() && closes_sentence_at(completed, current, segments, k)
                    && (forall|j: int|
                    0 <= j < k ==> !closes_sentence_at(completed, current, segments, j)) && (c, cur)
                    == push_all(completed, current, segments.take(k + 1))
            &&& !reset ==> (c, cur) == push_all(completed, current, segments)
        }),
    decreases segments.len(),
{
    if segments.len() > 0 {
        let (c2, cur2, m) = pushed(completed, current, segments[0].0, segments[0].1);
        let rest = segments.drop_first();
        assert(segments.take(0) =~= Seq::<(Seq<char>, bool)>::empty());
        assert(closes_sentence_at(completed, current, segments, 0) == m);
        assert(segments.take(1).drop_first() =~= Seq::<(Seq<char>, bool)>::empty());
        if !m {
            lemma_reset_exactly_when_a_sentence_closes(c2, cur2, rest);
            assert forall|k: int| 0 <= k < rest.len() implies closes_sentence_at(
                completed,
                current,
                segments,
                k + 1,
            ) == #[trigger] closes_sentence_at(c2, cur2, rest, k) by {
                assert(segments.take(k + 1).drop_first() =~= rest.take(k));
                assert(segments[k + 1] == rest[k]);
            }
            let (c, cur, reset) = after_segments(completed, current, segments);
            if reset {
                let k = choose|k: int|
                    0 <= k < rest.len() && closes_sentence_at(c2, cur2, rest, k) && (forall|j: int|
                        0 <= j < k ==> !closes_sentence_at(c2, cur2, rest, j)) && (c, cur)
                        == push_all(c2, cur2, rest.take(k + 1));
                assert(closes_sentence_at(completed, current, segments, k + 1));
                assert(segments.take(k + 2).drop_first() =~= rest.take(k + 1));
                assert(segments.take(k + 2)[0] == segments[0]);
                assert(push_all(completed, current, segments.take(k + 2)) == push_all(
                    c2,
                    cur2,
                    rest.take(k + 1),
                ));
                assert forall|j: int| 0 <= j < k + 1 implies !closes_sentence_at(
                    completed,
                    current,
                    segments,
                    j,
                ) by {
                    if j > 0 {
                        assert(closes_sentence_at(c2, cur2, rest, j - 1) == closes_sentence_at(
                            completed,
                            current,
                            segments,
                            j,
                        ));
                    }
                }
            } else {
                assert forall|k: int| 0 <= k < segments.len() implies !closes_sentence_at(
                    completed,
                    current,
                    segments,
                    k,
                ) by {
                    if k > 0 {
                        assert(closes_sentence_at(c2, cur2, rest, k - 1) == closes_sentence_at(
                            completed,
                            current,
                            segments,
                            k,
                        ));
                    }
                }
            }
        } else {
            assert(segments.take(1)[0] == segments[0]);
            assert(push_all(completed, current, segments.take(1)) == (c2, cur2)) by {
                reveal_with_fuel(push_all, 2);
            }
            assert(closes_sentence_at(completed, current, segments, 0));
        }
    }
}

/// Feeds the segments of one transcribed chunk into the accumulator, in
/// order, stopping after the first that closes a sentence; reports whether
/// the engine must be reset and the text to show (none when it is empty).
pub fn apply_segments(acc: &mut TextAccumulator, segments: &Vec<Segment>) -> (out: ChunkOutcome)
    requires
        old(acc).wf(),
    ensures
        final(acc).wf(),
        after_segments(
            old(acc).completed_text@,
            old(acc).current_sentence@,
            segment_views(segments@),
        ) == (final(acc).completed_text@, final(acc).current_sentence@, out.reset_engine),
        out.reset_engine <==> exists|k: int|
            0 <= k < segments.len() && closes_sentence_at(
                old(acc).completed_text@,
                old(acc).current_sentence@,
                segment_views(segments@),
                k,
            ),
        match out.display {
            Some(d) => d@ == display_of(final(acc).completed_text@, final(acc).current_sentence@)
                && d@.len() > 0,
            None => display_of(final(acc).completed_text@, final(acc).current_sentence@).len()
                == 0,
        },
{
    let ghost views = segment_views(segments@);
    proof {
        lemma_reset_exactly_when_a_sentence_closes(
            old(acc).completed_text@,
            old(acc).current_sentence@,
            views,
        );
    }
    let ghost goal = after_segments(
        old(acc).completed_text@,
        old(acc).current_sentence@,
        views,
    );
    let mut reset = false;
    let mut i: usize = 0;
    assert(views.skip(0) =~= views);
    while i < segments.len()
        invariant_except_break
            acc.wf(),
            i <= segments.len(),
            views == segment_views(segments@),
            goal == after_segments(acc.completed_text@, acc.current_sentence@, views.skip(i as int)),
            !reset,
        ensures
            acc.wf(),
            goal == (acc.completed_text@, acc.current_sentence@, reset),
        decreases segments.len() - i,
    {
        let seg = &segments[i];
        assert(views.skip(i as int)[0] == (seg.text@, seg.is_endpoint));
        assert(views.skip(i as int).drop_first() =~= views.skip(i + 1));
        let moved = acc.push_segment(seg.text.as_str(), seg.is_endpoint);
        if moved {
            reset = true;
            break;
        }
        i = i + 1;
    }
    let display = acc.display_text();
    if display.as_str().is_empty() {
        ChunkOutcome { reset_engine: reset, display: None }
    } else {
        ChunkOutcome { reset_engine: reset, display: Some(display) }
    }
}

} // verus!
