use vstd::prelude::*;

verus! {

// ---------------------------------------------------------------------------
// Declarations of the timing engine's types. The engine parses run files,
// owns the attempt clock and records split times; this crate drives it only
// through the small set of operations below.
// ---------------------------------------------------------------------------

#[verifier::external_type_specification]
#[verifier::external_body]
pub struct ExTimer(livesplit_core::Timer);

#[verifier::external_type_specification]
#[verifier::external_body]
pub struct ExRun(livesplit_core::Run);

/// The rows the engine's run holds, in engine order: for each segment its
/// name and, once the segment has been split in the current attempt, the
/// engine's rendering of the recorded game-time duration.
pub uninterp spec fn timer_segments(t: livesplit_core::Timer) -> Seq<(Seq<char>, Option<Seq<char>>)>;

/// Where the current attempt stands: `None` before the attempt starts,
/// `Some(i)` with `i` below the segment count while segment `i` is active,
/// and `Some(count)` once every segment has been split.
pub uninterp spec fn timer_position(t: livesplit_core::Timer) -> Option<int>;

/// A run engine timer, created from a successfully parsed run file.
pub struct TimerHandle {
    pub(crate) timer: livesplit_core::Timer,
}

impl TimerHandle {
    /// The (name, recorded split text) pairs of the run's segments.
    pub closed spec fn segments(self) -> Seq<(Seq<char>, Option<Seq<char>>)> {
        timer_segments(self.timer)
    }

    /// The attempt's position, as the engine reports it.
    pub closed spec fn position(self) -> Option<int> {
        timer_position(self.timer)
    }

    /// How many segments the run has.
    pub closed spec fn seg_count(self) -> int {
        self.segments().len() as int
    }

    #[verifier::type_invariant]
    spec fn wf(self) -> bool {
        match self.position() {
            None => true,
            Some(i) => 0 <= i <= self.seg_count(),
        }
    }

    /// Relies on `livesplit_core::Timer::new`: a timer built from a run
    /// starts with no attempt in progress; it fails only when the run has no
    /// segments. The error case is collapsed to `None`.
    #[verifier::external_body]
    pub(crate) fn new(run: livesplit_core::Run) -> (r: Option<TimerHandle>)
        ensures
            r matches Some(h) ==> timer_position(h.timer) is None,
            r matches Some(h) ==> h.position() is None,
    {
        livesplit_core::Timer::new(run).ok().map(|t| TimerHandle { timer: t })
    }

    /// Relies on `livesplit_core::Timer::split_or_start`: with no attempt in
    /// progress it starts one and arms the first segment; while a segment is
    /// active it either records a split for it and advances (ending the
    /// attempt on the last segment) or, when the engine's own guard on the
    /// attempt clock declines, leaves everything as it was; once the attempt
    /// has ended it does nothing.
    #[verifier::external_body]
    pub(crate) fn split_or_start(&mut self)
        ensures
            split_transition(*old(self), *final(self)),
    {
        self.timer.split_or_start();
    }

    /// Relies on `livesplit_core::Timer::current_split_index`: the reported
    /// index equals the segment count once the attempt has ended.
    #[verifier::external_body]
    pub(crate) fn current_split_index(&self) -> (r: Option<usize>)
        ensures
            r is Some <==> self.position() is Some,
            r matches Some(i) ==> self.position() == Some(i as int),
    {
        self.timer.current_split_index()
    }

    /// Relies on `livesplit_core::Run::len`: the number of segments.
    #[verifier::external_body]
    pub(crate) fn segment_count(&self) -> (r: usize)
        ensures
            r as int == self.seg_count(),
    {
        self.timer.run().len()
    }

    /// Relies on `livesplit_core::Segment::name`, reached through
    /// `Timer::run` and `Run::segments`.
    #[verifier::external_body]
    pub(crate) fn segment_name(&self, i: usize) -> (r: String)
        requires
            i < self.seg_count(),
        ensures
            r@ == timer_segments(self.timer)[i as int].0,
            r@ == self.segments()[i as int].0,
    {
        self.timer.run().segments()[i].name().to_owned()
    }

    /// Relies on `livesplit_core::Segment::split_time`, reached through
    /// `Timer::run` and `Run::segments`, and on the engine's rendering of a
    /// recorded game-time duration through `TimeSpan::to_duration` and its
    /// display form.
    #[verifier::external_body]
    pub(crate) fn segment_time_text(&self, i: usize) -> (r: Option<String>)
        requires
            i < self.seg_count(),
        ensures
            r is Some <==> self.segments()[i as int].1 is Some,
            r matches Some(s) ==> self.segments()[i as int].1 == Some(s@),
    {
        self.timer.run().segments()[i]
            .split_time()
            .game_time
            .map(|t| t.to_duration().to_string())
    }

    /// Relies on `livesplit_core::Timer::current_attempt_duration`: before
    /// the attempt starts the duration is zero; while it runs or after it
    /// ends the value depends on the clock, so nothing more is promised.
    #[verifier::external_body]
    pub(crate) fn attempt_duration_ms(&self) -> (r: i64)
        ensures
            self.position() is None ==> r == 0,
    {
        self.timer.current_attempt_duration().to_duration().whole_milliseconds() as i64
    }
}

/// Relies on `livesplit_core::run::parser::composite::parse_and_fix`: it
/// detects the format of the raw bytes, parses them into a run and repairs
/// inconsistencies, using the path only to resolve references relative to
/// the file. Which bytes parse is the engine's affair, so nothing is
/// promised beyond the shape of the result; the error is collapsed to its
/// display text.
#[verifier::external_body]
pub(crate) fn parse_run(bytes: &[u8], path: &str) -> (r: Result<livesplit_core::Run, String>) {
    livesplit_core::run::parser::composite::parse_and_fix(bytes, Some(std::path::Path::new(path)))
        .map(|p| p.run)
        .map_err(|e| e.to_string())
}

/// How one `split_or_start` invocation relates the timer's state before the
/// call to its state after it.
pub open spec fn split_transition(before: TimerHandle, after: TimerHandle) -> bool {
    &&& after.seg_count() == before.seg_count()
    &&& (before.position() is None ==> after.position() == Some(0int)
        && after.segments() == before.segments())
    &&& (before.position() matches Some(i) ==> (0 <= i < before.seg_count() ==> {
        ||| (after.position() == before.position() && after.segments() == before.segments())
        ||| (after.position() == Some(i + 1)
            && (forall|j: int|
                0 <= j < before.seg_count() && j != i ==> (#[trigger] after.segments()[j])
                    == before.segments()[j])
            && after.segments()[i].0 == before.segments()[i].0)
    }))
    &&& (before.position() == Some(before.seg_count()) ==> after.position() == before.position()
        && after.segments() == before.segments())
}

/// Law: `split_or_start` steps through the run in order. The first
/// invocation arms segment 0; an invocation while segment `i` is active
/// either leaves the timer alone (the engine's clock guard may decline a
/// split) or advances to `i + 1`; once the position has reached the segment
/// count, every further invocation leaves the timer unchanged. The segment
/// count and the segment names are never touched.
pub proof fn lemma_split_progression(before: TimerHandle, after: TimerHandle)
    requires
        split_transition(before, after),
        before.position() matches Some(i) ==> 0 <= i <= before.seg_count(),
    ensures
        after.seg_count() == before.seg_count(),
        before.position() is None ==> (after.position() == Some(0int) && after.segments()
            == before.segments()),
        before.position() matches Some(i) ==> (0 <= i < before.seg_count() ==> after.position()
            == before.position() || after.position() == Some(i + 1)),
        before.position() == Some(before.seg_count()) ==> (after.position() == before.position()
            && after.segments() == before.segments()),
        forall|j: int|
            0 <= j < before.seg_count() ==> (#[trigger] after.segments()[j]).0
                == before.segments()[j].0,
{
    match before.position() {
        None => {},
        Some(i) => {
            assert(before.position() == Some(i));
            if 0 <= i < before.seg_count() {
                assert forall|j: int|
                    0 <= j < before.seg_count() implies (#[trigger] after.segments()[j]).0
                    == before.segments()[j].0 by {}
            }
        },
    }
}

} // verus!
