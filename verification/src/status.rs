//! Progress of one merge: how many frames are loaded and merged, whether the
//! merge was aborted, and the timed steps around it.

use std::time::{Duration, Instant};
use vstd::prelude::*;

use crate::fileinfo::{file_name_of, CandidateInfo};

verus! {

/// A point on the monotonic clock.
#[verifier::external_type_specification]
#[verifier::external_body]
pub struct ExInstant(Instant);

/// `Instant::now` of std: the current point on the monotonic clock. Nothing
/// is known of it.
#[verifier::external_body]
fn now() -> Instant {
    Instant::now()
}

/// The time that passes from `start` to `end` on the monotonic clock; no
/// time where `end` is the earlier one.
pub uninterp spec fn time_between(start: Instant, end: Instant) -> Duration;

/// `Instant::duration_since` of std: the time from `start` to `end`, zero
/// where `end` is the earlier one. It is a function of the two instants
/// alone.
#[verifier::external_body]
fn duration_since(end: &Instant, start: &Instant) -> (r: Duration)
    ensures
        r == time_between(*start, *end),
{
    end.duration_since(*start)
}

/// One timed step of the work, such as rendering or writing.
#[derive(Debug)]
pub struct ProcessingStepStatus {
    pub str: String,
    pub emoji: char,
    started_at: Instant,
    ended_at: Option<Instant>,
}

impl ProcessingStepStatus {
    /// What the step is called.
    pub closed spec fn label(&self) -> String {
        self.str
    }

    /// The sign shown beside the step.
    pub closed spec fn symbol(&self) -> char {
        self.emoji
    }

    /// When the step began.
    pub closed spec fn started(&self) -> Instant {
        self.started_at
    }

    /// When the step ended, if it has.
    pub closed spec fn ended(&self) -> Option<Instant> {
        self.ended_at
    }

    /// A step that begins at `at` and has not ended.
    pub fn started_at(str: String, emoji: char, at: Instant) -> (r: ProcessingStepStatus)
        ensures
            r.label() == str,
            r.symbol() == emoji,
            r.started() == at,
            r.ended() is None,
    {
        ProcessingStepStatus { str, emoji, started_at: at, ended_at: None }
    }

    /// A step that begins now.
    pub fn new(str: String, emoji: char) -> (r: ProcessingStepStatus)
        ensures
            r.label() == str,
            r.symbol() == emoji,
            r.ended() is None,
    {
        ProcessingStepStatus::started_at(str, emoji, now())
    }

    /// Whether the step has ended.
    pub fn is_finished(&self) -> (r: bool)
        ensures
            r == self.ended() is Some,
    {
        self.ended_at.is_some()
    }

    /// Ends the step at `at`.
    pub fn finish_at(&mut self, at: Instant)
        ensures
            final(self).ended() == Some(at),
            final(self).started() == old(self).started(),
            final(self).label() == old(self).label(),
            final(self).symbol() == old(self).symbol(),
    {
        self.ended_at = Some(at);
    }

    /// Ends the step now.
    pub fn finish(&mut self)
        ensures
            final(self).ended() is Some,
            final(self).started() == old(self).started(),
            final(self).label() == old(self).label(),
            final(self).symbol() == old(self).symbol(),
    {
        self.finish_at(now());
    }

    /// Where the step's runtime ends when asked at `at`: at its end, or at
    /// `at` where it has not ended.
    pub open spec fn end_at(&self, at: Instant) -> Instant {
        match self.ended() {
            Some(end) => end,
            None => at,
        }
    }

    /// The stretch of time that counts as the step's runtime at `at`: from
    /// its start to its end, or to `at` where it has not ended.
    pub fn interval_at(&self, at: Instant) -> (r: (Instant, Instant))
        ensures
            r.0 == self.started(),
            r.1 == self.end_at(at),
    {
        match self.ended_at {
            Some(end) => (self.started_at, end),
            None => (self.started_at, at),
        }
    }

    /// How long the step has run by `at`: the time from its start to its
    /// end, or to `at` where it has not ended.
    pub fn runtime_at(&self, at: Instant) -> (r: Duration)
        ensures
            r == time_between(self.started(), self.end_at(at)),
    {
        let (start, end) = self.interval_at(at);
        duration_since(&end, &start)
    }

    /// How long the step ran, or has run so far: the time from its start to
    /// its end, or to some instant of the clock where it has not ended.
    pub fn runtime(&self) -> (r: Duration)
        ensures
            self.ended() is Some ==> r == time_between(self.started(), self.ended()->0),
            exists|at: Instant| r == time_between(self.started(), #[trigger] self.end_at(at)),
    {
        self.runtime_at(now())
    }
}

/// The counters of a merge at one moment.
#[derive(Copy, Clone, Debug, PartialEq, Eq, Structural)]
pub struct Counters {
    pub count_lights: usize,
    pub count_darks: usize,
    pub aborted: bool,
    pub loaded: usize,
    pub loading: usize,
    pub merged: usize,
    pub merging: usize,
}

/// A counter after one more, as an atomic counter counts: past the largest
/// value it starts again at zero.
pub open spec fn one_more(n: usize) -> usize {
    if n == usize::MAX {
        0
    } else {
        (n + 1) as usize
    }
}

/// A counter after one less, as an atomic counter counts: below zero it
/// starts again at the largest value.
pub open spec fn one_less(n: usize) -> usize {
    if n == 0 {
        usize::MAX
    } else {
        (n - 1) as usize
    }
}

impl Counters {
    /// How many frames there are to load.
    pub open spec fn total(self) -> int {
        self.count_lights + self.count_darks
    }

    /// How many pairwise merges reduce the lights to one stack and the darks
    /// to one stack.
    pub open spec fn expected_merges(self) -> int {
        (if self.count_lights >= 1 {
            self.count_lights - 1
        } else {
            0
        }) + (if self.count_darks >= 1 {
            self.count_darks - 1
        } else {
            0
        })
    }

    pub open spec fn loading_done(self) -> bool {
        self.total() == self.loaded
    }

    pub open spec fn merging_done(self) -> bool {
        self.expected_merges() == self.merged
    }

    pub open spec fn finished(self) -> bool {
        self.loading_done() && self.merging_done() || self.aborted
    }

    /// No more frames are loaded or in loading than there are, and no more
    /// merges are done or under way than the reduction takes.
    pub open spec fn consistent(self) -> bool {
        &&& self.loaded + self.loading <= self.total()
        &&& self.merged + self.merging <= self.expected_merges()
    }

    pub open spec fn start_loading(self) -> Counters {
        Counters { loading: one_more(self.loading), ..self }
    }

    pub open spec fn finish_loading(self) -> Counters {
        Counters { loaded: one_more(self.loaded), loading: one_less(self.loading), ..self }
    }

    pub open spec fn start_merging(self) -> Counters {
        Counters { merging: one_more(self.merging), ..self }
    }

    pub open spec fn finish_merging(self) -> Counters {
        Counters { merged: one_more(self.merged), merging: one_less(self.merging), ..self }
    }

    pub open spec fn abort(self) -> Counters {
        Counters { aborted: true, ..self }
    }
}

/// How many pairwise merges reduce `count_lights` lights to one stack and
/// `count_darks` darks to one stack.
pub fn expected_merges(count_lights: usize, count_darks: usize) -> (r: u128)
    ensures
        r == (Counters {
            count_lights,
            count_darks,
            aborted: false,
            loaded: 0,
            loading: 0,
            merged: 0,
            merging: 0,
        }).expected_merges(),
{
    let lights: u128 = if count_lights >= 1 {
        (count_lights - 1) as u128
    } else {
        0
    };
    let darks: u128 = if count_darks >= 1 {
        (count_darks - 1) as u128
    } else {
        0
    };
    lights + darks
}

/// What an observer is shown of a merge in progress.
#[derive(Copy, Clone, Debug, PartialEq, Eq, Structural)]
pub struct ProcessingSnapshot {
    pub count_lights: usize,
    pub count_darks: usize,
    pub count_loaded_lights: usize,
    pub count_loading_lights: usize,
    pub count_merged: usize,
    pub count_merging: usize,
    pub loading_done: bool,
    pub merging_done: bool,
}

/// The snapshot that shows `counters`.
pub open spec fn snapshot_of(counters: Counters) -> ProcessingSnapshot {
    ProcessingSnapshot {
        count_lights: counters.count_lights,
        count_darks: counters.count_darks,
        count_loaded_lights: counters.loaded,
        count_loading_lights: counters.loading,
        count_merged: counters.merged,
        count_merging: counters.merging,
        loading_done: counters.loading_done(),
        merging_done: counters.merging_done(),
    }
}

/// A progress record that an observer can poll.
pub trait Status {
    /// Whether the work was given up.
    spec fn is_aborted(&self) -> bool;

    /// Whether there is nothing more to wait for.
    spec fn is_finished(&self) -> bool;

    fn aborted(&self) -> (r: bool)
        ensures
            r == self.is_aborted(),
    ;

    fn finished(&self) -> (r: bool)
        ensures
            r == self.is_finished(),
    ;
}

/// What the emitter that reports to an observer does next.
#[derive(Copy, Clone, Debug, PartialEq, Eq, Structural)]
pub enum EmitterAction {
    /// Send the current snapshot.
    Emit,
    /// Wait this many milliseconds, then look again.
    Sleep(u64),
    /// End the emitter.
    Stop,
}

/// The pause between two snapshots, in milliseconds.
pub const EMIT_INTERVAL_MS: u64 = 500;

/// At the top of a round the emitter stops where the work was aborted, and
/// else sends a snapshot.
pub fn before_emit<T: Status>(status: &T) -> (r: EmitterAction)
    ensures
        r == if status.is_aborted() {
            EmitterAction::Stop
        } else {
            EmitterAction::Emit
        },
{
    if status.aborted() {
        EmitterAction::Stop
    } else {
        EmitterAction::Emit
    }
}

/// Having sent a snapshot the emitter stops where the work is finished, and
/// else waits for the next round.
pub fn after_emit<T: Status>(status: &T) -> (r: EmitterAction)
    ensures
        r == if status.is_finished() {
            EmitterAction::Stop
        } else {
            EmitterAction::Sleep(EMIT_INTERVAL_MS)
        },
{
    if status.finished() {
        EmitterAction::Stop
    } else {
        EmitterAction::Sleep(EMIT_INTERVAL_MS)
    }
}

/// The progress of one merge.
#[derive(Debug)]
pub struct ProcessingStatus {
    pub count_lights: usize,
    pub count_darks: usize,
    aborted_status: bool,
    count_loaded_lights: usize,
    count_loading_lights: usize,
    count_merge_completed: usize,
    count_merging: usize,
    steps: Vec<ProcessingStepStatus>,
}

impl View for ProcessingStatus {
    type V = Counters;

    closed spec fn view(&self) -> Counters {
        Counters {
            count_lights: self.count_lights,
            count_darks: self.count_darks,
            aborted: self.aborted_status,
            loaded: self.count_loaded_lights,
            loading: self.count_loading_lights,
            merged: self.count_merge_completed,
            merging: self.count_merging,
        }
    }
}

impl Status for ProcessingStatus {
    open spec fn is_aborted(&self) -> bool {
        self@.aborted
    }

    open spec fn is_finished(&self) -> bool {
        self@.finished()
    }

    fn aborted(&self) -> (r: bool) {
        self.aborted_status
    }

    fn finished(&self) -> (r: bool) {
        self.loading_done() && self.merging_done() || self.aborted_status
    }
}

impl ProcessingStatus {
    /// The timed steps, in the order in which they began.
    pub closed spec fn steps(&self) -> Seq<ProcessingStepStatus> {
        self.steps@
    }

    /// The status of a merge of `count_lights` lights and `count_darks`
    /// darks, of which nothing has been loaded yet.
    pub fn new(count_lights: usize, count_darks: usize) -> (r: ProcessingStatus)
        ensures
            r@ == (Counters {
                count_lights,
                count_darks,
                aborted: false,
                loaded: 0,
                loading: 0,
                merged: 0,
                merging: 0,
            }),
            r.steps().len() == 0,
    {
        ProcessingStatus {
            count_lights,
            count_darks,
            aborted_status: false,
            count_loaded_lights: 0,
            count_loading_lights: 0,
            count_merge_completed: 0,
            count_merging: 0,
            steps: Vec::new(),
        }
    }

    /// How many lights the merge takes.
    pub fn count_lights(&self) -> (r: usize)
        ensures
            r == self@.count_lights,
    {
        self.count_lights
    }

    /// How many darks the merge takes.
    pub fn count_darks(&self) -> (r: usize)
        ensures
            r == self@.count_darks,
    {
        self.count_darks
    }

    /// Gives the merge up. Nothing takes this back.
    pub fn abort(&mut self)
        ensures
            final(self)@ == old(self)@.abort(),
            final(self).steps() == old(self).steps(),
    {
        self.aborted_status = true;
    }

    /// Whether every frame is loaded.
    pub fn loading_done(&self) -> (r: bool)
        ensures
            r == self@.loading_done(),
    {
        self.count_lights as u128 + self.count_darks as u128 == self.count_loaded_lights as u128
    }

    /// Whether every merge of the reduction is done.
    pub fn merging_done(&self) -> (r: bool)
        ensures
            r == self@.merging_done(),
    {
        expected_merges(self.count_lights, self.count_darks) == self.count_merge_completed as u128
    }

    /// A frame is being loaded.
    pub fn start_loading(&mut self)
        ensures
            final(self)@ == old(self)@.start_loading(),
            final(self).steps() == old(self).steps(),
    {
        self.count_loading_lights = self.count_loading_lights.wrapping_add(1);
    }

    /// A frame that was being loaded is loaded.
    pub fn finish_loading(&mut self)
        ensures
            final(self)@ == old(self)@.finish_loading(),
            final(self).steps() == old(self).steps(),
    {
        self.count_loaded_lights = self.count_loaded_lights.wrapping_add(1);
        self.count_loading_lights = self.count_loading_lights.wrapping_sub(1);
    }

    /// Two frames are being merged.
    pub fn start_merging(&mut self)
        ensures
            final(self)@ == old(self)@.start_merging(),
            final(self).steps() == old(self).steps(),
    {
        self.count_merging = self.count_merging.wrapping_add(1);
    }

    /// Two frames that were being merged are merged.
    pub fn finish_merging(&mut self)
        ensures
            final(self)@ == old(self)@.finish_merging(),
            final(self).steps() == old(self).steps(),
    {
        self.count_merge_completed = self.count_merge_completed.wrapping_add(1);
        self.count_merging = self.count_merging.wrapping_sub(1);
    }

    /// Begins a timed step and returns its index.
    pub fn start_step(&mut self, str: String, emoji: char) -> (index: usize)
        ensures
            index == old(self).steps().len(),
            final(self).steps().len() == old(self).steps().len() + 1,
            final(self).steps().subrange(0, index as int) == old(self).steps(),
            final(self).steps()[index as int].label() == str,
            final(self).steps()[index as int].symbol() == emoji,
            final(self).steps()[index as int].ended() is None,
            final(self)@ == old(self)@,
    {
        let index: usize = self.steps.len();
        self.steps.push(ProcessingStepStatus::new(str, emoji));
        assert(self.steps@.subrange(0, index as int) =~= old(self).steps@);
        index
    }

    /// Ends the timed step with index `step`.
    pub fn finish_step(&mut self, step: usize)
        requires
            step < old(self).steps().len(),
        ensures
            final(self).steps().len() == old(self).steps().len(),
            final(self).steps()[step as int].ended() is Some,
            final(self).steps()[step as int].label() == old(self).steps()[step as int].label(),
            final(self).steps()[step as int].symbol() == old(self).steps()[step as int].symbol(),
            forall|i: int|
                0 <= i < old(self).steps().len() && i != step ==> final(self).steps()[i] == old(self).steps()[i],
            final(self)@ == old(self)@,
    {
        self.steps[step].finish();
    }

    /// The timed steps, in the order in which they began.
    pub fn steps_ref(&self) -> (r: &Vec<ProcessingStepStatus>)
        ensures
            r@ == self.steps(),
    {
        &self.steps
    }

    /// What an observer is shown.
    pub fn snapshot(&self) -> (r: ProcessingSnapshot)
        ensures
            r == snapshot_of(self@),
    {
        ProcessingSnapshot {
            count_lights: self.count_lights,
            count_darks: self.count_darks,
            count_loaded_lights: self.count_loaded_lights,
            count_loading_lights: self.count_loading_lights,
            count_merged: self.count_merge_completed,
            count_merging: self.count_merging,
            loading_done: self.loading_done(),
            merging_done: self.merging_done(),
        }
    }
}

/// What became of reading the metadata of one file.
#[derive(Clone, Debug, PartialEq, Eq)]
pub enum ImageInfo {
    /// The metadata was read.
    Loaded(CandidateInfo),
    /// The file could not be read.
    Failed { path: String, filename: String, error: String },
}

/// The results that are waiting to be shown, by path: each entry of the list
/// in turn, a later one replacing an earlier one for the same path.
pub open spec fn entries_map(entries: Seq<(String, ImageInfo)>) -> Map<Seq<char>, ImageInfo>
    decreases entries.len(),
{
    if entries.len() == 0 {
        Map::empty()
    } else {
        entries_map(entries.drop_last()).insert(entries.last().0@, entries.last().1)
    }
}

/// The entry for a file that could not be read: under its file name, or
/// under its whole path where it has none.
pub open spec fn failure_entry(image_path: String, filename: Option<String>, error: String) -> ImageInfo {
    ImageInfo::Failed {
        path: image_path,
        filename: match filename {
            Some(name) => name,
            None => image_path,
        },
        error,
    }
}

/// What an observer is shown of a metadata preload: the counters and the
/// results that came in since the last snapshot, in the order in which they
/// came.
#[derive(Clone, Debug, PartialEq, Eq)]
pub struct InfoSnapshot {
    pub count_total: usize,
    pub count_loaded: usize,
    pub image_infos: Vec<(String, ImageInfo)>,
}

/// The progress of reading the metadata of a list of files.
#[derive(Debug)]
pub struct InfoLoadingStatus {
    count_total: usize,
    count_loaded: usize,
    image_infos: Vec<(String, ImageInfo)>,
}

impl Status for InfoLoadingStatus {
    open spec fn is_aborted(&self) -> bool {
        false
    }

    open spec fn is_finished(&self) -> bool {
        self.total() == self.loaded()
    }

    fn aborted(&self) -> (r: bool) {
        false
    }

    fn finished(&self) -> (r: bool) {
        self.count_total == self.count_loaded
    }
}

impl InfoLoadingStatus {
    /// How many files there are.
    pub closed spec fn total(&self) -> usize {
        self.count_total
    }

    /// How many files have been read, with or without success.
    pub closed spec fn loaded(&self) -> usize {
        self.count_loaded
    }

    /// The results that no snapshot has shown yet, by path.
    pub closed spec fn pending(&self) -> Map<Seq<char>, ImageInfo> {
        entries_map(self.image_infos@)
    }

    /// The status of a preload of the files at `paths`.
    pub fn new(paths: &Vec<String>) -> (r: InfoLoadingStatus)
        ensures
            r.total() == paths.len(),
            r.loaded() == 0,
            r.pending() == Map::<Seq<char>, ImageInfo>::empty(),
    {
        InfoLoadingStatus { count_total: paths.len(), count_loaded: 0, image_infos: Vec::new() }
    }

    /// Files one result under its path and counts the file as read.
    fn add_entry(&mut self, image_path: String, entry: ImageInfo)
        ensures
            final(self).total() == old(self).total(),
            final(self).loaded() == one_more(old(self).loaded()),
            final(self).pending() == old(self).pending().insert(image_path@, entry),
    {
        self.count_loaded = self.count_loaded.wrapping_add(1);
        self.image_infos.push((image_path, entry));
        assert(self.image_infos@.drop_last() =~= old(self).image_infos@);
    }

    /// Takes in the metadata of the file at `image_path`.
    pub fn add_image_info(&mut self, image_path: String, info: CandidateInfo)
        ensures
            final(self).total() == old(self).total(),
            final(self).loaded() == one_more(old(self).loaded()),
            final(self).pending() == old(self).pending().insert(image_path@, ImageInfo::Loaded(info)),
    {
        self.add_entry(image_path, ImageInfo::Loaded(info));
    }

    /// Takes in that the file at `image_path` could not be read, given the
    /// file name of the path.
    pub fn add_failure(&mut self, image_path: String, filename: Option<String>, error: String)
        ensures
            final(self).total() == old(self).total(),
            final(self).loaded() == one_more(old(self).loaded()),
            final(self).pending() == old(self).pending().insert(
                image_path@,
                failure_entry(image_path, filename, error),
            ),
    {
        let filename: String = match filename {
            Some(name) => name,
            None => image_path.clone(),
        };
        let entry = ImageInfo::Failed { path: image_path.clone(), filename, error };
        self.add_entry(image_path, entry);
    }

    /// Takes in that the file at `image_path` could not be read.
    pub fn add_loading_error(&mut self, image_path: String, error: String)
        ensures
            final(self).total() == old(self).total(),
            final(self).loaded() == one_more(old(self).loaded()),
            exists|filename: Option<String>|
                final(self).pending() == old(self).pending().insert(
                    image_path@,
                    #[trigger] failure_entry(image_path, filename, error),
                ),
    {
        let filename: Option<String> = file_name_of(image_path.as_str());
        self.add_failure(image_path, filename, error);
    }

    /// Hands out the counters and the results that came in since the last
    /// snapshot, and forgets those results.
    pub fn json(&mut self) -> (r: InfoSnapshot)
        ensures
            r.count_total == old(self).total(),
            r.count_loaded == old(self).loaded(),
            entries_map(r.image_infos@) == old(self).pending(),
            final(self).total() == old(self).total(),
            final(self).loaded() == old(self).loaded(),
            final(self).pending() == Map::<Seq<char>, ImageInfo>::empty(),
    {
        let mut image_infos: Vec<(String, ImageInfo)> = Vec::new();
        std::mem::swap(&mut image_infos, &mut self.image_infos);
        InfoSnapshot { count_total: self.count_total, count_loaded: self.count_loaded, image_infos }
    }
}

/// What can happen to the counters of a merge.
pub enum StatusEvent {
    StartLoading,
    FinishLoading,
    StartMerging,
    FinishMerging,
    Abort,
}

/// The counters after one event.
pub open spec fn after_event(counters: Counters, event: StatusEvent) -> Counters {
    match event {
        StatusEvent::StartLoading => counters.start_loading(),
        StatusEvent::FinishLoading => counters.finish_loading(),
        StatusEvent::StartMerging => counters.start_merging(),
        StatusEvent::FinishMerging => counters.finish_merging(),
        StatusEvent::Abort => counters.abort(),
    }
}

/// The counters after a run of events.
pub open spec fn after_events(counters: Counters, events: Seq<StatusEvent>) -> Counters
    decreases events.len(),
{
    if events.len() == 0 {
        counters
    } else {
        after_event(after_events(counters, events.drop_last()), events.last())
    }
}

/// Once a merge is aborted it stays aborted, and so finished, whatever
/// happens after.
pub proof fn lemma_abort_is_permanent(counters: Counters, events: Seq<StatusEvent>)
    requires
        counters.aborted,
    ensures
        after_events(counters, events).aborted,
        after_events(counters, events).finished(),
        after_events(counters, events).count_lights == counters.count_lights,
        after_events(counters, events).count_darks == counters.count_darks,
    decreases events.len(),
{
    if events.len() > 0 {
        lemma_abort_is_permanent(counters, events.drop_last());
    }
}

/// A load that starts while frames are left, and then ends, keeps the
/// counters within their bounds.
pub proof fn lemma_loading_keeps_bounds(counters: Counters)
    requires
        counters.consistent(),
        counters.total() <= usize::MAX,
        counters.loaded + counters.loading < counters.total(),
    ensures
        counters.start_loading().consistent(),
        counters.start_loading().finish_loading().consistent(),
        counters.start_loading().finish_loading().loaded == counters.loaded + 1,
        counters.start_loading().finish_loading().loading == counters.loading,
{
}

/// A merge that starts while merges are left, and then ends, keeps the
/// counters within their bounds.
pub proof fn lemma_merging_keeps_bounds(counters: Counters)
    requires
        counters.consistent(),
        counters.expected_merges() <= usize::MAX,
        counters.merged + counters.merging < counters.expected_merges(),
    ensures
        counters.start_merging().consistent(),
        counters.start_merging().finish_merging().consistent(),
        counters.start_merging().finish_merging().merged == counters.merged + 1,
        counters.start_merging().finish_merging().merging == counters.merging,
{
}

/// With at least one light the reduction takes one merge less than there
/// are lights and, beyond the first, darks.
pub proof fn lemma_expected_merges(counters: Counters)
    requires
        counters.count_lights >= 1,
    ensures
        counters.expected_merges() == counters.count_lights + (if counters.count_darks >= 1 {
            counters.count_darks - 1
        } else {
            0
        }) - 1,
{
}

} // verus!
