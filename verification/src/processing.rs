//! The decisions of the merge scheduler: which tasks there are, by which
//! factor each frame is scaled, what a load or a merge does to the status,
//! and how failures travel through the reduction.

use vstd::prelude::*;

use crate::errors::MergeError;
use crate::exif::Exif;
use crate::frame::{
    finished, merged_stacks, stack_view, viewed_end, viewed_frame, viewed_stack, Frame, FrameView, Stack,
};
use crate::image::{Image, ImageView, RawImage};
use crate::status::{Counters, ProcessingStatus, Status};

verus! {

/// How the brightness of the lights runs over the sequence.
#[derive(Copy, Clone, Debug, PartialEq, Eq, Structural)]
pub enum Comets {
    /// Fading: the first light at full brightness, the last near none.
    Falling,
    /// Growing: the first light at none, the last near full brightness.
    Rising,
    /// Every light at full brightness.
    Normal,
}

/// What kind of frame a task loads; a light knows its place in the
/// sequence.
#[derive(Copy, Clone, Debug, PartialEq, Eq, Structural)]
pub enum FrameType {
    Lightframe(usize),
    Darkframe,
}

/// One file to load.
#[derive(Clone, Debug, PartialEq, Eq)]
pub struct LoadTask {
    pub frame_type: FrameType,
    pub path: String,
}

/// The mode that a mode name stands for; an unknown name stands for the
/// normal mode.
pub open spec fn mode_named(name: Seq<char>) -> Comets {
    if name == "falling"@ {
        Comets::Falling
    } else if name == "rising"@ {
        Comets::Rising
    } else {
        Comets::Normal
    }
}

/// Reads a mode name as the interface hands it over.
pub fn comets_from_str(mode_str: &str) -> (r: Comets)
    ensures
        r == mode_named(mode_str@),
{
    let name: String = mode_str.to_owned();
    if name == "falling".to_owned() {
        Comets::Falling
    } else if name == "rising".to_owned() {
        Comets::Rising
    } else {
        Comets::Normal
    }
}

/// The tasks of a merge: the lights in their order, each with its index,
/// then the darks.
pub open spec fn tasks_of(lights: Seq<String>, darks: Seq<String>) -> Seq<LoadTask> {
    Seq::new(
        lights.len() + darks.len(),
        |i: int|
            if i < lights.len() {
                LoadTask { frame_type: FrameType::Lightframe(i as usize), path: lights[i] }
            } else {
                LoadTask { frame_type: FrameType::Darkframe, path: darks[i - lights.len()] }
            },
    )
}

/// Lists the tasks of a merge.
pub fn build_tasks(lightframe_files: &Vec<String>, darkframe_files: &Vec<String>) -> (tasks: Vec<LoadTask>)
    ensures
        tasks@ == tasks_of(lightframe_files@, darkframe_files@),
{
    let mut tasks: Vec<LoadTask> = Vec::new();
    let count_lights: usize = lightframe_files.len();
    let count_darks: usize = darkframe_files.len();
    let mut i: usize = 0;
    while i < count_lights
        invariant
            i <= count_lights,
            count_lights == lightframe_files.len(),
            tasks.len() == i,
            forall|j: int| 0 <= j < i ==> tasks[j] == tasks_of(lightframe_files@, darkframe_files@)[j],
        decreases count_lights - i,
    {
        tasks.push(LoadTask { frame_type: FrameType::Lightframe(i), path: lightframe_files[i].clone() });
        i = i + 1;
    }
    let mut k: usize = 0;
    while k < count_darks
        invariant
            k <= count_darks,
            count_lights == lightframe_files.len(),
            count_darks == darkframe_files.len(),
            tasks.len() == count_lights + k,
            forall|j: int| 0 <= j < count_lights + k ==> tasks[j] == tasks_of(lightframe_files@, darkframe_files@)[j],
        decreases count_darks - k,
    {
        tasks.push(LoadTask { frame_type: FrameType::Darkframe, path: darkframe_files[k].clone() });
        k = k + 1;
    }
    assert(tasks@ =~= tasks_of(lightframe_files@, darkframe_files@));
    tasks
}

/// The brightness factor at which a frame is loaded, as the formula that
/// gives it. The factor itself is a floating-point number and is worked out
/// where the samples are scaled.
#[derive(Copy, Clone, Debug, PartialEq, Eq, Structural)]
pub enum Intensity {
    /// One: the samples stay as they were decoded.
    Full,
    /// `1 - index / count`: light `index` of `count` when fading.
    Fading { index: usize, count: usize },
    /// `index / count`: light `index` of `count` when growing.
    Growing { index: usize, count: usize },
}

/// The brightness factor of a frame: one for darks and in the normal mode;
/// for light `i` of `n`, `1 - i / n` when fading and `i / n` when growing.
pub open spec fn intensity_of(frame_type: FrameType, comets: Comets, count_lights: usize) -> Intensity {
    match frame_type {
        FrameType::Lightframe(index) => match comets {
            Comets::Falling => Intensity::Fading { index, count: count_lights },
            Comets::Rising => Intensity::Growing { index, count: count_lights },
            Comets::Normal => Intensity::Full,
        },
        FrameType::Darkframe => Intensity::Full,
    }
}

/// The brightness factor at which a frame is loaded.
pub fn intensity(frame_type: FrameType, comets: Comets, count_lights: usize) -> (r: Intensity)
    ensures
        r == intensity_of(frame_type, comets, count_lights),
{
    match frame_type {
        FrameType::Lightframe(index) => match comets {
            Comets::Falling => Intensity::Fading { index, count: count_lights },
            Comets::Rising => Intensity::Growing { index, count: count_lights },
            Comets::Normal => Intensity::Full,
        },
        FrameType::Darkframe => Intensity::Full,
    }
}

/// What the scheduler does with a task that is about to start.
#[derive(Copy, Clone, Debug, PartialEq, Eq, Structural)]
pub enum LoadDecision {
    /// The merge was aborted: the task is left out.
    Skip,
    /// Decode the file, scale its samples by this factor and hand them over.
    Load(Intensity),
}

/// Decides on a task that is about to start. After an abort the task is
/// skipped and the status stays as it is; else the status counts one more
/// frame in loading.
pub fn begin_load(status: &mut ProcessingStatus, task: &LoadTask, comets: Comets) -> (r: LoadDecision)
    ensures
        old(status)@.aborted ==> r == LoadDecision::Skip && final(status)@ == old(status)@,
        !old(status)@.aborted ==> r == LoadDecision::Load(
            intensity_of(task.frame_type, comets, old(status)@.count_lights),
        ) && final(status)@ == old(status)@.start_loading(),
        final(status).steps() == old(status).steps(),
{
    if status.aborted() {
        return LoadDecision::Skip;
    }
    let count_lights: usize = status.count_lights();
    status.start_loading();
    LoadDecision::Load(intensity(task.frame_type, comets, count_lights))
}

/// What came of decoding one file.
#[derive(Debug)]
pub enum LoadOutcome<C> {
    /// The integer samples of the file, scaled by the brightness factor of
    /// the task, and its metadata.
    Decoded(RawImage<C>, Exif),
    /// The file holds floating-point samples.
    FloatData,
    /// The file could not be opened or read.
    IoFailed(String),
    /// The file could not be parsed.
    DecodeFailed(String),
}

/// The frame that a decoded file becomes: one exposure of the task's kind
/// with the samples and the record as they were handed over; or the failure
/// that is reported for the task.
pub open spec fn loaded_frame<C>(task: LoadTask, outcome: LoadOutcome<C>) -> Result<FrameView<C>, MergeError> {
    match outcome {
        LoadOutcome::Decoded(raw_image, exif) => {
            let image = ImageView { raw_image: raw_image@, exif, num_images: 1 };
            match task.frame_type {
                FrameType::Lightframe(_) => Ok(FrameView::Light(image)),
                FrameType::Darkframe => Ok(FrameView::Dark(image)),
            }
        },
        LoadOutcome::FloatData => Err(MergeError::FloatRawUnsupported { path: task.path }),
        LoadOutcome::IoFailed(cause) => Err(MergeError::IoFailed { path: task.path, cause }),
        LoadOutcome::DecodeFailed(cause) => Err(MergeError::DecodeFailed { path: task.path, cause }),
    }
}

/// Takes in what decoding gave for a task. The status counts the frame as
/// loaded whatever came; a failure also aborts the merge.
pub fn finish_load<C>(status: &mut ProcessingStatus, task: &LoadTask, outcome: LoadOutcome<C>) -> (r: Result<
    Frame<C>,
    MergeError,
>)
    ensures
        viewed_frame(r) == loaded_frame(*task, outcome),
        final(status)@ == if outcome is Decoded {
            old(status)@.finish_loading()
        } else {
            old(status)@.finish_loading().abort()
        },
        final(status).steps() == old(status).steps(),
{
    status.finish_loading();
    match outcome {
        LoadOutcome::Decoded(raw_image, exif) => {
            let image = Image::new(raw_image, exif);
            match task.frame_type {
                FrameType::Lightframe(_) => Ok(Frame::from_light(image)),
                FrameType::Darkframe => Ok(Frame::from_dark(image)),
            }
        },
        LoadOutcome::FloatData => {
            status.abort();
            Err(MergeError::FloatRawUnsupported { path: task.path.clone() })
        },
        LoadOutcome::IoFailed(cause) => {
            status.abort();
            Err(MergeError::IoFailed { path: task.path.clone(), cause })
        },
        LoadOutcome::DecodeFailed(cause) => {
            status.abort();
            Err(MergeError::DecodeFailed { path: task.path.clone(), cause })
        },
    }
}

/// Of two failures the one to report: the first, unless it only says that
/// the merge was aborted.
pub open spec fn first_failure(a: MergeError, b: MergeError) -> MergeError {
    if a is Aborted {
        b
    } else {
        a
    }
}

/// Which image merges one step of the reduction has begun.
#[derive(Copy, Clone, Debug, PartialEq, Eq, Structural)]
pub struct MergesBegun {
    pub lights: bool,
    pub darks: bool,
}

/// What the scheduler does with two operands of the reduction.
#[derive(Debug)]
pub enum MergeDecision<C> {
    /// Nothing is merged: this is what the step gives.
    Done(Result<Stack<C>, MergeError>),
    /// Merge the two accumulators, away from the status, and report what
    /// came of it with `finish_merge`.
    Merge(Stack<C>, Stack<C>, MergesBegun),
}

/// The image merges that merging two accumulators takes: one of the lights
/// where both hold lights, one of the darks where both hold darks.
pub open spec fn merges_of<C>(x: (FrameView<C>, FrameView<C>), y: (FrameView<C>, FrameView<C>)) -> MergesBegun {
    MergesBegun {
        lights: !(x.0 is Identity) && !(y.0 is Identity),
        darks: !(x.1 is Identity) && !(y.1 is Identity),
    }
}

/// The counters when the merges `begun` have begun.
pub open spec fn counters_begun(before: Counters, begun: MergesBegun) -> Counters {
    let lights = if begun.lights {
        before.start_merging()
    } else {
        before
    };
    if begun.darks {
        lights.start_merging()
    } else {
        lights
    }
}

/// The counters when the merges `begun` have ended: each counts as done
/// whatever came of it, and a failure aborts the merge.
pub open spec fn counters_ended(before: Counters, begun: MergesBegun, failed: bool) -> Counters {
    let lights = if begun.lights {
        before.finish_merging()
    } else {
        before
    };
    let darks = if begun.darks {
        lights.finish_merging()
    } else {
        lights
    };
    if failed {
        darks.abort()
    } else {
        darks
    }
}

/// What `begin_merge` owes for two operands and the counters before.
pub open spec fn merge_begun<C>(
    before: Counters,
    a: Result<Stack<C>, MergeError>,
    b: Result<Stack<C>, MergeError>,
    r: MergeDecision<C>,
    after: Counters,
) -> bool {
    match (a, b) {
        (Err(e1), Err(e2)) => r == MergeDecision::Done(Err::<Stack<C>, MergeError>(first_failure(e1, e2)))
            && after == before,
        (Err(e), Ok(_)) => r == MergeDecision::Done(Err::<Stack<C>, MergeError>(e)) && after == before,
        (Ok(_), Err(e)) => r == MergeDecision::Done(Err::<Stack<C>, MergeError>(e)) && after == before,
        (Ok(x), Ok(y)) => if before.aborted {
            r == MergeDecision::Done(Err::<Stack<C>, MergeError>(MergeError::Aborted)) && after == before
        } else {
            r == MergeDecision::Merge(x, y, merges_of(stack_view(x), stack_view(y))) && after == counters_begun(
                before,
                merges_of(stack_view(x), stack_view(y)),
            )
        },
    }
}

/// Decides on one step of the reduction. A failed operand passes its failure
/// on and nothing is merged; after an abort two good operands are not merged
/// either; else the status counts the merges that the step takes as begun.
pub fn begin_merge<C>(
    status: &mut ProcessingStatus,
    a: Result<Stack<C>, MergeError>,
    b: Result<Stack<C>, MergeError>,
) -> (r: MergeDecision<C>)
    ensures
        merge_begun(old(status)@, a, b, r, final(status)@),
        final(status).steps() == old(status).steps(),
{
    match (a, b) {
        (Err(e1), Err(e2)) => {
            let only_aborted: bool = match &e1 {
                MergeError::Aborted => true,
                _ => false,
            };
            if only_aborted {
                MergeDecision::Done(Err(e2))
            } else {
                MergeDecision::Done(Err(e1))
            }
        },
        (Err(e), Ok(_)) => MergeDecision::Done(Err(e)),
        (Ok(_), Err(e)) => MergeDecision::Done(Err(e)),
        (Ok(x), Ok(y)) => {
            if status.aborted() {
                return MergeDecision::Done(Err(MergeError::Aborted));
            }
            let (x_lights, x_darks) = x.holds();
            let (y_lights, y_darks) = y.holds();
            let begun = MergesBegun { lights: x_lights && y_lights, darks: x_darks && y_darks };
            if begun.lights {
                status.start_merging();
            }
            if begun.darks {
                status.start_merging();
            }
            MergeDecision::Merge(x, y, begun)
        },
    }
}

/// Takes in what merging two accumulators gave. The status counts the
/// merges that had begun as done whatever came; a failure also aborts the
/// merge.
pub fn finish_merge<C>(status: &mut ProcessingStatus, begun: MergesBegun, merged: Result<Stack<C>, MergeError>) -> (r:
    Result<Stack<C>, MergeError>)
    ensures
        r == merged,
        final(status)@ == counters_ended(old(status)@, begun, merged is Err),
        final(status).steps() == old(status).steps(),
{
    if begun.lights {
        status.finish_merging();
    }
    if begun.darks {
        status.finish_merging();
    }
    if merged.is_err() {
        status.abort();
    }
    merged
}

/// The counters after one whole step of the reduction on two accumulators
/// while the merge is not aborted.
pub open spec fn counters_after_step<C>(
    before: Counters,
    x: (FrameView<C>, FrameView<C>),
    y: (FrameView<C>, FrameView<C>),
) -> Counters {
    counters_ended(counters_begun(before, merges_of(x, y)), merges_of(x, y), merged_stacks(x, y) is Err)
}

/// One whole step of the reduction: `begin_merge`, the merge, and
/// `finish_merge`.
pub fn merge_stacks<C>(
    status: &mut ProcessingStatus,
    a: Result<Stack<C>, MergeError>,
    b: Result<Stack<C>, MergeError>,
) -> (r: Result<Stack<C>, MergeError>)
    ensures
        final(status).steps() == old(status).steps(),
        match (a, b) {
            (Err(e1), Err(e2)) => r == Err::<Stack<C>, MergeError>(first_failure(e1, e2)) && final(status)@ == old(
                status,
            )@,
            (Err(e), Ok(_)) => r == Err::<Stack<C>, MergeError>(e) && final(status)@ == old(status)@,
            (Ok(_), Err(e)) => r == Err::<Stack<C>, MergeError>(e) && final(status)@ == old(status)@,
            (Ok(x), Ok(y)) => if old(status)@.aborted {
                r == Err::<Stack<C>, MergeError>(MergeError::Aborted) && final(status)@ == old(status)@
            } else {
                &&& viewed_stack(r) == merged_stacks(stack_view(x), stack_view(y))
                &&& final(status)@ == counters_after_step(old(status)@, stack_view(x), stack_view(y))
            },
        },
{
    match begin_merge(status, a, b) {
        MergeDecision::Done(r) => r,
        MergeDecision::Merge(x, y, begun) => {
            let merged = x.merge(y);
            finish_merge(status, begun, merged)
        },
    }
}

/// What a skipped task hands to the reduction.
pub fn skipped<C>() -> (r: Result<Stack<C>, MergeError>)
    ensures
        r == Err::<Stack<C>, MergeError>(MergeError::Aborted),
{
    Err(MergeError::Aborted)
}

/// Ends a merge: a failure aborts it; else the dark stack, where there is
/// one, is subtracted from the light stack. Without a light there is no
/// image.
pub fn complete<C>(status: &mut ProcessingStatus, reduced: Result<Stack<C>, MergeError>) -> (r: Result<
    Option<Image<C>>,
    MergeError,
>)
    ensures
        final(status).steps() == old(status).steps(),
        final(status)@ == if r is Err {
            old(status)@.abort()
        } else {
            old(status)@
        },
        viewed_end(r) == match reduced {
            Err(e) => Err::<Option<ImageView<C>>, MergeError>(e),
            Ok(stack) => finished(stack.lights()@, stack.darks()@),
        },
{
    let r = match reduced {
        Ok(stack) => stack.finish(),
        Err(e) => Err(e),
    };
    if r.is_err() {
        status.abort();
    }
    r
}

/// A reduction step never reports the bare abort where either operand holds
/// a failure of its own.
pub proof fn lemma_first_failure_is_real(a: MergeError, b: MergeError)
    requires
        !(a is Aborted) || !(b is Aborted),
    ensures
        !(first_failure(a, b) is Aborted),
{
}

/// A step that begins its merges and then ends them leaves as many merges
/// under way as before, and as many more done as it began.
pub proof fn lemma_step_counts_its_merges(before: Counters, begun: MergesBegun, failed: bool)
    requires
        before.merged + 2 <= usize::MAX,
        before.merging + 2 <= usize::MAX,
    ensures
        counters_ended(counters_begun(before, begun), begun, failed).merging == before.merging,
        counters_ended(counters_begun(before, begun), begun, failed).merged == before.merged + (if begun.lights {
            1int
        } else {
            0int
        }) + (if begun.darks {
            1int
        } else {
            0int
        }),
        counters_ended(counters_begun(before, begun), begun, failed).aborted == (before.aborted || failed),
{
}

} // verus!
