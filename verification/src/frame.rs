//! Frames: the values that the reduction folds. A frame is the neutral
//! element, a stack of lights or a stack of darks.

use vstd::prelude::*;

use crate::errors::MergeError;
use crate::image::{
    darkframe_applied, lemma_merge_associates, lemma_merge_commutes, merged_image, Image, ImageView,
};
use crate::mergable::Mergable;
use crate::pixels::MergeMode;

verus! {

/// One operand of the reduction.
#[derive(Debug)]
pub enum Frame<C> {
    /// The neutral element: merging with it changes nothing.
    Identity,
    /// Lights, merged by taking the larger sample.
    Light(Image<C>),
    /// Darks, merged by the weighted mean.
    Dark(Image<C>),
}

/// A frame as contracts see it.
pub enum FrameView<C> {
    Identity,
    Light(ImageView<C>),
    Dark(ImageView<C>),
}

impl<C> View for Frame<C> {
    type V = FrameView<C>;

    open spec fn view(&self) -> FrameView<C> {
        match *self {
            Frame::Identity => FrameView::Identity,
            Frame::Light(image) => FrameView::Light(image@),
            Frame::Dark(image) => FrameView::Dark(image@),
        }
    }
}

/// The view of a frame that a merge gave, or its failure.
pub open spec fn viewed_frame<C>(r: Result<Frame<C>, MergeError>) -> Result<FrameView<C>, MergeError> {
    match r {
        Ok(frame) => Ok(frame@),
        Err(e) => Err(e),
    }
}

/// One frame holds lights and the other darks.
pub open spec fn mixed_kinds<C>(a: FrameView<C>, b: FrameView<C>) -> bool {
    (a is Light && b is Dark) || (a is Dark && b is Light)
}

/// The frame that merging `a` with `b` gives, for frames of one kind or
/// with the neutral element. The neutral element leaves the other operand
/// as it is; lights merge under the maximum with weights one; darks merge
/// under the mean, each weighted by its count.
pub open spec fn merged_frame<C>(a: FrameView<C>, b: FrameView<C>) -> Result<FrameView<C>, MergeError> {
    match (a, b) {
        (FrameView::Identity, _) => Ok(b),
        (_, FrameView::Identity) => Ok(a),
        (FrameView::Light(x), FrameView::Light(y)) => match merged_image(x, y, 1, 1, MergeMode::Maximize) {
            Ok(image) => Ok(FrameView::Light(image)),
            Err(e) => Err(e),
        },
        (FrameView::Dark(x), FrameView::Dark(y)) => match merged_image(
            x,
            y,
            x.num_images as nat,
            y.num_images as nat,
            MergeMode::WeightedAverage,
        ) {
            Ok(image) => Ok(FrameView::Dark(image)),
            Err(e) => Err(e),
        },
        _ => Ok(a),
    }
}

impl<C> Frame<C> {
    /// The neutral element of the reduction.
    pub fn identity() -> (r: Frame<C>)
        ensures
            r is Identity,
    {
        Frame::Identity
    }

    /// Wraps a light exposure.
    pub fn from_light(image: Image<C>) -> (r: Frame<C>)
        ensures
            r == Frame::Light(image),
    {
        Frame::Light(image)
    }

    /// Wraps a dark exposure.
    pub fn from_dark(image: Image<C>) -> (r: Frame<C>)
        ensures
            r == Frame::Dark(image),
    {
        Frame::Dark(image)
    }

    /// Whether this is the neutral element.
    pub fn is_identity(&self) -> (r: bool)
        ensures
            r == (*self is Identity),
    {
        match self {
            Frame::Identity => true,
            _ => false,
        }
    }

    /// Merges two frames of one kind, or any frame with the neutral element.
    pub(crate) fn merge_same_kind(self, other: Frame<C>) -> (r: Result<Frame<C>, MergeError>)
        requires
            !mixed_kinds(self@, other@),
        ensures
            viewed_frame(r) == merged_frame(self@, other@),
            self is Identity ==> r == Ok::<Frame<C>, MergeError>(other),
            other is Identity && !(self is Identity) ==> r == Ok::<Frame<C>, MergeError>(self),
    {
        match (self, other) {
            (Frame::Identity, other) => Ok(other),
            (this, Frame::Identity) => Ok(this),
            (Frame::Light(x), Frame::Light(y)) => match x.merge(y, MergeMode::Maximize) {
                Ok(m) => Ok(Frame::Light(m)),
                Err(e) => Err(e),
            },
            (Frame::Dark(x), Frame::Dark(y)) => match x.merge(y, MergeMode::WeightedAverage) {
                Ok(m) => Ok(Frame::Dark(m)),
                Err(e) => Err(e),
            },
            _ => unreached(),
        }
    }

    /// Merges two frames. Two lights merge under the maximum, two darks under
    /// the mean, and the neutral element leaves the other frame as it is. A
    /// light and a dark are not subtracted here: they stand side by side in
    /// the result until the reduction ends.
    pub fn merge(self, other: Frame<C>) -> (r: Result<Stack<C>, MergeError>)
        ensures
            viewed_stack(r) == merged_stacks(placed(self@), placed(other@)),
            self is Identity ==> r is Ok && r->Ok_0.lights() == placed_frame(other).0 && r->Ok_0.darks()
                == placed_frame(other).1,
            other is Identity && !(self is Identity) ==> r is Ok && r->Ok_0.lights() == placed_frame(self).0
                && r->Ok_0.darks() == placed_frame(self).1,
    {
        Stack::from_frame(self).merge(Stack::from_frame(other))
    }

    /// The light stack, where the frame holds one.
    pub fn get_image(self) -> (r: Option<Image<C>>)
        ensures
            r == match self {
                Frame::Light(image) => Some(image),
                _ => None::<Image<C>>,
            },
    {
        match self {
            Frame::Light(image) => Some(image),
            _ => None,
        }
    }
}

/// The accumulator of the reduction: the lights folded so far and the darks
/// folded so far, kept apart.
#[derive(Debug)]
pub struct Stack<C> {
    light: Frame<C>,
    dark: Frame<C>,
}

/// What the reduction ends in: nothing without a light; the light stack;
/// or, with darks, the light stack less the dark stack.
pub open spec fn finished<C>(light: FrameView<C>, dark: FrameView<C>) -> Result<Option<ImageView<C>>, MergeError> {
    match (light, dark) {
        (FrameView::Light(l), FrameView::Dark(d)) => match darkframe_applied(l, d) {
            Ok(image) => Ok(Some(image)),
            Err(e) => Err(e),
        },
        (FrameView::Light(l), _) => Ok(Some(l)),
        _ => Ok(None),
    }
}

/// The view of the image that ends a reduction, if there is one, or the
/// failure.
pub open spec fn viewed_end<C>(r: Result<Option<Image<C>>, MergeError>) -> Result<Option<ImageView<C>>, MergeError> {
    match r {
        Ok(Some(image)) => Ok(Some(image@)),
        Ok(None) => Ok(None),
        Err(e) => Err(e),
    }
}

/// Where a frame stands in an accumulator: a dark among the darks, any
/// other frame among the lights; the other part holds nothing.
pub open spec fn placed<C>(frame: FrameView<C>) -> (FrameView<C>, FrameView<C>) {
    if frame is Dark {
        (FrameView::Identity, frame)
    } else {
        (frame, FrameView::Identity)
    }
}

/// Where a frame stands in an accumulator, as the frame itself.
pub open spec fn placed_frame<C>(frame: Frame<C>) -> (Frame<C>, Frame<C>) {
    if frame is Dark {
        (Frame::Identity, frame)
    } else {
        (frame, Frame::Identity)
    }
}

/// An accumulator as contracts see it: its lights and its darks.
pub open spec fn stack_view<C>(stack: Stack<C>) -> (FrameView<C>, FrameView<C>) {
    (stack.lights()@, stack.darks()@)
}

/// The view of an accumulator that a merge gave, or its failure.
pub open spec fn viewed_stack<C>(r: Result<Stack<C>, MergeError>) -> Result<(FrameView<C>, FrameView<C>), MergeError> {
    match r {
        Ok(stack) => Ok(stack_view(stack)),
        Err(e) => Err(e),
    }
}

/// What merging two accumulators gives: lights merged with lights and darks
/// with darks, or the first failure.
pub open spec fn merged_stacks<C>(x: (FrameView<C>, FrameView<C>), y: (FrameView<C>, FrameView<C>)) -> Result<
    (FrameView<C>, FrameView<C>),
    MergeError,
> {
    match merged_frame(x.0, y.0) {
        Err(e) => Err(e),
        Ok(lights) => match merged_frame(x.1, y.1) {
            Err(e) => Err(e),
            Ok(darks) => Ok((lights, darks)),
        },
    }
}

impl<C> Stack<C> {
    #[verifier::type_invariant]
    spec fn valid(self) -> bool {
        !(self.light is Dark) && !(self.dark is Light)
    }

    /// The lights folded so far: the neutral element or a light frame.
    pub closed spec fn lights(self) -> Frame<C> {
        self.light
    }

    /// The darks folded so far: the neutral element or a dark frame.
    pub closed spec fn darks(self) -> Frame<C> {
        self.dark
    }

    /// The accumulator that holds nothing.
    pub fn identity() -> (r: Stack<C>)
        ensures
            r.lights() is Identity,
            r.darks() is Identity,
    {
        Stack { light: Frame::Identity, dark: Frame::Identity }
    }

    /// The accumulator that holds one frame.
    pub fn from_frame(frame: Frame<C>) -> (r: Stack<C>)
        ensures
            r.lights() == placed_frame(frame).0,
            r.darks() == placed_frame(frame).1,
            stack_view(r) == placed(frame@),
    {
        match frame {
            Frame::Dark(image) => Stack { light: Frame::Identity, dark: Frame::Dark(image) },
            other => Stack { light: other, dark: Frame::Identity },
        }
    }

    /// Puts a light part and a dark part together, where each is of its kind.
    pub fn from_parts(light: Frame<C>, dark: Frame<C>) -> (r: Option<Stack<C>>)
        ensures
            r is Some <==> !(light is Dark) && !(dark is Light),
            r is Some ==> r->0.lights() == light && r->0.darks() == dark,
    {
        let light_ok: bool = match &light {
            Frame::Dark(_) => false,
            _ => true,
        };
        let dark_ok: bool = match &dark {
            Frame::Light(_) => false,
            _ => true,
        };
        if light_ok && dark_ok {
            Some(Stack { light, dark })
        } else {
            None
        }
    }

    /// Takes the accumulator apart: the light part, then the dark part.
    pub fn into_parts(self) -> (r: (Frame<C>, Frame<C>))
        ensures
            r.0 == self.lights(),
            r.1 == self.darks(),
            !(r.0 is Dark),
            !(r.1 is Light),
    {
        proof {
            use_type_invariant(&self);
        }
        (self.light, self.dark)
    }

    /// Whether the accumulator holds lights, and whether it holds darks.
    pub fn holds(&self) -> (r: (bool, bool))
        ensures
            r.0 == !(self.lights() is Identity),
            r.1 == !(self.darks() is Identity),
    {
        (!self.light.is_identity(), !self.dark.is_identity())
    }

    /// Merges two accumulators: lights with lights under the maximum, then
    /// darks with darks under the mean.
    pub fn merge(self, other: Stack<C>) -> (r: Result<Stack<C>, MergeError>)
        ensures
            viewed_stack(r) == merged_stacks(stack_view(self), stack_view(other)),
            self.lights() is Identity && self.darks() is Identity ==> r is Ok && r->Ok_0.lights() == other.lights()
                && r->Ok_0.darks() == other.darks(),
            other.lights() is Identity && other.darks() is Identity && !(self.lights() is Identity
                && self.darks() is Identity) ==> r is Ok && r->Ok_0.lights() == self.lights() && r->Ok_0.darks()
                == self.darks(),
    {
        proof {
            use_type_invariant(&self);
            use_type_invariant(&other);
        }
        let light = match self.light.merge_same_kind(other.light) {
            Ok(light) => light,
            Err(e) => {
                return Err(e);
            },
        };
        let dark = match self.dark.merge_same_kind(other.dark) {
            Ok(dark) => dark,
            Err(e) => {
                return Err(e);
            },
        };
        Ok(Stack { light, dark })
    }

    /// Ends the reduction: subtracts the dark stack from the light stack
    /// where there is one, and hands out the light stack.
    pub fn finish(self) -> (r: Result<Option<Image<C>>, MergeError>)
        ensures
            viewed_end(r) == finished(self.lights()@, self.darks()@),
            self.darks() is Identity ==> r == Ok::<Option<Image<C>>, MergeError>(
                match self.lights() {
                    Frame::Light(image) => Some(image),
                    _ => None,
                },
            ),
    {
        proof {
            use_type_invariant(&self);
        }
        match (self.light, self.dark) {
            (Frame::Light(l), Frame::Dark(d)) => match l.apply_darkframe(d) {
                Ok(image) => Ok(Some(image)),
                Err(e) => Err(e),
            },
            (Frame::Light(l), _) => Ok(Some(l)),
            _ => Ok(None),
        }
    }
}

/// The neutral element changes nothing: merged with it, on either side, a
/// frame comes back as it is, samples and record alike.
pub proof fn lemma_identity_is_neutral<C>(frame: FrameView<C>)
    ensures
        merged_frame(FrameView::Identity, frame) == Ok::<FrameView<C>, MergeError>(frame),
        merged_frame(frame, FrameView::Identity) == Ok::<FrameView<C>, MergeError>(frame),
        merged_stacks(placed(FrameView::Identity), placed(frame)) == Ok::<(FrameView<C>, FrameView<C>), MergeError>(
            placed(frame),
        ),
        merged_stacks(placed(frame), placed(FrameView::Identity)) == Ok::<(FrameView<C>, FrameView<C>), MergeError>(
            placed(frame),
        ),
{
}

/// A light and a dark do not merge into one: they stand side by side,
/// whichever comes first.
pub proof fn lemma_light_and_dark_stay_apart<C>(light: ImageView<C>, dark: ImageView<C>)
    ensures
        merged_stacks(placed(FrameView::Light(light)), placed(FrameView::Dark(dark))) == Ok::<
            (FrameView<C>, FrameView<C>),
            MergeError,
        >((FrameView::Light(light), FrameView::Dark(dark))),
        merged_stacks(placed(FrameView::Dark(dark)), placed(FrameView::Light(light))) == Ok::<
            (FrameView<C>, FrameView<C>),
            MergeError,
        >((FrameView::Light(light), FrameView::Dark(dark))),
{
}

/// The samples of merged lights do not depend on which light stands left:
/// where both orders merge, they give the same samples and the same count.
pub proof fn lemma_lights_commute<C>(a: ImageView<C>, b: ImageView<C>)
    requires
        a.raw_image.wf(),
        b.raw_image.wf(),
        merged_frame(FrameView::Light(a), FrameView::Light(b)) is Ok,
        merged_frame(FrameView::Light(b), FrameView::Light(a)) is Ok,
    ensures
        merged_frame(FrameView::Light(a), FrameView::Light(b))->Ok_0 is Light,
        merged_frame(FrameView::Light(b), FrameView::Light(a))->Ok_0 is Light,
        merged_frame(FrameView::Light(a), FrameView::Light(b))->Ok_0->Light_0.raw_image.data == merged_frame(
            FrameView::Light(b),
            FrameView::Light(a),
        )->Ok_0->Light_0.raw_image.data,
        merged_frame(FrameView::Light(a), FrameView::Light(b))->Ok_0->Light_0.num_images == merged_frame(
            FrameView::Light(b),
            FrameView::Light(a),
        )->Ok_0->Light_0.num_images,
{
    lemma_merge_commutes(a.raw_image, b.raw_image, 1, 1);
}

/// The samples of merged lights do not depend on how the reduction pairs
/// them: where both pairings of three lights merge, they give the same
/// samples and the same count.
pub proof fn lemma_lights_associate<C>(a: ImageView<C>, b: ImageView<C>, c: ImageView<C>)
    requires
        a.raw_image.wf(),
        b.raw_image.wf(),
        c.raw_image.wf(),
        merged_frame(FrameView::Light(a), FrameView::Light(b)) is Ok,
        merged_frame(FrameView::Light(b), FrameView::Light(c)) is Ok,
        merged_frame(merged_frame(FrameView::Light(a), FrameView::Light(b))->Ok_0, FrameView::Light(c)) is Ok,
        merged_frame(FrameView::Light(a), merged_frame(FrameView::Light(b), FrameView::Light(c))->Ok_0) is Ok,
    ensures
        merged_frame(merged_frame(FrameView::Light(a), FrameView::Light(b))->Ok_0, FrameView::Light(c))->Ok_0
            is Light,
        merged_frame(FrameView::Light(a), merged_frame(FrameView::Light(b), FrameView::Light(c))->Ok_0)->Ok_0
            is Light,
        merged_frame(
            merged_frame(FrameView::Light(a), FrameView::Light(b))->Ok_0,
            FrameView::Light(c),
        )->Ok_0->Light_0.raw_image.data == merged_frame(
            FrameView::Light(a),
            merged_frame(FrameView::Light(b), FrameView::Light(c))->Ok_0,
        )->Ok_0->Light_0.raw_image.data,
        merged_frame(
            merged_frame(FrameView::Light(a), FrameView::Light(b))->Ok_0,
            FrameView::Light(c),
        )->Ok_0->Light_0.num_images == merged_frame(
            FrameView::Light(a),
            merged_frame(FrameView::Light(b), FrameView::Light(c))->Ok_0,
        )->Ok_0->Light_0.num_images,
{
    lemma_merge_associates(a.raw_image, b.raw_image, c.raw_image);
}

} // verus!
