//! The in-memory RAW image: a sample plane with its camera data, an EXIF
//! record and the number of exposures folded into it.

use vstd::prelude::*;

use crate::errors::{Dimensions, EncodeCause, MergeError};
use crate::exif::{exif_merged, Exif};
use crate::mergable::Mergable;
use crate::pixels::{
    lemma_constant_dark_is_neutral, lemma_maximize_associates, lemma_maximize_commutes, merge_buffers, merged_buffer,
    subtract_buffers, subtracted_buffer, MergeMode,
};

verus! {

/// Whether `count` is the product of `a`, `b` and `c`, which need not fit
/// the machine.
pub fn is_product(count: usize, a: usize, b: usize, c: usize) -> (r: bool)
    ensures
        r == (count == a * b * c),
{
    if c == 0 {
        assert(a * b * c == 0) by (nonlinear_arith)
            requires
                c == 0,
        ;
        return count == 0;
    }
    assert(a * b * c >= a * b) by (nonlinear_arith)
        requires
            c >= 1,
            a >= 0,
            b >= 0,
    ;
    let ab: usize = match a.checked_mul(b) {
        Some(ab) => ab,
        None => {
            return false;
        },
    };
    match ab.checked_mul(c) {
        Some(abc) => count == abc,
        None => false,
    }
}

/// A decoded sample plane. `camera` stands for the camera descriptor and the
/// sensor calibration, which merges carry along and never read.
#[derive(Debug)]
pub struct RawImage<C> {
    width: usize,
    height: usize,
    cpp: usize,
    data: Vec<u16>,
    camera: C,
}

/// A sample plane as contracts see it.
pub struct RawImageView<C> {
    pub width: usize,
    pub height: usize,
    pub cpp: usize,
    pub data: Seq<u16>,
    pub camera: C,
}

impl<C> RawImageView<C> {
    /// Width, height and components per pixel.
    pub open spec fn dimensions(self) -> Dimensions {
        Dimensions { width: self.width, height: self.height, cpp: self.cpp }
    }

    /// The plane holds one sample for each component of each pixel.
    pub open spec fn wf(self) -> bool {
        self.data.len() == self.width * self.height * self.cpp
    }
}

/// The plane that merging `a` with `b` gives: `a` with the merged samples,
/// or a mismatch where the dimensions differ.
pub open spec fn merged_raw<C>(
    a: RawImageView<C>,
    b: RawImageView<C>,
    weight_a: nat,
    weight_b: nat,
    mode: MergeMode,
) -> Result<RawImageView<C>, MergeError> {
    if a.dimensions() == b.dimensions() {
        Ok(RawImageView { data: merged_buffer(a.data, b.data, weight_a, weight_b, mode), ..a })
    } else {
        Err(MergeError::DimensionMismatch { left: a.dimensions(), right: b.dimensions() })
    }
}

impl<C> View for RawImage<C> {
    type V = RawImageView<C>;

    closed spec fn view(&self) -> RawImageView<C> {
        RawImageView {
            width: self.width,
            height: self.height,
            cpp: self.cpp,
            data: self.data@,
            camera: self.camera,
        }
    }
}

impl<C: Clone> Clone for RawImage<C> {
    fn clone(&self) -> (r: RawImage<C>)
        ensures
            r@.dimensions() == self@.dimensions(),
            r@.data == self@.data,
            cloned(self@.camera, r@.camera),
    {
        proof {
            use_type_invariant(self);
        }
        let data = self.data.clone();
        assert(data@ =~= self.data@);
        RawImage { width: self.width, height: self.height, cpp: self.cpp, data, camera: self.camera.clone() }
    }
}

impl<C> RawImage<C> {
    /// Every plane holds one sample for each component of each pixel.
    #[verifier::type_invariant]
    pub open spec fn valid(self) -> bool {
        self@.wf()
    }

    /// A plane of `width` by `height` pixels with `cpp` components each, where
    /// `data` holds exactly that many samples.
    pub fn new(width: usize, height: usize, cpp: usize, data: Vec<u16>, camera: C) -> (r: Option<RawImage<C>>)
        ensures
            r is Some <==> data@.len() == width * height * cpp,
            r is Some ==> r->0@ == (RawImageView { width, height, cpp, data: data@, camera }),
    {
        if is_product(data.len(), width, height, cpp) {
            Some(RawImage { width, height, cpp, data, camera })
        } else {
            None
        }
    }

    pub fn width(&self) -> (r: usize)
        ensures
            r == self@.width,
    {
        self.width
    }

    pub fn height(&self) -> (r: usize)
        ensures
            r == self@.height,
    {
        self.height
    }

    pub fn cpp(&self) -> (r: usize)
        ensures
            r == self@.cpp,
    {
        self.cpp
    }

    /// The samples, row by row.
    pub fn data(&self) -> (r: &Vec<u16>)
        ensures
            r@ == self@.data,
            self@.wf(),
    {
        proof {
            use_type_invariant(self);
        }
        &self.data
    }

    pub fn camera(&self) -> (r: &C)
        ensures
            *r == self@.camera,
    {
        &self.camera
    }

    /// Width, height and components per pixel.
    pub fn dimensions(&self) -> (r: Dimensions)
        ensures
            r == self@.dimensions(),
    {
        Dimensions { width: self.width, height: self.height, cpp: self.cpp }
    }

    /// Takes the plane apart: width, height, components, samples, camera.
    pub fn into_parts(self) -> (r: (usize, usize, usize, Vec<u16>, C))
        ensures
            r.0 == self@.width,
            r.1 == self@.height,
            r.2 == self@.cpp,
            r.3@ == self@.data,
            r.4 == self@.camera,
            self@.wf(),
    {
        proof {
            use_type_invariant(&self);
        }
        (self.width, self.height, self.cpp, self.data, self.camera)
    }
}

impl<C> Mergable for RawImage<C> {
    open spec fn merge_weights(&self, other: &RawImage<C>, mode: MergeMode) -> (usize, usize) {
        (1, 1)
    }

    open spec fn merge_outcome(
        &self,
        other: &RawImage<C>,
        weight_self: usize,
        weight_other: usize,
        mode: MergeMode,
        r: Result<RawImage<C>, MergeError>,
    ) -> bool {
        match r {
            Ok(merged) => merged_raw(self@, other@, weight_self as nat, weight_other as nat, mode) == Ok::<
                RawImageView<C>,
                MergeError,
            >(merged@),
            Err(e) => merged_raw(self@, other@, weight_self as nat, weight_other as nat, mode) == Err::<
                RawImageView<C>,
                MergeError,
            >(e),
        }
    }

    /// Merges the samples of two planes of equal dimensions; the camera data
    /// is that of the left operand.
    fn weighted_merge(self, other: RawImage<C>, weight_self: usize, weight_other: usize, mode: MergeMode) -> (r:
        Result<RawImage<C>, MergeError>) {
        proof {
            use_type_invariant(&self);
            use_type_invariant(&other);
        }
        if !(self.width == other.width && self.height == other.height && self.cpp == other.cpp) {
            return Err(MergeError::DimensionMismatch { left: self.dimensions(), right: other.dimensions() });
        }
        let data = merge_buffers(self.data, &other.data, weight_self, weight_other, mode);
        Ok(RawImage { width: self.width, height: self.height, cpp: self.cpp, data, camera: self.camera })
    }

    fn merge(self, other: RawImage<C>, mode: MergeMode) -> (r: Result<RawImage<C>, MergeError>) {
        self.weighted_merge(other, 1, 1, mode)
    }
}

/// A RAW image with its metadata and the number of exposures folded into
/// it, which is at least one.
#[derive(Debug)]
pub struct Image<C> {
    raw_image: RawImage<C>,
    exif: Exif,
    num_images: usize,
}

/// An image as contracts see it.
pub struct ImageView<C> {
    pub raw_image: RawImageView<C>,
    pub exif: Exif,
    pub num_images: usize,
}

impl<C> View for Image<C> {
    type V = ImageView<C>;

    closed spec fn view(&self) -> ImageView<C> {
        ImageView { raw_image: self.raw_image@, exif: self.exif, num_images: self.num_images }
    }
}

/// The view of a merge's result.
pub open spec fn viewed<C>(r: Result<Image<C>, MergeError>) -> Result<ImageView<C>, MergeError> {
    match r {
        Ok(image) => Ok(image@),
        Err(e) => Err(e),
    }
}

/// The image that merging `a` with `b` gives: the mismatch of their planes;
/// else the failure of their records; else an overflow where the counts do
/// not add up within the machine; else `a`'s plane with the merged samples,
/// the merged record and the sum of the counts.
pub open spec fn merged_image<C>(
    a: ImageView<C>,
    b: ImageView<C>,
    weight_a: nat,
    weight_b: nat,
    mode: MergeMode,
) -> Result<ImageView<C>, MergeError> {
    match merged_raw(a.raw_image, b.raw_image, weight_a, weight_b, mode) {
        Err(e) => Err(e),
        Ok(raw_image) => match exif_merged(a.exif, b.exif) {
            Err(e) => Err(e),
            Ok(exif) => if a.num_images + b.num_images <= usize::MAX {
                Ok(ImageView { raw_image, exif, num_images: (a.num_images + b.num_images) as usize })
            } else {
                Err(MergeError::EncodeFailed { cause: EncodeCause::CountOverflow })
            },
        },
    }
}

/// The image that subtracting the dark stack `dark` from the light stack
/// `light` gives: `light` with the subtracted samples, or a mismatch where
/// the dimensions differ.
pub open spec fn darkframe_applied<C>(light: ImageView<C>, dark: ImageView<C>) -> Result<ImageView<C>, MergeError> {
    if light.raw_image.dimensions() == dark.raw_image.dimensions() {
        Ok(
            ImageView {
                raw_image: RawImageView {
                    data: subtracted_buffer(light.raw_image.data, dark.raw_image.data),
                    ..light.raw_image
                },
                ..light
            },
        )
    } else {
        Err(
            MergeError::DimensionMismatch {
                left: light.raw_image.dimensions(),
                right: dark.raw_image.dimensions(),
            },
        )
    }
}

impl<C: Clone> Clone for Image<C> {
    fn clone(&self) -> (r: Image<C>)
        ensures
            r@.raw_image.dimensions() == self@.raw_image.dimensions(),
            r@.raw_image.data == self@.raw_image.data,
            cloned(self@.raw_image.camera, r@.raw_image.camera),
            r@.num_images == self@.num_images,
    {
        proof {
            use_type_invariant(self);
        }
        Image { raw_image: self.raw_image.clone(), exif: self.exif.clone(), num_images: self.num_images }
    }
}

impl<C> Image<C> {
    /// Every image holds at least one exposure.
    #[verifier::type_invariant]
    pub open spec fn valid(self) -> bool {
        self@.num_images >= 1
    }

    /// One exposure: a plane with its record.
    pub fn new(raw_image: RawImage<C>, exif: Exif) -> (r: Image<C>)
        ensures
            r@ == (ImageView { raw_image: raw_image@, exif, num_images: 1 }),
    {
        Image { raw_image, exif, num_images: 1 }
    }

    /// An image that stands for `num_images` exposures already folded into
    /// one; there is none for no exposure.
    pub fn stacked(raw_image: RawImage<C>, exif: Exif, num_images: usize) -> (r: Option<Image<C>>)
        ensures
            r is Some <==> num_images >= 1,
            r is Some ==> r->0@ == (ImageView { raw_image: raw_image@, exif, num_images }),
    {
        if num_images >= 1 {
            Some(Image { raw_image, exif, num_images })
        } else {
            None
        }
    }

    pub fn raw_image(&self) -> (r: &RawImage<C>)
        ensures
            r@ == self@.raw_image,
    {
        &self.raw_image
    }

    pub fn exif(&self) -> (r: &Exif)
        ensures
            *r == self@.exif,
    {
        &self.exif
    }

    /// How many exposures have been folded into this image.
    pub fn num_images(&self) -> (r: usize)
        ensures
            r == self@.num_images,
            r >= 1,
    {
        proof {
            use_type_invariant(self);
        }
        self.num_images
    }

    /// Takes the image apart: plane, record, count.
    pub fn into_parts(self) -> (r: (RawImage<C>, Exif, usize))
        ensures
            r.0@ == self@.raw_image,
            r.1 == self@.exif,
            r.2 == self@.num_images,
    {
        (self.raw_image, self.exif, self.num_images)
    }

    /// Subtracts the dark stack from this light stack. The result keeps this
    /// image's camera data, record and count.
    pub fn apply_darkframe(self, darkframe: Image<C>) -> (r: Result<Image<C>, MergeError>)
        ensures
            viewed(r) == darkframe_applied(self@, darkframe@),
    {
        proof {
            use_type_invariant(&self);
            use_type_invariant(&self.raw_image);
            use_type_invariant(&darkframe.raw_image);
        }
        let light = self.raw_image;
        let dark = darkframe.raw_image;
        if !(light.width == dark.width && light.height == dark.height && light.cpp == dark.cpp) {
            return Err(MergeError::DimensionMismatch { left: light.dimensions(), right: dark.dimensions() });
        }
        let data = subtract_buffers(light.data, &dark.data);
        Ok(
            Image {
                raw_image: RawImage {
                    width: light.width,
                    height: light.height,
                    cpp: light.cpp,
                    data,
                    camera: light.camera,
                },
                exif: self.exif,
                num_images: self.num_images,
            },
        )
    }
}

impl<C> Mergable for Image<C> {
    open spec fn merge_weights(&self, other: &Image<C>, mode: MergeMode) -> (usize, usize) {
        match mode {
            MergeMode::Maximize => (1, 1),
            MergeMode::WeightedAverage => (self@.num_images, other@.num_images),
        }
    }

    open spec fn merge_outcome(
        &self,
        other: &Image<C>,
        weight_self: usize,
        weight_other: usize,
        mode: MergeMode,
        r: Result<Image<C>, MergeError>,
    ) -> bool {
        viewed(r) == merged_image(self@, other@, weight_self as nat, weight_other as nat, mode)
    }

    /// Merges planes, then records, and adds the counts.
    fn weighted_merge(self, other: Image<C>, weight_self: usize, weight_other: usize, mode: MergeMode) -> (r: Result<
        Image<C>,
        MergeError,
    >) {
        proof {
            use_type_invariant(&self);
            use_type_invariant(&other);
        }
        let raw_image = match self.raw_image.weighted_merge(other.raw_image, weight_self, weight_other, mode) {
            Ok(raw_image) => raw_image,
            Err(e) => {
                return Err(e);
            },
        };
        let exif = match self.exif.weighted_merge(other.exif, weight_self, weight_other, mode) {
            Ok(exif) => exif,
            Err(e) => {
                return Err(e);
            },
        };
        match self.num_images.checked_add(other.num_images) {
            Some(num_images) => Ok(Image { raw_image, exif, num_images }),
            None => Err(MergeError::EncodeFailed { cause: EncodeCause::CountOverflow }),
        }
    }

    /// Under the maximum both operands weigh one; under the average each
    /// weighs the number of exposures it holds.
    fn merge(self, other: Image<C>, mode: MergeMode) -> (r: Result<Image<C>, MergeError>) {
        proof {
            use_type_invariant(&self);
            use_type_invariant(&other);
        }
        let weight_self: usize = self.num_images;
        let weight_other: usize = other.num_images;
        match mode {
            MergeMode::Maximize => self.weighted_merge(other, 1, 1, mode),
            MergeMode::WeightedAverage => self.weighted_merge(other, weight_self, weight_other, mode),
        }
    }
}

/// Merging under the maximum gives the same samples whichever operand
/// stands left.
pub proof fn lemma_merge_commutes<C>(a: RawImageView<C>, b: RawImageView<C>, weight_a: nat, weight_b: nat)
    requires
        a.wf(),
        b.wf(),
        a.dimensions() == b.dimensions(),
    ensures
        merged_raw(a, b, weight_a, weight_b, MergeMode::Maximize) is Ok,
        merged_raw(b, a, weight_b, weight_a, MergeMode::Maximize) is Ok,
        merged_raw(a, b, weight_a, weight_b, MergeMode::Maximize)->Ok_0.data == merged_raw(
            b,
            a,
            weight_b,
            weight_a,
            MergeMode::Maximize,
        )->Ok_0.data,
{
    assert(a.data.len() == b.data.len());
    lemma_maximize_commutes(a.data, b.data, weight_a, weight_b);
}

/// Merging three planes under the maximum gives the same samples however
/// they are paired.
pub proof fn lemma_merge_associates<C>(a: RawImageView<C>, b: RawImageView<C>, c: RawImageView<C>)
    requires
        a.wf(),
        b.wf(),
        c.wf(),
        a.dimensions() == b.dimensions(),
        b.dimensions() == c.dimensions(),
    ensures
        merged_raw(a, b, 1, 1, MergeMode::Maximize) is Ok,
        merged_raw(b, c, 1, 1, MergeMode::Maximize) is Ok,
        merged_raw(merged_raw(a, b, 1, 1, MergeMode::Maximize)->Ok_0, c, 1, 1, MergeMode::Maximize) is Ok,
        merged_raw(a, merged_raw(b, c, 1, 1, MergeMode::Maximize)->Ok_0, 1, 1, MergeMode::Maximize) is Ok,
        merged_raw(merged_raw(a, b, 1, 1, MergeMode::Maximize)->Ok_0, c, 1, 1, MergeMode::Maximize)->Ok_0.data
            == merged_raw(a, merged_raw(b, c, 1, 1, MergeMode::Maximize)->Ok_0, 1, 1, MergeMode::Maximize)->Ok_0.data,
{
    assert(a.data.len() == b.data.len());
    assert(b.data.len() == c.data.len());
    lemma_maximize_associates(a.data, b.data, c.data, 1);
}

/// Images that differ in width, height or components do not merge: the
/// mismatch is reported, whatever the weights and the mode.
pub proof fn lemma_mismatch_is_reported<C>(
    a: ImageView<C>,
    b: ImageView<C>,
    weight_a: nat,
    weight_b: nat,
    mode: MergeMode,
)
    requires
        a.raw_image.width != b.raw_image.width || a.raw_image.height != b.raw_image.height || a.raw_image.cpp
            != b.raw_image.cpp,
    ensures
        merged_image(a, b, weight_a, weight_b, mode) == Err::<ImageView<C>, MergeError>(
            MergeError::DimensionMismatch { left: a.raw_image.dimensions(), right: b.raw_image.dimensions() },
        ),
{
}

/// A merged image holds as many exposures as its operands together, and
/// has the dimensions and the camera data of the left operand.
pub proof fn lemma_merged_counts_add<C>(
    a: ImageView<C>,
    b: ImageView<C>,
    weight_a: nat,
    weight_b: nat,
    mode: MergeMode,
)
    requires
        merged_image(a, b, weight_a, weight_b, mode) is Ok,
    ensures
        merged_image(a, b, weight_a, weight_b, mode)->Ok_0.num_images == a.num_images + b.num_images,
        merged_image(a, b, weight_a, weight_b, mode)->Ok_0.raw_image.dimensions() == a.raw_image.dimensions(),
        merged_image(a, b, weight_a, weight_b, mode)->Ok_0.raw_image.camera == a.raw_image.camera,
{
}

/// Subtracting a dark stack whose samples are all alike leaves the light
/// stack as it is, for light samples below 32768 (which read the same as
/// signed and as unsigned numbers).
pub proof fn lemma_flat_dark_is_neutral<C>(light: ImageView<C>, dark: ImageView<C>, level: u16)
    requires
        light.raw_image.wf(),
        dark.raw_image.wf(),
        light.raw_image.dimensions() == dark.raw_image.dimensions(),
        forall|k: int| 0 <= k < dark.raw_image.data.len() ==> dark.raw_image.data[k] == level,
        forall|k: int| 0 <= k < light.raw_image.data.len() ==> light.raw_image.data[k] < 32768,
    ensures
        darkframe_applied(light, dark) == Ok::<ImageView<C>, MergeError>(light),
{
    assert(light.raw_image.data.len() == dark.raw_image.data.len());
    lemma_constant_dark_is_neutral(light.raw_image.data, dark.raw_image.data, level);
}

} // verus!
