use startrails::errors::{Dimensions, EncodeCause, MergeError};
use startrails::exif::Exif;
use startrails::frame::{Frame, Stack};
use startrails::image::{Image, RawImage};
use startrails::mergable::Mergable;
use startrails::pixels::MergeMode;
use startrails::rational::Rational;

fn plane(width: usize, height: usize, data: Vec<u16>) -> RawImage<&'static str> {
    RawImage::new(width, height, 1, data, "camera").unwrap()
}

fn exposure(seconds: u32) -> Exif {
    let mut exif = Exif::empty();
    exif.exposure_time = Some(Rational::new(seconds, 1));
    exif.iso_speed_ratings = Some(800);
    exif
}

fn uniform(width: usize, height: usize, level: u16) -> Image<&'static str> {
    Image::new(plane(width, height, vec![level; width * height]), exposure(1))
}

#[test]
fn a_plane_needs_one_sample_per_component() {
    assert!(RawImage::new(2, 3, 1, vec![0u16; 6], ()).is_some());
    assert!(RawImage::new(2, 3, 3, vec![0u16; 18], ()).is_some());
    assert!(RawImage::new(2, 3, 1, vec![0u16; 5], ()).is_none());
    assert!(RawImage::new(2, 3, 1, vec![0u16; 7], ()).is_none());
    assert!(RawImage::new(0, 3, 1, Vec::new(), ()).is_some());
    assert!(RawImage::new(2, 3, 0, Vec::new(), ()).is_some());
    assert!(RawImage::new(2, 3, 0, vec![0u16; 6], ()).is_none());
}

#[test]
fn a_plane_whose_size_does_not_fit_the_machine_is_refused() {
    assert!(RawImage::new(usize::MAX, 2, 1, vec![0u16; 2], ()).is_none());
    assert!(RawImage::new(usize::MAX, usize::MAX, 2, Vec::new(), ()).is_none());
    assert!(RawImage::new(usize::MAX, usize::MAX, 0, Vec::new(), ()).is_some());
    assert!(RawImage::new(1 << 40, 1 << 40, 1, Vec::new(), ()).is_none());
}

#[test]
fn a_plane_gives_back_its_parts() {
    let raw = RawImage::new(2, 1, 1, vec![7u16, 9], "cam").unwrap();
    assert_eq!(raw.width(), 2);
    assert_eq!(raw.height(), 1);
    assert_eq!(raw.cpp(), 1);
    assert_eq!(raw.data(), &vec![7u16, 9]);
    assert_eq!(*raw.camera(), "cam");
    assert_eq!(raw.dimensions(), Dimensions { width: 2, height: 1, cpp: 1 });
    let copy = raw.clone();
    assert_eq!(copy.data(), raw.data());
    assert_eq!(raw.into_parts(), (2, 1, 1, vec![7u16, 9], "cam"));
}

#[test]
fn merging_planes_keeps_the_left_camera() {
    let left = RawImage::new(2, 1, 1, vec![1u16, 9], "left").unwrap();
    let right = RawImage::new(2, 1, 1, vec![5u16, 2], "right").unwrap();
    let merged = left.merge(right, MergeMode::Maximize).unwrap();
    assert_eq!(merged.data(), &vec![5u16, 9]);
    assert_eq!(*merged.camera(), "left");
}

#[test]
fn merging_planes_with_weights() {
    let left = plane(2, 1, vec![100, 0]);
    let right = plane(2, 1, vec![0, 100]);
    let merged = left.weighted_merge(right, 3, 1, MergeMode::WeightedAverage).unwrap();
    assert_eq!(merged.data(), &vec![75u16, 25]);
}

#[test]
fn a_new_image_holds_one_exposure() {
    let image = uniform(2, 2, 5);
    assert_eq!(image.num_images(), 1);
    assert_eq!(image.exif().iso_speed_ratings, Some(800));
    assert_eq!(image.raw_image().data(), &vec![5u16; 4]);
}

#[test]
fn merged_image_counts_its_sources() {
    let merged = uniform(2, 2, 5).merge(uniform(2, 2, 6), MergeMode::Maximize).unwrap();
    assert_eq!(merged.num_images(), 2);
    let merged = merged.merge(uniform(2, 2, 4), MergeMode::Maximize).unwrap();
    assert_eq!(merged.num_images(), 3);
    let pair = uniform(2, 2, 1).merge(uniform(2, 2, 2), MergeMode::Maximize).unwrap();
    assert_eq!(merged.merge(pair, MergeMode::Maximize).unwrap().num_images(), 5);
}

#[test]
fn merged_image_sums_the_exposure() {
    let merged = uniform(2, 2, 5).merge(uniform(2, 2, 6), MergeMode::Maximize).unwrap();
    assert_eq!(merged.exif().exposure_time, Some(Rational::new(2, 1)));
    assert_eq!(merged.exif().iso_speed_ratings, Some(800));
    assert_eq!(merged.raw_image().data(), &vec![6u16; 4]);
}

#[test]
fn dark_average_weighs_each_side_by_its_count() {
    // Two darks at 100 against one at 400: (100 * 2 + 400 * 1) / 3 = 200.
    let pair = uniform(1, 1, 100).merge(uniform(1, 1, 100), MergeMode::WeightedAverage).unwrap();
    let merged = pair.merge(uniform(1, 1, 400), MergeMode::WeightedAverage).unwrap();
    assert_eq!(merged.raw_image().data(), &vec![200u16]);
    assert_eq!(merged.num_images(), 3);
}

#[test]
fn dark_average_does_not_depend_on_the_pairing() {
    let left = uniform(1, 1, 90)
        .merge(uniform(1, 1, 120), MergeMode::WeightedAverage)
        .unwrap()
        .merge(uniform(1, 1, 150), MergeMode::WeightedAverage)
        .unwrap();
    let tail = uniform(1, 1, 120).merge(uniform(1, 1, 150), MergeMode::WeightedAverage).unwrap();
    let right = uniform(1, 1, 90).merge(tail, MergeMode::WeightedAverage).unwrap();
    assert_eq!(left.raw_image().data(), &vec![120u16]);
    assert_eq!(right.raw_image().data(), &vec![120u16]);
}

#[test]
fn merging_images_of_different_height_is_a_mismatch() {
    let a = uniform(100, 100, 1);
    let b = uniform(100, 101, 1);
    let error = a.merge(b, MergeMode::Maximize).unwrap_err();
    assert_eq!(
        error,
        MergeError::DimensionMismatch {
            left: Dimensions { width: 100, height: 100, cpp: 1 },
            right: Dimensions { width: 100, height: 101, cpp: 1 },
        }
    );
}

#[test]
fn merging_images_of_different_width_or_components_is_a_mismatch() {
    let error = uniform(4, 2, 1).merge(uniform(2, 4, 1), MergeMode::WeightedAverage).unwrap_err();
    assert_eq!(
        error,
        MergeError::DimensionMismatch {
            left: Dimensions { width: 4, height: 2, cpp: 1 },
            right: Dimensions { width: 2, height: 4, cpp: 1 },
        }
    );
    let one = Image::new(RawImage::new(3, 1, 1, vec![0u16; 3], "camera").unwrap(), Exif::empty());
    let three = Image::new(RawImage::new(1, 1, 3, vec![0u16; 3], "camera").unwrap(), Exif::empty());
    assert!(matches!(one.merge(three, MergeMode::Maximize), Err(MergeError::DimensionMismatch { .. })));
}

#[test]
fn a_mismatch_is_reported_before_a_failing_record() {
    let mut exif = Exif::empty();
    exif.exposure_time = Some(Rational::new(1, 0));
    let a = Image::new(plane(1, 2, vec![0, 0]), exif.clone());
    let b = Image::new(plane(2, 1, vec![0, 0]), exif.clone());
    assert!(matches!(a.merge(b, MergeMode::Maximize), Err(MergeError::DimensionMismatch { .. })));
    let a = Image::new(plane(1, 2, vec![0, 0]), exif.clone());
    let b = Image::new(plane(1, 2, vec![0, 0]), exif);
    assert_eq!(
        a.merge(b, MergeMode::Maximize).unwrap_err(),
        MergeError::EncodeFailed { cause: EncodeCause::ZeroDenominator }
    );
}

#[test]
fn applying_a_darkframe_subtracts_its_structure() {
    let light = uniform(4, 4, 2000);
    let mut first = vec![100u16; 16];
    first[0] = 1000;
    let mut second = vec![100u16; 16];
    second[0] = 500;
    let dark = Image::new(plane(4, 4, first), exposure(1))
        .merge(Image::new(plane(4, 4, second), exposure(1)), MergeMode::WeightedAverage)
        .unwrap();
    let mut averaged = vec![100u16; 16];
    averaged[0] = 750;
    assert_eq!(dark.raw_image().data(), &averaged);
    let result = light.apply_darkframe(dark).unwrap();
    let mut expected = vec![2040u16; 16];
    expected[0] = 1390;
    assert_eq!(result.raw_image().data(), &expected);
    assert_eq!(result.num_images(), 1);
    assert_eq!(result.exif().exposure_time, Some(Rational::new(1, 1)));
}

#[test]
fn applying_a_flat_darkframe_changes_nothing() {
    let light = Image::new(plane(2, 2, vec![0, 17, 2000, 32767]), exposure(30));
    let dark = uniform(2, 2, 512);
    let result = light.apply_darkframe(dark).unwrap();
    assert_eq!(result.raw_image().data(), &vec![0u16, 17, 2000, 32767]);
    assert_eq!(result.exif().exposure_time, Some(Rational::new(30, 1)));
}

#[test]
fn applying_a_darkframe_of_other_dimensions_is_a_mismatch() {
    let error = uniform(2, 2, 1).apply_darkframe(uniform(4, 1, 1)).unwrap_err();
    assert_eq!(
        error,
        MergeError::DimensionMismatch {
            left: Dimensions { width: 2, height: 2, cpp: 1 },
            right: Dimensions { width: 4, height: 1, cpp: 1 },
        }
    );
}

#[test]
fn merging_with_the_identity_gives_the_frame_back() {
    let mut exif = exposure(4);
    exif.artist = Some(String::from("Ada"));
    let image = Image::new(plane(2, 2, vec![1, 2, 3, 65535]), exif.clone());
    let merged = Frame::identity().merge(Frame::from_light(image)).unwrap();
    let (light, dark) = merged.into_parts();
    assert!(dark.is_identity());
    let merged = light.merge(Frame::identity()).unwrap();
    let image = merged.finish().unwrap().unwrap();
    assert_eq!(image.raw_image().data(), &vec![1u16, 2, 3, 65535]);
    assert_eq!(image.exif(), &exif);
    assert_eq!(image.num_images(), 1);
}

#[test]
fn merging_a_dark_with_the_identity_gives_the_dark_back() {
    let dark = Image::new(plane(1, 2, vec![300, 65535]), exposure(7));
    let (light, dark) = Frame::from_dark(dark).merge(Frame::identity()).unwrap().into_parts();
    assert!(light.is_identity());
    match dark {
        Frame::Dark(image) => {
            assert_eq!(image.raw_image().data(), &vec![300u16, 65535]);
            assert_eq!(image.exif(), &exposure(7));
            assert_eq!(image.num_images(), 1);
        }
        other => panic!("expected a dark frame, got {:?}", other),
    }
}

#[test]
fn merging_identities_gives_the_identity() {
    let (light, dark) = Frame::<()>::identity().merge(Frame::identity()).unwrap().into_parts();
    assert!(light.is_identity());
    assert!(dark.is_identity());
    assert!(Frame::<()>::identity().get_image().is_none());
}

#[test]
fn light_frames_merge_under_the_maximum() {
    let a = Frame::from_light(Image::new(plane(2, 1, vec![1, 9]), exposure(1)));
    let b = Frame::from_light(Image::new(plane(2, 1, vec![5, 2]), exposure(1)));
    let (light, dark) = a.merge(b).unwrap().into_parts();
    assert!(dark.is_identity());
    let image = light.get_image().unwrap();
    assert_eq!(image.raw_image().data(), &vec![5u16, 9]);
    assert_eq!(image.num_images(), 2);
}

#[test]
fn dark_frames_merge_under_the_mean() {
    let a = Frame::from_dark(Image::new(plane(2, 1, vec![1000, 100]), exposure(1)));
    let b = Frame::from_dark(Image::new(plane(2, 1, vec![500, 100]), exposure(1)));
    let (light, dark) = a.merge(b).unwrap().into_parts();
    assert!(light.is_identity());
    match dark {
        Frame::Dark(image) => {
            assert_eq!(image.raw_image().data(), &vec![750u16, 100]);
            assert_eq!(image.num_images(), 2);
        }
        other => panic!("expected a dark frame, got {:?}", other),
    }
}

#[test]
fn a_light_and_a_dark_stand_side_by_side() {
    let light = || Frame::from_light(uniform(2, 1, 2000));
    let dark = || Frame::from_dark(Image::new(plane(2, 1, vec![300, 100]), exposure(1)));
    for merged in [light().merge(dark()).unwrap(), dark().merge(light()).unwrap()] {
        let (l, d) = merged.into_parts();
        match (&l, &d) {
            (Frame::Light(l), Frame::Dark(d)) => {
                assert_eq!(l.raw_image().data(), &vec![2000u16, 2000]);
                assert_eq!(d.raw_image().data(), &vec![300u16, 100]);
            }
            other => panic!("expected a light beside a dark, got {:?}", other),
        }
        let image = Stack::from_parts(l, d).unwrap().finish().unwrap().unwrap();
        assert_eq!(image.raw_image().data(), &vec![1900u16, 2100]);
    }
}

#[test]
fn stacks_merge_lights_with_lights_and_darks_with_darks() {
    let stack = |light: u16, dark: u16| {
        Stack::from_parts(Frame::from_light(uniform(1, 1, light)), Frame::from_dark(uniform(1, 1, dark))).unwrap()
    };
    let (light, dark) = stack(10, 100).merge(stack(30, 200)).unwrap().into_parts();
    match (light, dark) {
        (Frame::Light(l), Frame::Dark(d)) => {
            assert_eq!(l.raw_image().data(), &vec![30u16]);
            assert_eq!(l.num_images(), 2);
            assert_eq!(d.raw_image().data(), &vec![150u16]);
            assert_eq!(d.num_images(), 2);
        }
        other => panic!("expected a light beside a dark, got {:?}", other),
    }
    let merged = Stack::identity().merge(stack(10, 100)).unwrap().merge(Stack::identity()).unwrap();
    assert_eq!(merged.finish().unwrap().unwrap().raw_image().data(), &vec![10u16]);
}

#[test]
fn stacks_report_the_failure_of_the_lights_first() {
    let lights = Stack::from_parts(Frame::from_light(uniform(1, 2, 1)), Frame::from_dark(uniform(3, 1, 1))).unwrap();
    let other = Stack::from_parts(Frame::from_light(uniform(2, 1, 1)), Frame::from_dark(uniform(1, 3, 1))).unwrap();
    assert_eq!(
        lights.merge(other).unwrap_err(),
        MergeError::DimensionMismatch {
            left: Dimensions { width: 1, height: 2, cpp: 1 },
            right: Dimensions { width: 2, height: 1, cpp: 1 },
        }
    );
}

#[test]
fn a_dark_frame_holds_no_final_image() {
    assert!(Frame::from_dark(uniform(1, 1, 3)).get_image().is_none());
}

#[test]
fn frame_merge_reports_a_mismatch() {
    let a = Frame::from_light(uniform(100, 100, 1));
    let b = Frame::from_light(uniform(100, 101, 1));
    assert!(matches!(a.merge(b), Err(MergeError::DimensionMismatch { .. })));
}

#[test]
fn a_stack_keeps_lights_and_darks_apart() {
    let (light, dark) = Stack::from_frame(Frame::from_light(uniform(1, 1, 3))).into_parts();
    assert!(matches!(light, Frame::Light(_)));
    assert!(dark.is_identity());
    let (light, dark) = Stack::from_frame(Frame::from_dark(uniform(1, 1, 3))).into_parts();
    assert!(light.is_identity());
    assert!(matches!(dark, Frame::Dark(_)));
    let (light, dark) = Stack::<()>::identity().into_parts();
    assert!(light.is_identity());
    assert!(dark.is_identity());
}

#[test]
fn a_stack_takes_each_part_only_of_its_kind() {
    assert!(Stack::from_parts(Frame::from_light(uniform(1, 1, 3)), Frame::from_dark(uniform(1, 1, 3))).is_some());
    assert!(Stack::from_parts(Frame::from_light(uniform(1, 1, 3)), Frame::identity()).is_some());
    assert!(Stack::from_parts(Frame::identity(), Frame::from_dark(uniform(1, 1, 3))).is_some());
    assert!(Stack::from_parts(Frame::from_dark(uniform(1, 1, 3)), Frame::identity()).is_none());
    assert!(Stack::from_parts(Frame::identity(), Frame::from_light(uniform(1, 1, 3))).is_none());
}

#[test]
fn finishing_a_stack_without_darks_gives_the_lights() {
    let stack = Stack::from_frame(Frame::from_light(uniform(2, 1, 77)));
    let image = stack.finish().unwrap().unwrap();
    assert_eq!(image.raw_image().data(), &vec![77u16, 77]);
}

#[test]
fn finishing_a_stack_without_lights_gives_nothing() {
    assert!(Stack::<()>::identity().finish().unwrap().is_none());
    assert!(Stack::from_frame(Frame::from_dark(uniform(2, 1, 77))).finish().unwrap().is_none());
}

#[test]
fn finishing_a_stack_subtracts_the_darks() {
    let light = Frame::from_light(uniform(2, 1, 2000));
    let dark = Frame::from_dark(Image::new(plane(2, 1, vec![300, 100]), exposure(1)));
    let image = Stack::from_parts(light, dark).unwrap().finish().unwrap().unwrap();
    // The mean dark level is 200: 2000 - (300 - 200) and 2000 - (100 - 200).
    assert_eq!(image.raw_image().data(), &vec![1900u16, 2100]);
}

#[test]
fn finishing_a_stack_reports_a_mismatch() {
    let light = Frame::from_light(uniform(2, 1, 2000));
    let dark = Frame::from_dark(uniform(1, 2, 100));
    let result = Stack::from_parts(light, dark).unwrap().finish();
    assert!(matches!(result, Err(MergeError::DimensionMismatch { .. })));
}

#[test]
fn an_image_can_stand_for_many_exposures() {
    let image = Image::stacked(plane(1, 1, vec![9]), exposure(30), 12).unwrap();
    assert_eq!(image.num_images(), 12);
    assert_eq!(image.exif().exposure_time, Some(Rational::new(30, 1)));
    assert!(Image::stacked(plane(1, 1, vec![9]), exposure(30), 0).is_none());
    assert!(Image::stacked(plane(1, 1, vec![9]), exposure(30), 1).is_some());
}

#[test]
fn a_stack_of_many_weighs_more_in_the_mean() {
    let many = Image::stacked(plane(1, 1, vec![100]), exposure(1), 9).unwrap();
    let merged = many.merge(uniform(1, 1, 200), MergeMode::WeightedAverage).unwrap();
    assert_eq!(merged.raw_image().data(), &vec![110u16]);
    assert_eq!(merged.num_images(), 10);
    let many = Image::stacked(plane(1, 1, vec![100]), exposure(1), 9).unwrap();
    let merged = many.merge(uniform(1, 1, 200), MergeMode::Maximize).unwrap();
    assert_eq!(merged.raw_image().data(), &vec![200u16]);
}

#[test]
fn counts_that_do_not_add_up_are_an_overflow() {
    let many = Image::stacked(plane(1, 1, vec![100]), exposure(1), usize::MAX).unwrap();
    let error = many.merge(uniform(1, 1, 200), MergeMode::Maximize).unwrap_err();
    assert_eq!(error, MergeError::EncodeFailed { cause: EncodeCause::CountOverflow });
    let many = Image::stacked(plane(1, 1, vec![100]), Exif::empty(), usize::MAX - 1).unwrap();
    let merged = many.merge(Image::new(plane(1, 1, vec![200]), Exif::empty()), MergeMode::WeightedAverage).unwrap();
    assert_eq!(merged.num_images(), usize::MAX);
    assert_eq!(merged.raw_image().data(), &vec![100u16]);
}
