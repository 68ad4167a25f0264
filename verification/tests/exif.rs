use startrails::errors::{EncodeCause, MergeError};
use startrails::exif::{equal_exif_entry, max_exif_entry, min_exif_entry, Exif, ExifGps};
use startrails::mergable::Mergable;
use startrails::pixels::MergeMode;
use startrails::rational::{add_tiff_rational, Rational, SRational};

fn with_iso(iso: u16) -> Exif {
    let mut exif = Exif::empty();
    exif.iso_speed_ratings = Some(iso);
    exif.exposure_time = Some(Rational::new(1, 1));
    exif
}

fn empty_gps() -> ExifGps {
    ExifGps {
        gps_version_id: None,
        gps_latitude_ref: Some(String::from("N")),
        gps_latitude: None,
        gps_longitude_ref: None,
        gps_longitude: None,
        gps_altitude_ref: None,
        gps_altitude: None,
        gps_timestamp: None,
        gps_satellites: None,
        gps_status: None,
        gps_measure_mode: None,
        gps_dop: None,
        gps_speed_ref: None,
        gps_speed: None,
        gps_track_ref: None,
        gps_track: None,
        gps_img_direction_ref: None,
        gps_img_direction: None,
        gps_map_datum: None,
        gps_dest_latitude_ref: None,
        gps_dest_latitude: None,
        gps_dest_longitude_ref: None,
        gps_dest_longitude: None,
        gps_dest_bearing_ref: None,
        gps_dest_bearing: None,
        gps_dest_distance_ref: None,
        gps_dest_distance: None,
        gps_processing_method: None,
        gps_area_information: None,
        gps_date_stamp: None,
        gps_differential: None,
        gps_h_positioning_error: None,
    }
}

#[test]
fn rational_sum_is_reduced() {
    let sum = add_tiff_rational(Some(Rational::new(1, 2)), Some(Rational::new(1, 3)));
    assert_eq!(sum, Ok(Some(Rational::new(5, 6))));
    let sum = add_tiff_rational(Some(Rational::new(1, 2)), Some(Rational::new(1, 2)));
    assert_eq!(sum, Ok(Some(Rational::new(1, 1))));
    let sum = add_tiff_rational(Some(Rational::new(2, 4)), Some(Rational::new(3, 6)));
    assert_eq!(sum, Ok(Some(Rational::new(1, 1))));
    let sum = add_tiff_rational(Some(Rational::new(1, 4)), Some(Rational::new(1, 4)));
    assert_eq!(sum, Ok(Some(Rational::new(1, 2))));
}

#[test]
fn rational_sum_of_zeros_is_zero_over_one() {
    let sum = add_tiff_rational(Some(Rational::new(0, 5)), Some(Rational::new(0, 7)));
    assert_eq!(sum, Ok(Some(Rational::new(0, 1))));
}

#[test]
fn rational_sum_is_absent_when_an_operand_is() {
    assert_eq!(add_tiff_rational(None, Some(Rational::new(1, 2))), Ok(None));
    assert_eq!(add_tiff_rational(Some(Rational::new(1, 2)), None), Ok(None));
    assert_eq!(add_tiff_rational(None, None), Ok(None));
    assert_eq!(add_tiff_rational(None, Some(Rational::new(1, 0))), Ok(None));
}

#[test]
fn rational_sum_rejects_a_zero_denominator() {
    let error = MergeError::EncodeFailed { cause: EncodeCause::ZeroDenominator };
    assert_eq!(add_tiff_rational(Some(Rational::new(1, 0)), Some(Rational::new(1, 2))), Err(error.clone()));
    assert_eq!(add_tiff_rational(Some(Rational::new(1, 2)), Some(Rational::new(0, 0))), Err(error));
}

#[test]
fn rational_sum_reports_overflow() {
    let error = MergeError::EncodeFailed { cause: EncodeCause::RationalOverflow };
    // The numerator of the sum passes 32 bits.
    let sum = add_tiff_rational(Some(Rational::new(u32::MAX, 1)), Some(Rational::new(1, 1)));
    assert_eq!(sum, Err(error.clone()));
    // The denominator of the sum, a product of two primes, passes 32 bits.
    let sum = add_tiff_rational(Some(Rational::new(1, 65537)), Some(Rational::new(1, 65539)));
    assert_eq!(sum, Err(error));
}

#[test]
fn rational_sum_at_the_edge_of_32_bits() {
    let sum = add_tiff_rational(Some(Rational::new(u32::MAX - 1, 1)), Some(Rational::new(1, 1)));
    assert_eq!(sum, Ok(Some(Rational::new(u32::MAX, 1))));
    let sum = add_tiff_rational(Some(Rational::new(u32::MAX, u32::MAX)), Some(Rational::new(u32::MAX, u32::MAX)));
    assert_eq!(sum, Ok(Some(Rational::new(2, 1))));
}

#[test]
fn rationals_are_equal_field_by_field() {
    assert!(Rational::new(1, 2) == Rational::new(1, 2));
    assert!(Rational::new(1, 2) != Rational::new(2, 4));
    assert!(SRational::new(-1, 2) == SRational::new(-1, 2));
    assert!(SRational::new(-1, 2) != SRational::new(1, -2));
}

#[test]
fn equal_entries_are_kept() {
    assert_eq!(equal_exif_entry(Some(100u16), Some(100u16)), Some(100));
    assert_eq!(equal_exif_entry(Some(String::from("Ada")), Some(String::from("Ada"))), Some(String::from("Ada")));
    assert_eq!(equal_exif_entry(Some(Rational::new(28, 10)), Some(Rational::new(28, 10))), Some(Rational::new(28, 10)));
}

#[test]
fn unequal_or_missing_entries_are_dropped() {
    assert_eq!(equal_exif_entry(Some(100u16), Some(200u16)), None);
    assert_eq!(equal_exif_entry(Some(100u16), None), None);
    assert_eq!(equal_exif_entry(None, Some(100u16)), None);
    assert_eq!(equal_exif_entry::<u16>(None, None), None);
    assert_eq!(equal_exif_entry(Some(Rational::new(28, 10)), Some(Rational::new(14, 5))), None);
    assert_eq!(equal_exif_entry(Some(String::from("Ada")), Some(String::from("ada"))), None);
}

#[test]
fn min_entry_is_the_earlier_timestamp() {
    let a = Some(String::from("2023:01:02 03:04:05"));
    let b = Some(String::from("2023:01:02 03:04:06"));
    assert_eq!(min_exif_entry(a.clone(), b.clone()), a);
    assert_eq!(min_exif_entry(b.clone(), a.clone()), a);
    assert_eq!(min_exif_entry(a.clone(), a.clone()), a);
    assert_eq!(min_exif_entry(a.clone(), None), None);
    assert_eq!(min_exif_entry(None, b.clone()), None);
}

#[test]
fn max_entry_is_the_later_timestamp() {
    let a = Some(String::from("2023:01:02 03:04:05"));
    let b = Some(String::from("2023:01:02 03:04:06"));
    assert_eq!(max_exif_entry(a.clone(), b.clone()), b);
    assert_eq!(max_exif_entry(b.clone(), a.clone()), b);
    assert_eq!(max_exif_entry(b.clone(), b.clone()), b);
    assert_eq!(max_exif_entry(a.clone(), None), None);
    assert_eq!(max_exif_entry(None, None), None);
}

#[test]
fn text_order_puts_a_prefix_first() {
    let short = Some(String::from("2023"));
    let long = Some(String::from("2023:01"));
    assert_eq!(min_exif_entry(long.clone(), short.clone()), short);
    assert_eq!(max_exif_entry(long.clone(), short.clone()), long);
    let empty = Some(String::new());
    assert_eq!(min_exif_entry(short.clone(), empty.clone()), empty);
}

#[test]
fn merged_iso_is_dropped_when_sources_differ() {
    let merged = with_iso(100).merge(with_iso(100), MergeMode::Maximize).unwrap();
    let merged = merged.merge(with_iso(200), MergeMode::Maximize).unwrap();
    assert_eq!(merged.iso_speed_ratings, None);
}

#[test]
fn merged_iso_is_kept_when_sources_agree() {
    let merged = with_iso(100).merge(with_iso(100), MergeMode::Maximize).unwrap();
    let merged = merged.merge(with_iso(100), MergeMode::Maximize).unwrap();
    assert_eq!(merged.iso_speed_ratings, Some(100));
}

#[test]
fn merged_iso_does_not_depend_on_the_pairing() {
    let left = with_iso(100).merge(with_iso(200), MergeMode::Maximize).unwrap();
    let left = left.merge(with_iso(200), MergeMode::Maximize).unwrap();
    let right = with_iso(200).merge(with_iso(200), MergeMode::Maximize).unwrap();
    let right = with_iso(100).merge(right, MergeMode::Maximize).unwrap();
    assert_eq!(left.iso_speed_ratings, None);
    assert_eq!(right.iso_speed_ratings, None);
}

#[test]
fn merged_exposure_time_is_the_sum() {
    let merged = with_iso(100).merge(with_iso(100), MergeMode::Maximize).unwrap();
    let merged = merged.merge(with_iso(100), MergeMode::Maximize).unwrap();
    assert_eq!(merged.exposure_time, Some(Rational::new(3, 1)));
    let mut a = Exif::empty();
    a.exposure_time = Some(Rational::new(1, 30));
    let mut b = Exif::empty();
    b.exposure_time = Some(Rational::new(1, 60));
    assert_eq!(a.merge(b, MergeMode::Maximize).unwrap().exposure_time, Some(Rational::new(1, 20)));
}

#[test]
fn merged_exposure_time_is_absent_when_a_source_lacks_it() {
    let mut lacking = Exif::empty();
    lacking.iso_speed_ratings = Some(100);
    let merged = with_iso(100).merge(lacking, MergeMode::Maximize).unwrap();
    assert_eq!(merged.exposure_time, None);
    assert_eq!(merged.iso_speed_ratings, Some(100));
    let merged = merged.merge(with_iso(100), MergeMode::Maximize).unwrap();
    assert_eq!(merged.exposure_time, None);
}

#[test]
fn merge_fails_where_the_exposure_sum_does() {
    let mut a = Exif::empty();
    a.exposure_time = Some(Rational::new(u32::MAX, 1));
    let mut b = Exif::empty();
    b.exposure_time = Some(Rational::new(1, 1));
    assert_eq!(
        a.merge(b, MergeMode::Maximize),
        Err(MergeError::EncodeFailed { cause: EncodeCause::RationalOverflow })
    );
    let mut a = Exif::empty();
    a.exposure_time = Some(Rational::new(1, 0));
    let mut b = Exif::empty();
    b.exposure_time = Some(Rational::new(1, 1));
    assert_eq!(
        a.weighted_merge(b, 3, 4, MergeMode::WeightedAverage),
        Err(MergeError::EncodeFailed { cause: EncodeCause::ZeroDenominator })
    );
}

#[test]
fn merged_dates_take_the_earliest_capture_and_the_latest_change() {
    let mut a = Exif::empty();
    a.date_time_original = Some(String::from("2023:05:01 22:00:00"));
    a.create_date = Some(String::from("2023:05:01 22:00:01"));
    a.modify_date = Some(String::from("2023:05:02 08:00:00"));
    let mut b = Exif::empty();
    b.date_time_original = Some(String::from("2023:05:01 21:59:30"));
    b.create_date = Some(String::from("2023:05:01 22:30:00"));
    b.modify_date = Some(String::from("2023:05:03 09:00:00"));
    let merged = a.merge(b, MergeMode::Maximize).unwrap();
    assert_eq!(merged.date_time_original, Some(String::from("2023:05:01 21:59:30")));
    assert_eq!(merged.create_date, Some(String::from("2023:05:01 22:00:01")));
    assert_eq!(merged.modify_date, Some(String::from("2023:05:03 09:00:00")));
}

#[test]
fn merged_record_drops_sub_seconds_and_position() {
    let mut a = Exif::empty();
    a.sub_sec_time = Some(String::from("12"));
    a.sub_sec_time_original = Some(String::from("12"));
    a.sub_sec_time_digitized = Some(String::from("12"));
    a.gps = Some(empty_gps());
    let b = a.clone();
    let merged = a.merge(b, MergeMode::Maximize).unwrap();
    assert_eq!(merged.sub_sec_time, None);
    assert_eq!(merged.sub_sec_time_original, None);
    assert_eq!(merged.sub_sec_time_digitized, None);
    assert_eq!(merged.gps, None);
}

#[test]
fn merged_record_keeps_every_agreeing_field() {
    let mut a = Exif::empty();
    a.orientation = Some(1);
    a.copyright = Some(String::from("me"));
    a.artist = Some(String::from("Ada"));
    a.lens_spec =
        Some([Rational::new(24, 1), Rational::new(70, 1), Rational::new(28, 10), Rational::new(28, 10)]);
    a.fnumber = Some(Rational::new(28, 10));
    a.aperture_value = Some(Rational::new(3, 1));
    a.brightness_value = Some(SRational::new(-5, 2));
    a.iso_speed = Some(1600);
    a.recommended_exposure_index = Some(1600);
    a.sensitivity_type = Some(2);
    a.exposure_bias = Some(SRational::new(0, 1));
    a.exposure_program = Some(1);
    a.timezone_offset = Some(vec![1, 1]);
    a.offset_time = Some(String::from("+01:00"));
    a.offset_time_original = Some(String::from("+01:00"));
    a.offset_time_digitized = Some(String::from("+01:00"));
    a.shutter_speed_value = Some(SRational::new(-4, 1));
    a.max_aperture_value = Some(Rational::new(3, 1));
    a.subject_distance = Some(Rational::new(0, 1));
    a.metering_mode = Some(5);
    a.light_source = Some(0);
    a.flash = Some(16);
    a.focal_length = Some(Rational::new(24, 1));
    a.image_number = Some(7);
    a.color_space = Some(1);
    a.flash_energy = Some(Rational::new(0, 1));
    a.exposure_mode = Some(1);
    a.white_balance = Some(0);
    a.scene_capture_type = Some(3);
    a.subject_distance_range = Some(0);
    a.owner_name = Some(String::from("Ada"));
    a.serial_number = Some(String::from("123"));
    a.lens_serial_number = Some(String::from("456"));
    a.lens_make = Some(String::from("Lens Co"));
    a.lens_model = Some(String::from("24-70"));
    let b = a.clone();
    let merged = a.clone().merge(b, MergeMode::WeightedAverage).unwrap();
    assert_eq!(merged, a);
}

#[test]
fn merged_record_drops_every_disagreeing_field() {
    let mut a = Exif::empty();
    a.orientation = Some(1);
    a.artist = Some(String::from("Ada"));
    a.lens_spec =
        Some([Rational::new(24, 1), Rational::new(70, 1), Rational::new(28, 10), Rational::new(28, 10)]);
    a.brightness_value = Some(SRational::new(-5, 2));
    a.timezone_offset = Some(vec![1, 1]);
    a.image_number = Some(7);
    let mut b = Exif::empty();
    b.orientation = Some(3);
    b.artist = Some(String::from("Bob"));
    b.lens_spec =
        Some([Rational::new(24, 1), Rational::new(70, 1), Rational::new(28, 10), Rational::new(40, 10)]);
    b.brightness_value = Some(SRational::new(5, 2));
    b.timezone_offset = Some(vec![1]);
    b.image_number = Some(8);
    let merged = a.merge(b, MergeMode::Maximize).unwrap();
    assert_eq!(merged, Exif::empty());
}

#[test]
fn the_default_record_is_empty() {
    assert_eq!(Exif::default(), Exif::empty());
    assert_eq!(Exif::empty().iso_speed_ratings, None);
    assert_eq!(Exif::empty().exposure_time, None);
}
