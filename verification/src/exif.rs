//! The EXIF record of an exposure and the rules by which two records become
//! one.

use vstd::prelude::*;
use vstd::std_specs::cmp::PartialEqSpec;

use crate::errors::MergeError;
use crate::mergable::Mergable;
use crate::pixels::MergeMode;
use crate::rational::{add_tiff_rational, rational_sum, Rational, SRational};

verus! {

/// Where an exposure was taken. Carried with a single exposure; a merge
/// never keeps it.
#[derive(Clone, Debug, PartialEq, Eq)]
pub struct ExifGps {
    pub gps_version_id: Option<[u8; 4]>,
    pub gps_latitude_ref: Option<String>,
    pub gps_latitude: Option<[Rational; 3]>,
    pub gps_longitude_ref: Option<String>,
    pub gps_longitude: Option<[Rational; 3]>,
    pub gps_altitude_ref: Option<u8>,
    pub gps_altitude: Option<Rational>,
    pub gps_timestamp: Option<[Rational; 3]>,
    pub gps_satellites: Option<String>,
    pub gps_status: Option<String>,
    pub gps_measure_mode: Option<String>,
    pub gps_dop: Option<Rational>,
    pub gps_speed_ref: Option<String>,
    pub gps_speed: Option<Rational>,
    pub gps_track_ref: Option<String>,
    pub gps_track: Option<Rational>,
    pub gps_img_direction_ref: Option<String>,
    pub gps_img_direction: Option<Rational>,
    pub gps_map_datum: Option<String>,
    pub gps_dest_latitude_ref: Option<String>,
    pub gps_dest_latitude: Option<[Rational; 3]>,
    pub gps_dest_longitude_ref: Option<String>,
    pub gps_dest_longitude: Option<[Rational; 3]>,
    pub gps_dest_bearing_ref: Option<String>,
    pub gps_dest_bearing: Option<Rational>,
    pub gps_dest_distance_ref: Option<String>,
    pub gps_dest_distance: Option<Rational>,
    pub gps_processing_method: Option<Vec<u8>>,
    pub gps_area_information: Option<Vec<u8>>,
    pub gps_date_stamp: Option<String>,
    pub gps_differential: Option<u16>,
    pub gps_h_positioning_error: Option<Rational>,
}

/// The EXIF record. Every field is optional.
#[derive(Clone, Debug, PartialEq, Eq)]
pub struct Exif {
    pub orientation: Option<u16>,
    pub copyright: Option<String>,
    pub artist: Option<String>,
    pub lens_spec: Option<[Rational; 4]>,
    pub exposure_time: Option<Rational>,
    pub fnumber: Option<Rational>,
    pub aperture_value: Option<Rational>,
    pub brightness_value: Option<SRational>,
    pub iso_speed_ratings: Option<u16>,
    pub iso_speed: Option<u32>,
    pub recommended_exposure_index: Option<u32>,
    pub sensitivity_type: Option<u16>,
    pub exposure_bias: Option<SRational>,
    pub date_time_original: Option<String>,
    pub create_date: Option<String>,
    pub modify_date: Option<String>,
    pub exposure_program: Option<u16>,
    pub timezone_offset: Option<Vec<i16>>,
    pub offset_time: Option<String>,
    pub offset_time_original: Option<String>,
    pub offset_time_digitized: Option<String>,
    pub sub_sec_time: Option<String>,
    pub sub_sec_time_original: Option<String>,
    pub sub_sec_time_digitized: Option<String>,
    pub shutter_speed_value: Option<SRational>,
    pub max_aperture_value: Option<Rational>,
    pub subject_distance: Option<Rational>,
    pub metering_mode: Option<u16>,
    pub light_source: Option<u16>,
    pub flash: Option<u16>,
    pub focal_length: Option<Rational>,
    pub image_number: Option<u32>,
    pub color_space: Option<u16>,
    pub flash_energy: Option<Rational>,
    pub exposure_mode: Option<u16>,
    pub white_balance: Option<u16>,
    pub scene_capture_type: Option<u16>,
    pub subject_distance_range: Option<u16>,
    pub owner_name: Option<String>,
    pub serial_number: Option<String>,
    pub lens_serial_number: Option<String>,
    pub lens_make: Option<String>,
    pub lens_model: Option<String>,
    pub gps: Option<ExifGps>,
}

/// `a` comes before `b`: code point by code point, a proper prefix first.
pub open spec fn text_before(a: Seq<char>, b: Seq<char>) -> bool
    decreases a.len(),
{
    if b.len() == 0 {
        false
    } else if a.len() == 0 {
        true
    } else if a[0] != b[0] {
        (a[0] as u32) < (b[0] as u32)
    } else {
        text_before(a.drop_first(), b.drop_first())
    }
}

/// Equal-else-drop on plain values: the left entry where both are present
/// and equal, else nothing.
pub open spec fn agreed<T>(a: Option<T>, b: Option<T>) -> Option<T> {
    if a is Some && b is Some && a->0 == b->0 {
        a
    } else {
        None
    }
}

/// Equal-else-drop on text: equal means the same characters.
pub open spec fn agreed_text(a: Option<String>, b: Option<String>) -> Option<String> {
    if a is Some && b is Some && a->0@ == b->0@ {
        a
    } else {
        None
    }
}

/// Equal-else-drop on lists: equal means the same items in the same order.
pub open spec fn agreed_list(a: Option<Vec<i16>>, b: Option<Vec<i16>>) -> Option<Vec<i16>> {
    if a is Some && b is Some && a->0@ == b->0@ {
        a
    } else {
        None
    }
}

/// The entry that comes first in text order; the left one where neither
/// does. Nothing unless both are present.
pub open spec fn earlier(a: Option<String>, b: Option<String>) -> Option<String> {
    if a is Some && b is Some {
        if text_before(b->0@, a->0@) {
            b
        } else {
            a
        }
    } else {
        None
    }
}

/// The entry that comes last in text order; the right one where neither
/// does. Nothing unless both are present.
pub open spec fn later(a: Option<String>, b: Option<String>) -> Option<String> {
    if a is Some && b is Some {
        if text_before(b->0@, a->0@) {
            a
        } else {
            b
        }
    } else {
        None
    }
}

/// The record that merging `a` with `b` gives, but for the exposure time,
/// which is handed in.
pub open spec fn merged_exif(a: Exif, b: Exif, exposure_time: Option<Rational>) -> Exif {
    Exif {
        orientation: agreed(a.orientation, b.orientation),
        copyright: agreed_text(a.copyright, b.copyright),
        artist: agreed_text(a.artist, b.artist),
        lens_spec: agreed(a.lens_spec, b.lens_spec),
        exposure_time,
        fnumber: agreed(a.fnumber, b.fnumber),
        aperture_value: agreed(a.aperture_value, b.aperture_value),
        brightness_value: agreed(a.brightness_value, b.brightness_value),
        iso_speed_ratings: agreed(a.iso_speed_ratings, b.iso_speed_ratings),
        iso_speed: agreed(a.iso_speed, b.iso_speed),
        recommended_exposure_index: agreed(a.recommended_exposure_index, b.recommended_exposure_index),
        sensitivity_type: agreed(a.sensitivity_type, b.sensitivity_type),
        exposure_bias: agreed(a.exposure_bias, b.exposure_bias),
        date_time_original: earlier(a.date_time_original, b.date_time_original),
        create_date: earlier(a.create_date, b.create_date),
        modify_date: later(a.modify_date, b.modify_date),
        exposure_program: agreed(a.exposure_program, b.exposure_program),
        timezone_offset: agreed_list(a.timezone_offset, b.timezone_offset),
        offset_time: agreed_text(a.offset_time, b.offset_time),
        offset_time_original: agreed_text(a.offset_time_original, b.offset_time_original),
        offset_time_digitized: agreed_text(a.offset_time_digitized, b.offset_time_digitized),
        sub_sec_time: None,
        sub_sec_time_original: None,
        sub_sec_time_digitized: None,
        shutter_speed_value: agreed(a.shutter_speed_value, b.shutter_speed_value),
        max_aperture_value: agreed(a.max_aperture_value, b.max_aperture_value),
        subject_distance: agreed(a.subject_distance, b.subject_distance),
        metering_mode: agreed(a.metering_mode, b.metering_mode),
        light_source: agreed(a.light_source, b.light_source),
        flash: agreed(a.flash, b.flash),
        focal_length: agreed(a.focal_length, b.focal_length),
        image_number: agreed(a.image_number, b.image_number),
        color_space: agreed(a.color_space, b.color_space),
        flash_energy: agreed(a.flash_energy, b.flash_energy),
        exposure_mode: agreed(a.exposure_mode, b.exposure_mode),
        white_balance: agreed(a.white_balance, b.white_balance),
        scene_capture_type: agreed(a.scene_capture_type, b.scene_capture_type),
        subject_distance_range: agreed(a.subject_distance_range, b.subject_distance_range),
        owner_name: agreed_text(a.owner_name, b.owner_name),
        serial_number: agreed_text(a.serial_number, b.serial_number),
        lens_serial_number: agreed_text(a.lens_serial_number, b.lens_serial_number),
        lens_make: agreed_text(a.lens_make, b.lens_make),
        lens_model: agreed_text(a.lens_model, b.lens_model),
        gps: None,
    }
}

/// The record that merging `a` with `b` gives, or the failure of adding
/// their exposure times.
pub open spec fn exif_merged(a: Exif, b: Exif) -> Result<Exif, MergeError> {
    match rational_sum(a.exposure_time, b.exposure_time) {
        Ok(exposure_time) => Ok(merged_exif(a, b, exposure_time)),
        Err(e) => Err(e),
    }
}

/// `String::lt` of std: text order is the order of the code points, a proper
/// prefix before the longer text.
#[verifier::external_body]
fn text_less(a: &String, b: &String) -> (r: bool)
    ensures
        r == text_before(a@, b@),
{
    a < b
}

/// `==` on `T` is specified, and calls two values equal exactly where they
/// are the same value.
pub open spec fn eq_is_sameness<T: PartialEq>() -> bool {
    &&& T::obeys_eq_spec()
    &&& forall|x: T, y: T| #[trigger] x.eq_spec(&y) <==> x == y
}

/// Keeps an entry only where both operands hold it and `==` calls them
/// equal; the left one is kept. Where `==` on `T` is sameness, that is
/// equal-else-drop on values.
pub fn equal_exif_entry<T: PartialEq>(entry1: Option<T>, entry2: Option<T>) -> (r: Option<T>)
    ensures
        match (entry1, entry2) {
            (Some(a), Some(b)) => exists|same: bool| #[trigger]
                call_ensures(T::eq, (&a, &b), same) && r == (if same {
                    Some(a)
                } else {
                    None
                }),
            _ => r is None,
        },
        eq_is_sameness::<T>() ==> r == agreed(entry1, entry2),
{
    match (entry1, entry2) {
        (Some(x1), Some(x2)) => {
            if x1 == x2 {
                Some(x1)
            } else {
                None
            }
        },
        _ => None,
    }
}

/// The earlier of two timestamps in text order, the first where they are
/// equal; nothing unless both are present.
pub fn min_exif_entry(entry1: Option<String>, entry2: Option<String>) -> (r: Option<String>)
    ensures
        r == earlier(entry1, entry2),
{
    match (entry1, entry2) {
        (Some(x1), Some(x2)) => {
            if text_less(&x2, &x1) {
                Some(x2)
            } else {
                Some(x1)
            }
        },
        _ => None,
    }
}

/// The later of two timestamps in text order, the second where they are
/// equal; nothing unless both are present.
pub fn max_exif_entry(entry1: Option<String>, entry2: Option<String>) -> (r: Option<String>)
    ensures
        r == later(entry1, entry2),
{
    match (entry1, entry2) {
        (Some(x1), Some(x2)) => {
            if text_less(&x2, &x1) {
                Some(x1)
            } else {
                Some(x2)
            }
        },
        _ => None,
    }
}

/// Equal-else-drop for a 16-bit entry.
fn equal_u16(entry1: Option<u16>, entry2: Option<u16>) -> (r: Option<u16>)
    ensures
        r == agreed(entry1, entry2),
{
    equal_exif_entry(entry1, entry2)
}

/// Equal-else-drop for a 32-bit entry.
fn equal_u32(entry1: Option<u32>, entry2: Option<u32>) -> (r: Option<u32>)
    ensures
        r == agreed(entry1, entry2),
{
    equal_exif_entry(entry1, entry2)
}

/// Equal-else-drop for a rational: equal means the same numerator and the
/// same denominator.
fn equal_rational(entry1: Option<Rational>, entry2: Option<Rational>) -> (r: Option<Rational>)
    ensures
        r == agreed(entry1, entry2),
{
    equal_exif_entry(entry1, entry2)
}

/// Equal-else-drop for a signed rational.
fn equal_srational(entry1: Option<SRational>, entry2: Option<SRational>) -> (r: Option<SRational>)
    ensures
        r == agreed(entry1, entry2),
{
    equal_exif_entry(entry1, entry2)
}

/// Equal-else-drop for a text.
fn equal_text(entry1: Option<String>, entry2: Option<String>) -> (r: Option<String>)
    ensures
        r == agreed_text(entry1, entry2),
{
    equal_exif_entry(entry1, entry2)
}

/// Equal-else-drop for the four rationals of a lens specification.
fn equal_lens_spec(entry1: Option<[Rational; 4]>, entry2: Option<[Rational; 4]>) -> (r: Option<[Rational; 4]>)
    ensures
        r == agreed(entry1, entry2),
{
    match (entry1, entry2) {
        (Some(x1), Some(x2)) => {
            if x1[0] == x2[0] && x1[1] == x2[1] && x1[2] == x2[2] && x1[3] == x2[3] {
                assert(x1@ =~= x2@);
                assert(x1 == x2);
                Some(x1)
            } else {
                None
            }
        },
        _ => None,
    }
}

/// Equal-else-drop for a list of offsets.
fn equal_offsets(entry1: Option<Vec<i16>>, entry2: Option<Vec<i16>>) -> (r: Option<Vec<i16>>)
    ensures
        r == agreed_list(entry1, entry2),
{
    let r = equal_exif_entry(entry1, entry2);
    proof {
        if entry1 is Some && entry2 is Some {
            let a = entry1->0;
            let b = entry2->0;
            if a@ == b@ {
                assert(a.eq_spec(&b));
            } else if a.eq_spec(&b) {
                assert(a@ =~= b@);
            }
        }
    }
    r
}

impl Exif {
    /// The record with no field present.
    pub fn empty() -> (r: Exif)
        ensures
            r == Exif::spec_empty(),
    {
        Exif {
            orientation: None,
            copyright: None,
            artist: None,
            lens_spec: None,
            exposure_time: None,
            fnumber: None,
            aperture_value: None,
            brightness_value: None,
            iso_speed_ratings: None,
            iso_speed: None,
            recommended_exposure_index: None,
            sensitivity_type: None,
            exposure_bias: None,
            date_time_original: None,
            create_date: None,
            modify_date: None,
            exposure_program: None,
            timezone_offset: None,
            offset_time: None,
            offset_time_original: None,
            offset_time_digitized: None,
            sub_sec_time: None,
            sub_sec_time_original: None,
            sub_sec_time_digitized: None,
            shutter_speed_value: None,
            max_aperture_value: None,
            subject_distance: None,
            metering_mode: None,
            light_source: None,
            flash: None,
            focal_length: None,
            image_number: None,
            color_space: None,
            flash_energy: None,
            exposure_mode: None,
            white_balance: None,
            scene_capture_type: None,
            subject_distance_range: None,
            owner_name: None,
            serial_number: None,
            lens_serial_number: None,
            lens_make: None,
            lens_model: None,
            gps: None,
        }
    }

    /// The record with no field present.
    pub open spec fn spec_empty() -> Exif {
        Exif {
            orientation: None,
            copyright: None,
            artist: None,
            lens_spec: None,
            exposure_time: None,
            fnumber: None,
            aperture_value: None,
            brightness_value: None,
            iso_speed_ratings: None,
            iso_speed: None,
            recommended_exposure_index: None,
            sensitivity_type: None,
            exposure_bias: None,
            date_time_original: None,
            create_date: None,
            modify_date: None,
            exposure_program: None,
            timezone_offset: None,
            offset_time: None,
            offset_time_original: None,
            offset_time_digitized: None,
            sub_sec_time: None,
            sub_sec_time_original: None,
            sub_sec_time_digitized: None,
            shutter_speed_value: None,
            max_aperture_value: None,
            subject_distance: None,
            metering_mode: None,
            light_source: None,
            flash: None,
            focal_length: None,
            image_number: None,
            color_space: None,
            flash_energy: None,
            exposure_mode: None,
            white_balance: None,
            scene_capture_type: None,
            subject_distance_range: None,
            owner_name: None,
            serial_number: None,
            lens_serial_number: None,
            lens_make: None,
            lens_model: None,
            gps: None,
        }
    }

}

impl Mergable for Exif {
    open spec fn merge_weights(&self, other: &Exif, mode: MergeMode) -> (usize, usize) {
        (0, 0)
    }

    open spec fn merge_outcome(
        &self,
        other: &Exif,
        weight_self: usize,
        weight_other: usize,
        mode: MergeMode,
        r: Result<Exif, MergeError>,
    ) -> bool {
        r == exif_merged(*self, *other)
    }

    /// Merges two records field by field. The weights and the mode play no
    /// part: every field has one rule.
    fn weighted_merge(
        self,
        other: Exif,
        weight_self: usize,
        weight_other: usize,
        mode: MergeMode,
    ) -> (r: Result<Exif, MergeError>)
    {
        let exposure_time = match add_tiff_rational(self.exposure_time, other.exposure_time) {
            Ok(sum) => sum,
            Err(err) => {
                return Err(err);
            },
        };
        Ok(
            Exif {
                orientation: equal_u16(self.orientation, other.orientation),
                copyright: equal_text(self.copyright, other.copyright),
                artist: equal_text(self.artist, other.artist),
                lens_spec: equal_lens_spec(self.lens_spec, other.lens_spec),
                exposure_time,
                fnumber: equal_rational(self.fnumber, other.fnumber),
                aperture_value: equal_rational(self.aperture_value, other.aperture_value),
                brightness_value: equal_srational(self.brightness_value, other.brightness_value),
                iso_speed_ratings: equal_u16(self.iso_speed_ratings, other.iso_speed_ratings),
                iso_speed: equal_u32(self.iso_speed, other.iso_speed),
                recommended_exposure_index: equal_u32(self.recommended_exposure_index, other.recommended_exposure_index),
                sensitivity_type: equal_u16(self.sensitivity_type, other.sensitivity_type),
                exposure_bias: equal_srational(self.exposure_bias, other.exposure_bias),
                date_time_original: min_exif_entry(self.date_time_original, other.date_time_original),
                create_date: min_exif_entry(self.create_date, other.create_date),
                modify_date: max_exif_entry(self.modify_date, other.modify_date),
                exposure_program: equal_u16(self.exposure_program, other.exposure_program),
                timezone_offset: equal_offsets(self.timezone_offset, other.timezone_offset),
                offset_time: equal_text(self.offset_time, other.offset_time),
                offset_time_original: equal_text(self.offset_time_original, other.offset_time_original),
                offset_time_digitized: equal_text(self.offset_time_digitized, other.offset_time_digitized),
                sub_sec_time: None,
                sub_sec_time_original: None,
                sub_sec_time_digitized: None,
                shutter_speed_value: equal_srational(self.shutter_speed_value, other.shutter_speed_value),
                max_aperture_value: equal_rational(self.max_aperture_value, other.max_aperture_value),
                subject_distance: equal_rational(self.subject_distance, other.subject_distance),
                metering_mode: equal_u16(self.metering_mode, other.metering_mode),
                light_source: equal_u16(self.light_source, other.light_source),
                flash: equal_u16(self.flash, other.flash),
                focal_length: equal_rational(self.focal_length, other.focal_length),
                image_number: equal_u32(self.image_number, other.image_number),
                color_space: equal_u16(self.color_space, other.color_space),
                flash_energy: equal_rational(self.flash_energy, other.flash_energy),
                exposure_mode: equal_u16(self.exposure_mode, other.exposure_mode),
                white_balance: equal_u16(self.white_balance, other.white_balance),
                scene_capture_type: equal_u16(self.scene_capture_type, other.scene_capture_type),
                subject_distance_range: equal_u16(self.subject_distance_range, other.subject_distance_range),
                owner_name: equal_text(self.owner_name, other.owner_name),
                serial_number: equal_text(self.serial_number, other.serial_number),
                lens_serial_number: equal_text(self.lens_serial_number, other.lens_serial_number),
                lens_make: equal_text(self.lens_make, other.lens_make),
                lens_model: equal_text(self.lens_model, other.lens_model),
                gps: None,
            },
        )
    }

    /// Merges two records; see `weighted_merge`.
    fn merge(self, other: Exif, mode: MergeMode) -> (r: Result<Exif, MergeError>)
    {
        self.weighted_merge(other, 0, 0, mode)
    }
}

impl Default for Exif {
    fn default() -> (r: Exif)
        ensures
            r == Exif::spec_empty(),
    {
        Exif::empty()
    }
}

/// What is left of one field after merging a list of sources from left to
/// right under equal-else-drop.
pub open spec fn agreed_all<T>(values: Seq<Option<T>>) -> Option<T>
    decreases values.len(),
{
    if values.len() == 0 {
        None
    } else if values.len() == 1 {
        values[0]
    } else {
        agreed(agreed_all(values.drop_last()), values.last())
    }
}

/// Under equal-else-drop a merge of several sources holds a value exactly
/// where every source holds that value.
pub proof fn lemma_kept_iff_all_agree<T>(values: Seq<Option<T>>, v: T)
    requires
        values.len() > 0,
    ensures
        agreed_all(values) == Some(v) <==> (forall|i: int| 0 <= i < values.len() ==> values[i] == Some(v)),
    decreases values.len(),
{
    if values.len() > 1 {
        let front = values.drop_last();
        lemma_kept_iff_all_agree(front, v);
        if agreed_all(values) == Some(v) {
            assert forall|i: int| 0 <= i < values.len() implies values[i] == Some(v) by {
                if i < values.len() - 1 {
                    assert(front[i] == values[i]);
                }
            }
        }
        if forall|i: int| 0 <= i < values.len() ==> values[i] == Some(v) {
            assert forall|i: int| 0 <= i < front.len() implies front[i] == Some(v) by {
                assert(front[i] == values[i]);
            }
        }
    }
}

/// Where `==` on `T` is sameness, what `equal_exif_entry` gives holds a
/// value exactly where both entries hold that value.
pub proof fn lemma_equal_entry_keeps_common_value<T: PartialEq>(entry1: Option<T>, entry2: Option<T>, v: T)
    ensures
        agreed(entry1, entry2) == Some(v) <==> entry1 == Some(v) && entry2 == Some(v),
        agreed(entry1, entry2) == agreed(entry2, entry1),
{
}

/// Equal-else-drop does not depend on how three sources are paired.
pub proof fn lemma_agreed_associates<T>(a: Option<T>, b: Option<T>, c: Option<T>)
    ensures
        agreed(agreed(a, b), c) == agreed(a, agreed(b, c)),
{
}

/// A merged record never holds sub-second times or a position.
pub proof fn lemma_dropped_fields(a: Exif, b: Exif, exposure_time: Option<Rational>)
    ensures
        merged_exif(a, b, exposure_time).sub_sec_time is None,
        merged_exif(a, b, exposure_time).sub_sec_time_original is None,
        merged_exif(a, b, exposure_time).sub_sec_time_digitized is None,
        merged_exif(a, b, exposure_time).gps is None,
{
}

/// What is left of one text field after merging a list of sources from left
/// to right under equal-else-drop.
pub open spec fn agreed_text_all(values: Seq<Option<String>>) -> Option<String>
    decreases values.len(),
{
    if values.len() == 0 {
        None
    } else if values.len() == 1 {
        values[0]
    } else {
        agreed_text(agreed_text_all(values.drop_last()), values.last())
    }
}

/// Whether an entry holds a text of the characters `v`.
pub open spec fn holds_text(entry: Option<String>, v: Seq<char>) -> bool {
    entry matches Some(text) && text@ == v
}

/// Under equal-else-drop a merge of several sources holds a text exactly
/// where every source holds that text.
pub proof fn lemma_text_kept_iff_all_agree(values: Seq<Option<String>>, v: Seq<char>)
    requires
        values.len() > 0,
    ensures
        holds_text(agreed_text_all(values), v) <==> (forall|i: int|
            0 <= i < values.len() ==> holds_text(#[trigger] values[i], v)),
    decreases values.len(),
{
    if values.len() > 1 {
        let front = values.drop_last();
        lemma_text_kept_iff_all_agree(front, v);
        if holds_text(agreed_text_all(values), v) {
            assert forall|i: int| 0 <= i < values.len() implies holds_text(#[trigger] values[i], v) by {
                if i < values.len() - 1 {
                    assert(front[i] == values[i]);
                }
            }
        }
        if forall|i: int| 0 <= i < values.len() ==> holds_text(#[trigger] values[i], v) {
            assert forall|i: int| 0 <= i < front.len() implies holds_text(#[trigger] front[i], v) by {
                assert(front[i] == values[i]);
            }
            assert(holds_text(values[values.len() - 1], v));
        }
    }
}

/// What is left of a list field after merging a list of sources from left to
/// right under equal-else-drop.
pub open spec fn agreed_list_all(values: Seq<Option<Vec<i16>>>) -> Option<Vec<i16>>
    decreases values.len(),
{
    if values.len() == 0 {
        None
    } else if values.len() == 1 {
        values[0]
    } else {
        agreed_list(agreed_list_all(values.drop_last()), values.last())
    }
}

/// Whether an entry holds a list of the items `v`.
pub open spec fn holds_list(entry: Option<Vec<i16>>, v: Seq<i16>) -> bool {
    entry matches Some(list) && list@ == v
}

/// Under equal-else-drop a merge of several sources holds a list exactly
/// where every source holds that list.
pub proof fn lemma_list_kept_iff_all_agree(values: Seq<Option<Vec<i16>>>, v: Seq<i16>)
    requires
        values.len() > 0,
    ensures
        holds_list(agreed_list_all(values), v) <==> (forall|i: int|
            0 <= i < values.len() ==> holds_list(#[trigger] values[i], v)),
    decreases values.len(),
{
    if values.len() > 1 {
        let front = values.drop_last();
        lemma_list_kept_iff_all_agree(front, v);
        if holds_list(agreed_list_all(values), v) {
            assert forall|i: int| 0 <= i < values.len() implies holds_list(#[trigger] values[i], v) by {
                if i < values.len() - 1 {
                    assert(front[i] == values[i]);
                }
            }
        }
        if forall|i: int| 0 <= i < values.len() ==> holds_list(#[trigger] values[i], v) {
            assert forall|i: int| 0 <= i < front.len() implies holds_list(#[trigger] front[i], v) by {
                assert(front[i] == values[i]);
            }
            assert(holds_list(values[values.len() - 1], v));
        }
    }
}

} // verus!
