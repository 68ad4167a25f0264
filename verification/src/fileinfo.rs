//! A file that may join a merge, and what the interface is told of it.

use chrono::NaiveDateTime;
use std::path::Path;
use vstd::prelude::*;

use crate::exif::Exif;
use crate::rational::Rational;

verus! {

/// A RAW file whose metadata has been read.
#[derive(Clone, Debug, PartialEq, Eq)]
pub struct ImageCandidate {
    pub path: String,
    pub exif: Exif,
}

/// What the interface is told of a candidate. The exposure time and the
/// f-number are handed on as rationals, zero over zero where the record has
/// none.
#[derive(Clone, Debug, PartialEq, Eq)]
pub struct CandidateInfo {
    pub path: String,
    pub filename: String,
    pub creation_time: String,
    pub exposure_time: Rational,
    pub fnumber: Rational,
    pub iso: u16,
}

/// A timestamp read by a pattern of year, month, day and time fields, in
/// ISO form (`1994-09-04T07:15:00`); nothing where the text does not read by
/// the pattern.
pub uninterp spec fn parsed_date_time(text: Seq<char>, pattern: Seq<char>) -> Option<Seq<char>>;

/// `NaiveDateTime::parse_from_str` of `chrono`, and the result in its `Debug`
/// form, which is the form its serializer writes.
#[verifier::external_body]
fn parse_date_time(text: &str, pattern: &str) -> (r: Option<String>)
    ensures
        r is Some <==> parsed_date_time(text@, pattern@) is Some,
        r is Some ==> r->0@ == parsed_date_time(text@, pattern@)->0,
{
    match NaiveDateTime::parse_from_str(text, pattern) {
        Ok(date_time) => Some(format!("{:?}", date_time)),
        Err(_) => None,
    }
}

/// The time of capture in ISO form for an EXIF timestamp: the timestamp
/// read as `year:month:day hour:minute:second`, or the first second of 1970
/// where it does not read as such.
pub open spec fn creation_time_text(date_time: Seq<char>) -> Seq<char> {
    match parsed_date_time(date_time, "%Y:%m:%d %H:%M:%S"@) {
        Some(iso) => iso,
        None => "1970-01-01T00:00:00"@,
    }
}

/// The time of capture in ISO form for an EXIF timestamp.
fn creation_time_of(date_time: &str) -> (r: String)
    ensures
        r@ == creation_time_text(date_time@),
{
    match parse_date_time(date_time, "%Y:%m:%d %H:%M:%S") {
        Some(iso) => iso,
        None => "1970-01-01T00:00:00".to_owned(),
    }
}

/// `Path::file_name` of std: the last component of the path, where it has
/// one. What counts as a separator depends on the platform, so nothing is
/// stated of the result.
#[verifier::external_body]
pub(crate) fn file_name_of(path: &str) -> (r: Option<String>) {
    match Path::new(path).file_name() {
        Some(name) => name.to_str().map(String::from),
        None => None,
    }
}

/// The value of an optional rational, zero over zero where there is none.
pub open spec fn rational_or_default(entry: Option<Rational>) -> Rational {
    match entry {
        Some(value) => value,
        None => Rational { n: 0, d: 0 },
    }
}

/// What is told of `candidate`, given the file name of its path.
pub open spec fn described(candidate: ImageCandidate, filename: String, info: CandidateInfo) -> bool {
    &&& info.path == candidate.path
    &&& info.filename == filename
    &&& info.creation_time@ == creation_time_text(
        match candidate.exif.date_time_original {
            Some(date_time) => date_time@,
            None => Seq::<char>::empty(),
        },
    )
    &&& info.exposure_time == rational_or_default(candidate.exif.exposure_time)
    &&& info.fnumber == rational_or_default(candidate.exif.fnumber)
    &&& info.iso == match candidate.exif.iso_speed_ratings {
        Some(iso) => iso,
        None => 0,
    }
}

impl ImageCandidate {
    /// A candidate from the path of a file and the metadata read from it.
    pub fn new(path: String, exif: Exif) -> (r: ImageCandidate)
        ensures
            r == (ImageCandidate { path, exif }),
    {
        ImageCandidate { path, exif }
    }

    /// What the interface is told of the candidate, given the file name of
    /// its path; nothing where the path has no file name.
    pub fn describe(self, filename: Option<String>) -> (r: Option<CandidateInfo>)
        ensures
            r is Some <==> filename is Some,
            r matches Some(info) ==> described(self, filename->0, info),
    {
        let filename: String = match filename {
            Some(filename) => filename,
            None => {
                return None;
            },
        };
        let creation_time: String = match &self.exif.date_time_original {
            Some(date_time) => creation_time_of(date_time.as_str()),
            None => creation_time_of(String::new().as_str()),
        };
        let exposure_time: Rational = match self.exif.exposure_time {
            Some(value) => value,
            None => Rational { n: 0, d: 0 },
        };
        let fnumber: Rational = match self.exif.fnumber {
            Some(value) => value,
            None => Rational { n: 0, d: 0 },
        };
        let iso: u16 = match self.exif.iso_speed_ratings {
            Some(iso) => iso,
            None => 0,
        };
        Some(CandidateInfo { path: self.path, filename, creation_time, exposure_time, fnumber, iso })
    }

    /// What the interface is told of the candidate; nothing where its path
    /// has no file name.
    pub fn json(self) -> (r: Option<CandidateInfo>)
        ensures
            r matches Some(info) ==> described(self, info.filename, info),
    {
        let filename: Option<String> = file_name_of(self.path.as_str());
        self.describe(filename)
    }
}

} // verus!
