//! What the interface shows of a finished merge: the rendered preview and a
//! few labels from the metadata.

use base64::engine::general_purpose::STANDARD;
use base64::Engine;
use vstd::prelude::*;

use crate::exif::Exif;
use crate::rational::Rational;

verus! {

/// The standard base64 text, with padding, of a sequence of bytes.
pub uninterp spec fn base64_text(bytes: Seq<u8>) -> Seq<char>;

/// The length of the base64 text of `len` bytes fits the machine.
pub open spec fn base64_fits(len: nat) -> bool {
    (len / 3) * 4 + (if len % 3 > 0 {
        4nat
    } else {
        0nat
    }) <= usize::MAX
}

/// `Engine::encode` of `base64`, on the engine `STANDARD`: the base64 text
/// of the bytes. It panics where the length of that text does not fit
/// `usize`, which `requires` leaves out.
#[verifier::external_body]
fn base64_encode(bytes: &Vec<u8>) -> (r: String)
    requires
        base64_fits(bytes@.len()),
    ensures
        r@ == base64_text(bytes@),
{
    STANDARD.encode(bytes)
}

/// The character of one decimal digit.
pub open spec fn digit_char(d: nat) -> char {
    if d == 0 {
        '0'
    } else if d == 1 {
        '1'
    } else if d == 2 {
        '2'
    } else if d == 3 {
        '3'
    } else if d == 4 {
        '4'
    } else if d == 5 {
        '5'
    } else if d == 6 {
        '6'
    } else if d == 7 {
        '7'
    } else if d == 8 {
        '8'
    } else {
        '9'
    }
}

/// The decimal digits of a number, without leading zeros.
pub open spec fn decimal(n: nat) -> Seq<char>
    decreases n,
{
    if n < 10 {
        seq![digit_char(n)]
    } else {
        decimal(n / 10).push(digit_char(n % 10))
    }
}

/// One decimal digit as text.
fn digit_text(d: u64) -> (r: &'static str)
    requires
        d < 10,
    ensures
        r@ == seq![digit_char(d as nat)],
{
    proof {
        reveal_strlit("0");
        reveal_strlit("1");
        reveal_strlit("2");
        reveal_strlit("3");
        reveal_strlit("4");
        reveal_strlit("5");
        reveal_strlit("6");
        reveal_strlit("7");
        reveal_strlit("8");
        reveal_strlit("9");
    }
    let r: &'static str = if d == 0 {
        "0"
    } else if d == 1 {
        "1"
    } else if d == 2 {
        "2"
    } else if d == 3 {
        "3"
    } else if d == 4 {
        "4"
    } else if d == 5 {
        "5"
    } else if d == 6 {
        "6"
    } else if d == 7 {
        "7"
    } else if d == 8 {
        "8"
    } else {
        "9"
    };
    assert(r@ =~= seq![digit_char(d as nat)]);
    r
}

/// The decimal digits of a number as text.
fn decimal_text(n: u64) -> (r: String)
    ensures
        r@ == decimal(n as nat),
    decreases n,
{
    if n < 10 {
        digit_text(n).to_owned()
    } else {
        let mut text = decimal_text(n / 10);
        text.append(digit_text(n % 10));
        text
    }
}

/// An exposure of so many whole seconds as hours, minutes and seconds.
pub open spec fn exposure_text(seconds: nat) -> Seq<char> {
    decimal(seconds / 3600) + "h"@ + decimal((seconds / 60) % 60) + "m"@ + decimal(seconds % 60) + "s"@
}

/// A sensitivity as the interface labels it.
pub open spec fn isospeed_text(iso: nat) -> Seq<char> {
    "ISO"@ + decimal(iso)
}

/// The label of an exposure time: its whole seconds as hours, minutes and
/// seconds.
fn exposure_label(exposure_time: Rational) -> (r: String)
    requires
        exposure_time.d != 0,
    ensures
        r@ == exposure_text((exposure_time.n / exposure_time.d) as nat),
{
    let total: u32 = exposure_time.n / exposure_time.d;
    let seconds: u32 = total % 60;
    let minutes: u32 = (total / 60) % 60;
    let hours: u32 = (total / 60) / 60;
    let mut label = decimal_text(hours as u64);
    label.append("h");
    label.append(decimal_text(minutes as u64).as_str());
    label.append("m");
    label.append(decimal_text(seconds as u64).as_str());
    label.append("s");
    label
}

/// The label of a sensitivity.
fn isospeed_label(iso: u16) -> (r: String)
    ensures
        r@ == isospeed_text(iso as nat),
{
    let mut label = "ISO".to_owned();
    label.append(decimal_text(iso as u64).as_str());
    label
}

/// Whether a record holds an exposure time that is a number.
pub open spec fn has_exposure(exif: Exif) -> bool {
    exif.exposure_time matches Some(t) && t.d != 0
}

/// The preview of a finished merge with its labels.
#[derive(Clone, Debug, PartialEq, Eq)]
pub struct RenderedPreview {
    /// The rendered JPEG as base64 text.
    pub encoded: String,
    /// The aperture, as `f/` and the f-number to one decimal.
    pub aperture: String,
    /// The summed exposure as hours, minutes and seconds.
    pub exposure: String,
    /// The sensitivity as `ISO` and its number; zero where the record has
    /// none.
    pub isospeed: String,
}

impl RenderedPreview {
    /// Puts the preview record together from the encoded JPEG, the merged
    /// record and the aperture label. There is none where the record lacks
    /// an exposure time that is a number, or where the base64 text would not
    /// fit the machine.
    pub fn new(preview_bytes: Vec<u8>, exif: &Exif, aperture: String) -> (r: Option<RenderedPreview>)
        ensures
            r is Some <==> has_exposure(*exif) && base64_fits(preview_bytes@.len()),
            r matches Some(preview) ==> {
                &&& preview.encoded@ == base64_text(preview_bytes@)
                &&& preview.aperture == aperture
                &&& preview.exposure@ == exposure_text((exif.exposure_time->0.n / exif.exposure_time->0.d) as nat)
                &&& preview.isospeed@ == isospeed_text(
                    match exif.iso_speed_ratings {
                        Some(iso) => iso as nat,
                        None => 0,
                    },
                )
            },
    {
        let exposure_time: Rational = match exif.exposure_time {
            Some(t) => t,
            None => {
                return None;
            },
        };
        if exposure_time.d == 0 {
            return None;
        }
        let len: usize = preview_bytes.len();
        let chunks: usize = len / 3;
        if chunks > (usize::MAX - 4) / 4 {
            if chunks > usize::MAX / 4 || len % 3 > 0 {
                return None;
            }
        }
        let iso: u16 = match exif.iso_speed_ratings {
            Some(iso) => iso,
            None => 0,
        };
        Some(
            RenderedPreview {
                encoded: base64_encode(&preview_bytes),
                aperture,
                exposure: exposure_label(exposure_time),
                isospeed: isospeed_label(iso),
            },
        )
    }
}

} // verus!
