//! A place on earth by latitude and longitude, in millionths of a degree.

use vstd::prelude::*;
use vstd::string::StringExecFns;
use crate::error::{agrees, as_argument, malformed, RedshiftError};
use crate::number::{decimal_text, micro_text, parse_decimal, render_micro};
use crate::text::{
    has_piece, join, lemma_no_later_piece, lemma_piece, part_of, part_of_text, piece,
    split_colons,
};

verus! {

/// Latitude and longitude location.
#[derive(Clone, Copy, Debug, PartialEq, Eq, Structural)]
pub struct Location {
    pub lat: i64,
    pub lon: i64,
}

/// The location that a text of the form `LAT:LON` stands for, or the text
/// that says what is wrong with it: a part that is no decimal, a longitude
/// that is missing, or something after the longitude.
pub open spec fn location_of(s: Seq<char>) -> Result<Location, Seq<char>> {
    if decimal_text(piece(s, 0)).is_err() {
        Err(part_of_text("location: "@, piece(s, 0), s))
    } else if !has_piece(s, 1) {
        Err("location: "@ + s)
    } else if decimal_text(piece(s, 1)).is_err() {
        Err(part_of_text("location: "@, piece(s, 1), s))
    } else if has_piece(s, 2) {
        Err(part_of_text("location: trailing "@, piece(s, 2), s))
    } else {
        Ok(Location { lat: decimal_text(piece(s, 0)).unwrap(), lon: decimal_text(piece(s, 1)).unwrap() })
    }
}

impl Location {
    /// Whether the location lies on the globe: the latitude within ninety
    /// degrees of the equator, the longitude within a hundred and eighty of
    /// the prime meridian.
    pub open spec fn wf(self) -> bool {
        &&& -90_000_000 <= self.lat <= 90_000_000
        &&& -180_000_000 <= self.lon <= 180_000_000
    }

    /// The text that the location is shown as.
    pub open spec fn text(self) -> Seq<char> {
        "Location "@ + micro_text(self.lat as int) + ", "@ + micro_text(self.lon as int)
    }

    /// The location of latitude `lat` and longitude `lon`.
    pub fn new(lat: i64, lon: i64) -> (out: Location)
        ensures
            out == (Location { lat, lon }),
    {
        Location { lat: lat, lon: lon }
    }

    /// Tells whether the location lies on the globe.
    pub fn is_valid(&self) -> (out: bool)
        ensures
            out == self.wf(),
    {
        -90_000_000 <= self.lat && self.lat <= 90_000_000 && -180_000_000 <= self.lon && self.lon
            <= 180_000_000
    }

    /// The text that the location is shown as: latitude and longitude in
    /// degrees.
    pub fn print(&self) -> (out: String)
        ensures
            out@ == self.text(),
    {
        let mut text = String::from_str("Location ");
        text.append(render_micro(self.lat).as_str());
        text.append(", ");
        text.append(render_micro(self.lon).as_str());
        text
    }

    /// Reads a location of the form `LAT:LON`, both decimals of degrees.
    pub fn from_str(s: &str) -> (out: Result<Location, RedshiftError>)
        ensures
            agrees(out, as_argument(location_of(s@))),
    {
        let parts = split_colons(s);
        proof {
            lemma_piece(parts@, s@, 0);
            if parts@.len() >= 2 {
                lemma_piece(parts@, s@, 1);
            } else {
                lemma_no_later_piece(s@, parts@.len(), 1);
            }
            if parts@.len() >= 3 {
                lemma_piece(parts@, s@, 2);
            } else {
                lemma_no_later_piece(s@, parts@.len(), 2);
            }
        }
        let lat = match parse_decimal(parts[0]) {
            Ok(lat) => lat,
            Err(_) => {
                return malformed(part_of("location: ", parts[0], s));
            },
        };
        if parts.len() < 2 {
            return malformed(join("location: ", s));
        }
        let lon = match parse_decimal(parts[1]) {
            Ok(lon) => lon,
            Err(_) => {
                return malformed(part_of("location: ", parts[1], s));
            },
        };
        if parts.len() > 2 {
            return malformed(part_of("location: trailing ", parts[2], s));
        }
        Ok(Location::new(lat, lon))
    }
}

} // verus!
