//! Destination path construction: joining, tilde expansion, the default
//! destination folder, and the optional date-based organizer.
//!
//! Paths are plain strings joined with `/`; the backend and the host shell
//! around the library interpret them.

use vstd::prelude::*;
use vstd::string::StrSliceExecFns;
use vstd::string::StringExecFns;

use chrono::Datelike;

use crate::device::MediaItem;
use crate::text::{dec_pad2, dec_pad4, push_decimal_pad2, push_decimal_pad4};

verus! {

/// `base` and `name` joined with a single separator.
pub fn join_path(base: &str, name: &str) -> (r: String)
    ensures
        r@ == base@ + "/"@ + name@,
{
    let mut r = String::from_str(base);
    r.append("/");
    r.append(name);
    proof {
        assert(r@ =~= base@ + "/"@ + name@);
    }
    r
}

/// A leading `~` (alone, or followed by `/`) replaced by the home
/// directory; anything else is left untouched.
pub open spec fn tilde_expanded(path: Seq<char>, home: Seq<char>) -> Seq<char> {
    if path.len() == 1 && path[0] == '~' {
        home
    } else if path.len() >= 2 && path[0] == '~' && path[1] == '/' {
        home + path.skip(1)
    } else {
        path
    }
}

/// Expands a leading `~` in `path` to `home`.
pub fn expand_tilde(path: &str, home: &str) -> (r: String)
    ensures
        r@ == tilde_expanded(path@, home@),
{
    let n = path.unicode_len();
    if n >= 1 && path.get_char(0) == '~' {
        if n == 1 {
            return String::from_str(home);
        }
        if path.get_char(1) == '/' {
            let rest = path.substring_char(1, n);
            let mut r = String::from_str(home);
            r.append(rest);
            proof {
                assert(r@ =~= home@ + path@.skip(1));
            }
            return r;
        }
    }
    String::from_str(path)
}

/// The view of an optional string.
pub open spec fn opt_str_view(o: Option<String>) -> Option<Seq<char>> {
    match o {
        Some(s) => Some(s@),
        None => None,
    }
}

/// The default transfer destination: the app folder under the platform
/// pictures directory, or a home-relative fallback when the platform
/// reports none.
pub open spec fn destination_for(pictures: Option<Seq<char>>) -> Seq<char> {
    match pictures {
        Some(p) => p + "/PhonePhotos"@,
        None => "~/Pictures/PhonePhotos"@,
    }
}

/// The default destination derived from a reported pictures directory.
pub fn destination_from_pictures_dir(pictures: Option<String>) -> (r: String)
    ensures
        r@ == destination_for(opt_str_view(pictures)),
{
    match pictures {
        Some(p) => {
            let mut r = p;
            r.append("/PhonePhotos");
            r
        },
        None => String::from_str("~/Pictures/PhonePhotos"),
    }
}

/// Relies on dirs::picture_dir: the platform's pictures directory, if it
/// reports one.  The value depends on the environment, so nothing is
/// promised of it.
#[verifier::external_body]
fn platform_pictures_dir() -> Option<String> {
    dirs::picture_dir().map(|p| p.to_string_lossy().to_string())
}

/// The platform default destination: the pictures directory plus the app
/// subfolder, or the hardcoded home-relative fallback.
pub fn get_default_destination() -> (r: String)
    ensures
        (exists|base: Seq<char>| r@ == base + "/PhonePhotos"@) || r@ == "~/Pictures/PhonePhotos"@,
{
    let pictures = platform_pictures_dir();
    let ghost pv = opt_str_view(pictures);
    let r = destination_from_pictures_dir(pictures);
    proof {
        if pv is Some {
            assert(r@ == pv->0 + "/PhonePhotos"@);
        }
    }
    r
}

/// The calendar date written in an RFC 3339 timestamp, in the timestamp's
/// own offset, as chrono parses it — or nothing when the string does not
/// parse.
pub uninterp spec fn rfc3339_local_date(s: Seq<char>) -> Option<(int, int, int)>;

/// Relies on chrono's DateTime::parse_from_rfc3339, naive_local and the
/// Datelike accessors: the (year, month, day) written in the string, in the
/// string's own offset.  RFC 3339 years have exactly four digits and
/// chrono only yields valid calendar dates, hence the ranges.
#[verifier::external_body]
fn parse_rfc3339_date(s: &str) -> (r: Option<(i32, u32, u32)>)
    ensures
        r is Some <==> rfc3339_local_date(s@) is Some,
        r matches Some(d) ==> rfc3339_local_date(s@) == Some(
            (d.0 as int, d.1 as int, d.2 as int),
        ) && 0 <= d.0 <= 9999 && 1 <= d.1 <= 12 && 1 <= d.2 <= 31,
{
    match chrono::DateTime::parse_from_rfc3339(s) {
        Ok(dt) => {
            let date = dt.naive_local().date();
            Some((date.year(), date.month(), date.day()))
        },
        Err(_) => None,
    }
}

/// Relies on chrono's Local::now and date_naive: the host's current local
/// calendar date.  The value depends on the clock, so only the month and
/// day ranges documented by Datelike are promised.
#[verifier::external_body]
fn local_today() -> (r: (i32, u32, u32))
    ensures
        1 <= r.1 <= 12,
        1 <= r.2 <= 31,
{
    let now = chrono::Local::now().date_naive();
    (now.year(), now.month(), now.day())
}

/// `base/yyyy/mm/dd/name`.
pub open spec fn date_path_view(
    base: Seq<char>,
    year: int,
    month: int,
    day: int,
    name: Seq<char>,
) -> Seq<char> {
    base + "/"@ + dec_pad4(year) + "/"@ + dec_pad2(month) + "/"@ + dec_pad2(day) + "/"@ + name
}

/// Builds `base/yyyy/mm/dd/name` for a valid calendar date (the ranges are
/// what a four-digit date can hold).
pub fn date_path(base: &str, year: u32, month: u32, day: u32, name: &str) -> (r: String)
    requires
        year <= 9999,
        1 <= month <= 12,
        1 <= day <= 31,
    ensures
        r@ == date_path_view(base@, year as int, month as int, day as int, name@),
{
    let mut r = String::from_str(base);
    r.append("/");
    push_decimal_pad4(&mut r, year as u64);
    r.append("/");
    push_decimal_pad2(&mut r, month as u64);
    r.append("/");
    push_decimal_pad2(&mut r, day as u64);
    r.append("/");
    r.append(name);
    proof {
        assert(r@ =~= date_path_view(base@, year as int, month as int, day as int, name@));
    }
    r
}

/// The destination path for one item: `base/name` as it stands, or — when
/// organizing by date — nested under the item's capture date,
/// `base/yyyy/mm/dd/name`.  An item date that does not parse falls back to
/// the current local date, never to an error.
pub fn get_organized_path(base_path: &str, item: &MediaItem, organize_by_date: bool) -> (r: String)
    ensures
        !organize_by_date ==> r@ == base_path@ + "/"@ + item.name@,
        organize_by_date ==> match rfc3339_local_date(item.date@) {
            Some(d) => r@ == date_path_view(base_path@, d.0, d.1, d.2, item.name@),
            None => exists|y: int, m: int, dd: int|
                0 <= y <= 9999 && 1 <= m <= 12 && 1 <= dd <= 31 && r@ == date_path_view(
                    base_path@,
                    y,
                    m,
                    dd,
                    item.name@,
                ),
        },
{
    if !organize_by_date {
        return join_path(base_path, item.name.as_str());
    }
    match parse_rfc3339_date(item.date.as_str()) {
        Some(d) => date_path(base_path, d.0 as u32, d.1, d.2, item.name.as_str()),
        None => {
            let today = local_today();
            let year: u32 = if today.0 < 0 {
                0
            } else if today.0 > 9999 {
                9999
            } else {
                today.0 as u32
            };
            date_path(base_path, year, today.1, today.2, item.name.as_str())
        },
    }
}

} // verus!
