//! Classification rules: media type from a file name's extension, device
//! type from a reported device name, vendor from a USB vendor id.
//!
//! Matching is case-insensitive in the ASCII range, exactly like comparing
//! against a lower-cased copy of the name.

use vstd::prelude::*;
use vstd::string::StrSliceExecFns;
use vstd::string::StringExecFns;

verus! {

/// ASCII lower-casing of one character; anything but `'A'..'Z'` is left
/// alone.
pub open spec fn lower_char(c: char) -> char {
    match c {
        'A' => 'a',
        'B' => 'b',
        'C' => 'c',
        'D' => 'd',
        'E' => 'e',
        'F' => 'f',
        'G' => 'g',
        'H' => 'h',
        'I' => 'i',
        'J' => 'j',
        'K' => 'k',
        'L' => 'l',
        'M' => 'm',
        'N' => 'n',
        'O' => 'o',
        'P' => 'p',
        'Q' => 'q',
        'R' => 'r',
        'S' => 's',
        'T' => 't',
        'U' => 'u',
        'V' => 'v',
        'W' => 'w',
        'X' => 'x',
        'Y' => 'y',
        'Z' => 'z',
        _ => c,
    }
}

/// ASCII lower-casing of a character sequence.
pub open spec fn lower(s: Seq<char>) -> Seq<char> {
    s.map_values(|c: char| lower_char(c))
}

/// `s` ends with `suffix`.
pub open spec fn has_suffix(s: Seq<char>, suffix: Seq<char>) -> bool {
    s.len() >= suffix.len() && (forall|j: int|
        0 <= j < suffix.len() ==> s[s.len() - suffix.len() + j] == suffix[j])
}

/// `sub` occurs in `s` starting at position `k`.
pub open spec fn match_at(s: Seq<char>, sub: Seq<char>, k: int) -> bool {
    forall|j: int| 0 <= j < sub.len() ==> s[k + j] == sub[j]
}

/// `sub` occurs somewhere in `s`.
pub open spec fn contains_sub(s: Seq<char>, sub: Seq<char>) -> bool {
    exists|k: int| 0 <= k <= s.len() - sub.len() && match_at(s, sub, k)
}

fn to_lower_char(c: char) -> (r: char)
    ensures
        r == lower_char(c),
{
    match c {
        'A' => 'a',
        'B' => 'b',
        'C' => 'c',
        'D' => 'd',
        'E' => 'e',
        'F' => 'f',
        'G' => 'g',
        'H' => 'h',
        'I' => 'i',
        'J' => 'j',
        'K' => 'k',
        'L' => 'l',
        'M' => 'm',
        'N' => 'n',
        'O' => 'o',
        'P' => 'p',
        'Q' => 'q',
        'R' => 'r',
        'S' => 's',
        'T' => 't',
        'U' => 'u',
        'V' => 'v',
        'W' => 'w',
        'X' => 'x',
        'Y' => 'y',
        'Z' => 'z',
        _ => c,
    }
}

/// Whether the lower-cased `name` ends with `suffix` (which is expected
/// already lower case, as the extension lists below are).
pub fn ends_with_ignore_case(name: &str, suffix: &str) -> (r: bool)
    ensures
        r == has_suffix(lower(name@), suffix@),
{
    let n = name.unicode_len();
    let m = suffix.unicode_len();
    if n < m {
        return false;
    }
    let mut j: usize = 0;
    while j < m
        invariant
            m <= n,
            n == name@.len(),
            m == suffix@.len(),
            j <= m,
            forall|t: int| 0 <= t < j ==> lower(name@)[n - m + t] == suffix@[t],
        decreases m - j,
    {
        let c = name.get_char(n - m + j);
        if to_lower_char(c) != suffix.get_char(j) {
            proof {
                assert(lower(name@)[n - m + j] == lower_char(name@[n - m + j]));
            }
            return false;
        }
        j += 1;
    }
    true
}

/// Whether the lower-cased `hay` contains `needle` (which is expected
/// already lower case).
pub fn contains_ignore_case(hay: &str, needle: &str) -> (r: bool)
    ensures
        r == contains_sub(lower(hay@), needle@),
{
    let n = hay.unicode_len();
    let m = needle.unicode_len();
    if m > n {
        return false;
    }
    let mut k: usize = 0;
    while k <= n - m
        invariant
            m <= n,
            n == hay@.len(),
            m == needle@.len(),
            k <= n - m + 1,
            forall|k2: int| 0 <= k2 < k ==> !match_at(lower(hay@), needle@, k2),
        decreases n - m + 1 - k,
    {
        let mut j: usize = 0;
        let mut matched = true;
        while j < m
            invariant
                m <= n,
                n == hay@.len(),
                m == needle@.len(),
                k <= n - m,
                j <= m,
                matched ==> forall|t: int| 0 <= t < j ==> lower(hay@)[k + t] == needle@[t],
                !matched ==> !match_at(lower(hay@), needle@, k as int),
            decreases m - j,
        {
            let c = hay.get_char(k + j);
            if to_lower_char(c) != needle.get_char(j) {
                proof {
                    assert(lower(hay@)[k + j] == lower_char(hay@[k + j]));
                }
                matched = false;
                j = m;
            } else {
                j += 1;
            }
        }
        if matched {
            proof {
                assert(match_at(lower(hay@), needle@, k as int));
            }
            return true;
        }
        k += 1;
    }
    false
}

/// `s` begins with `prefix`.
pub open spec fn has_prefix(s: Seq<char>, prefix: Seq<char>) -> bool {
    prefix.len() <= s.len() && match_at(s, prefix, 0)
}

/// Whether `s` begins with `prefix` (case-sensitive).
pub fn starts_with_str(s: &str, prefix: &str) -> (r: bool)
    ensures
        r == has_prefix(s@, prefix@),
{
    let n = s.unicode_len();
    let m = prefix.unicode_len();
    if m > n {
        return false;
    }
    let mut j: usize = 0;
    while j < m
        invariant
            m <= n,
            n == s@.len(),
            m == prefix@.len(),
            j <= m,
            forall|t: int| 0 <= t < j ==> s@[t] == prefix@[t],
        decreases m - j,
    {
        if s.get_char(j) != prefix.get_char(j) {
            return false;
        }
        j += 1;
    }
    true
}

/// `sub` occurs in `s` at position `k`, and nowhere earlier.
pub open spec fn is_first_match(s: Seq<char>, sub: Seq<char>, k: int) -> bool {
    &&& 0 <= k
    &&& k + sub.len() <= s.len()
    &&& match_at(s, sub, k)
    &&& forall|k2: int| 0 <= k2 < k ==> !match_at(s, sub, k2)
}

/// A first match is unique.
pub proof fn lemma_first_match_unique(s: Seq<char>, sub: Seq<char>, k1: int, k2: int)
    requires
        is_first_match(s, sub, k1),
        is_first_match(s, sub, k2),
    ensures
        k1 == k2,
{
}

/// The position of the first occurrence of `needle` in `hay`, if any
/// (case-sensitive).
pub fn find_sub(hay: &str, needle: &str) -> (r: Option<usize>)
    ensures
        match r {
            Some(k) => is_first_match(hay@, needle@, k as int),
            None => !contains_sub(hay@, needle@),
        },
{
    let n = hay.unicode_len();
    let m = needle.unicode_len();
    if m > n {
        return None;
    }
    let mut k: usize = 0;
    while k <= n - m
        invariant
            m <= n,
            n == hay@.len(),
            m == needle@.len(),
            k <= n - m + 1,
            forall|k2: int| 0 <= k2 < k ==> !match_at(hay@, needle@, k2),
        decreases n - m + 1 - k,
    {
        let mut j: usize = 0;
        let mut matched = true;
        while j < m
            invariant
                m <= n,
                n == hay@.len(),
                m == needle@.len(),
                k <= n - m,
                j <= m,
                matched ==> forall|t: int| 0 <= t < j ==> hay@[k + t] == needle@[t],
                !matched ==> !match_at(hay@, needle@, k as int),
            decreases m - j,
        {
            if hay.get_char(k + j) != needle.get_char(j) {
                matched = false;
                j = m;
            } else {
                j += 1;
            }
        }
        if matched {
            proof {
                assert(match_at(hay@, needle@, k as int));
            }
            return Some(k);
        }
        k += 1;
    }
    None
}

/// File extensions treated as video.
pub open spec fn is_video_name(s: Seq<char>) -> bool {
    ||| has_suffix(lower(s), ".mov"@)
    ||| has_suffix(lower(s), ".mp4"@)
    ||| has_suffix(lower(s), ".m4v"@)
    ||| has_suffix(lower(s), ".avi"@)
    ||| has_suffix(lower(s), ".mkv"@)
    ||| has_suffix(lower(s), ".3gp"@)
    ||| has_suffix(lower(s), ".webm"@)
}

/// File extensions treated as photo.
pub open spec fn is_photo_name(s: Seq<char>) -> bool {
    ||| has_suffix(lower(s), ".jpg"@)
    ||| has_suffix(lower(s), ".jpeg"@)
    ||| has_suffix(lower(s), ".png"@)
    ||| has_suffix(lower(s), ".gif"@)
    ||| has_suffix(lower(s), ".bmp"@)
    ||| has_suffix(lower(s), ".webp"@)
    ||| has_suffix(lower(s), ".heic"@)
    ||| has_suffix(lower(s), ".heif"@)
    ||| has_suffix(lower(s), ".dng"@)
    ||| has_suffix(lower(s), ".raw"@)
}

/// A file name counts as media when its extension is a photo or video one.
pub open spec fn is_media_name(s: Seq<char>) -> bool {
    is_photo_name(s) || is_video_name(s)
}

/// Whether the file name has a video extension.
pub fn has_video_extension(name: &str) -> (r: bool)
    ensures
        r == is_video_name(name@),
{
    ends_with_ignore_case(name, ".mov") || ends_with_ignore_case(name, ".mp4")
        || ends_with_ignore_case(name, ".m4v") || ends_with_ignore_case(name, ".avi")
        || ends_with_ignore_case(name, ".mkv") || ends_with_ignore_case(name, ".3gp")
        || ends_with_ignore_case(name, ".webm")
}

/// Whether the file name has a photo extension.
pub fn has_photo_extension(name: &str) -> (r: bool)
    ensures
        r == is_photo_name(name@),
{
    ends_with_ignore_case(name, ".jpg") || ends_with_ignore_case(name, ".jpeg")
        || ends_with_ignore_case(name, ".png") || ends_with_ignore_case(name, ".gif")
        || ends_with_ignore_case(name, ".bmp") || ends_with_ignore_case(name, ".webp")
        || ends_with_ignore_case(name, ".heic") || ends_with_ignore_case(name, ".heif")
        || ends_with_ignore_case(name, ".dng") || ends_with_ignore_case(name, ".raw")
}

/// The media type derived from a file name: `video` for video extensions,
/// `photo` for photo extensions, nothing for anything else.
pub fn media_type_for_name(name: &str) -> (r: Option<String>)
    ensures
        is_video_name(name@) ==> (r matches Some(t) && t@ == "video"@),
        !is_video_name(name@) && is_photo_name(name@) ==> (r matches Some(t) && t@ == "photo"@),
        !is_media_name(name@) ==> r is None,
{
    if has_video_extension(name) {
        Some(String::from_str("video"))
    } else if has_photo_extension(name) {
        Some(String::from_str("photo"))
    } else {
        None
    }
}

/// A reported device name counts as iOS when it mentions apple, iphone or
/// ipad, in any casing.
pub open spec fn is_ios_device_name(s: Seq<char>) -> bool {
    ||| contains_sub(lower(s), "apple"@)
    ||| contains_sub(lower(s), "iphone"@)
    ||| contains_sub(lower(s), "ipad"@)
}

/// Whether a reported device name looks like an iOS device.
pub fn device_name_is_ios(name: &str) -> (r: bool)
    ensures
        r == is_ios_device_name(name@),
{
    contains_ignore_case(name, "apple") || contains_ignore_case(name, "iphone")
        || contains_ignore_case(name, "ipad")
}

/// The vendor name behind a known phone USB vendor id.
pub open spec fn vendor_name_spec(vendor_id: u16) -> Option<Seq<char>> {
    if vendor_id == 0x04e8 {
        Some("Samsung"@)
    } else if vendor_id == 0x18d1 {
        Some("Google"@)
    } else if vendor_id == 0x22b8 {
        Some("Motorola"@)
    } else if vendor_id == 0x0bb4 {
        Some("HTC"@)
    } else if vendor_id == 0x2717 {
        Some("Xiaomi"@)
    } else if vendor_id == 0x1004 {
        Some("LG"@)
    } else if vendor_id == 0x05c6 {
        Some("Qualcomm"@)
    } else if vendor_id == 0x2a70 {
        Some("OnePlus"@)
    } else if vendor_id == 0x0fce {
        Some("Sony"@)
    } else if vendor_id == 0x2916 {
        Some("OPPO"@)
    } else if vendor_id == 0x2ae5 {
        Some("Huawei"@)
    } else if vendor_id == 0x05ac {
        Some("Apple"@)
    } else {
        None
    }
}

/// The vendor name for a known phone USB vendor id, if the id is known.
pub fn vendor_name(vendor_id: u16) -> (r: Option<&'static str>)
    ensures
        match r {
            Some(s) => vendor_name_spec(vendor_id) == Some(s@),
            None => vendor_name_spec(vendor_id) is None,
        },
{
    if vendor_id == 0x04e8 {
        Some("Samsung")
    } else if vendor_id == 0x18d1 {
        Some("Google")
    } else if vendor_id == 0x22b8 {
        Some("Motorola")
    } else if vendor_id == 0x0bb4 {
        Some("HTC")
    } else if vendor_id == 0x2717 {
        Some("Xiaomi")
    } else if vendor_id == 0x1004 {
        Some("LG")
    } else if vendor_id == 0x05c6 {
        Some("Qualcomm")
    } else if vendor_id == 0x2a70 {
        Some("OnePlus")
    } else if vendor_id == 0x0fce {
        Some("Sony")
    } else if vendor_id == 0x2916 {
        Some("OPPO")
    } else if vendor_id == 0x2ae5 {
        Some("Huawei")
    } else if vendor_id == 0x05ac {
        Some("Apple")
    } else {
        None
    }
}

} // verus!
