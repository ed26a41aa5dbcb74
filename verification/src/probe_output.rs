//! Parsing the text that discovery probes print: `gio mount -l` lines and
//! `Label: value` lines of device-description tools.
//!
//! The shell around the library runs the tools and hands each output line
//! over; what a line means is decided here.

use vstd::prelude::*;
use vstd::string::StrSliceExecFns;
use vstd::string::StringExecFns;

use crate::classify::{contains_sub, find_sub, is_first_match, lemma_first_match_unique};

verus! {

/// The whitespace characters recognised when trimming probe output.
pub open spec fn is_ws_char(c: char) -> bool {
    c == ' ' || c == '\t' || c == '\r' || c == '\n'
}

fn is_ws(c: char) -> (r: bool)
    ensures
        r == is_ws_char(c),
{
    c == ' ' || c == '\t' || c == '\r' || c == '\n'
}

/// `s` with leading whitespace dropped.
pub open spec fn trim_front_spec(s: Seq<char>) -> Seq<char>
    decreases s.len(),
{
    if s.len() > 0 && is_ws_char(s.first()) {
        trim_front_spec(s.drop_first())
    } else {
        s
    }
}

/// `s` with trailing whitespace dropped.
pub open spec fn trim_back_spec(s: Seq<char>) -> Seq<char>
    decreases s.len(),
{
    if s.len() > 0 && is_ws_char(s.last()) {
        trim_back_spec(s.drop_last())
    } else {
        s
    }
}

/// `s` with leading and trailing whitespace dropped.
pub open spec fn trim_spec(s: Seq<char>) -> Seq<char> {
    trim_back_spec(trim_front_spec(s))
}

proof fn lemma_trim_front(s: Seq<char>, a: int)
    requires
        0 <= a <= s.len(),
        forall|t: int| 0 <= t < a ==> is_ws_char(s[t]),
        a < s.len() ==> !is_ws_char(s[a]),
    ensures
        trim_front_spec(s) == s.skip(a),
    decreases a,
{
    if a == 0 {
        assert(s.skip(0) =~= s);
    } else {
        assert(is_ws_char(s[0]));
        assert(forall|t: int| 0 <= t < s.drop_first().len() ==> s.drop_first()[t] == s[t + 1]);
        lemma_trim_front(s.drop_first(), a - 1);
        assert(s.skip(a) =~= s.drop_first().skip(a - 1));
    }
}

proof fn lemma_trim_back(s: Seq<char>, b: int)
    requires
        0 <= b <= s.len(),
        forall|t: int| b <= t < s.len() ==> is_ws_char(s[t]),
        b > 0 ==> !is_ws_char(s[b - 1]),
    ensures
        trim_back_spec(s) == s.take(b),
    decreases s.len() - b,
{
    if b == s.len() {
        assert(s.take(b) =~= s);
    } else {
        assert(is_ws_char(s[s.len() - 1]));
        assert(forall|t: int| 0 <= t < s.drop_last().len() ==> s.drop_last()[t] == s[t]);
        lemma_trim_back(s.drop_last(), b);
        assert(s.drop_last().take(b) =~= s.take(b));
    }
}

/// `s` trimmed of leading and trailing whitespace.
pub fn trim_ws(s: &str) -> (r: String)
    ensures
        r@ == trim_spec(s@),
{
    let n = s.unicode_len();
    let mut a: usize = 0;
    while a < n && is_ws(s.get_char(a))
        invariant
            n == s@.len(),
            a <= n,
            forall|t: int| 0 <= t < a ==> is_ws_char(s@[t]),
        decreases n - a,
    {
        a += 1;
    }
    let mut b: usize = n;
    while b > a && is_ws(s.get_char(b - 1))
        invariant
            n == s@.len(),
            a <= b <= n,
            forall|t: int| b <= t < n ==> is_ws_char(s@[t]),
        decreases b,
    {
        b -= 1;
    }
    let piece = s.substring_char(a, b);
    proof {
        lemma_trim_front(s@, a as int);
        assert(forall|t: int|
            0 <= t < s@.skip(a as int).len() ==> s@.skip(a as int)[t] == s@[a + t]);
        lemma_trim_back(s@.skip(a as int), b as int - a as int);
        assert(s@.skip(a as int).take(b as int - a as int) =~= s@.subrange(a as int, b as int));
    }
    String::from_str(piece)
}

/// The prefix of `s` before its first whitespace character (all of `s`
/// when it has none).
pub open spec fn until_ws_spec(s: Seq<char>) -> Seq<char>
    decreases s.len(),
{
    if s.len() == 0 || is_ws_char(s.first()) {
        Seq::empty()
    } else {
        seq![s.first()] + until_ws_spec(s.drop_first())
    }
}

proof fn lemma_until_ws(s: Seq<char>, j: int)
    requires
        0 <= j <= s.len(),
        forall|t: int| 0 <= t < j ==> !is_ws_char(s[t]),
        j < s.len() ==> is_ws_char(s[j]),
    ensures
        until_ws_spec(s) == s.take(j),
    decreases j,
{
    if j == 0 {
        assert(s.take(0) =~= Seq::<char>::empty());
    } else {
        assert(!is_ws_char(s[0]));
        assert(forall|t: int| 0 <= t < s.drop_first().len() ==> s.drop_first()[t] == s[t + 1]);
        lemma_until_ws(s.drop_first(), j - 1);
        assert(seq![s.first()] + s.drop_first().take(j - 1) =~= s.take(j));
    }
}

/// The part of `s` before the first occurrence of `sub` (all of `s` when
/// it does not occur).
pub open spec fn before_first(s: Seq<char>, sub: Seq<char>) -> Seq<char> {
    if contains_sub(s, sub) {
        s.take(choose|k: int| is_first_match(s, sub, k))
    } else {
        s
    }
}

/// The `mtp://` URI in a mount-listing line: from its first occurrence up
/// to the next whitespace.
pub open spec fn mount_uri_spec(line: Seq<char>) -> Seq<char> {
    until_ws_spec(line.skip(choose|k: int| is_first_match(line, "mtp://"@, k)))
}

/// What one `gio mount -l` line contributes.  A line mentioning an
/// `mtp://` or `gphoto2://` URI names an attached Android mount: the
/// display name is what stands before `->`, trimmed, and the locator is
/// the `mtp://` URI up to the next whitespace, when the line carries one.
/// Any other line contributes nothing.
pub fn parse_gio_mount_line(line: &str) -> (r: Option<(String, Option<String>)>)
    ensures
        r is Some <==> (contains_sub(line@, "mtp://"@) || contains_sub(line@, "gphoto2://"@)),
        r matches Some(p) ==> {
            &&& p.0@ == trim_spec(before_first(line@, "->"@))
            &&& (p.1 is Some <==> contains_sub(line@, "mtp://"@))
            &&& (p.1 matches Some(m) ==> m@ == mount_uri_spec(line@))
        },
{
    let mtp = find_sub(line, "mtp://");
    let gphoto = find_sub(line, "gphoto2://");
    if mtp.is_none() && gphoto.is_none() {
        return None;
    }
    let n = line.unicode_len();
    let prefix = match find_sub(line, "->") {
        Some(k) => {
            proof {
                let k0 = choose|k0: int| is_first_match(line@, "->"@, k0);
                lemma_first_match_unique(line@, "->"@, k0, k as int);
                assert(line@.subrange(0, k as int) =~= line@.take(k as int));
            }
            line.substring_char(0, k)
        },
        None => line,
    };
    let name = trim_ws(prefix);
    let mount = match mtp {
        Some(k) => {
            let mut j = k;
            while j < n && !is_ws(line.get_char(j))
                invariant
                    n == line@.len(),
                    k <= j <= n,
                    forall|t: int| k <= t < j ==> !is_ws_char(line@[t]),
                decreases n - j,
            {
                j += 1;
            }
            let uri = line.substring_char(k, j);
            proof {
                let rest = line@.skip(k as int);
                assert(forall|t: int| 0 <= t < rest.len() ==> rest[t] == line@[k + t]);
                lemma_until_ws(rest, j as int - k as int);
                assert(rest.take(j as int - k as int) =~= line@.subrange(k as int, j as int));
                let k0 = choose|k0: int| is_first_match(line@, "mtp://"@, k0);
                lemma_first_match_unique(line@, "mtp://"@, k0, k as int);
            }
            Some(String::from_str(uri))
        },
        None => None,
    };
    Some((name, mount))
}

/// The value of a `Label: value` line: what stands between the first and
/// the second colon, trimmed.
pub open spec fn labeled_value_spec(line: Seq<char>) -> Seq<char> {
    trim_spec(
        before_first(line.skip((choose|k: int| is_first_match(line, ":"@, k)) + 1), ":"@),
    )
}

/// The value carried by a `Label: value` line, or nothing when the line
/// has no colon.
pub fn labeled_value(line: &str) -> (r: Option<String>)
    ensures
        r is Some <==> contains_sub(line@, ":"@),
        r matches Some(v) ==> v@ == labeled_value_spec(line@),
{
    proof {
        reveal_strlit(":");
    }
    let n = line.unicode_len();
    match find_sub(line, ":") {
        Some(k) => {
            proof {
                let k0 = choose|k0: int| is_first_match(line@, ":"@, k0);
                lemma_first_match_unique(line@, ":"@, k0, k as int);
            }
            let rest = line.substring_char(k + 1, n);
            proof {
                assert(rest@ =~= line@.skip(k as int + 1));
            }
            let field = match find_sub(rest, ":") {
                Some(m) => {
                    proof {
                        let m0 = choose|m0: int| is_first_match(rest@, ":"@, m0);
                        lemma_first_match_unique(rest@, ":"@, m0, m as int);
                        assert(rest@.subrange(0, m as int) =~= rest@.take(m as int));
                    }
                    rest.substring_char(0, m)
                },
                None => rest,
            };
            Some(trim_ws(field))
        },
        None => None,
    }
}

} // verus!
