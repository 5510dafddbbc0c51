//! Reading interpreter versions out of the names of the files in a directory.

use vstd::prelude::*;
use vstd::string::*;
use crate::text::{contains_text, has_prefix, texts};

verus! {

/// The first directory that is searched for interpreters.
pub const SYSTEM_BIN_DIR: &'static str = "/usr/bin";

/// The second directory that is searched for interpreters.
pub const LOCAL_BIN_DIR: &'static str = "/usr/local/bin";

/// What the name of an interpreter begins with.
pub const INTERPRETER_PREFIX: &'static str = "python";

/// The pattern that finds the major and the minor number in a file name:
/// the prefix at the very beginning of the name, then digits, a dot, digits.
pub const VERSION_PATTERN: &'static str = "^python(\\d+)\\.(\\d+)";

/// Gives the directories that are searched, in the order of the search.
pub fn scan_directories() -> (dirs: Vec<&'static str>)
    ensures
        dirs@.len() == 2,
        dirs@[0]@ == SYSTEM_BIN_DIR@,
        dirs@[1]@ == LOCAL_BIN_DIR@,
{
    let mut dirs: Vec<&'static str> = Vec::new();
    dirs.push(SYSTEM_BIN_DIR);
    dirs.push(LOCAL_BIN_DIR);
    dirs
}

/// The error with which the engine refuses a pattern (`regex::Error`).
#[verifier::external_type_specification]
#[verifier::external_body]
pub struct ExRegexError(regex::Error);

/// Whether `regex::Regex::new` accepts `pattern`.
pub uninterp spec fn pattern_is_valid(pattern: Seq<char>) -> bool;

/// What `regex::Regex::captures` finds in `text` for the regular expression
/// compiled from `pattern`: `None` where nothing matches, else the groups of
/// the leftmost match, the whole match first, each with the text it matched or
/// `None` where it took no part.
pub uninterp spec fn pattern_captures(pattern: Seq<char>, text: Seq<char>) -> Option<
    Seq<Option<Seq<char>>>,
>;

/// The views of a list of capture groups.
pub open spec fn groups_view(groups: Seq<Option<String>>) -> Seq<Option<Seq<char>>> {
    groups.map_values(
        |g: Option<String>|
            match g {
                Some(s) => Some(s@),
                None => None,
            },
    )
}

/// Why a scan could not be made.
#[derive(Debug, Clone, Copy, PartialEq, Eq)]
pub enum ScanError {
    /// The version pattern was refused by the regular expression engine.
    InvalidPattern,
}

/// Compiles `pattern` with `regex::Regex::new` and searches `text` with
/// `regex::Regex::captures`. Trusted: the call fails exactly where the engine
/// refuses the pattern, and otherwise hands back the capture groups of the
/// leftmost match, which depend on the pattern and the text alone.
#[verifier::external_body]
fn capture_groups(pattern: &str, text: &str) -> (r: Result<
    Option<Vec<Option<String>>>,
    regex::Error,
>)
    ensures
        r is Ok <==> pattern_is_valid(pattern@),
        r matches Ok(found) ==> match found {
            Some(groups) => pattern_captures(pattern@, text@) == Some(groups_view(groups@)),
            None => pattern_captures(pattern@, text@) is None,
        },
{
    let re = regex::Regex::new(pattern)?;
    match re.captures(text) {
        Some(caps) => {
            let mut groups = Vec::new();
            for group in caps.iter() {
                groups.push(group.map(|m| m.as_str().to_string()));
            }
            Ok(Some(groups))
        },
        None => Ok(None),
    }
}

/// A version: the major number, a dot, the minor number.
pub open spec fn joined_version(major: Seq<char>, minor: Seq<char>) -> Seq<char> {
    major + seq!['.'] + minor
}

/// The version that a list of capture groups gives: the second and the third
/// group joined, where both took part in the match.
pub open spec fn version_from_groups(groups: Seq<Option<Seq<char>>>) -> Option<Seq<char>> {
    if groups.len() > 2 && groups[1] is Some && groups[2] is Some {
        Some(joined_version(groups[1]->0, groups[2]->0))
    } else {
        None
    }
}

/// The version that a file name stands for, if any: the name begins with the
/// interpreter prefix and the version pattern matches in it.
pub open spec fn version_of(name: Seq<char>) -> Option<Seq<char>> {
    if INTERPRETER_PREFIX@.is_prefix_of(name) {
        match pattern_captures(VERSION_PATTERN@, name) {
            Some(groups) => version_from_groups(groups),
            None => None,
        }
    } else {
        None
    }
}

/// The list of versions after one more file name was looked at: a new version
/// goes to the end, a known one and a name without a version change nothing.
pub open spec fn record(seen: Seq<Seq<char>>, found: Option<Seq<char>>) -> Seq<Seq<char>> {
    match found {
        Some(v) => if seen.contains(v) {
            seen
        } else {
            seen.push(v)
        },
        None => seen,
    }
}

/// The versions found in a list of file names, each once, in the order in
/// which they first appear.
pub open spec fn scan(names: Seq<Seq<char>>) -> Seq<Seq<char>>
    decreases names.len(),
{
    if names.len() == 0 {
        Seq::empty()
    } else {
        record(scan(names.drop_last()), version_of(names.last()))
    }
}

/// The view of a string that may be missing.
pub open spec fn option_text(s: Option<String>) -> Option<Seq<char>> {
    match s {
        Some(s) => Some(s@),
        None => None,
    }
}

/// Builds the version from the capture groups of a match.
pub fn version_from_captures(groups: &Vec<Option<String>>) -> (r: Option<String>)
    ensures
        option_text(r) == version_from_groups(groups_view(groups@)),
{
    if groups.len() > 2 {
        match (&groups[1], &groups[2]) {
            (Some(major), Some(minor)) => {
                let mut version = major.clone();
                version.append(".");
                version.append(minor.as_str());
                proof {
                    reveal_strlit(".");
                    assert("."@ =~= seq!['.']);
                }
                Some(version)
            },
            _ => None,
        }
    } else {
        None
    }
}

/// Adds a version to the list unless it is there already.
pub fn record_version(versions: &mut Vec<String>, found: Option<String>)
    ensures
        texts(final(versions)@) == record(texts(old(versions)@), option_text(found)),
{
    match found {
        Some(v) => {
            if !contains_text(versions, &v) {
                versions.push(v);
                assert(texts(versions@) =~= texts(old(versions)@).push(v@));
            }
        },
        None => {},
    }
}

/// Whether any of the names begins with the interpreter prefix.
pub open spec fn any_interpreter(names: Seq<Seq<char>>) -> bool {
    exists|i: int| 0 <= i < names.len() && INTERPRETER_PREFIX@.is_prefix_of(#[trigger] names[i])
}

/// Reads the versions out of the names of a directory's entries.
///
/// The pattern is compiled for each name that begins with the interpreter
/// prefix; the scan fails only if there is such a name and the engine refuses
/// the pattern.
pub fn get_python_versions(names: &Vec<String>) -> (r: Result<Vec<String>, ScanError>)
    ensures
        r is Ok <==> (pattern_is_valid(VERSION_PATTERN@) || !any_interpreter(texts(names@))),
        r matches Ok(versions) ==> texts(versions@) == scan(texts(names@)),
        r matches Err(e) ==> e == ScanError::InvalidPattern,
{
    let mut versions: Vec<String> = Vec::new();
    let mut i: usize = 0;
    assert(texts(names@).take(0) =~= Seq::empty());
    while i < names.len()
        invariant
            i <= names.len(),
            texts(versions@) == scan(texts(names@).take(i as int)),
            forall|j: int|
                0 <= j < i && INTERPRETER_PREFIX@.is_prefix_of(#[trigger] texts(names@)[j])
                    ==> pattern_is_valid(VERSION_PATTERN@),
        decreases names.len() - i,
    {
        let name = names[i].as_str();
        proof {
            let upto = texts(names@).take(i as int + 1);
            assert(upto.drop_last() =~= texts(names@).take(i as int));
            assert(upto.last() == name@);
        }
        if has_prefix(name, INTERPRETER_PREFIX) {
            match capture_groups(VERSION_PATTERN, name) {
                Ok(Some(groups)) => {
                    let found = version_from_captures(&groups);
                    record_version(&mut versions, found);
                },
                Ok(None) => {},
                Err(_) => {
                    assert(INTERPRETER_PREFIX@.is_prefix_of(texts(names@)[i as int]));
                    return Err(ScanError::InvalidPattern);
                },
            }
        }
        i += 1;
    }
    assert(texts(names@).take(i as int) =~= texts(names@));
    Ok(versions)
}

/// A name that has a version begins with the interpreter prefix, the pattern
/// matches in it, and the version is the major number that the match
/// captured, a dot, and the minor number that it captured.
pub proof fn version_is_major_dot_minor(name: Seq<char>)
    requires
        version_of(name) is Some,
    ensures
        INTERPRETER_PREFIX@.is_prefix_of(name),
        pattern_captures(VERSION_PATTERN@, name) matches Some(groups) && groups.len() > 2
            && groups[1] is Some && groups[2] is Some && version_of(name) == Some(
            groups[1]->0 + seq!['.'] + groups[2]->0,
        ),
{
}

/// A scan holds no version twice, however often the names give it.
pub proof fn scan_has_no_duplicates(names: Seq<Seq<char>>)
    ensures
        scan(names).no_duplicates(),
    decreases names.len(),
{
    if names.len() > 0 {
        scan_has_no_duplicates(names.drop_last());
    }
}

/// Every version of a scan is the version of one of the names, and that name
/// begins with the interpreter prefix: other names never add anything.
pub proof fn scan_versions_come_from_names(names: Seq<Seq<char>>, v: Seq<char>)
    requires
        scan(names).contains(v),
    ensures
        exists|i: int|
            0 <= i < names.len() && INTERPRETER_PREFIX@.is_prefix_of(#[trigger] names[i])
                && version_of(names[i]) == Some(v),
    decreases names.len(),
{
    if names.len() > 0 {
        let earlier = names.drop_last();
        if scan(earlier).contains(v) {
            scan_versions_come_from_names(earlier, v);
            let i = choose|i: int|
                0 <= i < earlier.len() && INTERPRETER_PREFIX@.is_prefix_of(#[trigger] earlier[i])
                    && version_of(earlier[i]) == Some(v);
            assert(earlier[i] == names[i]);
        } else {
            let last = names.len() - 1;
            assert(version_of(names[last]) == Some(v));
        }
    }
}

/// The version of every name that has one is in the scan.
pub proof fn scan_holds_every_version(names: Seq<Seq<char>>, i: int)
    requires
        0 <= i < names.len(),
        version_of(names[i]) is Some,
    ensures
        scan(names).contains(version_of(names[i])->0),
    decreases names.len(),
{
    let v = version_of(names[i])->0;
    let earlier = names.drop_last();
    if i < names.len() - 1 {
        scan_holds_every_version(earlier, i);
        assert(earlier[i] == names[i]);
        let k = choose|k: int| 0 <= k < scan(earlier).len() && scan(earlier)[k] == v;
        assert(scan(names)[k] == v);
    } else {
        if !scan(earlier).contains(v) {
            assert(scan(names).last() == v);
        }
    }
}

/// Names that follow leave what was found before in place: the scan of the
/// first names is the beginning of the scan of all of them, so versions stand
/// in the order in which they first appear.
pub proof fn scan_keeps_earlier_versions(first: Seq<Seq<char>>, second: Seq<Seq<char>>)
    ensures
        scan(first).is_prefix_of(scan(first + second)),
    decreases second.len(),
{
    if second.len() == 0 {
        assert(first + second =~= first);
    } else {
        scan_keeps_earlier_versions(first, second.drop_last());
        assert((first + second).drop_last() =~= first + second.drop_last());
    }
}

/// Two scans of the same names give the same versions in the same order.
pub proof fn scan_is_determined_by_names(once: Seq<Seq<char>>, again: Seq<Seq<char>>)
    requires
        once =~= again,
    ensures
        scan(once) == scan(again),
{
}

} // verus!
