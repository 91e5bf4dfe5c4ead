//! Jetbrains configuration helpers.
//!
//! A product keeps its configuration in a directory below the configuration
//! directory of its vendor, one for each version of the product.  The directory of
//! the latest version holds the list of recent projects.

use crate::text::{string_views, utf8};
use regex::Regex;
use vstd::prelude::*;

verus! {

/// The capture groups of the first match of the regular expression `pattern` in
/// `text`, as the `regex` crate finds them: the whole match first, then one entry
/// for every group of the pattern, which is empty if the group took no part in the
/// match.  There are none if the pattern is no regular expression, or does not
/// match.
pub uninterp spec fn regex_captures(pattern: Seq<char>, text: Seq<char>) -> Option<
    Seq<Option<Seq<char>>>,
>;

/// What a list of capture groups holds.
pub open spec fn groups_view(groups: Seq<Option<String>>) -> Seq<Option<Seq<char>>> {
    groups.map_values(
        |group: Option<String>|
            match group {
                Some(text) => Some(text@),
                None => None,
            },
    )
}

/// `Regex::new` and `Regex::captures` of the `regex` crate: the result holds the
/// capture groups of the first match of `pattern` in `text`, and depends on nothing
/// but these two.  Nothing is claimed about what matches.
#[verifier::external_body]
fn capture_groups(pattern: &str, text: &str) -> (groups: Option<Vec<Option<String>>>)
    ensures
        match groups {
            Some(found) => regex_captures(pattern@, text@) == Some(groups_view(found@)),
            None => regex_captures(pattern@, text@) is None,
        },
{
    let expression = Regex::new(pattern).ok()?;
    let captures = expression.captures(text)?;
    Some(captures.iter().map(|group| group.map(|found| found.as_str().to_owned())).collect())
}

/// The value of a byte string of ASCII digits in decimal notation, if it is one.
pub open spec fn digits_value(digits: Seq<u8>) -> Option<nat>
    decreases digits.len(),
{
    if digits.len() == 0 {
        None
    } else if !(0x30 <= digits.last() <= 0x39) {
        None
    } else if digits.len() == 1 {
        Some((digits.last() - 0x30) as nat)
    } else {
        match digits_value(digits.drop_last()) {
            Some(value) => Some(value * 10 + (digits.last() - 0x30) as nat),
            None => None,
        }
    }
}

/// The number that a text of one to four ASCII digits denotes, if it is one.
pub open spec fn short_number(text: Seq<char>) -> Option<u16> {
    if utf8(text).len() <= 4 {
        match digits_value(utf8(text)) {
            Some(value) => if value <= u16::MAX {
                Some(value as u16)
            } else {
                None
            },
            None => None,
        }
    } else {
        None
    }
}

proof fn digits_value_is_bounded(digits: Seq<u8>)
    requires
        digits.len() <= 4,
    ensures
        match digits_value(digits) {
            Some(value) => digits.len() == 1 && value < 10 || digits.len() == 2 && value < 100
                || digits.len() == 3 && value < 1000 || digits.len() == 4 && value < 10000,
            None => true,
        },
    decreases digits.len(),
{
    if digits.len() > 1 {
        digits_value_is_bounded(digits.drop_last());
    }
}

/// Read a number of one to four ASCII digits.
pub fn parse_short_number(text: &str) -> (number: Option<u16>)
    ensures
        number == short_number(text@),
{
    let digits = text.as_bytes();
    if digits.len() == 0 || digits.len() > 4 {
        return None;
    }
    let mut value: u16 = 0;
    let mut i: usize = 0;
    while i < digits.len()
        invariant
            i <= digits.len() <= 4,
            digits@ == utf8(text@),
            i > 0 ==> digits_value(digits@.take(i as int)) == Some(value as nat),
            i == 0 ==> value == 0,
        decreases digits.len() - i,
    {
        let digit = digits[i];
        proof {
            let next = digits@.take(i + 1);
            assert(next.drop_last() =~= digits@.take(i as int));
            assert(next.last() == digit);
            digits_value_is_bounded(digits@.take(i as int));
        }
        if digit < 0x30 || digit > 0x39 {
            proof {
                not_all_digits(digits@, i as int);
            }
            return None;
        }
        value = value * 10 + (digit - 0x30) as u16;
        i += 1;
    }
    assert(digits@.take(i as int) =~= digits@);
    Some(value)
}

proof fn not_all_digits(digits: Seq<u8>, at: int)
    requires
        0 <= at < digits.len(),
        !(0x30 <= digits[at] <= 0x39),
    ensures
        digits_value(digits) is None,
    decreases digits.len(),
{
    if at < digits.len() - 1 {
        not_all_digits(digits.drop_last(), at);
    }
}

/// The regular expression that finds the version in the name of a configuration
/// directory: up to four digits, any one character, and up to two digits.
pub open spec fn version_pattern() -> Seq<char> {
    "(\\d{1,4}).(\\d{1,2})"@
}

/// The version that a list of capture groups denotes: the numbers of its first and
/// second group behind the whole match.
pub open spec fn version_of_groups(groups: Seq<Option<Seq<char>>>) -> Option<(u16, u16)> {
    if groups.len() == 3 {
        match (groups[1], groups[2]) {
            (Some(epoch), Some(major)) => match (short_number(epoch), short_number(major)) {
                (Some(first), Some(second)) => Some((first, second)),
                _ => None,
            },
            _ => None,
        }
    } else {
        None
    }
}

/// The version in the name of a directory, if the name holds one.
pub open spec fn version_in(file_name: Seq<char>) -> Option<(u16, u16)> {
    match regex_captures(version_pattern(), file_name) {
        Some(groups) => version_of_groups(groups),
        None => None,
    }
}

/// Read the version from the capture groups of a match of the version pattern.
pub fn version_from_groups(groups: &Vec<Option<String>>) -> (version: Option<(u16, u16)>)
    ensures
        version == version_of_groups(groups_view(groups@)),
{
    if groups.len() != 3 {
        return None;
    }
    match (&groups[1], &groups[2]) {
        (Some(epoch), Some(major)) => {
            match (parse_short_number(epoch.as_str()), parse_short_number(major.as_str())) {
                (Some(first), Some(second)) => Some((first, second)),
                _ => None,
            }
        },
        _ => None,
    }
}

/// A path with an associated version.
#[derive(Debug)]
pub struct VersionedPath {
    path: String,
    /// The version as pair of epoch and major version.
    version: (u16, u16),
}

impl VersionedPath {
    /// The path.
    pub closed spec fn path_view(&self) -> Seq<char> {
        self.path@
    }

    /// The version as pair of epoch and major version.
    pub closed spec fn version_view(&self) -> (u16, u16) {
        self.version
    }

    /// Extract the version number from the name of the given directory.
    ///
    /// Return `None` if the name doesn't contain any valid version.
    pub fn extract_version(file_name: String) -> (versioned: Option<VersionedPath>)
        ensures
            match versioned {
                Some(found) => found.path_view() == file_name@ && version_in(file_name@) == Some(
                    found.version_view(),
                ),
                None => version_in(file_name@) is None,
            },
    {
        let version = match capture_groups("(\\d{1,4}).(\\d{1,2})", file_name.as_str()) {
            Some(groups) => version_from_groups(&groups),
            None => None,
        };
        match version {
            Some(version) => Some(VersionedPath { path: file_name, version }),
            None => None,
        }
    }

    /// The version of this path.
    pub fn version(&self) -> (version: (u16, u16))
        ensures
            version == self.version_view(),
    {
        self.version
    }

    /// Get the path out of this versioned path
    pub fn into_path(self) -> (path: String)
        ensures
            path@ == self.path_view(),
    {
        self.path
    }
}

/// Whether the version `a` is older than the version `b`.
pub open spec fn is_older(a: (u16, u16), b: (u16, u16)) -> bool {
    a.0 < b.0 || (a.0 == b.0 && a.1 < b.1)
}

/// Whether `text` starts with `prefix`.
pub open spec fn starts_with(text: Seq<char>, prefix: Seq<char>) -> bool {
    utf8(prefix).is_prefix_of(utf8(text))
}

/// Test whether `text` starts with `prefix`.
pub fn has_prefix(text: &str, prefix: &str) -> (found: bool)
    ensures
        found == starts_with(text@, prefix@),
{
    let bytes = text.as_bytes();
    let start = prefix.as_bytes();
    if start.len() > bytes.len() {
        return false;
    }
    let mut i: usize = 0;
    while i < start.len()
        invariant
            i <= start.len() <= bytes.len(),
            bytes@ == utf8(text@),
            start@ == utf8(prefix@),
            forall|j: int| 0 <= j < i ==> bytes@[j] == start@[j],
        decreases start.len() - i,
    {
        if bytes[i] != start[i] {
            assert(bytes@.subrange(0, start@.len() as int)[i as int] != start@[i as int]);
            return false;
        }
        i += 1;
    }
    assert(start@ =~= bytes@.subrange(0, start@.len() as int));
    true
}

/// Why no list of recent projects was found.
#[derive(Debug, Copy, Clone, PartialEq, Eq)]
pub enum ConfigError {
    /// The vendor directory holds no configuration directory of the product.
    NoConfigurationDirectory,
}

impl ConfigError {
    /// Describe this error for the configuration home it occurred in.
    pub fn message(&self, config_home: &str) -> (message: String)
        ensures
            message@ == "Failed to find configuration directory in "@ + config_home@,
    {
        let mut message = "Failed to find configuration directory in ".to_owned();
        message.append(config_home);
        message
    }
}

/// A location for configuration of a Jetbrains product.
#[derive(Debug)]
pub struct ConfigLocation<'a> {
    /// The vendor configuration directory.
    pub vendor_dir: &'a str,
    /// A prefix for configuration directories inside the vendor directory.
    pub config_prefix: &'a str,
    /// The file name for recent projects
    pub projects_filename: &'a str,
}

impl ConfigLocation<'_> {
    /// Whether the directory entry `name` is a configuration directory of this
    /// product: it starts with the prefix and holds a version.
    pub open spec fn is_config_dir(&self, name: Seq<char>) -> bool {
        starts_with(name, self.config_prefix@) && version_in(name) is Some
    }

    /// Whether the entry at `index` is the configuration directory of the latest
    /// version: no configuration directory has a later version, and those behind it
    /// have an older one.
    pub open spec fn is_latest(&self, entries: Seq<Seq<char>>, index: int) -> bool {
        &&& 0 <= index < entries.len()
        &&& self.is_config_dir(entries[index])
        &&& forall|other: int|
            0 <= other < entries.len() && self.is_config_dir(#[trigger] entries[other])
                ==> !is_older(version_in(entries[index])->0, version_in(entries[other])->0)
        &&& forall|other: int|
            index < other < entries.len() && self.is_config_dir(#[trigger] entries[other])
                ==> is_older(version_in(entries[other])->0, version_in(entries[index])->0)
    }

    /// Find the configuration directory of the latest installed product version
    /// among the entries of the vendor directory, given by their names.
    pub fn find_config_dir_of_latest_version(&self, entries: &Vec<String>) -> (latest: Result<
        VersionedPath,
        ConfigError,
    >)
        ensures
            match latest {
                Ok(found) => exists|index: int|
                    self.is_latest(string_views(entries@), index)
                        && found.path_view() == #[trigger] entries@[index]@
                        && version_in(entries@[index]@) == Some(found.version_view()),
                Err(error) => error == ConfigError::NoConfigurationDirectory && forall|index: int|
                    0 <= index < entries@.len() ==> !self.is_config_dir(
                        #[trigger] entries@[index]@,
                    ),
            },
    {
        let ghost names = string_views(entries@);
        let mut latest: Option<VersionedPath> = None;
        let ghost mut best: int = 0;
        let mut i: usize = 0;
        while i < entries.len()
            invariant
                i <= entries.len(),
                names == string_views(entries@),
                match latest {
                    Some(found) => self.is_latest(names.take(i as int), best)
                        && found.path_view() == entries@[best]@ && version_in(entries@[best]@)
                        == Some(found.version_view()),
                    None => forall|index: int|
                        0 <= index < i ==> !self.is_config_dir(#[trigger] entries@[index]@),
                },
            decreases entries.len() - i,
        {
            let ghost seen = names.take(i as int);
            let ghost next = names.take(i + 1);
            assert(forall|j: int| 0 <= j < i ==> next[j] == seen[j]);
            assert(next[i as int] == entries@[i as int]@);
            let candidate = if has_prefix(entries[i].as_str(), self.config_prefix) {
                VersionedPath::extract_version(entries[i].clone())
            } else {
                None
            };
            match candidate {
                Some(found) => {
                    let replace = match &latest {
                        Some(current) => !older(found.version(), current.version()),
                        None => true,
                    };
                    if replace {
                        proof {
                            if latest is Some {
                                assert forall|other: int|
                                    0 <= other < next.len() && self.is_config_dir(
                                        #[trigger] next[other],
                                    ) implies !is_older(
                                    version_in(next[i as int])->0,
                                    version_in(next[other])->0,
                                ) by {
                                    if other < i {
                                        assert(self.is_config_dir(seen[other]));
                                    }
                                }
                            } else {
                                assert forall|other: int|
                                    0 <= other < i implies !self.is_config_dir(
                                    #[trigger] next[other],
                                ) by {
                                    assert(!self.is_config_dir(entries@[other]@));
                                }
                            }
                            best = i as int;
                        }
                        latest = Some(found);
                    } else {
                        proof {
                            assert forall|other: int|
                                0 <= other < next.len() && self.is_config_dir(
                                    #[trigger] next[other],
                                ) implies !is_older(
                                version_in(next[best])->0,
                                version_in(next[other])->0,
                            ) by {
                                if other < i {
                                    assert(self.is_config_dir(seen[other]));
                                }
                            }
                            assert forall|other: int|
                                best < other < next.len() && self.is_config_dir(
                                    #[trigger] next[other],
                                ) implies is_older(
                                version_in(next[other])->0,
                                version_in(next[best])->0,
                            ) by {
                                if other < i {
                                    assert(self.is_config_dir(seen[other]));
                                }
                            }
                        }
                    }
                },
                None => {
                    proof {
                        assert(!self.is_config_dir(next[i as int]));
                        if latest is Some {
                            assert forall|other: int|
                                0 <= other < next.len() && self.is_config_dir(
                                    #[trigger] next[other],
                                ) implies !is_older(
                                version_in(next[best])->0,
                                version_in(next[other])->0,
                            ) by {
                                assert(self.is_config_dir(seen[other]));
                            }
                            assert forall|other: int|
                                best < other < next.len() && self.is_config_dir(
                                    #[trigger] next[other],
                                ) implies is_older(
                                version_in(next[other])->0,
                                version_in(next[best])->0,
                            ) by {
                                assert(self.is_config_dir(seen[other]));
                            }
                        }
                    }
                },
            }
            i += 1;
        }
        assert(names.take(i as int) =~= names);
        match latest {
            Some(found) => Ok(found),
            None => Err(ConfigError::NoConfigurationDirectory),
        }
    }

    /// Find the latest recent projects file among the entries of the vendor
    /// directory, given by their names.
    ///
    /// The file is returned as the components of its path below the configuration
    /// home: the vendor directory, the configuration directory of the latest
    /// version, `options` and the name of the file.
    pub fn find_latest_recent_projects_file(&self, entries: &Vec<String>) -> (file: Result<
        Vec<String>,
        ConfigError,
    >)
        ensures
            match file {
                Ok(components) => exists|index: int|
                    self.is_latest(string_views(entries@), index)
                        && string_views(components@) == seq![
                        self.vendor_dir@,
                        #[trigger] entries@[index]@,
                        "options"@,
                        self.projects_filename@,
                    ],
                Err(error) => error == ConfigError::NoConfigurationDirectory && forall|index: int|
                    0 <= index < entries@.len() ==> !self.is_config_dir(
                        #[trigger] entries@[index]@,
                    ),
            },
    {
        match self.find_config_dir_of_latest_version(entries) {
            Ok(found) => {
                let ghost index = choose|index: int|
                    self.is_latest(string_views(entries@), index)
                        && found.path_view() == #[trigger] entries@[index]@;
                let mut components: Vec<String> = Vec::new();
                components.push(self.vendor_dir.to_owned());
                components.push(found.into_path());
                components.push("options".to_owned());
                components.push(self.projects_filename.to_owned());
                assert(string_views(components@) =~= seq![
                    self.vendor_dir@,
                    entries@[index]@,
                    "options"@,
                    self.projects_filename@,
                ]);
                Ok(components)
            },
            Err(error) => Err(error),
        }
    }
}

fn older(a: (u16, u16), b: (u16, u16)) -> (result: bool)
    ensures
        result == is_older(a, b),
{
    a.0 < b.0 || (a.0 == b.0 && a.1 < b.1)
}

} // verus!
