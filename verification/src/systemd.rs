//! Names and properties of the systemd scopes that launched apps are moved to.
//!
//! See section "STRING ESCAPING FOR INCLUSION IN UNIT NAMES" in `systemd.unit(5)`
//! for the escaping, and <https://www.freedesktop.org/wiki/Software/systemd/dbus/>
//! for `StartTransientUnit`.

use crate::text::{
    ascii_char, decimal, optional_str_view, push_char, push_decimal, str_views, string_views,
    utf8,
};
use vstd::prelude::*;

verus! {

/// Whether systemd keeps the byte `b` as it is wherever it stands in a unit name:
/// `:`, `_`, an ASCII digit or an ASCII letter.
pub open spec fn is_plain_byte(b: u8) -> bool {
    ||| b == 0x3a
    ||| b == 0x5f
    ||| 0x30 <= b <= 0x39
    ||| 0x61 <= b <= 0x7a
    ||| 0x41 <= b <= 0x5a
}

/// The lower-case hexadecimal digit for `n`.
pub open spec fn hex_digit(n: u8) -> char
    recommends
        n < 16,
{
    if n < 10 {
        ascii_char((0x30 + n) as u8)
    } else {
        ascii_char((0x61 + n - 10) as u8)
    }
}

/// What the byte `b` at the given `position` of a name becomes in a unit name.
///
/// `/` becomes `-`.  A plain byte stays, and so does `.` unless it starts the name.
/// Any other byte becomes `\x` and its two lower-case hexadecimal digits.
pub open spec fn escape_byte(b: u8, position: int) -> Seq<char> {
    if b == 0x2f {
        seq!['-']
    } else if is_plain_byte(b) || (b == 0x2e && position > 0) {
        seq![ascii_char(b)]
    } else {
        seq!['\\', 'x', hex_digit(b / 16), hex_digit(b % 16)]
    }
}

/// The escaped form of a name given by its bytes: the escaped bytes, one after the other.
pub open spec fn escaped(bytes: Seq<u8>) -> Seq<char>
    decreases bytes.len(),
{
    if bytes.len() == 0 {
        Seq::empty()
    } else {
        escaped(bytes.drop_last()) + escape_byte(bytes.last(), bytes.len() - 1)
    }
}

/// Whether a unit name may hold the character `c`: an ASCII letter or digit, `:`,
/// `_`, `.`, `-` or `\\`.
pub open spec fn is_unit_name_char(c: char) -> bool {
    ||| c == ':'
    ||| c == '_'
    ||| c == '.'
    ||| c == '-'
    ||| c == '\\'
    ||| '0' <= c <= '9'
    ||| 'a' <= c <= 'z'
    ||| 'A' <= c <= 'Z'
}

/// An escaped name holds no character but those that a unit name may hold, and does
/// not start with a dot.
pub proof fn escaped_is_unit_name(bytes: Seq<u8>)
    ensures
        forall|at: int| 0 <= at < escaped(bytes).len() ==> is_unit_name_char(#[trigger] escaped(bytes)[at]),
        escaped(bytes).len() > 0 ==> escaped(bytes)[0] != '.',
        bytes.len() > 0 ==> escaped(bytes).len() > 0,
    decreases bytes.len(),
{
    if bytes.len() > 0 {
        let earlier = escaped(bytes.drop_last());
        let last = escape_byte(bytes.last(), bytes.len() - 1);
        escaped_is_unit_name(bytes.drop_last());
        assert(forall|at: int| 0 <= at < last.len() ==> is_unit_name_char(#[trigger] last[at]));
        assert forall|at: int| 0 <= at < escaped(bytes).len() implies is_unit_name_char(
            #[trigger] escaped(bytes)[at],
        ) by {
            if at < earlier.len() {
                assert(escaped(bytes)[at] == earlier[at]);
            } else {
                assert(escaped(bytes)[at] == last[at - earlier.len()]);
            }
        }
        if bytes.len() == 1 {
            assert(earlier.len() == 0);
            assert(escaped(bytes)[0] == last[0]);
        } else {
            assert(escaped(bytes)[0] == earlier[0]);
        }
    }
}

fn plain_byte(b: u8) -> (r: bool)
    ensures
        r == is_plain_byte(b),
{
    b == 0x3a || b == 0x5f || (0x30 <= b && b <= 0x39) || (0x61 <= b && b <= 0x7a) || (0x41 <= b
        && b <= 0x5a)
}

fn hex_char(n: u8) -> (c: char)
    requires
        n < 16,
    ensures
        c == hex_digit(n),
{
    if n < 10 {
        (0x30 + n) as char
    } else {
        (0x61 + n - 10) as char
    }
}

/// Escape a systemd unit name.
///
/// The name is taken byte by byte, in its UTF-8 encoding.
pub fn escape_name(name: &str) -> (escaped_name: String)
    ensures
        escaped_name@ == escaped(utf8(name@)),
{
    let bytes = name.as_bytes();
    let mut out = String::new();
    let mut i: usize = 0;
    while i < bytes.len()
        invariant
            i <= bytes.len(),
            bytes@ == utf8(name@),
            out@ == escaped(bytes@.take(i as int)),
        decreases bytes.len() - i,
    {
        let b = bytes[i];
        proof {
            let next = bytes@.take(i + 1);
            assert(next.drop_last() =~= bytes@.take(i as int));
            assert(next.last() == b);
        }
        if b == 0x2f {
            push_char(&mut out, '-');
        } else if plain_byte(b) || (b == 0x2e && i > 0) {
            push_char(&mut out, b as char);
        } else {
            push_char(&mut out, '\\');
            push_char(&mut out, 'x');
            push_char(&mut out, hex_char(b / 16));
            push_char(&mut out, hex_char(b % 16));
        }
        assert(out@ =~= escaped(bytes@.take(i as int)) + escape_byte(b, i as int));
        i += 1;
    }
    assert(bytes@.take(i as int) =~= bytes@);
    out
}

/// Properties for a new systemd scope.
#[derive(Debug)]
pub struct ScopeProperties<'a> {
    /// The prefix to prepend before the scope name.
    ///
    /// This string is prepended **literally**, and not escaped.
    /// It must be a valid string for a systemd unit.
    pub prefix: &'a str,
    /// The name for the scope.
    ///
    /// This string gets escaped for systemd and can be arbitrary.
    pub name: &'a str,
    /// The optional description for the unit.
    ///
    /// systemd uses it as the label of the unit, so it should identify the unit
    /// rather than describe it, despite the name.
    pub description: Option<&'a str>,
    /// The optional documentation URLs for the unit.
    pub documentation: Vec<&'a str>,
}

/// The full name of the scope unit for the process `pid`:
/// the prefix as it is, the escaped name and the process ID, joined by `-`,
/// with the unit suffix `.scope`.
pub open spec fn scope_name_of(prefix: Seq<char>, name: Seq<u8>, pid: u32) -> Seq<char> {
    prefix + seq!['-'] + escaped(name) + seq!['-'] + decimal(pid as nat) + ".scope"@
}

/// Build the name of the scope unit for the process `pid`.
pub fn scope_name(prefix: &str, name: &str, pid: u32) -> (unit_name: String)
    ensures
        unit_name@ == scope_name_of(prefix@, utf8(name@), pid),
{
    let mut unit_name = String::new();
    unit_name.append(prefix);
    push_char(&mut unit_name, '-');
    let escaped_name = escape_name(name);
    unit_name.append(escaped_name.as_str());
    push_char(&mut unit_name, '-');
    push_decimal(&mut unit_name, pid);
    unit_name.append(".scope");
    assert(unit_name@ =~= scope_name_of(prefix@, utf8(name@), pid));
    unit_name
}

/// The value of a unit property, in the shapes that the scope properties take on the bus.
#[derive(Debug)]
pub enum PropertyValue {
    /// An array of unsigned 32 bit integers.
    U32Array(Vec<u32>),
    /// A string.
    Str(String),
    /// An array of strings.
    StrArray(Vec<String>),
}

/// What a [`PropertyValue`] holds.
pub enum PropertyValueView {
    U32Array(Seq<u32>),
    Str(Seq<char>),
    StrArray(Seq<Seq<char>>),
}

impl View for PropertyValue {
    type V = PropertyValueView;

    open spec fn view(&self) -> PropertyValueView {
        match self {
            PropertyValue::U32Array(values) => PropertyValueView::U32Array(values@),
            PropertyValue::Str(value) => PropertyValueView::Str(value@),
            PropertyValue::StrArray(values) => PropertyValueView::StrArray(
                string_views(values@),
            ),
        }
    }
}

/// A named property of a unit, as `StartTransientUnit` takes it.
#[derive(Debug)]
pub struct UnitProperty {
    /// The name of the property.
    pub name: String,
    /// The value of the property.
    pub value: PropertyValue,
}

impl View for UnitProperty {
    type V = (Seq<char>, PropertyValueView);

    open spec fn view(&self) -> (Seq<char>, PropertyValueView) {
        (self.name@, self.value@)
    }
}

/// The arguments of one `StartTransientUnit` call.
#[derive(Debug)]
pub struct TransientUnit {
    /// The unit name including its suffix.
    pub name: String,
    /// The start mode, as in `StartUnit`.
    pub mode: String,
    /// The properties of the unit.
    pub properties: Vec<UnitProperty>,
}

impl TransientUnit {
    /// The properties of this unit as names and values.
    pub open spec fn properties_view(&self) -> Seq<(Seq<char>, PropertyValueView)> {
        self.properties@.map_values(|property: UnitProperty| property@)
    }
}

/// The properties of a scope for the process `pid`.
///
/// `PIDs` holds the process to move into the scope, and `CollectMode` lets systemd
/// collect the scope once it is inactive or failed.  `Description` is there if a
/// description is given, and `Documentation` if there is at least one URL.
pub open spec fn scope_unit_properties(
    pid: u32,
    description: Option<Seq<char>>,
    documentation: Seq<Seq<char>>,
) -> Seq<(Seq<char>, PropertyValueView)> {
    seq![
        ("PIDs"@, PropertyValueView::U32Array(seq![pid])),
        ("CollectMode"@, PropertyValueView::Str("inactive-or-failed"@)),
    ] + (match description {
        Some(text) => seq![("Description"@, PropertyValueView::Str(text))],
        None => Seq::empty(),
    }) + (if documentation.len() > 0 {
        seq![("Documentation"@, PropertyValueView::StrArray(documentation))]
    } else {
        Seq::empty()
    })
}

fn owned_strings(texts: &Vec<&str>) -> (owned: Vec<String>)
    ensures
        string_views(owned@) == str_views(texts@),
{
    let mut owned: Vec<String> = Vec::new();
    let mut i: usize = 0;
    while i < texts.len()
        invariant
            i <= texts.len(),
            owned@.len() == i,
            forall|j: int| 0 <= j < i ==> #[trigger] owned@[j]@ == texts@[j]@,
        decreases texts.len() - i,
    {
        owned.push(texts[i].to_owned());
        i += 1;
    }
    assert(string_views(owned@) =~= str_views(texts@));
    owned
}

/// Describe the new systemd application scope for a running process.
///
/// `properties` provides the name and the metadata for the new scope, and `pid` is
/// the process to move into it.  The unit is to be started with mode `fail`: if a
/// scope of that name already exists, starting fails instead of reusing the scope.
pub fn scope_unit(properties: &ScopeProperties<'_>, pid: u32) -> (unit: TransientUnit)
    ensures
        unit.name@ == scope_name_of(properties.prefix@, utf8(properties.name@), pid),
        unit.mode@ == "fail"@,
        unit.properties_view() == scope_unit_properties(
            pid,
            optional_str_view(properties.description),
            str_views(properties.documentation@),
        ),
{
    let mut pids: Vec<u32> = Vec::new();
    pids.push(pid);
    let mut unit_properties: Vec<UnitProperty> = Vec::new();
    unit_properties.push(
        UnitProperty { name: "PIDs".to_owned(), value: PropertyValue::U32Array(pids) },
    );
    unit_properties.push(
        UnitProperty {
            name: "CollectMode".to_owned(),
            value: PropertyValue::Str("inactive-or-failed".to_owned()),
        },
    );
    if let Some(description) = properties.description {
        unit_properties.push(
            UnitProperty {
                name: "Description".to_owned(),
                value: PropertyValue::Str(description.to_owned()),
            },
        );
    }
    if properties.documentation.len() > 0 {
        unit_properties.push(
            UnitProperty {
                name: "Documentation".to_owned(),
                value: PropertyValue::StrArray(owned_strings(&properties.documentation)),
            },
        );
    }
    let unit = TransientUnit {
        name: scope_name(properties.prefix, properties.name, pid),
        mode: "fail".to_owned(),
        properties: unit_properties,
    };
    assert(unit.properties_view() =~= scope_unit_properties(
        pid,
        optional_str_view(properties.description),
        str_views(properties.documentation@),
    ));
    unit
}

} // verus!
