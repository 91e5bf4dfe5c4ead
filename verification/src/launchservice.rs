//! Launching apps, and moving the launched processes to scopes of their own.

use crate::systemd::{
    scope_name_of, scope_unit, scope_unit_properties, ScopeProperties, TransientUnit,
};
use crate::text::{
    bytes_eq, optional_str_view, optional_string_view, str_views, string_views, utf8,
};
use vstd::prelude::*;

verus! {

/// The desktop ID of an app.
#[derive(Debug, PartialEq, Eq, Clone)]
pub struct AppId(String);

impl View for AppId {
    type V = Seq<char>;

    closed spec fn view(&self) -> Seq<char> {
        self.0@
    }
}

impl AppId {
    /// The ID of the app with the given desktop file.
    pub fn new(id: String) -> (app_id: AppId)
        ensures
            app_id@ == id@,
    {
        AppId(id)
    }

    /// This ID as text.
    pub fn as_str(&self) -> (id: &str)
        ensures
            id@ == self@,
    {
        self.0.as_str()
    }

    /// A copy of this ID.
    pub fn duplicate(&self) -> (copy: AppId)
        ensures
            copy@ == self@,
    {
        AppId(self.0.clone())
    }
}

/// An app that can be launched.
#[derive(Debug)]
pub struct App {
    /// The ID of this app
    id: AppId,
    /// The icon to use for this app
    icon: String,
}

impl App {
    /// The ID of this app.
    pub closed spec fn id_view(&self) -> Seq<char> {
        self.id@
    }

    /// The icon of this app.
    pub closed spec fn icon_view(&self) -> Seq<char> {
        self.icon@
    }

    /// The app with the given ID and icon.
    pub fn new(id: AppId, icon: String) -> (app: App)
        ensures
            app.id_view() == id@,
            app.icon_view() == icon@,
    {
        App { id, icon }
    }

    /// The ID of this app.
    pub fn id(&self) -> (id: &AppId)
        ensures
            id@ == self.id_view(),
    {
        &self.id
    }

    /// The icon of this app.
    pub fn icon(&self) -> (icon: &str)
        ensures
            icon@ == self.icon_view(),
    {
        self.icon.as_str()
    }
}

/// Request to launch an app, with an URI to launch with.
#[derive(Debug)]
pub struct AppLaunchRequest {
    /// The ID of the app to launch.
    pub app: AppId,
    /// The URI to pass to the app on launch.
    pub uri: Option<String>,
}

impl AppLaunchRequest {
    /// The URI of this request.
    pub open spec fn uri_view(&self) -> Option<Seq<char>> {
        optional_string_view(self.uri)
    }
}

/// Settings for systemd scopes created by a search provider for launched apps.
#[derive(Debug, Clone)]
pub struct SystemdScopeSettings {
    /// The prefix for scope names.
    pub prefix: String,
    /// A string which identifies the app which started the scope.
    pub started_by: String,
    /// Optional documentation URLs for the scope.
    pub documentation: Vec<String>,
}

/// The bytes of the suffix that desktop IDs end with.
pub open spec fn desktop_suffix() -> Seq<u8> {
    utf8(".desktop"@)
}

/// The bytes of a desktop ID without the suffix `.desktop` at its end, however often
/// the suffix stands there.
pub open spec fn without_desktop_suffix(id: Seq<u8>) -> Seq<u8>
    decreases id.len(),
{
    if desktop_suffix().len() > 0 && desktop_suffix().is_suffix_of(id) {
        without_desktop_suffix(id.subrange(0, id.len() - desktop_suffix().len()))
    } else {
        id
    }
}

/// The description of the scope of an app: the description of the app, or `app`
/// where it has none, and who started it.
pub open spec fn scope_description(app_description: Option<Seq<char>>, started_by: Seq<char>) -> Seq<
    char,
> {
    match app_description {
        Some(description) => description + " started by "@ + started_by,
        None => "app started by "@ + started_by,
    }
}

/// The process ID as systemd takes it: systemd numbers processes without a sign.
pub open spec fn unsigned_pid(pid: i32) -> u32 {
    if pid >= 0 {
        pid as u32
    } else {
        (pid + 0x1_0000_0000) as u32
    }
}

/// A request to move a launched process into a new scope.
#[derive(Debug)]
pub struct ScopeRequest {
    /// The prefix of the name of the scope.
    pub prefix: String,
    /// The name of the scope before escaping: the ID of the app without its suffix.
    pub name: String,
    /// The description of the scope.
    pub description: String,
    /// The documentation URLs of the scope.
    pub documentation: Vec<String>,
    /// The process to move into the scope.
    pub pid: u32,
}

proof fn desktop_suffix_bytes()
    ensures
        desktop_suffix().len() == 8,
        desktop_suffix()[0] == 0x2e,
{
    reveal_strlit(".desktop");
    vstd::utf8::is_ascii_chars_encode_utf8(".desktop"@);
    assert(".desktop"@[0] == '.');
}

/// Strip the suffix `.desktop` off a desktop ID, as Gnome does for the scopes that it
/// creates itself.
pub fn strip_desktop_suffix(id: &str) -> (name: String)
    ensures
        utf8(name@) == without_desktop_suffix(utf8(id@)),
{
    let bytes = id.as_bytes();
    let suffix = ".desktop".as_bytes();
    let mut end: usize = bytes.len();
    proof {
        desktop_suffix_bytes();
        vstd::utf8::encode_utf8_valid_utf8(id@);
        vstd::utf8::is_char_boundary_start_end_of_seq(bytes@);
        assert(bytes@.subrange(0, end as int) =~= bytes@);
    }
    while end >= suffix.len()
        invariant
            end <= bytes.len(),
            bytes@ == utf8(id@),
            suffix@ == desktop_suffix(),
            suffix@.len() == 8,
            suffix@[0] == 0x2e,
            vstd::utf8::valid_utf8(bytes@),
            vstd::utf8::is_char_boundary(bytes@, end as int),
            without_desktop_suffix(bytes@) == without_desktop_suffix(bytes@.subrange(0, end as int)),
        ensures
            !desktop_suffix().is_suffix_of(bytes@.subrange(0, end as int)),
        decreases end,
    {
        let start = end - suffix.len();
        let tail = vstd::slice::slice_subrange(bytes, start, end);
        let ghost kept = bytes@.subrange(0, end as int);
        if !bytes_eq(tail, suffix) {
            proof {
                assert(kept.subrange(kept.len() - suffix@.len(), kept.len() as int) =~= tail@);
            }
            break ;
        }
        proof {
            assert(kept.subrange(kept.len() - suffix@.len(), kept.len() as int) =~= tail@);
            assert(kept.subrange(0, kept.len() - suffix@.len()) =~= bytes@.subrange(0, start as int));
            assert(bytes@[start as int] == tail@[0]);
            vstd::utf8::is_char_boundary_iff_not_is_continuation_byte(bytes@, start as int);
        }
        end = start;
    }
    proof {
        let kept = bytes@.subrange(0, end as int);
        assert(without_desktop_suffix(kept) == kept);
    }
    let (name, _) = id.split_at(end);
    name.to_owned()
}

fn to_unsigned(pid: i32) -> (unsigned: u32)
    ensures
        unsigned == unsigned_pid(pid),
{
    if pid >= 0 {
        pid as u32
    } else {
        (pid as i64 + 0x1_0000_0000) as u32
    }
}

fn cloned_strings(texts: &Vec<String>) -> (copies: Vec<String>)
    ensures
        string_views(copies@) == string_views(texts@),
{
    let mut copies: Vec<String> = Vec::new();
    let mut i: usize = 0;
    while i < texts.len()
        invariant
            i <= texts.len(),
            copies@.len() == i,
            forall|j: int| 0 <= j < i ==> #[trigger] copies@[j]@ == texts@[j]@,
        decreases texts.len() - i,
    {
        copies.push(texts[i].clone());
        i += 1;
    }
    assert(string_views(copies@) =~= string_views(texts@));
    copies
}

/// React to the launch of an app.
///
/// `pid` is the process ID that the launch reported, if it reported one.  Where it
/// did, the process is to be moved into a new scope, which the request describes:
/// named by the ID of the app without its suffix, and described by the description
/// of the app and by who started it.  Where it did not, nothing is to be done.
pub fn handle_launched(
    scope_settings: &SystemdScopeSettings,
    app_id: &str,
    app_description: Option<&str>,
    pid: Option<i32>,
) -> (request: Option<ScopeRequest>)
    ensures
        match (pid, request) {
            (Some(launched), Some(scope)) => {
                &&& scope.prefix@ == scope_settings.prefix@
                &&& utf8(scope.name@) == without_desktop_suffix(utf8(app_id@))
                &&& scope.description@ == scope_description(
                    optional_str_view(app_description),
                    scope_settings.started_by@,
                )
                &&& string_views(scope.documentation@) == string_views(
                    scope_settings.documentation@,
                )
                &&& scope.pid == unsigned_pid(launched)
            },
            (None, None) => true,
            _ => false,
        },
{
    match pid {
        None => None,
        Some(launched) => {
            let mut description = match app_description {
                Some(text) => {
                    let mut description = text.to_owned();
                    description.append(" started by ");
                    description
                },
                None => "app started by ".to_owned(),
            };
            description.append(scope_settings.started_by.as_str());
            Some(
                ScopeRequest {
                    prefix: scope_settings.prefix.clone(),
                    name: strip_desktop_suffix(app_id),
                    description,
                    documentation: cloned_strings(&scope_settings.documentation),
                    pid: to_unsigned(launched),
                },
            )
        },
    }
}

impl ScopeRequest {
    /// The properties of the scope that this request asks for.
    pub fn properties(&self) -> (properties: ScopeProperties<'_>)
        ensures
            properties.prefix@ == self.prefix@,
            properties.name@ == self.name@,
            optional_str_view(properties.description) == Some(self.description@),
            str_views(properties.documentation@) == string_views(self.documentation@),
    {
        let mut documentation: Vec<&str> = Vec::new();
        let mut i: usize = 0;
        while i < self.documentation.len()
            invariant
                i <= self.documentation.len(),
                documentation@.len() == i,
                forall|j: int| 0 <= j < i ==> #[trigger] documentation@[j]@ == self.documentation@[j]@,
            decreases self.documentation.len() - i,
        {
            documentation.push(self.documentation[i].as_str());
            i += 1;
        }
        assert(str_views(documentation@) =~= string_views(self.documentation@));
        ScopeProperties {
            prefix: self.prefix.as_str(),
            name: self.name.as_str(),
            description: Some(self.description.as_str()),
            documentation,
        }
    }

    /// The call that creates the scope and moves the process into it.
    pub fn unit(&self) -> (unit: TransientUnit)
        ensures
            unit.name@ == scope_name_of(self.prefix@, utf8(self.name@), self.pid),
            unit.mode@ == "fail"@,
            unit.properties_view() == scope_unit_properties(
                self.pid,
                Some(self.description@),
                string_views(self.documentation@),
            ),
    {
        let properties = self.properties();
        scope_unit(&properties, self.pid)
    }
}

} // verus!
