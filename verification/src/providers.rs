//! Provider definitions.

use crate::config::ConfigLocation;
use vstd::prelude::*;

verus! {

/// A search provider to expose from this service.
#[derive(Debug)]
pub struct ProviderDefinition<'a> {
    /// A human readable label for this provider.
    pub label: &'a str,
    /// The ID (that is, the filename) of the desktop file of the corresponding app.
    pub desktop_id: &'a str,
    /// The relative object path to expose this provider at.
    pub relative_obj_path: &'a str,
    /// The location of the configuration of the corresponding product.
    pub config: ConfigLocation<'a>,
}

/// What a provider definition holds: its label, desktop ID and relative object
/// path, and the vendor directory, prefix and file name of its configuration.
pub type ProviderRow = (Seq<char>, Seq<char>, Seq<char>, Seq<char>, Seq<char>, Seq<char>);

impl View for ProviderDefinition<'_> {
    type V = ProviderRow;

    open spec fn view(&self) -> ProviderRow {
        (
            self.label@,
            self.desktop_id@,
            self.relative_obj_path@,
            self.config.vendor_dir@,
            self.config.config_prefix@,
            self.config.projects_filename@,
        )
    }
}

/// The object path below which all providers of this service are exposed.
pub open spec fn object_path_root() -> Seq<char> {
    "/de/swsnr/searchprovider/jetbrains/"@
}

impl ProviderDefinition<'_> {
    /// Gets the full object path for this provider.
    pub fn objpath(&self) -> (path: String)
        ensures
            path@ == object_path_root() + self.relative_obj_path@,
    {
        let mut path = "/de/swsnr/searchprovider/jetbrains/".to_owned();
        path.append(self.relative_obj_path);
        path
    }
}

/// The known search providers, one row for each.
pub open spec fn provider_rows() -> Seq<ProviderRow> {
    seq![
        ("CLion (toolbox)"@, "jetbrains-clion.desktop"@, "toolbox/clion"@, "JetBrains"@, "CLion"@, "recentProjects.xml"@),
        ("GoLand (toolbox)"@, "jetbrains-goland.desktop"@, "toolbox/goland"@, "JetBrains"@, "GoLand"@, "recentProjects.xml"@),
        ("IDEA (toolbox)"@, "jetbrains-idea.desktop"@, "toolbox/idea"@, "JetBrains"@, "IntelliJIdea"@, "recentProjects.xml"@),
        ("IDEA Community Edition (toolbox)"@, "jetbrains-idea-ce.desktop"@, "toolbox/ideace"@, "JetBrains"@, "IdeaIC"@, "recentProjects.xml"@),
        ("PHPStorm (toolbox)"@, "jetbrains-phpstorm.desktop"@, "toolbox/phpstorm"@, "JetBrains"@, "PhpStorm"@, "recentProjects.xml"@),
        ("PyCharm (toolbox)"@, "jetbrains-pycharm.desktop"@, "toolbox/pycharm"@, "JetBrains"@, "PyCharm"@, "recentProjects.xml"@),
        ("Rider (toolbox)"@, "jetbrains-rider.desktop"@, "toolbox/rider"@, "JetBrains"@, "Rider"@, "recentSolutions.xml"@),
        ("RubyMine (toolbox)"@, "jetbrains-rubymine.desktop"@, "toolbox/rubymine"@, "JetBrains"@, "RubyMine"@, "recentProjects.xml"@),
        ("RustRover (toolbox)"@, "jetbrains-rustrover.desktop"@, "toolbox/rustrover"@, "JetBrains"@, "RustRover"@, "recentProjects.xml"@),
        ("Android Studio (toolbox)"@, "jetbrains-studio.desktop"@, "toolbox/studio"@, "Google"@, "AndroidStudio"@, "recentProjects.xml"@),
        ("WebStorm (toolbox)"@, "jetbrains-webstorm.desktop"@, "toolbox/webstorm"@, "JetBrains"@, "WebStorm"@, "recentProjects.xml"@),
    ]
}

/// Known search providers.
///
/// For each definition a corresponding provider file must exist; the file must
/// refer to the same `desktop_id` and the same object path.  The object path must be
/// unique for each desktop ID, to ensure that this service always launches the right
/// application associated with the search provider.
pub fn providers() -> (definitions: Vec<ProviderDefinition<'static>>)
    ensures
        definitions@.map_values(|definition: ProviderDefinition<'static>| definition@)
            == provider_rows(),
{
    let mut definitions: Vec<ProviderDefinition<'static>> = Vec::new();
    definitions.push(
        ProviderDefinition {
            label: "CLion (toolbox)",
            desktop_id: "jetbrains-clion.desktop",
            relative_obj_path: "toolbox/clion",
            config: ConfigLocation {
                vendor_dir: "JetBrains",
                config_prefix: "CLion",
                projects_filename: "recentProjects.xml",
            },
        },
    );
    definitions.push(
        ProviderDefinition {
            label: "GoLand (toolbox)",
            desktop_id: "jetbrains-goland.desktop",
            relative_obj_path: "toolbox/goland",
            config: ConfigLocation {
                vendor_dir: "JetBrains",
                config_prefix: "GoLand",
                projects_filename: "recentProjects.xml",
            },
        },
    );
    definitions.push(
        ProviderDefinition {
            label: "IDEA (toolbox)",
            desktop_id: "jetbrains-idea.desktop",
            relative_obj_path: "toolbox/idea",
            config: ConfigLocation {
                vendor_dir: "JetBrains",
                config_prefix: "IntelliJIdea",
                projects_filename: "recentProjects.xml",
            },
        },
    );
    definitions.push(
        ProviderDefinition {
            label: "IDEA Community Edition (toolbox)",
            desktop_id: "jetbrains-idea-ce.desktop",
            relative_obj_path: "toolbox/ideace",
            config: ConfigLocation {
                vendor_dir: "JetBrains",
                config_prefix: "IdeaIC",
                projects_filename: "recentProjects.xml",
            },
        },
    );
    definitions.push(
        ProviderDefinition {
            label: "PHPStorm (toolbox)",
            desktop_id: "jetbrains-phpstorm.desktop",
            relative_obj_path: "toolbox/phpstorm",
            config: ConfigLocation {
                vendor_dir: "JetBrains",
                config_prefix: "PhpStorm",
                projects_filename: "recentProjects.xml",
            },
        },
    );
    definitions.push(
        ProviderDefinition {
            label: "PyCharm (toolbox)",
            desktop_id: "jetbrains-pycharm.desktop",
            relative_obj_path: "toolbox/pycharm",
            config: ConfigLocation {
                vendor_dir: "JetBrains",
                config_prefix: "PyCharm",
                projects_filename: "recentProjects.xml",
            },
        },
    );
    definitions.push(
        ProviderDefinition {
            label: "Rider (toolbox)",
            desktop_id: "jetbrains-rider.desktop",
            relative_obj_path: "toolbox/rider",
            config: ConfigLocation {
                vendor_dir: "JetBrains",
                config_prefix: "Rider",
                projects_filename: "recentSolutions.xml",
            },
        },
    );
    definitions.push(
        ProviderDefinition {
            label: "RubyMine (toolbox)",
            desktop_id: "jetbrains-rubymine.desktop",
            relative_obj_path: "toolbox/rubymine",
            config: ConfigLocation {
                vendor_dir: "JetBrains",
                config_prefix: "RubyMine",
                projects_filename: "recentProjects.xml",
            },
        },
    );
    definitions.push(
        ProviderDefinition {
            label: "RustRover (toolbox)",
            desktop_id: "jetbrains-rustrover.desktop",
            relative_obj_path: "toolbox/rustrover",
            config: ConfigLocation {
                vendor_dir: "JetBrains",
                config_prefix: "RustRover",
                projects_filename: "recentProjects.xml",
            },
        },
    );
    definitions.push(
        ProviderDefinition {
            label: "Android Studio (toolbox)",
            desktop_id: "jetbrains-studio.desktop",
            relative_obj_path: "toolbox/studio",
            config: ConfigLocation {
                vendor_dir: "Google",
                config_prefix: "AndroidStudio",
                projects_filename: "recentProjects.xml",
            },
        },
    );
    definitions.push(
        ProviderDefinition {
            label: "WebStorm (toolbox)",
            desktop_id: "jetbrains-webstorm.desktop",
            relative_obj_path: "toolbox/webstorm",
            config: ConfigLocation {
                vendor_dir: "JetBrains",
                config_prefix: "WebStorm",
                projects_filename: "recentProjects.xml",
            },
        },
    );
    assert(definitions@.map_values(|definition: ProviderDefinition<'static>| definition@)
        =~= provider_rows());
    definitions
}

/// No two known providers share a desktop ID.
pub proof fn desktop_ids_are_unique(first: int, second: int)
    requires
        0 <= first < provider_rows().len(),
        0 <= second < provider_rows().len(),
        provider_rows()[first].1 == provider_rows()[second].1,
    ensures
        first == second,
{
    reveal_strlit("jetbrains-clion.desktop");
    reveal_strlit("jetbrains-goland.desktop");
    reveal_strlit("jetbrains-idea-ce.desktop");
    reveal_strlit("jetbrains-idea.desktop");
    reveal_strlit("jetbrains-phpstorm.desktop");
    reveal_strlit("jetbrains-pycharm.desktop");
    reveal_strlit("jetbrains-rider.desktop");
    reveal_strlit("jetbrains-rubymine.desktop");
    reveal_strlit("jetbrains-rustrover.desktop");
    reveal_strlit("jetbrains-studio.desktop");
    reveal_strlit("jetbrains-webstorm.desktop");
    assert("jetbrains-goland.desktop"@[10] != "jetbrains-clion.desktop"@[10]);
    assert("jetbrains-idea.desktop"@[10] != "jetbrains-clion.desktop"@[10]);
    assert("jetbrains-idea.desktop"@[10] != "jetbrains-goland.desktop"@[10]);
    assert("jetbrains-idea-ce.desktop"@[10] != "jetbrains-clion.desktop"@[10]);
    assert("jetbrains-idea-ce.desktop"@[10] != "jetbrains-goland.desktop"@[10]);
    assert("jetbrains-idea-ce.desktop"@[14] != "jetbrains-idea.desktop"@[14]);
    assert("jetbrains-phpstorm.desktop"@[10] != "jetbrains-clion.desktop"@[10]);
    assert("jetbrains-phpstorm.desktop"@[10] != "jetbrains-goland.desktop"@[10]);
    assert("jetbrains-phpstorm.desktop"@[10] != "jetbrains-idea.desktop"@[10]);
    assert("jetbrains-phpstorm.desktop"@[10] != "jetbrains-idea-ce.desktop"@[10]);
    assert("jetbrains-pycharm.desktop"@[10] != "jetbrains-clion.desktop"@[10]);
    assert("jetbrains-pycharm.desktop"@[10] != "jetbrains-goland.desktop"@[10]);
    assert("jetbrains-pycharm.desktop"@[10] != "jetbrains-idea.desktop"@[10]);
    assert("jetbrains-pycharm.desktop"@[10] != "jetbrains-idea-ce.desktop"@[10]);
    assert("jetbrains-pycharm.desktop"@[11] != "jetbrains-phpstorm.desktop"@[11]);
    assert("jetbrains-rider.desktop"@[10] != "jetbrains-clion.desktop"@[10]);
    assert("jetbrains-rider.desktop"@[10] != "jetbrains-goland.desktop"@[10]);
    assert("jetbrains-rider.desktop"@[10] != "jetbrains-idea.desktop"@[10]);
    assert("jetbrains-rider.desktop"@[10] != "jetbrains-idea-ce.desktop"@[10]);
    assert("jetbrains-rider.desktop"@[10] != "jetbrains-phpstorm.desktop"@[10]);
    assert("jetbrains-rider.desktop"@[10] != "jetbrains-pycharm.desktop"@[10]);
    assert("jetbrains-rubymine.desktop"@[10] != "jetbrains-clion.desktop"@[10]);
    assert("jetbrains-rubymine.desktop"@[10] != "jetbrains-goland.desktop"@[10]);
    assert("jetbrains-rubymine.desktop"@[10] != "jetbrains-idea.desktop"@[10]);
    assert("jetbrains-rubymine.desktop"@[10] != "jetbrains-idea-ce.desktop"@[10]);
    assert("jetbrains-rubymine.desktop"@[10] != "jetbrains-phpstorm.desktop"@[10]);
    assert("jetbrains-rubymine.desktop"@[10] != "jetbrains-pycharm.desktop"@[10]);
    assert("jetbrains-rubymine.desktop"@[11] != "jetbrains-rider.desktop"@[11]);
    assert("jetbrains-rustrover.desktop"@[10] != "jetbrains-clion.desktop"@[10]);
    assert("jetbrains-rustrover.desktop"@[10] != "jetbrains-goland.desktop"@[10]);
    assert("jetbrains-rustrover.desktop"@[10] != "jetbrains-idea.desktop"@[10]);
    assert("jetbrains-rustrover.desktop"@[10] != "jetbrains-idea-ce.desktop"@[10]);
    assert("jetbrains-rustrover.desktop"@[10] != "jetbrains-phpstorm.desktop"@[10]);
    assert("jetbrains-rustrover.desktop"@[10] != "jetbrains-pycharm.desktop"@[10]);
    assert("jetbrains-rustrover.desktop"@[11] != "jetbrains-rider.desktop"@[11]);
    assert("jetbrains-rustrover.desktop"@[12] != "jetbrains-rubymine.desktop"@[12]);
    assert("jetbrains-studio.desktop"@[10] != "jetbrains-clion.desktop"@[10]);
    assert("jetbrains-studio.desktop"@[10] != "jetbrains-goland.desktop"@[10]);
    assert("jetbrains-studio.desktop"@[10] != "jetbrains-idea.desktop"@[10]);
    assert("jetbrains-studio.desktop"@[10] != "jetbrains-idea-ce.desktop"@[10]);
    assert("jetbrains-studio.desktop"@[10] != "jetbrains-phpstorm.desktop"@[10]);
    assert("jetbrains-studio.desktop"@[10] != "jetbrains-pycharm.desktop"@[10]);
    assert("jetbrains-studio.desktop"@[10] != "jetbrains-rider.desktop"@[10]);
    assert("jetbrains-studio.desktop"@[10] != "jetbrains-rubymine.desktop"@[10]);
    assert("jetbrains-studio.desktop"@[10] != "jetbrains-rustrover.desktop"@[10]);
    assert("jetbrains-webstorm.desktop"@[10] != "jetbrains-clion.desktop"@[10]);
    assert("jetbrains-webstorm.desktop"@[10] != "jetbrains-goland.desktop"@[10]);
    assert("jetbrains-webstorm.desktop"@[10] != "jetbrains-idea.desktop"@[10]);
    assert("jetbrains-webstorm.desktop"@[10] != "jetbrains-idea-ce.desktop"@[10]);
    assert("jetbrains-webstorm.desktop"@[10] != "jetbrains-phpstorm.desktop"@[10]);
    assert("jetbrains-webstorm.desktop"@[10] != "jetbrains-pycharm.desktop"@[10]);
    assert("jetbrains-webstorm.desktop"@[10] != "jetbrains-rider.desktop"@[10]);
    assert("jetbrains-webstorm.desktop"@[10] != "jetbrains-rubymine.desktop"@[10]);
    assert("jetbrains-webstorm.desktop"@[10] != "jetbrains-rustrover.desktop"@[10]);
    assert("jetbrains-webstorm.desktop"@[10] != "jetbrains-studio.desktop"@[10]);
}

/// No two known providers share an object path.
pub proof fn object_paths_are_unique(first: int, second: int)
    requires
        0 <= first < provider_rows().len(),
        0 <= second < provider_rows().len(),
        object_path_root() + provider_rows()[first].2 == object_path_root() + provider_rows()[second].2,
    ensures
        first == second,
{
    let root = object_path_root();
    let a = provider_rows()[first].2;
    let b = provider_rows()[second].2;
    assert((root + a).subrange(root.len() as int, (root + a).len() as int) =~= a);
    assert((root + b).subrange(root.len() as int, (root + b).len() as int) =~= b);
    reveal_strlit("toolbox/clion");
    reveal_strlit("toolbox/goland");
    reveal_strlit("toolbox/idea");
    reveal_strlit("toolbox/ideace");
    reveal_strlit("toolbox/phpstorm");
    reveal_strlit("toolbox/pycharm");
    reveal_strlit("toolbox/rider");
    reveal_strlit("toolbox/rubymine");
    reveal_strlit("toolbox/rustrover");
    reveal_strlit("toolbox/studio");
    reveal_strlit("toolbox/webstorm");
    assert("toolbox/goland"@[8] != "toolbox/clion"@[8]);
    assert("toolbox/idea"@[8] != "toolbox/clion"@[8]);
    assert("toolbox/idea"@[8] != "toolbox/goland"@[8]);
    assert("toolbox/ideace"@[8] != "toolbox/clion"@[8]);
    assert("toolbox/ideace"@[8] != "toolbox/goland"@[8]);
    assert("toolbox/ideace"@.len() != "toolbox/idea"@.len());
    assert("toolbox/phpstorm"@[8] != "toolbox/clion"@[8]);
    assert("toolbox/phpstorm"@[8] != "toolbox/goland"@[8]);
    assert("toolbox/phpstorm"@[8] != "toolbox/idea"@[8]);
    assert("toolbox/phpstorm"@[8] != "toolbox/ideace"@[8]);
    assert("toolbox/pycharm"@[8] != "toolbox/clion"@[8]);
    assert("toolbox/pycharm"@[8] != "toolbox/goland"@[8]);
    assert("toolbox/pycharm"@[8] != "toolbox/idea"@[8]);
    assert("toolbox/pycharm"@[8] != "toolbox/ideace"@[8]);
    assert("toolbox/pycharm"@[9] != "toolbox/phpstorm"@[9]);
    assert("toolbox/rider"@[8] != "toolbox/clion"@[8]);
    assert("toolbox/rider"@[8] != "toolbox/goland"@[8]);
    assert("toolbox/rider"@[8] != "toolbox/idea"@[8]);
    assert("toolbox/rider"@[8] != "toolbox/ideace"@[8]);
    assert("toolbox/rider"@[8] != "toolbox/phpstorm"@[8]);
    assert("toolbox/rider"@[8] != "toolbox/pycharm"@[8]);
    assert("toolbox/rubymine"@[8] != "toolbox/clion"@[8]);
    assert("toolbox/rubymine"@[8] != "toolbox/goland"@[8]);
    assert("toolbox/rubymine"@[8] != "toolbox/idea"@[8]);
    assert("toolbox/rubymine"@[8] != "toolbox/ideace"@[8]);
    assert("toolbox/rubymine"@[8] != "toolbox/phpstorm"@[8]);
    assert("toolbox/rubymine"@[8] != "toolbox/pycharm"@[8]);
    assert("toolbox/rubymine"@[9] != "toolbox/rider"@[9]);
    assert("toolbox/rustrover"@[8] != "toolbox/clion"@[8]);
    assert("toolbox/rustrover"@[8] != "toolbox/goland"@[8]);
    assert("toolbox/rustrover"@[8] != "toolbox/idea"@[8]);
    assert("toolbox/rustrover"@[8] != "toolbox/ideace"@[8]);
    assert("toolbox/rustrover"@[8] != "toolbox/phpstorm"@[8]);
    assert("toolbox/rustrover"@[8] != "toolbox/pycharm"@[8]);
    assert("toolbox/rustrover"@[9] != "toolbox/rider"@[9]);
    assert("toolbox/rustrover"@[10] != "toolbox/rubymine"@[10]);
    assert("toolbox/studio"@[8] != "toolbox/clion"@[8]);
    assert("toolbox/studio"@[8] != "toolbox/goland"@[8]);
    assert("toolbox/studio"@[8] != "toolbox/idea"@[8]);
    assert("toolbox/studio"@[8] != "toolbox/ideace"@[8]);
    assert("toolbox/studio"@[8] != "toolbox/phpstorm"@[8]);
    assert("toolbox/studio"@[8] != "toolbox/pycharm"@[8]);
    assert("toolbox/studio"@[8] != "toolbox/rider"@[8]);
    assert("toolbox/studio"@[8] != "toolbox/rubymine"@[8]);
    assert("toolbox/studio"@[8] != "toolbox/rustrover"@[8]);
    assert("toolbox/webstorm"@[8] != "toolbox/clion"@[8]);
    assert("toolbox/webstorm"@[8] != "toolbox/goland"@[8]);
    assert("toolbox/webstorm"@[8] != "toolbox/idea"@[8]);
    assert("toolbox/webstorm"@[8] != "toolbox/ideace"@[8]);
    assert("toolbox/webstorm"@[8] != "toolbox/phpstorm"@[8]);
    assert("toolbox/webstorm"@[8] != "toolbox/pycharm"@[8]);
    assert("toolbox/webstorm"@[8] != "toolbox/rider"@[8]);
    assert("toolbox/webstorm"@[8] != "toolbox/rubymine"@[8]);
    assert("toolbox/webstorm"@[8] != "toolbox/rustrover"@[8]);
    assert("toolbox/webstorm"@[8] != "toolbox/studio"@[8]);
}

} // verus!
