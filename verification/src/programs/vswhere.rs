//! The locator of Visual Studio installations.

use crate::paths::join;
use crate::paths::joined;
use crate::program::Program;
use crate::program::texts;
use vstd::prelude::*;
use vstd::string::*;

verus! {

/// The locator of Visual Studio installations.
#[derive(Debug, Clone, Copy, PartialEq, Eq, Structural)]
pub struct VsWhere;

impl Program for VsWhere {
    open spec fn executable() -> Seq<char> {
        "vswhere"@
    }

    open spec fn fallbacks() -> Seq<Seq<char>> {
        Seq::empty()
    }

    fn executable_name() -> (name: &'static str) {
        assert(Self::executable() == "vswhere"@);
        "vswhere"
    }

    fn executable_name_fallback() -> (names: Vec<&'static str>) {
        Vec::new()
    }

    open spec fn directory(&self) -> core::option::Option<Seq<char>> {
        None
    }

    fn current_directory(&self) -> (dir: core::option::Option<String>) {
        None
    }
}

/// No installation with the required component was found.
#[derive(Debug, Clone, Copy, PartialEq, Eq, Structural)]
pub struct NoMsvcInstallation;

impl NoMsvcInstallation {
    /// What the error says.
    pub fn to_string(&self) -> (text: String)
        ensures
            text@ == "failed to find a MSVC installation"@,
    {
        String::from_str("failed to find a MSVC installation")
    }
}

/// What the catalog tells of an installation.
#[derive(Debug)]
pub struct Catalog {
    /// The year that names the product line.
    pub product_line_version: String,
}

/// An installation of Visual Studio.
#[derive(Debug)]
pub struct InstanceInfo {
    /// When the installation was made, as the locator writes it.
    pub install_date: String,
    /// Example: C:\\Program Files\\Microsoft Visual Studio\\2022\\Community
    pub installation_path: String,
    pub installation_version: String,
    pub is_prerelease: bool,
    pub display_name: String,
    pub catalog: Catalog,
}

/// The form in which the locator writes what it found.
#[derive(Debug, Clone, Copy, PartialEq, Eq, Structural)]
pub enum Format {
    Json,
    Text,
    Value,
    Xml,
}

impl Format {
    /// The name of the form as the locator takes it.
    pub open spec fn name_of(self) -> Seq<char> {
        match self {
            Format::Json => "json"@,
            Format::Text => "text"@,
            Format::Value => "value"@,
            Format::Xml => "xml"@,
        }
    }

    /// The name of the form as the locator takes it.
    pub fn name(&self) -> (name: String)
        ensures
            name@ == self.name_of(),
    {
        String::from_str(
            match self {
                Format::Json => "json",
                Format::Text => "text",
                Format::Value => "value",
                Format::Xml => "xml",
            },
        )
    }
}

/// A component of an installation.
#[derive(Debug, Clone, Copy, PartialEq, Eq, Structural)]
pub enum Component {
    /// MSVC v142 - VS 2019 C++ x64/x86 build tools
    CppBuildTools,
    /// MSBuild
    MsBuild,
}

impl Component {
    /// The identifier of the component.
    pub open spec fn id_of(self) -> Seq<char> {
        match self {
            Component::CppBuildTools => "Microsoft.VisualStudio.Component.VC.Tools.x86.x64"@,
            Component::MsBuild => "Microsoft.Component.MSBuild"@,
        }
    }

    /// The identifier of the component.
    pub fn id(&self) -> (id: String)
        ensures
            id@ == self.id_of(),
    {
        String::from_str(
            match self {
                Component::CppBuildTools => "Microsoft.VisualStudio.Component.VC.Tools.x86.x64",
                Component::MsBuild => "Microsoft.Component.MSBuild",
            },
        )
    }
}

/// An option of a call of the locator.
#[derive(Debug)]
pub enum Option {
    /// Output format.
    Format(Format),
    /// One or more workload or component IDs required when finding
    /// instances. All specified IDs must be installed.
    Required(Vec<Component>),
    /// Forces output to be written as UTF-8, regardless of the code page.
    ForceUTF8,
}

/// The identifiers of components, as plain texts.
pub open spec fn ids(components: Seq<Component>) -> Seq<Seq<char>> {
    components.map_values(|component: Component| component.id_of())
}

impl Option {
    /// The arguments that state the option.
    pub open spec fn arguments(self) -> Seq<Seq<char>> {
        match self {
            Option::Format(format) => seq!["-format"@, format.name_of()],
            Option::Required(components) => seq!["-requires"@] + ids(components@),
            Option::ForceUTF8 => seq!["-utf8"@],
        }
    }

    /// Writes the arguments that state the option.
    pub fn format_arguments(&self) -> (args: Vec<String>)
        ensures
            texts(args@) == self.arguments(),
    {
        let mut args: Vec<String> = Vec::new();
        match self {
            Option::Format(format) => {
                args.push(String::from_str("-format"));
                args.push(format.name());
                assert(texts(args@) =~= self.arguments());
            },
            Option::Required(components) => {
                args.push(String::from_str("-requires"));
                assert(texts(args@) =~= seq!["-requires"@] + ids(components@.subrange(0, 0)));
                let mut i: usize = 0;
                while i < components.len()
                    invariant
                        i <= components@.len(),
                        texts(args@) == seq!["-requires"@] + ids(components@.subrange(0, i as int)),
                    decreases components.len() - i,
                {
                    let ghost had = args@;
                    let ghost prefix = components@.subrange(0, i as int);
                    args.push(components[i].id());
                    assert(components@.subrange(0, i + 1) =~= prefix.push(components@[i as int]));
                    assert(ids(prefix.push(components@[i as int])) =~= ids(prefix).push(
                        components@[i as int].id_of(),
                    ));
                    assert(texts(args@) =~= texts(had).push(components@[i as int].id_of()));
                    assert(texts(args@) =~= seq!["-requires"@] + ids(
                        components@.subrange(0, i + 1),
                    ));
                    i += 1;
                }
                assert(components@.subrange(0, components@.len() as int) =~= components@);
            },
            Option::ForceUTF8 => {
                args.push(String::from_str("-utf8"));
                assert(texts(args@) =~= self.arguments());
            },
        }
        args
    }
}

/// The arguments of the call that lists the installations with a
/// component: the list is asked for as JSON, in UTF-8.
pub open spec fn listing_arguments(component: Component) -> Seq<Seq<char>> {
    seq!["-format"@, "json"@, "-requires"@, component.id_of(), "-utf8"@]
}

impl VsWhere {
    /// Where the locator is installed, given the directory of 32-bit
    /// programs.
    pub fn installer_dir(program_files_x86: &str) -> (dir: String)
        ensures
            dir@ == joined(joined(program_files_x86@, "Microsoft Visual Studio"@), "Installer"@),
    {
        join(join(program_files_x86, "Microsoft Visual Studio").as_str(), "Installer")
    }

    /// The arguments of the call that lists all installations with the
    /// given component.
    pub fn find_all_with(component: Component) -> (args: Vec<String>)
        ensures
            texts(args@) == listing_arguments(component),
    {
        let mut args = Option::Format(Format::Json).format_arguments();
        let mut required: Vec<Component> = Vec::new();
        required.push(component);
        assert(ids(required@) =~= seq![component.id_of()]);
        let mut more = Option::Required(required).format_arguments();
        let ghost first = args@;
        let ghost second = more@;
        args.append(&mut more);
        let mut last = Option::ForceUTF8.format_arguments();
        let ghost third = last@;
        args.append(&mut last);
        assert(args@ == first + second + third);
        assert(texts(args@) =~= texts(first) + texts(second) + texts(third));
        assert(texts(args@) =~= listing_arguments(component));
        args
    }

    /// The arguments of the call that lists the installations of any
    /// product with the given component.
    pub fn find_with(component: Component) -> (args: Vec<String>)
        ensures
            texts(args@) == listing_arguments(component) + seq!["-products"@, "*"@],
    {
        let mut args = Self::find_all_with(component);
        let ghost before = args@;
        args.push(String::from_str("-products"));
        args.push(String::from_str("*"));
        assert(texts(args@) =~= texts(before) + seq!["-products"@, "*"@]);
        args
    }

    /// The arguments of the call that looks installations up that have the
    /// `MSVC v142 - VS 2019 C++ x64/x86 build tools (v14.28)` component.
    pub fn msvc() -> (args: Vec<String>)
        ensures
            texts(args@) == listing_arguments(Component::CppBuildTools) + seq![
                "-products"@,
                "*"@,
            ],
    {
        Self::find_with(Component::CppBuildTools)
    }

    /// The arguments of the call that looks installations up that have
    /// MSBuild.
    pub fn with_msbuild() -> (args: Vec<String>)
        ensures
            texts(args@) == listing_arguments(Component::MsBuild) + seq!["-products"@, "*"@],
    {
        Self::find_with(Component::MsBuild)
    }

    /// The installation that a lookup comes to: the first that the locator
    /// listed.
    pub fn first_found(instances: Vec<InstanceInfo>) -> (found: Result<
        InstanceInfo,
        NoMsvcInstallation,
    >)
        ensures
            match found {
                Ok(instance) => instances@.len() > 0 && instance == instances@[0],
                Err(_) => instances@.len() == 0,
            },
    {
        let mut instances = instances;
        if instances.len() > 0 {
            Ok(instances.swap_remove(0))
        } else {
            Err(NoMsvcInstallation)
        }
    }
}

} // verus!
