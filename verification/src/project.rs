//! The kinds of target that the engine builds or fetches, and how they
//! depend on each other.

pub mod gui;
pub mod ide;
pub mod project_manager;
pub mod wasm;

use crate::error::ResolveError;
use crate::platform::OS;
use crate::platform::os_name;
use crate::release::Asset;
use crate::text::contains;
use crate::text::ends_with;
use crate::text::is_infix_of;
use crate::text::is_suffix_of;
use vstd::prelude::*;
use vstd::string::*;

verus! {

/// One of the four artifacts that make up the product.
#[derive(Debug, Clone, Copy, PartialEq, Eq, Structural)]
pub enum TargetKind {
    /// The compiled web module.
    WasmModule,
    /// The bundle of the graphical interface.
    GuiBundle,
    /// The bundle of the backend service.
    BackendBundle,
    /// The packaged desktop application.
    DesktopInstaller,
}

/// Whether a file name is that of an archive.
pub open spec fn archive_name(name: Seq<char>) -> bool {
    is_suffix_of(".zip"@, name) || is_suffix_of(".tar.gz"@, name)
}

/// `wanted` stands in the list before the position `before`.
pub open spec fn comes_before(order: Seq<TargetKind>, wanted: TargetKind, before: int) -> bool {
    exists|j: int| 0 <= j < before && j < order.len() && #[trigger] order[j] == wanted
}

/// Each kind of the chain depends on the kind that follows it.
pub open spec fn is_dependency_chain(chain: Seq<TargetKind>) -> bool {
    forall|i: int| 0 <= i < chain.len() - 1 ==> (#[trigger] chain[i]).depends_on(chain[i + 1])
}

impl TargetKind {
    /// Whether the inputs of a local build of `self` hold the artifact of
    /// `other`: the interface bundle embeds the web module; the desktop
    /// application embeds the interface bundle and the backend bundle.
    pub open spec fn depends_on(self, other: TargetKind) -> bool {
        match self {
            TargetKind::WasmModule => false,
            TargetKind::BackendBundle => false,
            TargetKind::GuiBundle => other == TargetKind::WasmModule,
            TargetKind::DesktopInstaller => other == TargetKind::GuiBundle || other
                == TargetKind::BackendBundle,
        }
    }

    /// The length of the longest chain of dependencies below the kind.
    pub open spec fn depth(self) -> nat {
        match self {
            TargetKind::WasmModule => 0,
            TargetKind::BackendBundle => 0,
            TargetKind::GuiBundle => 1,
            TargetKind::DesktopInstaller => 2,
        }
    }

    /// The kinds whose artifacts a local build of this kind takes in, in the
    /// order in which its inputs name them.
    pub open spec fn needs(self) -> Seq<TargetKind> {
        match self {
            TargetKind::WasmModule => seq![],
            TargetKind::BackendBundle => seq![],
            TargetKind::GuiBundle => seq![TargetKind::WasmModule],
            TargetKind::DesktopInstaller => seq![
                TargetKind::GuiBundle,
                TargetKind::BackendBundle,
            ],
        }
    }

    /// The kinds whose artifacts a local build of this kind takes in, in the
    /// order in which its inputs name them: exactly the kinds that it
    /// depends on, each once.
    pub fn dependencies(self) -> (needed: Vec<TargetKind>)
        ensures
            needed@ == self.needs(),
            forall|other: TargetKind| needed@.contains(other) <==> self.depends_on(other),
            needed@.no_duplicates(),
    {
        let needed = match self {
            TargetKind::WasmModule => Vec::new(),
            TargetKind::BackendBundle => Vec::new(),
            TargetKind::GuiBundle => vec![TargetKind::WasmModule],
            TargetKind::DesktopInstaller => vec![
                TargetKind::GuiBundle,
                TargetKind::BackendBundle,
            ],
        };
        proof {
            assert(needed@ =~= self.needs());
            assert forall|other: TargetKind| needed@.contains(other) <==> self.depends_on(
                other,
            ) by {
                if self.depends_on(other) {
                    if self == TargetKind::GuiBundle {
                        assert(needed@[0] == other);
                    } else if other == TargetKind::GuiBundle {
                        assert(needed@[0] == other);
                    } else {
                        assert(needed@[1] == other);
                    }
                }
            }
        }
        needed
    }

    /// The kinds that getting an artifact of this kind by a local build
    /// acquires, in an order in which they can be acquired: every kind
    /// comes after the kinds that it depends on, and this kind comes last.
    pub open spec fn acquired(self) -> Seq<TargetKind> {
        match self {
            TargetKind::WasmModule => seq![TargetKind::WasmModule],
            TargetKind::BackendBundle => seq![TargetKind::BackendBundle],
            TargetKind::GuiBundle => seq![TargetKind::WasmModule, TargetKind::GuiBundle],
            TargetKind::DesktopInstaller => seq![
                TargetKind::WasmModule,
                TargetKind::GuiBundle,
                TargetKind::BackendBundle,
                TargetKind::DesktopInstaller,
            ],
        }
    }

    /// Lists the kinds that a local build of this kind acquires, itself
    /// among them, each after all that it depends on.
    pub fn acquisition_order(self) -> (order: Vec<TargetKind>)
        ensures
            order@ == self.acquired(),
            order@.len() > 0 && order@.last() == self,
            order@.no_duplicates(),
            forall|i: int, needed: TargetKind|
                0 <= i < order@.len() && #[trigger] order@[i].depends_on(needed) ==> comes_before(
                    order@,
                    needed,
                    i,
                ),
    {
        let order = match self {
            TargetKind::WasmModule => vec![TargetKind::WasmModule],
            TargetKind::BackendBundle => vec![TargetKind::BackendBundle],
            TargetKind::GuiBundle => vec![TargetKind::WasmModule, TargetKind::GuiBundle],
            TargetKind::DesktopInstaller => vec![
                TargetKind::WasmModule,
                TargetKind::GuiBundle,
                TargetKind::BackendBundle,
                TargetKind::DesktopInstaller,
            ],
        };
        proof {
            assert(order@ =~= self.acquired());
            assert forall|i: int, needed: TargetKind|
                0 <= i < order@.len() && #[trigger] order@[i].depends_on(needed) implies comes_before(
                order@,
                needed,
                i,
            ) by {
                if needed == TargetKind::WasmModule {
                    assert(order@[0] == needed);
                } else if needed == TargetKind::GuiBundle {
                    assert(order@[1] == needed);
                } else {
                    assert(order@[2] == needed);
                }
            }
        }
        order
    }

    /// Whether the kind can be rebuilt continuously by a watching process.
    pub fn supports_watch(self) -> (watchable: bool)
        ensures
            watchable == (self == TargetKind::WasmModule || self == TargetKind::GuiBundle),
    {
        match self {
            TargetKind::WasmModule => true,
            TargetKind::GuiBundle => true,
            _ => false,
        }
    }

    /// The name under which artifacts of the kind are stored with a CI run.
    pub open spec fn artifact_name_of(self) -> Seq<char> {
        match self {
            TargetKind::WasmModule => "wasm"@,
            TargetKind::GuiBundle => "gui"@,
            TargetKind::BackendBundle => "Enso Project Manager"@,
            TargetKind::DesktopInstaller => "ide"@,
        }
    }

    /// The name under which artifacts of the kind are stored with a CI run.
    pub fn artifact_name(self) -> (name: String)
        ensures
            name@ == self.artifact_name_of(),
    {
        String::from_str(
            match self {
                TargetKind::WasmModule => "wasm",
                TargetKind::GuiBundle => "gui",
                TargetKind::BackendBundle => "Enso Project Manager",
                TargetKind::DesktopInstaller => "ide",
            },
        )
    }

    /// Whether a release asset with the given file name holds an artifact
    /// of the kind for the given system. The web module and the interface
    /// bundle are the same on every system; the backend bundle is an
    /// archive named after the project manager and the system. The desktop
    /// application is not fetched from releases.
    pub open spec fn asset_matches(self, os: OS, name: Seq<char>) -> bool {
        match self {
            TargetKind::WasmModule => is_infix_of("wasm"@, name),
            TargetKind::GuiBundle => is_infix_of("gui"@, name),
            TargetKind::BackendBundle => is_infix_of("project-manager"@, name) && is_infix_of(
                os_name(os),
                name,
            ) && archive_name(name),
            TargetKind::DesktopInstaller => false,
        }
    }

    /// Tests a release asset's file name against the kind and the system.
    pub fn matches_asset(self, os: OS, name: &str) -> (matches: bool)
        ensures
            matches == self.asset_matches(os, name@),
    {
        match self {
            TargetKind::WasmModule => contains(name, "wasm"),
            TargetKind::GuiBundle => contains(name, "gui"),
            TargetKind::BackendBundle => contains(name, "project-manager") && contains(
                name,
                os.name().as_str(),
            ) && (ends_with(name, ".zip") || ends_with(name, ".tar.gz")),
            TargetKind::DesktopInstaller => false,
        }
    }

    /// Counts the assets of a release that hold an artifact of the kind
    /// for the system. With more than one, the choice of the first is
    /// worth a warning.
    pub fn count_assets(self, os: OS, assets: &Vec<Asset>) -> (count: usize)
        ensures
            count == assets@.filter(|asset: Asset| self.asset_matches(os, asset.name@)).len(),
    {
        let ghost matching = |asset: Asset| self.asset_matches(os, asset.name@);
        let mut count: usize = 0;
        let mut i: usize = 0;
        assert(assets@.subrange(0, 0).filter(matching).len() == 0) by {
            reveal(Seq::filter);
        }
        while i < assets.len()
            invariant
                i <= assets@.len(),
                matching == |asset: Asset| self.asset_matches(os, asset.name@),
                count == assets@.subrange(0, i as int).filter(matching).len(),
                count <= i,
            decreases assets.len() - i,
        {
            proof {
                assert(assets@.subrange(0, i + 1) =~= assets@.subrange(0, i as int).push(
                    assets@[i as int],
                ));
                crate::lists::lemma_filter_push(
                    assets@.subrange(0, i as int),
                    assets@[i as int],
                    matching,
                );
            }
            if self.matches_asset(os, assets[i].name.as_str()) {
                count += 1;
            }
            i += 1;
        }
        assert(assets@.subrange(0, assets@.len() as int) =~= assets@);
        count
    }

    /// What `find_asset` returns for a list of assets: the position of the
    /// first asset that matches, or an error when none does.
    pub open spec fn asset_found(
        self,
        os: OS,
        assets: Seq<Asset>,
        found: Result<usize, ResolveError>,
    ) -> bool {
        match found {
            Ok(at) => at < assets.len() && self.asset_matches(os, assets[at as int].name@)
                && forall|j: int| 0 <= j < at ==> !self.asset_matches(os, #[trigger] assets[j].name@),
            Err(e) => e == ResolveError::AssetNotFound && forall|j: int|
                0 <= j < assets.len() ==> !self.asset_matches(os, #[trigger] assets[j].name@),
        }
    }

    /// Picks the asset of a release that holds the artifact of the kind:
    /// the first one that matches. Without a match there is nothing to
    /// fetch.
    pub fn find_asset(self, os: OS, assets: &Vec<Asset>) -> (found: Result<usize, ResolveError>)
        ensures
            self.asset_found(os, assets@, found),
    {
        let mut i: usize = 0;
        while i < assets.len()
            invariant
                i <= assets.len(),
                forall|j: int| 0 <= j < i ==> !self.asset_matches(os, #[trigger] assets@[j].name@),
            decreases assets.len() - i,
        {
            if self.matches_asset(os, assets[i].name.as_str()) {
                return Ok(i);
            }
            i += 1;
        }
        Err(ResolveError::AssetNotFound)
    }
}

/// Along a chain of dependencies the depth falls strictly.
pub proof fn lemma_chain_lowers_depth(chain: Seq<TargetKind>, from: int, to: int)
    requires
        is_dependency_chain(chain),
        0 <= from < to < chain.len(),
    ensures
        chain[to].depth() < chain[from].depth(),
    decreases to - from,
{
    assert(chain[to - 1].depends_on(chain[to - 1 + 1]));
    if from < to - 1 {
        lemma_chain_lowers_depth(chain, from, to - 1);
    }
}

/// The dependencies between the kinds have no cycle: no chain of
/// dependencies comes back to a kind that it has passed, and none is longer
/// than three kinds. In particular no kind depends on itself.
pub proof fn lemma_dependencies_are_acyclic(chain: Seq<TargetKind>)
    requires
        is_dependency_chain(chain),
    ensures
        chain.no_duplicates(),
        chain.len() <= 3,
        forall|kind: TargetKind| !kind.depends_on(kind),
{
    assert forall|i: int, j: int| 0 <= i < chain.len() && 0 <= j < chain.len() && i != j implies chain[i]
        != chain[j] by {
        if i < j {
            lemma_chain_lowers_depth(chain, i, j);
        } else {
            lemma_chain_lowers_depth(chain, j, i);
        }
    }
    if chain.len() > 3 {
        lemma_chain_lowers_depth(chain, 0, 1);
        lemma_chain_lowers_depth(chain, 1, 2);
        lemma_chain_lowers_depth(chain, 2, 3);
    }
}

} // verus!
