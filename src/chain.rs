//! Walking a descriptor's inheritance chain, and resolving the whole chain
//! into a launch specification.

use vstd::prelude::*;

use crate::arguments::{
    launch_tokens, resolve_launch_arguments, ResolvedArguments,
};
use crate::library::{
    library_entries, resolve_libraries, resolved_views, string_or_empty, ResolvedLibrary,
};
use crate::rules::PlatformInfo;
use crate::text::views;
use crate::version::{
    list_or_empty, merge_chain, merge_versions, AssetIndex, Download, JavaVersion, Logging,
    MergedVersionView, Version,
};

verus! {

/// A required part that no descriptor of a chain supplies.
#[derive(Clone, Copy, Debug, PartialEq, Eq, Structural)]
pub enum MissingField {
    MainClass,
    AssetIndex,
    Downloads,
}

/// Why a version could not be resolved.
#[derive(Clone, Debug)]
pub enum ResolveError {
    /// No descriptor exists for this ancestor id.
    MissingAncestor(String),
    /// This ancestor id was already reached along the chain.
    CyclicInheritance(String),
    /// A descriptor could not be read; the loader's message.
    MalformedDescriptor(String),
    /// The merged chain lacks a required part.
    IncompleteVersion(MissingField),
}

/// What loading an ancestor descriptor gave.
#[derive(Clone, Debug)]
pub enum LoadOutcome {
    Loaded(Version),
    NotFound,
    Malformed(String),
}

/// What a chain walk needs next.
#[derive(Clone, Debug)]
pub enum ChainAction {
    /// Load the descriptor with this id and hand it to `add_parent`.
    Load(String),
    /// The root has been reached.
    Complete,
}

/// A fully merged, platform-filtered launch specification.
#[derive(Clone, Debug)]
pub struct ResolvedVersion {
    /// The id of the requested version.
    pub id: String,
    pub arguments: ResolvedArguments,
    /// The main class's fully qualified name.
    pub main_class: String,
    pub asset_index: AssetIndex,
    /// The asset index id, such as `1.14`.
    pub assets: String,
    pub downloads: Vec<(String, Download)>,
    pub libraries: Vec<ResolvedLibrary>,
    pub minimum_launcher_version: i32,
    pub release_time: String,
    pub time: String,
    pub version_type: String,
    pub logging: Vec<(String, Logging)>,
    /// Recommended Java runtime.
    pub java_version: JavaVersion,
    /// The game version this version is built on.
    pub minecraft_version: String,
    /// The ids of the chain, the requested version first and the root last.
    pub inheritances: Vec<String>,
    /// The descriptor files read for the ancestors, nearest first.
    pub path_chain: Vec<String>,
}

/// A descriptor followed by the ancestors loaded so far, leaf first.
pub struct VersionChain {
    versions: Vec<Version>,
    inheritances: Vec<String>,
    path_chain: Vec<String>,
}

/// The contents of a `VersionChain`.
pub ghost struct ChainView {
    pub versions: Seq<Version>,
    /// The id under which each descriptor was reached.
    pub inheritances: Seq<Seq<char>>,
    pub paths: Seq<Seq<char>>,
}

impl View for VersionChain {
    type V = ChainView;

    closed spec fn view(&self) -> ChainView {
        ChainView {
            versions: self.versions@,
            inheritances: views(self.inheritances@),
            paths: views(self.path_chain@),
        }
    }
}

/// A chain starts at its leaf, each later descriptor is the one the previous
/// names as its parent, and no id is reached twice.
pub open spec fn well_formed(c: ChainView) -> bool {
    &&& c.versions.len() >= 1
    &&& c.inheritances.len() == c.versions.len()
    &&& c.paths.len() + 1 == c.versions.len()
    &&& c.inheritances[0] == c.versions[0].id@
    &&& forall|i: int|
        1 <= i < c.versions.len() ==> (#[trigger] c.versions[i - 1].inherits_from matches Some(
            p,
        ) && p@ == c.inheritances[i])
    &&& forall|i: int, j: int|
        0 <= i < j < c.inheritances.len() ==> c.inheritances[i] != c.inheritances[j]
}

/// The parent named by the last descriptor of the chain.
pub open spec fn pending_parent(c: ChainView) -> Option<String> {
    c.versions.last().inherits_from
}

/// The runtime assumed for a chain that names none.
pub open spec fn default_java(j: JavaVersion) -> bool {
    j.component@ == "jre-legacy"@ && j.major_version == 8
}

/// The first required part that the merge lacks.
pub open spec fn missing_field(m: MergedVersionView) -> Option<MissingField> {
    if string_or_empty(m.main_class).len() == 0 {
        Some(MissingField::MainClass)
    } else if match m.asset_index {
        None => true,
        Some(a) => a.size == 0 && a.url@.len() == 0 && a.id@.len() == 0 && a.total_size == 0,
    } {
        Some(MissingField::AssetIndex)
    } else if list_or_empty(m.downloads).len() == 0 {
        Some(MissingField::Downloads)
    } else {
        None
    }
}

/// `rv` is the launch specification of the merge `m` of chain `c`.
pub open spec fn resolved_from(
    rv: ResolvedVersion,
    m: MergedVersionView,
    c: ChainView,
    platform: PlatformInfo,
    features: Seq<(String, bool)>,
) -> bool {
    &&& rv.id@ == m.id
    &&& m.main_class == Some(rv.main_class)
    &&& m.asset_index == Some(rv.asset_index)
    &&& m.downloads == Some(rv.downloads)
    &&& rv.assets@ == string_or_empty(m.assets)
    &&& rv.release_time@ == string_or_empty(m.release_time)
    &&& rv.time@ == string_or_empty(m.time)
    &&& rv.version_type@ == string_or_empty(m.version_type)
    &&& rv.logging@ == list_or_empty(m.logging)
    &&& (match m.java_version {
        Some(j) => rv.java_version == j,
        None => default_java(rv.java_version),
    })
    &&& rv.minimum_launcher_version == (match m.minimum_launcher_version {
        Some(x) => x,
        None => 0,
    })
    &&& rv.minecraft_version@ == (match m.client_version {
        Some(v) => v@,
        None => m.id,
    })
    &&& resolved_views(rv.libraries@) == library_entries(m.libraries, platform)
    &&& (views(rv.arguments.game@), views(rv.arguments.jvm@)) == launch_tokens(
        m.game_arguments,
        m.jvm_arguments,
        platform,
        features,
    )
    &&& views(rv.inheritances@) == c.inheritances
    &&& views(rv.path_chain@) == c.paths
}

fn text_or_empty(s: Option<String>) -> (r: String)
    ensures
        r@ == string_or_empty(s),
{
    match s {
        Some(x) => x,
        None => String::new(),
    }
}

impl VersionChain {
    #[verifier::type_invariant]
    spec fn is_sound(self) -> bool {
        well_formed(self@)
    }

    /// Starts a walk at `leaf`.
    pub fn new(leaf: Version) -> (r: VersionChain)
        ensures
            r@.versions == seq![leaf],
            r@.inheritances == seq![leaf.id@],
            r@.paths.len() == 0,
    {
        let id = leaf.id.clone();
        let chain = VersionChain {
            versions: vec![leaf],
            inheritances: vec![id],
            path_chain: Vec::new(),
        };
        assert(chain@.inheritances =~= seq![leaf.id@]);
        assert(chain@.paths =~= Seq::<Seq<char>>::empty());
        chain
    }

    /// The descriptors so far, leaf first.
    pub fn versions(&self) -> (r: &Vec<Version>)
        ensures
            r@ == self@.versions,
    {
        &self.versions
    }

    /// The ids under which the descriptors were reached, leaf first.
    pub fn inheritances(&self) -> (r: &Vec<String>)
        ensures
            views(r@) == self@.inheritances,
    {
        &self.inheritances
    }

    /// Whether the root is reached, or which descriptor to load next.
    pub fn next_action(&self) -> (r: ChainAction)
        ensures
            well_formed(self@),
            match pending_parent(self@) {
                None => r is Complete,
                Some(p) => r == ChainAction::Load(p),
            },
    {
        proof {
            use_type_invariant(self);
        }
        let last = self.versions.len() - 1;
        match &self.versions[last].inherits_from {
            Some(p) => ChainAction::Load(p.clone()),
            None => ChainAction::Complete,
        }
    }

    #[verifier::loop_isolation(false)]
    /// Takes in what loading the pending parent gave, read from `path`. A
    /// chain whose last descriptor names no parent comes back as it was.
    pub fn add_parent(self, outcome: LoadOutcome, path: String) -> (r: Result<
        VersionChain,
        ResolveError,
    >)
        ensures
            well_formed(self@),
            match pending_parent(self@) {
                None => r matches Ok(c) && c@ == self@,
                Some(p) => match outcome {
                    LoadOutcome::NotFound => r matches Err(e) && e == ResolveError::MissingAncestor(
                        p,
                    ),
                    LoadOutcome::Malformed(m) => r matches Err(e)
                        && e == ResolveError::MalformedDescriptor(m),
                    LoadOutcome::Loaded(v) => if self@.inheritances.contains(p@) {
                        r matches Err(e) && e == ResolveError::CyclicInheritance(p)
                    } else {
                        r matches Ok(c) && c@ == ChainView {
                            versions: self@.versions.push(v),
                            inheritances: self@.inheritances.push(p@),
                            paths: self@.paths.push(path@),
                        }
                    },
                },
            },
    {
        proof {
            use_type_invariant(&self);
        }
        let last = self.versions.len() - 1;
        let parent = match &self.versions[last].inherits_from {
            Some(p) => p.clone(),
            None => return Ok(self),
        };
        let loaded = match outcome {
            LoadOutcome::NotFound => return Err(ResolveError::MissingAncestor(parent)),
            LoadOutcome::Malformed(m) => return Err(ResolveError::MalformedDescriptor(m)),
            LoadOutcome::Loaded(v) => v,
        };
        let n = self.inheritances.len();
        let mut i: usize = 0;
        while i < n
            invariant
                n == self.inheritances.len(),
                i <= n,
                forall|j: int| 0 <= j < i ==> self.inheritances@[j]@ != parent@,
            decreases n - i,
        {
            if self.inheritances[i] == parent {
                assert(self@.inheritances[i as int] == parent@);
                return Err(ResolveError::CyclicInheritance(parent));
            }
            i = i + 1;
        }
        assert(!self@.inheritances.contains(parent@));
        let ghost before = self@;
        let VersionChain { mut versions, mut inheritances, mut path_chain } = self;
        versions.push(loaded);
        inheritances.push(parent);
        path_chain.push(path);
        proof {
            let nv = versions@;
            let ni = views(inheritances@);
            assert(ni =~= before.inheritances.push(parent@));
            assert(nv =~= before.versions.push(loaded));
            assert forall|i: int| 1 <= i < nv.len() implies (#[trigger] nv[i - 1].inherits_from matches Some(
                p,
            ) && p@ == ni[i]) by {
                if i < nv.len() - 1 {
                    assert(before.versions[i - 1] == nv[i - 1]);
                }
            }
        }
        let chain = VersionChain { versions, inheritances, path_chain };
        assert(chain@.inheritances =~= before.inheritances.push(parent@));
        assert(chain@.paths =~= before.paths.push(path@));
        assert(chain@.versions =~= before.versions.push(loaded));
        Ok(chain)
    }

    /// Merges the chain and resolves it for `platform` with the given feature
    /// flags: fails when the merge lacks a main class, an asset index or downloads.
    pub fn resolve(self, platform: &PlatformInfo, features: &Vec<(String, bool)>) -> (r: Result<
        ResolvedVersion,
        ResolveError,
    >)
        ensures
            match r {
                Err(e) => missing_field(merge_chain(self@.versions)) matches Some(f) && e
                    == ResolveError::IncompleteVersion(f),
                Ok(rv) => missing_field(merge_chain(self@.versions)) is None && resolved_from(
                    rv,
                    merge_chain(self@.versions),
                    self@,
                    *platform,
                    features@,
                ),
            },
    {
        let ghost c = self@;
        let VersionChain { versions, inheritances, path_chain } = self;
        let merged = merge_versions(versions);
        let main_class = match merged.main_class {
            Some(s) => s,
            None => return Err(ResolveError::IncompleteVersion(MissingField::MainClass)),
        };
        if main_class.as_str().unicode_len() == 0 {
            return Err(ResolveError::IncompleteVersion(MissingField::MainClass));
        }
        let asset_index = match merged.asset_index {
            Some(a) => a,
            None => return Err(ResolveError::IncompleteVersion(MissingField::AssetIndex)),
        };
        if asset_index.size == 0 && asset_index.url.as_str().unicode_len() == 0
            && asset_index.id.as_str().unicode_len() == 0 && asset_index.total_size == 0 {
            return Err(ResolveError::IncompleteVersion(MissingField::AssetIndex));
        }
        let downloads = match merged.downloads {
            Some(d) => d,
            None => return Err(ResolveError::IncompleteVersion(MissingField::Downloads)),
        };
        if downloads.len() == 0 {
            return Err(ResolveError::IncompleteVersion(MissingField::Downloads));
        }
        let arguments = resolve_launch_arguments(
            &merged.game_arguments,
            &merged.jvm_arguments,
            platform,
            features,
        );
        let java_version = match merged.java_version {
            Some(j) => j,
            None => JavaVersion { component: "jre-legacy".to_owned(), major_version: 8 },
        };
        let minecraft_version = match merged.client_version {
            Some(v) => v,
            None => merged.id.clone(),
        };
        let logging = match merged.logging {
            Some(l) => l,
            None => Vec::new(),
        };
        Ok(
            ResolvedVersion {
                id: merged.id,
                arguments,
                main_class,
                asset_index,
                assets: text_or_empty(merged.assets),
                downloads,
                libraries: resolve_libraries(merged.libraries, platform),
                minimum_launcher_version: match merged.minimum_launcher_version {
                    Some(x) => x,
                    None => 0,
                },
                release_time: text_or_empty(merged.release_time),
                time: text_or_empty(merged.time),
                version_type: text_or_empty(merged.version_type),
                logging,
                java_version,
                minecraft_version,
                inheritances,
                path_chain,
            },
        )
    }
}

} // verus!

verus! {

/// A chain in which no descriptor gives a non-empty main class is incomplete
/// for want of one.
pub proof fn lemma_no_main_class_is_incomplete(chain: Seq<Version>)
    requires
        forall|i: int|
            0 <= i < chain.len() ==> string_or_empty((#[trigger] chain[i]).main_class).len() == 0,
    ensures
        missing_field(merge_chain(chain)) == Some(MissingField::MainClass),
    decreases chain.len(),
{
    if chain.len() > 0 {
        let rest = chain.drop_first();
        assert forall|i: int| 0 <= i < rest.len() implies string_or_empty(
            (#[trigger] rest[i]).main_class,
        ).len() == 0 by {
            assert(rest[i] == chain[i + 1]);
        }
        lemma_no_main_class_is_incomplete(rest);
        assert(string_or_empty(chain[0].main_class).len() == 0);
    }
}

} // verus!
