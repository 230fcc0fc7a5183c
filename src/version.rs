//! Version descriptors and the merge of an inheritance chain into one.

use vstd::prelude::*;

use crate::arguments::{Arguments, LaunchArgument};
use crate::library::Library;

verus! {

/// The newest release and snapshot ids of the version manifest.
#[derive(Clone, Debug)]
pub struct LatestVersion {
    pub release: String,
    pub snapshot: String,
}

/// One entry of the version manifest.
#[derive(Clone, Debug)]
pub struct VersionInfo {
    pub id: String,
    pub version_type: String,
    pub url: String,
    pub time: String,
    pub release_time: String,
    pub sha1: String,
    pub compliance_level: u8,
}

/// The list of published versions.
#[derive(Clone, Debug)]
pub struct VersionManifest {
    pub latest: LatestVersion,
    pub versions: Vec<VersionInfo>,
}

/// A downloadable file of a version, such as the client jar.
#[derive(Clone, Debug)]
pub struct Download {
    pub sha1: String,
    pub size: u64,
    pub url: String,
}

/// The asset index a version uses.
#[derive(Clone, Debug)]
pub struct AssetIndex {
    pub size: u64,
    pub url: String,
    pub id: String,
    pub total_size: u64,
}

/// One object of an asset index.
#[derive(Clone, Debug)]
pub struct AssetIndexObjectInfo {
    pub hash: String,
    pub size: u32,
}

/// A logging configuration file.
#[derive(Clone, Debug)]
pub struct LoggingFile {
    pub size: u64,
    pub url: String,
    pub id: String,
}

/// How the game is told about its logging configuration.
#[derive(Clone, Debug)]
pub struct Logging {
    pub file: LoggingFileDownload,
    pub argument: String,
    pub logging_type: String,
}

/// The logging configuration file to fetch.
#[derive(Clone, Debug)]
pub struct LoggingFileDownload {
    pub id: String,
    pub sha1: String,
    pub size: u64,
    pub url: String,
}

/// The Java runtime a version asks for.
#[derive(Clone, Debug)]
pub struct JavaVersion {
    pub component: String,
    pub major_version: i32,
}

/// A version descriptor as loaded: every part but the id may be absent.
#[derive(Clone, Debug)]
pub struct Version {
    pub id: String,
    pub time: Option<String>,
    pub version_type: Option<String>,
    pub release_time: Option<String>,
    /// The id of the descriptor this one inherits from.
    pub inherits_from: Option<String>,
    pub minimum_launcher_version: Option<i32>,
    pub minecraft_arguments: Option<String>,
    pub arguments: Option<Arguments>,
    pub main_class: Option<String>,
    pub libraries: Option<Vec<Library>>,
    pub jar: Option<String>,
    pub asset_index: Option<AssetIndex>,
    pub assets: Option<String>,
    pub downloads: Option<Vec<(String, Download)>>,
    pub client: Option<String>,
    pub server: Option<String>,
    pub logging: Option<Vec<(String, Logging)>>,
    pub java_version: Option<JavaVersion>,
    pub client_version: Option<String>,
}

/// A chain of descriptors merged into one.
#[derive(Clone, Debug)]
pub struct MergedVersion {
    /// The id of the leaf descriptor.
    pub id: String,
    pub time: Option<String>,
    pub version_type: Option<String>,
    pub release_time: Option<String>,
    pub main_class: Option<String>,
    pub assets: Option<String>,
    pub asset_index: Option<AssetIndex>,
    pub downloads: Option<Vec<(String, Download)>>,
    pub logging: Option<Vec<(String, Logging)>>,
    pub java_version: Option<JavaVersion>,
    pub client_version: Option<String>,
    /// The largest value that any descriptor of the chain gives.
    pub minimum_launcher_version: Option<i32>,
    /// The libraries of every descriptor, ancestors first.
    pub libraries: Vec<Library>,
    /// The game argument templates of every descriptor, ancestors first.
    pub game_arguments: Vec<LaunchArgument>,
    /// The JVM argument templates of every descriptor, ancestors first.
    pub jvm_arguments: Vec<LaunchArgument>,
}

/// The contents of a `MergedVersion`.
pub ghost struct MergedVersionView {
    pub id: Seq<char>,
    pub time: Option<String>,
    pub version_type: Option<String>,
    pub release_time: Option<String>,
    pub main_class: Option<String>,
    pub assets: Option<String>,
    pub asset_index: Option<AssetIndex>,
    pub downloads: Option<Vec<(String, Download)>>,
    pub logging: Option<Vec<(String, Logging)>>,
    pub java_version: Option<JavaVersion>,
    pub client_version: Option<String>,
    pub minimum_launcher_version: Option<i32>,
    pub libraries: Seq<Library>,
    pub game_arguments: Seq<LaunchArgument>,
    pub jvm_arguments: Seq<LaunchArgument>,
}

impl View for MergedVersion {
    type V = MergedVersionView;

    open spec fn view(&self) -> MergedVersionView {
        MergedVersionView {
            id: self.id@,
            time: self.time,
            version_type: self.version_type,
            release_time: self.release_time,
            main_class: self.main_class,
            assets: self.assets,
            asset_index: self.asset_index,
            downloads: self.downloads,
            logging: self.logging,
            java_version: self.java_version,
            client_version: self.client_version,
            minimum_launcher_version: self.minimum_launcher_version,
            libraries: self.libraries@,
            game_arguments: self.game_arguments@,
            jvm_arguments: self.jvm_arguments@,
        }
    }
}

/// The value of a more specific descriptor where it has one, else the other.
pub open spec fn override_with<T>(specific: Option<T>, general: Option<T>) -> Option<T> {
    if specific is Some {
        specific
    } else {
        general
    }
}

/// The larger of the values present.
pub open spec fn max_present(a: Option<i32>, b: Option<i32>) -> Option<i32> {
    match (a, b) {
        (Some(x), Some(y)) => Some(if x >= y { x } else { y }),
        (Some(x), None) => Some(x),
        (None, y) => y,
    }
}

/// The items of an optional list; none for an absent one.
pub open spec fn list_or_empty<T>(list: Option<Vec<T>>) -> Seq<T> {
    match list {
        Some(v) => v@,
        None => Seq::empty(),
    }
}

/// The game argument templates a descriptor gives.
pub open spec fn game_templates(v: Version) -> Seq<LaunchArgument> {
    match v.arguments {
        Some(a) => list_or_empty(a.game),
        None => Seq::empty(),
    }
}

/// The JVM argument templates a descriptor gives.
pub open spec fn jvm_templates(v: Version) -> Seq<LaunchArgument> {
    match v.arguments {
        Some(a) => list_or_empty(a.jvm),
        None => Seq::empty(),
    }
}

/// The merge of an empty chain.
pub open spec fn empty_merge() -> MergedVersionView {
    MergedVersionView {
        id: Seq::empty(),
        time: None,
        version_type: None,
        release_time: None,
        main_class: None,
        assets: None,
        asset_index: None,
        downloads: None,
        logging: None,
        java_version: None,
        client_version: None,
        minimum_launcher_version: None,
        libraries: Seq::empty(),
        game_arguments: Seq::empty(),
        jvm_arguments: Seq::empty(),
    }
}

/// Lays descriptor `v` over the merge of its ancestors.
pub open spec fn overlay(v: Version, below: MergedVersionView) -> MergedVersionView {
    MergedVersionView {
        id: v.id@,
        time: override_with(v.time, below.time),
        version_type: override_with(v.version_type, below.version_type),
        release_time: override_with(v.release_time, below.release_time),
        main_class: override_with(v.main_class, below.main_class),
        assets: override_with(v.assets, below.assets),
        asset_index: override_with(v.asset_index, below.asset_index),
        downloads: override_with(v.downloads, below.downloads),
        logging: override_with(v.logging, below.logging),
        java_version: override_with(v.java_version, below.java_version),
        client_version: override_with(v.client_version, below.client_version),
        minimum_launcher_version: max_present(
            v.minimum_launcher_version,
            below.minimum_launcher_version,
        ),
        libraries: below.libraries + list_or_empty(v.libraries),
        game_arguments: below.game_arguments + game_templates(v),
        jvm_arguments: below.jvm_arguments + jvm_templates(v),
    }
}

/// The merge of `chain`, leaf first: each descriptor laid over the merge of
/// the ones after it, so the root is laid down first and the leaf last.
pub open spec fn merge_chain(chain: Seq<Version>) -> MergedVersionView
    decreases chain.len(),
{
    if chain.len() == 0 {
        empty_merge()
    } else {
        overlay(chain[0], merge_chain(chain.drop_first()))
    }
}

fn override_value<T>(specific: Option<T>, general: Option<T>) -> (r: Option<T>)
    ensures
        r == override_with(specific, general),
{
    match specific {
        Some(x) => Some(x),
        None => general,
    }
}

fn larger_present(a: Option<i32>, b: Option<i32>) -> (r: Option<i32>)
    ensures
        r == max_present(a, b),
{
    match (a, b) {
        (Some(x), Some(y)) => Some(if x >= y { x } else { y }),
        (Some(x), None) => Some(x),
        (None, y) => y,
    }
}

fn concat_present<T>(below: Vec<T>, more: Option<Vec<T>>) -> (r: Vec<T>)
    ensures
        r@ == below@ + list_or_empty(more),
{
    let mut all = below;
    match more {
        Some(mut items) => {
            all.append(&mut items);
        },
        None => {
            assert(all@ =~= all@ + Seq::<T>::empty());
        },
    }
    all
}

fn overlay_descriptor(v: Version, below: MergedVersion) -> (r: MergedVersion)
    ensures
        r@ == overlay(v, below@),
{
    let (game, jvm) = match v.arguments {
        Some(a) => (a.game, a.jvm),
        None => (None, None),
    };
    MergedVersion {
        id: v.id,
        time: override_value(v.time, below.time),
        version_type: override_value(v.version_type, below.version_type),
        release_time: override_value(v.release_time, below.release_time),
        main_class: override_value(v.main_class, below.main_class),
        assets: override_value(v.assets, below.assets),
        asset_index: override_value(v.asset_index, below.asset_index),
        downloads: override_value(v.downloads, below.downloads),
        logging: override_value(v.logging, below.logging),
        java_version: override_value(v.java_version, below.java_version),
        client_version: override_value(v.client_version, below.client_version),
        minimum_launcher_version: larger_present(
            v.minimum_launcher_version,
            below.minimum_launcher_version,
        ),
        libraries: concat_present(below.libraries, v.libraries),
        game_arguments: concat_present(below.game_arguments, game),
        jvm_arguments: concat_present(below.jvm_arguments, jvm),
    }
}

/// Merges `chain`, given leaf first: a part that a descriptor gives replaces
/// what its ancestors give, the minimum launcher version is the largest
/// given, and libraries and argument templates are concatenated, ancestors first.
pub fn merge_versions(chain: Vec<Version>) -> (r: MergedVersion)
    ensures
        r@ == merge_chain(chain@),
{
    let ghost all = chain@;
    let mut rest = chain;
    let mut merged = MergedVersion {
        id: String::new(),
        time: None,
        version_type: None,
        release_time: None,
        main_class: None,
        assets: None,
        asset_index: None,
        downloads: None,
        logging: None,
        java_version: None,
        client_version: None,
        minimum_launcher_version: None,
        libraries: Vec::new(),
        game_arguments: Vec::new(),
        jvm_arguments: Vec::new(),
    };
    assert(all.skip(all.len() as int) =~= Seq::<Version>::empty());
    assert(merged@ =~= empty_merge());
    while rest.len() > 0
        invariant
            rest@ == all.take(rest@.len() as int),
            rest@.len() <= all.len(),
            merged@ == merge_chain(all.skip(rest@.len() as int)),
        decreases rest@.len(),
    {
        let k = rest.len();
        let v = match rest.pop() {
            Some(v) => v,
            None => return merged,
        };
        assert(v == all[k - 1]);
        assert(all.skip(k - 1).drop_first() =~= all.skip(k as int));
        assert(rest@ =~= all.take(k - 1));
        merged = overlay_descriptor(v, merged);
    }
    assert(all.skip(0) =~= all);
    merged
}

} // verus!

verus! {

/// A descriptor without ancestors merges into exactly its own values.
pub proof fn lemma_single_descriptor_merge(v: Version)
    ensures
        ({
            let m = merge_chain(seq![v]);
            &&& m.id == v.id@
            &&& m.time == v.time
            &&& m.version_type == v.version_type
            &&& m.release_time == v.release_time
            &&& m.main_class == v.main_class
            &&& m.assets == v.assets
            &&& m.asset_index == v.asset_index
            &&& m.downloads == v.downloads
            &&& m.logging == v.logging
            &&& m.java_version == v.java_version
            &&& m.client_version == v.client_version
            &&& m.minimum_launcher_version == v.minimum_launcher_version
            &&& m.libraries == list_or_empty(v.libraries)
            &&& m.game_arguments == game_templates(v)
            &&& m.jvm_arguments == jvm_templates(v)
        }),
{
    assert(seq![v].drop_first() =~= Seq::<Version>::empty());
    assert(merge_chain(Seq::<Version>::empty()) == empty_merge());
    assert(merge_chain(seq![v]) == overlay(v, empty_merge()));
    assert(Seq::<Library>::empty() + list_or_empty(v.libraries) =~= list_or_empty(v.libraries));
    assert(Seq::<LaunchArgument>::empty() + game_templates(v) =~= game_templates(v));
    assert(Seq::<LaunchArgument>::empty() + jvm_templates(v) =~= jvm_templates(v));
}

/// A leaf's main class overrides its parent's; the parent's is kept only
/// where the leaf gives none.
pub proof fn lemma_leaf_overrides_parent(leaf: Version, parent: Version)
    ensures
        merge_chain(seq![leaf, parent]).main_class == (if leaf.main_class is Some {
            leaf.main_class
        } else {
            parent.main_class
        }),
{
    assert(seq![leaf, parent].drop_first() =~= seq![parent]);
    lemma_single_descriptor_merge(parent);
}

/// The merged minimum launcher version is the largest that any descriptor of
/// the chain gives, and is absent only where none gives one.
pub proof fn lemma_launcher_version_is_max(chain: Seq<Version>)
    ensures
        ({
            let m = merge_chain(chain).minimum_launcher_version;
            &&& m is None <==> forall|i: int|
                0 <= i < chain.len() ==> (#[trigger] chain[i]).minimum_launcher_version is None
            &&& forall|i: int|
                0 <= i < chain.len() && (#[trigger] chain[i]).minimum_launcher_version is Some
                    ==> m->0 >= chain[i].minimum_launcher_version->0
            &&& m is Some ==> exists|i: int|
                0 <= i < chain.len() && (#[trigger] chain[i]).minimum_launcher_version == m
        }),
    decreases chain.len(),
{
    if chain.len() > 0 {
        let rest = chain.drop_first();
        lemma_launcher_version_is_max(rest);
        let m = merge_chain(chain).minimum_launcher_version;
        let below = merge_chain(rest).minimum_launcher_version;
        assert forall|i: int| 1 <= i < chain.len() implies #[trigger] chain[i] == rest[i - 1] by {}
        if below is Some {
            let k = choose|k: int|
                0 <= k < rest.len() && (#[trigger] rest[k]).minimum_launcher_version == below;
            assert(chain[k + 1] == rest[k]);
        }
        if m is Some {
            if chain[0].minimum_launcher_version == m {
            } else {
                let k = choose|k: int|
                    0 <= k < rest.len() && (#[trigger] rest[k]).minimum_launcher_version == below;
                assert(chain[k + 1] == rest[k]);
            }
        }
    }
}

} // verus!
