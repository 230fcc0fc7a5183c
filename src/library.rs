//! Library entries in their historical shapes, and their normalization into
//! files to download and place on the class path.

use vstd::prelude::*;

use crate::entries::{find_key, lookup};
use crate::rules::{check_allowed, rules_allow, PlatformInfo, Rule};
use crate::text::{replace_char, replace_chars, split_chars, split_on};

verus! {

/// Base address of the repository that serves legacy entries without a URL of their own.
pub const LEGACY_MAVEN_URL: &'static str = "http://files.minecraftforge.net/maven/";

/// A downloadable library file.
#[derive(Clone, Debug)]
pub struct LibraryDownload {
    pub sha1: String,
    pub size: u64,
    pub url: String,
    /// Where the file goes, relative to the libraries directory.
    pub path: String,
}

/// The contents of a `LibraryDownload`.
pub ghost struct LibraryDownloadView {
    pub sha1: Seq<char>,
    pub size: u64,
    pub url: Seq<char>,
    pub path: Seq<char>,
}

impl View for LibraryDownload {
    type V = LibraryDownloadView;

    open spec fn view(&self) -> LibraryDownloadView {
        LibraryDownloadView { sha1: self.sha1@, size: self.size, url: self.url@, path: self.path@ }
    }
}

/// Files to leave out when unpacking a native archive.
#[derive(Clone, Debug)]
pub struct Extract {
    pub exclude: Vec<String>,
}

/// A plain Maven artifact.
#[derive(Clone, Debug)]
pub struct NormalLibrary {
    pub name: String,
    pub artifact: LibraryDownload,
}

/// An artifact with one native classifier per operating system.
#[derive(Clone, Debug)]
pub struct NativeLibrary {
    pub name: String,
    /// Downloads by classifier key.
    pub classifiers: Vec<(String, LibraryDownload)>,
    pub rules: Vec<Rule>,
    pub extract: Extract,
    /// Classifier key by operating system name.
    pub natives: Vec<(String, String)>,
}

/// An artifact included only where its rules allow.
#[derive(Clone, Debug)]
pub struct PlatformSpecificLibrary {
    pub name: String,
    pub artifact: LibraryDownload,
    pub rules: Vec<Rule>,
}

/// A pre-Maven-metadata entry that carries only its coordinate. It has no
/// rules: such an entry is always included, and rules given beside a bare
/// coordinate are not read.
#[derive(Clone, Debug)]
pub struct LegacyLibrary {
    pub name: String,
    /// Base address of the repository, when not the default one.
    pub url: Option<String>,
    pub clientreq: Option<bool>,
    pub serverreq: Option<bool>,
    pub checksums: Option<Vec<String>>,
}

/// A library entry in one of its four shapes.
#[derive(Clone, Debug)]
pub enum Library {
    Normal(NormalLibrary),
    Native(NativeLibrary),
    PlatformSpecific(PlatformSpecificLibrary),
    Legacy(LegacyLibrary),
}

/// A library entry as read, with every part optional.
#[derive(Clone, Debug)]
pub struct LibraryRecord {
    pub name: Option<String>,
    pub url: Option<String>,
    pub artifact: Option<LibraryDownload>,
    pub classifiers: Option<Vec<(String, LibraryDownload)>>,
    pub natives: Option<Vec<(String, String)>>,
    pub extract: Option<Extract>,
    pub rules: Option<Vec<Rule>>,
    pub clientreq: Option<bool>,
    pub serverreq: Option<bool>,
    pub checksums: Option<Vec<String>>,
}

/// A library file to fetch, in canonical form.
#[derive(Clone, Debug)]
pub struct ResolvedLibrary {
    pub download_info: LibraryDownload,
    pub is_native_library: bool,
}

/// The contents of a `ResolvedLibrary`.
pub ghost struct ResolvedLibraryView {
    pub download: LibraryDownloadView,
    pub native: bool,
}

impl View for ResolvedLibrary {
    type V = ResolvedLibraryView;

    open spec fn view(&self) -> ResolvedLibraryView {
        ResolvedLibraryView { download: self.download_info@, native: self.is_native_library }
    }
}

/// The contents of an optional resolved library.
pub open spec fn option_view(r: Option<ResolvedLibrary>) -> Option<ResolvedLibraryView> {
    match r {
        Some(x) => Some(x@),
        None => None,
    }
}

/// The characters of an optional string; none for an absent one.
pub open spec fn string_or_empty(s: Option<String>) -> Seq<char> {
    match s {
        Some(x) => x@,
        None => Seq::empty(),
    }
}

/// The shape an entry is read as: native classifiers first, then an artifact
/// (gated when it has rules), then a bare coordinate; `None` for an entry
/// that has none of these.
pub open spec fn record_is_read_as(rec: LibraryRecord, lib: Option<Library>) -> bool {
    if rec.classifiers is Some && rec.natives is Some {
        lib matches Some(Library::Native(n)) && {
            &&& n.name@ == string_or_empty(rec.name)
            &&& n.classifiers == rec.classifiers->0
            &&& n.natives == rec.natives->0
            &&& (match rec.rules {
                Some(r) => n.rules == r,
                None => n.rules@.len() == 0,
            })
            &&& (match rec.extract {
                Some(e) => n.extract == e,
                None => n.extract.exclude@.len() == 0,
            })
        }
    } else if rec.artifact is Some {
        match rec.rules {
            Some(r) => lib matches Some(Library::PlatformSpecific(p)) && {
                &&& p.name@ == string_or_empty(rec.name)
                &&& p.artifact == rec.artifact->0
                &&& p.rules == r
            },
            None => lib matches Some(Library::Normal(p)) && {
                &&& p.name@ == string_or_empty(rec.name)
                &&& p.artifact == rec.artifact->0
            },
        }
    } else if rec.name is Some {
        lib matches Some(Library::Legacy(l)) && {
            &&& l.name == rec.name->0
            &&& l.url == rec.url
            &&& l.clientreq == rec.clientreq
            &&& l.serverreq == rec.serverreq
            &&& l.checksums == rec.checksums
        }
    } else {
        lib is None
    }
}

/// A download can be placed only with both an address and a path.
pub open spec fn usable(d: LibraryDownload) -> bool {
    d.url@.len() > 0 && d.path@.len() > 0
}

/// A download as a resolved library, where it is usable.
pub open spec fn artifact_entry(d: LibraryDownload, native: bool) -> Option<ResolvedLibraryView> {
    if usable(d) {
        Some(ResolvedLibraryView { download: d@, native })
    } else {
        None
    }
}

/// `group/with/slashes/artifact/version/artifact-version`.
pub open spec fn maven_base(group: Seq<char>, artifact: Seq<char>, version: Seq<char>) -> Seq<
    char,
> {
    replace_char(group, '.', '/') + "/"@ + artifact + "/"@ + version + "/"@ + artifact + "-"@
        + version
}

/// Repository path of a legacy entry: its coordinate must have exactly three parts.
pub open spec fn legacy_path(name: Seq<char>) -> Option<Seq<char>> {
    let parts = split_on(name, ':');
    if parts.len() == 3 {
        Some(maven_base(parts[0], parts[1], parts[2]) + ".jar"@)
    } else {
        None
    }
}

/// What a legacy entry contributes: a file under its coordinate's path, fetched
/// from its own repository or the default one, with no checksum or size.
pub open spec fn legacy_entry(l: LegacyLibrary) -> Option<ResolvedLibraryView> {
    match legacy_path(l.name@) {
        None => None,
        Some(path) => {
            let base = match l.url {
                Some(u) => u@,
                None => LEGACY_MAVEN_URL@,
            };
            Some(
                ResolvedLibraryView {
                    download: LibraryDownloadView {
                        sha1: Seq::empty(),
                        size: 0,
                        url: base + path,
                        path,
                    },
                    native: false,
                },
            )
        },
    }
}

/// What one library entry contributes on `platform`. Library rules are read
/// with no feature flags set.
pub open spec fn library_entry(lib: Library, platform: PlatformInfo) -> Option<ResolvedLibraryView> {
    match lib {
        Library::Normal(l) => artifact_entry(l.artifact, false),
        Library::PlatformSpecific(l) => if rules_allow(l.rules@, platform, Seq::empty()) {
            artifact_entry(l.artifact, false)
        } else {
            None
        },
        Library::Native(l) => if !rules_allow(l.rules@, platform, Seq::empty()) {
            None
        } else {
            match lookup(l.natives@, platform.name@) {
                None => None,
                Some(key) => match lookup(l.classifiers@, key@) {
                    None => None,
                    Some(d) => artifact_entry(d, true),
                },
            }
        },
        Library::Legacy(l) => legacy_entry(l),
    }
}

/// What a list of entries contributes, in order.
pub open spec fn library_entries(libs: Seq<Library>, platform: PlatformInfo) -> Seq<
    ResolvedLibraryView,
>
    decreases libs.len(),
{
    if libs.len() == 0 {
        Seq::empty()
    } else {
        let before = library_entries(libs.drop_last(), platform);
        match library_entry(libs.last(), platform) {
            Some(x) => before.push(x),
            None => before,
        }
    }
}

/// The contents of a list of resolved libraries.
pub open spec fn resolved_views(r: Seq<ResolvedLibrary>) -> Seq<ResolvedLibraryView> {
    r.map_values(|x: ResolvedLibrary| x@)
}

pub(crate) fn maven_base_path(group: &str, artifact: &str, version: &str) -> (r: String)
    ensures
        r@ == maven_base(group@, artifact@, version@),
{
    proof {
        reveal_strlit("/");
    }
    let mut path = replace_chars(group, '.', "/");
    path.append("/");
    path.append(artifact);
    path.append("/");
    path.append(version);
    path.append("/");
    path.append(artifact);
    path.append("-");
    path.append(version);
    path
}

fn accepted_download(d: LibraryDownload, native: bool) -> (r: Option<ResolvedLibrary>)
    ensures
        option_view(r) == artifact_entry(d, native),
{
    if d.url.as_str().unicode_len() > 0 && d.path.as_str().unicode_len() > 0 {
        Some(ResolvedLibrary { download_info: d, is_native_library: native })
    } else {
        None
    }
}

impl Library {
    /// Reads an entry as the first shape whose parts it has.
    pub fn from_record(rec: LibraryRecord) -> (r: Option<Library>)
        ensures
            record_is_read_as(rec, r),
    {
        let named = rec.name.is_some();
        let name = match rec.name {
            Some(n) => n,
            None => String::new(),
        };
        let rules_given = rec.rules.is_some();
        let rules = match rec.rules {
            Some(r) => r,
            None => Vec::new(),
        };
        if rec.classifiers.is_some() && rec.natives.is_some() {
            let extract = match rec.extract {
                Some(e) => e,
                None => Extract { exclude: Vec::new() },
            };
            match (rec.classifiers, rec.natives) {
                (Some(classifiers), Some(natives)) => Some(
                    Library::Native(NativeLibrary { name, classifiers, rules, extract, natives }),
                ),
                _ => None,
            }
        } else {
            match rec.artifact {
                Some(artifact) => if rules_given {
                    Some(
                        Library::PlatformSpecific(
                            PlatformSpecificLibrary { name, artifact, rules },
                        ),
                    )
                } else {
                    Some(Library::Normal(NormalLibrary { name, artifact }))
                },
                None => if named {
                    Some(
                        Library::Legacy(
                            LegacyLibrary {
                                name,
                                url: rec.url,
                                clientreq: rec.clientreq,
                                serverreq: rec.serverreq,
                                checksums: rec.checksums,
                            },
                        ),
                    )
                } else {
                    None
                },
            }
        }
    }

    /// The Maven coordinate of the entry.
    pub fn name(&self) -> (r: &String)
        ensures
            r == match self {
                Library::Normal(l) => &l.name,
                Library::Native(l) => &l.name,
                Library::PlatformSpecific(l) => &l.name,
                Library::Legacy(l) => &l.name,
            },
    {
        match self {
            Library::Normal(l) => &l.name,
            Library::Native(l) => &l.name,
            Library::PlatformSpecific(l) => &l.name,
            Library::Legacy(l) => &l.name,
        }
    }

    /// The file this entry contributes on `platform`, if any.
    pub fn resolve(self, platform: &PlatformInfo) -> (r: Option<ResolvedLibrary>)
        ensures
            option_view(r) == library_entry(self, *platform),
    {
        let no_features: Vec<(String, bool)> = Vec::new();
        match self {
            Library::Normal(l) => accepted_download(l.artifact, false),
            Library::PlatformSpecific(l) => {
                if check_allowed(&l.rules, platform, &no_features) {
                    accepted_download(l.artifact, false)
                } else {
                    None
                }
            },
            Library::Native(l) => {
                if !check_allowed(&l.rules, platform, &no_features) {
                    return None;
                }
                let k = match find_key(&l.natives, &platform.name) {
                    Some(k) => k,
                    None => return None,
                };
                let j = match find_key(&l.classifiers, &l.natives[k].1) {
                    Some(j) => j,
                    None => return None,
                };
                let mut classifiers = l.classifiers;
                let (_, download) = classifiers.remove(j);
                accepted_download(download, true)
            },
            Library::Legacy(l) => {
                let parts = split_chars(l.name.as_str(), ':');
                if parts.len() != 3 {
                    return None;
                }
                let mut path = maven_base_path(
                    parts[0].as_str(),
                    parts[1].as_str(),
                    parts[2].as_str(),
                );
                path.append(".jar");
                let mut url = match &l.url {
                    Some(u) => u.clone(),
                    None => LEGACY_MAVEN_URL.to_owned(),
                };
                url.append(path.as_str());
                Some(
                    ResolvedLibrary {
                        download_info: LibraryDownload { sha1: String::new(), size: 0, url, path },
                        is_native_library: false,
                    },
                )
            },
        }
    }
}

/// The files that `libraries` contribute on `platform`, in order; entries
/// that contribute nothing are skipped.
pub fn resolve_libraries(libraries: Vec<Library>, platform: &PlatformInfo) -> (r: Vec<
    ResolvedLibrary,
>)
    ensures
        resolved_views(r@) == library_entries(libraries@, *platform),
{
    let ghost all = libraries@;
    let total = libraries.len();
    let mut result: Vec<ResolvedLibrary> = Vec::new();
    let mut rest = libraries;
    let mut done: usize = 0;
    assert(all.take(0) =~= Seq::<Library>::empty());
    assert(resolved_views(result@) =~= Seq::<ResolvedLibraryView>::empty());
    while rest.len() > 0
        invariant
            done + rest@.len() == all.len(),
            all.len() == total,
            rest@ == all.skip(done as int),
            resolved_views(result@) == library_entries(all.take(done as int), *platform),
        decreases rest@.len(),
    {
        let library = rest.remove(0);
        assert(library == all[done as int]);
        assert(all.take(done + 1).drop_last() =~= all.take(done as int));
        assert(rest@ =~= all.skip(done + 1));
        let ghost before = result@;
        match library.resolve(platform) {
            Some(x) => {
                result.push(x);
                assert(resolved_views(result@) =~= resolved_views(before).push(x@));
            },
            None => {},
        }
        done = done + 1;
    }
    assert(all.take(done as int) =~= all);
    result
}

} // verus!
