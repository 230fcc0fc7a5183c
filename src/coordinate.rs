//! Maven coordinates `group:artifact:version[:classifier][@extension]`.

use vstd::prelude::*;

use crate::library::{maven_base, maven_base_path, Library};
use crate::text::{ends_with, has_suffix, lemma_split_on_nonempty, split_chars, split_on};

verus! {

/// What a library's Maven coordinate says.
#[derive(Clone, Debug)]
pub struct LibraryInfo {
    pub group_id: String,
    pub artifact_id: String,
    pub version: String,
    pub is_snapshot: bool,
    /// The file extension; `jar` unless the coordinate gives one after `@`.
    pub extension: String,
    /// The fourth part of the coordinate, such as `universal`; empty where there is none.
    pub classifier: String,
    /// The repository path of the artifact, classifier included.
    pub path: String,
    /// The coordinate as written.
    pub name: String,
}

/// The coordinate of an entry, whatever its shape.
pub open spec fn coordinate(lib: Library) -> Seq<char> {
    match lib {
        Library::Normal(l) => l.name@,
        Library::Native(l) => l.name@,
        Library::PlatformSpecific(l) => l.name@,
        Library::Legacy(l) => l.name@,
    }
}

/// The `:`-separated parts before any `@`.
pub open spec fn coordinate_parts(name: Seq<char>) -> Seq<Seq<char>> {
    split_on(split_on(name, '@')[0], ':')
}

/// The extension after the first `@`, or `jar`.
pub open spec fn coordinate_extension(name: Seq<char>) -> Seq<char> {
    let at = split_on(name, '@');
    if at.len() > 1 {
        at[1]
    } else {
        "jar"@
    }
}

/// `info` is what the coordinate `name` says; it needs at least three parts.
pub open spec fn describes(info: LibraryInfo, name: Seq<char>) -> bool {
    let parts = coordinate_parts(name);
    let base = maven_base(parts[0], parts[1], parts[2]);
    &&& parts.len() >= 3
    &&& info.group_id@ == parts[0]
    &&& info.artifact_id@ == parts[1]
    &&& info.version@ == parts[2]
    &&& info.is_snapshot == ends_with(parts[2], "SNAPSHOT"@)
    &&& info.extension@ == coordinate_extension(name)
    &&& info.classifier@ == (if parts.len() > 3 {
        parts[3]
    } else {
        Seq::empty()
    })
    &&& info.path@ == (if parts.len() > 3 {
        base + "-"@ + parts[3]
    } else {
        base
    }) + "."@ + coordinate_extension(name)
    &&& info.name@ == name
}

impl LibraryInfo {
    /// Reads the coordinate of `lib`; `None` when it has fewer than three parts.
    pub fn from_value(lib: &Library) -> (r: Option<LibraryInfo>)
        ensures
            r is None <==> coordinate_parts(coordinate(*lib)).len() < 3,
            r matches Some(info) ==> describes(info, coordinate(*lib)),
    {
        let name = lib.name();
        let at = split_chars(name.as_str(), '@');
        proof {
            lemma_split_on_nonempty(name@, '@');
        }
        let parts = split_chars(at[0].as_str(), ':');
        if parts.len() < 3 {
            return None;
        }
        let extension = if at.len() > 1 {
            at[1].clone()
        } else {
            "jar".to_owned()
        };
        let base = maven_base_path(parts[0].as_str(), parts[1].as_str(), parts[2].as_str());
        let mut path = base;
        let classifier = if parts.len() > 3 {
            path.append("-");
            path.append(parts[3].as_str());
            parts[3].clone()
        } else {
            String::new()
        };
        path.append(".");
        path.append(extension.as_str());
        let is_snapshot = has_suffix(parts[2].as_str(), "SNAPSHOT");
        Some(
            LibraryInfo {
                group_id: parts[0].clone(),
                artifact_id: parts[1].clone(),
                version: parts[2].clone(),
                is_snapshot,
                extension,
                classifier,
                path,
                name: name.clone(),
            },
        )
    }
}

} // verus!
