use mgl_core::library::{resolve_libraries, LEGACY_MAVEN_URL};
use mgl_core::{
    Extract, LegacyLibrary, Library, LibraryDownload, LibraryInfo, LibraryRecord, NativeLibrary,
    NormalLibrary, Platform, PlatformInfo, PlatformSpecificLibrary, Rule, RuleAction,
};

fn platform(name: &str) -> PlatformInfo {
    PlatformInfo { name: name.to_string(), version: "1.0".to_string(), arch: "x86_64".to_string() }
}

fn download(url: &str, path: &str, sha1: &str, size: u64) -> LibraryDownload {
    LibraryDownload { sha1: sha1.to_string(), size, url: url.to_string(), path: path.to_string() }
}

fn native_library() -> Library {
    Library::Native(NativeLibrary {
        name: "org.lwjgl:lwjgl-platform:2.9.4".to_string(),
        classifiers: vec![("natives-linux".to_string(), download("U", "P", "S", 10))],
        rules: Vec::new(),
        extract: Extract { exclude: vec!["META-INF/".to_string()] },
        natives: vec![("linux".to_string(), "natives-linux".to_string())],
    })
}

fn legacy(name: &str, url: Option<&str>) -> Library {
    Library::Legacy(LegacyLibrary {
        name: name.to_string(),
        url: url.map(|u| u.to_string()),
        clientreq: None,
        serverreq: None,
        checksums: None,
    })
}

fn empty_record() -> LibraryRecord {
    LibraryRecord {
        name: None,
        url: None,
        artifact: None,
        classifiers: None,
        natives: None,
        extract: None,
        rules: None,
        clientreq: None,
        serverreq: None,
        checksums: None,
    }
}

#[test]
fn native_classifier_is_selected_by_os() {
    let on_linux = native_library().resolve(&platform("linux")).unwrap();
    assert_eq!(on_linux.download_info.path, "P");
    assert_eq!(on_linux.download_info.url, "U");
    assert_eq!(on_linux.download_info.sha1, "S");
    assert_eq!(on_linux.download_info.size, 10);
    assert!(on_linux.is_native_library);
    assert!(native_library().resolve(&platform("windows")).is_none());
    let all = resolve_libraries(vec![native_library()], &platform("linux"));
    assert_eq!(all.len(), 1);
}

#[test]
fn native_with_missing_classifier_is_skipped() {
    let lib = Library::Native(NativeLibrary {
        name: "a:b:1".to_string(),
        classifiers: vec![("natives-osx".to_string(), download("U", "P", "S", 1))],
        rules: Vec::new(),
        extract: Extract { exclude: Vec::new() },
        natives: vec![("linux".to_string(), "natives-linux".to_string())],
    });
    assert!(lib.resolve(&platform("linux")).is_none());
}

#[test]
fn legacy_maven_path_with_default_url() {
    let r = legacy("net.example:lib:1.0", None).resolve(&platform("linux")).unwrap();
    assert_eq!(r.download_info.path, "net/example/lib/1.0/lib-1.0.jar");
    assert_eq!(r.download_info.url, format!("{}net/example/lib/1.0/lib-1.0.jar", LEGACY_MAVEN_URL));
    assert_eq!(r.download_info.url, "http://files.minecraftforge.net/maven/net/example/lib/1.0/lib-1.0.jar");
    assert_eq!(r.download_info.sha1, "");
    assert_eq!(r.download_info.size, 0);
    assert!(!r.is_native_library);
}

#[test]
fn legacy_maven_path_with_explicit_url() {
    let r = legacy("net.fabricmc:intermediary:1.19.4", Some("https://maven.fabricmc.net/"))
        .resolve(&platform("linux"))
        .unwrap();
    assert_eq!(r.download_info.path, "net/fabricmc/intermediary/1.19.4/intermediary-1.19.4.jar");
    assert_eq!(
        r.download_info.url,
        "https://maven.fabricmc.net/net/fabricmc/intermediary/1.19.4/intermediary-1.19.4.jar"
    );
}

#[test]
fn malformed_coordinate_is_skipped_without_aborting() {
    assert!(legacy("net.example:lib", None).resolve(&platform("linux")).is_none());
    assert!(legacy("a:b:c:d", None).resolve(&platform("linux")).is_none());
    let all = resolve_libraries(
        vec![legacy("net.example:lib", None), legacy("net.example:lib:1.0", None)],
        &platform("linux"),
    );
    assert_eq!(all.len(), 1);
    assert_eq!(all[0].download_info.path, "net/example/lib/1.0/lib-1.0.jar");
}

#[test]
fn plain_and_gated_artifacts() {
    let plain = Library::Normal(NormalLibrary {
        name: "a:b:1".to_string(),
        artifact: download("https://x/a.jar", "a/b/1/b-1.jar", "abc", 5),
    });
    let gated = Library::PlatformSpecific(PlatformSpecificLibrary {
        name: "c:d:2".to_string(),
        artifact: download("https://x/c.jar", "c/d/2/d-2.jar", "def", 7),
        rules: vec![Rule {
            action: RuleAction::Allow,
            os: Some(Platform { name: Some("osx".to_string()), version: None }),
            features: None,
        }],
    });
    let on_linux = resolve_libraries(vec![plain.clone(), gated.clone()], &platform("linux"));
    assert_eq!(on_linux.len(), 1);
    assert_eq!(on_linux[0].download_info.path, "a/b/1/b-1.jar");
    assert_eq!(on_linux[0].download_info.sha1, "abc");
    assert!(!on_linux[0].is_native_library);
    let on_osx = resolve_libraries(vec![plain, gated], &platform("osx"));
    assert_eq!(on_osx.len(), 2);
    assert_eq!(on_osx[1].download_info.url, "https://x/c.jar");
    assert_eq!(on_osx[1].download_info.size, 7);
}

#[test]
fn artifact_without_url_or_path_is_dropped() {
    let no_url = Library::Normal(NormalLibrary { name: "a:b:1".to_string(), artifact: download("", "p", "", 0) });
    let no_path = Library::Normal(NormalLibrary { name: "a:b:1".to_string(), artifact: download("u", "", "", 0) });
    assert!(no_url.resolve(&platform("linux")).is_none());
    assert!(no_path.resolve(&platform("linux")).is_none());
}

#[test]
fn records_are_read_in_shape_order() {
    let mut rec = empty_record();
    rec.name = Some("a:b:1".to_string());
    rec.artifact = Some(download("u", "p", "s", 1));
    rec.classifiers = Some(vec![("natives-linux".to_string(), download("U", "P", "S", 10))]);
    rec.natives = Some(vec![("linux".to_string(), "natives-linux".to_string())]);
    assert!(matches!(Library::from_record(rec), Some(Library::Native(_))));

    let mut rec = empty_record();
    rec.name = Some("a:b:1".to_string());
    rec.artifact = Some(download("u", "p", "s", 1));
    assert!(matches!(Library::from_record(rec), Some(Library::Normal(_))));

    let mut rec = empty_record();
    rec.artifact = Some(download("u", "p", "s", 1));
    rec.rules = Some(Vec::new());
    assert!(matches!(Library::from_record(rec), Some(Library::PlatformSpecific(_))));

    let mut rec = empty_record();
    rec.name = Some("a:b:1".to_string());
    rec.url = Some("https://m/".to_string());
    match Library::from_record(rec) {
        Some(Library::Legacy(l)) => {
            assert_eq!(l.name, "a:b:1");
            assert_eq!(l.url.as_deref(), Some("https://m/"));
        }
        _ => panic!("expected a legacy entry"),
    }

    assert!(Library::from_record(empty_record()).is_none());
}

#[test]
fn library_info_reads_coordinate() {
    let info = LibraryInfo::from_value(&legacy("net.minecraftforge:forge:1.19.4-45.0.0:universal@zip", None)).unwrap();
    assert_eq!(info.group_id, "net.minecraftforge");
    assert_eq!(info.artifact_id, "forge");
    assert_eq!(info.version, "1.19.4-45.0.0");
    assert_eq!(info.extension, "zip");
    assert!(!info.is_snapshot);
    assert_eq!(info.classifier, "universal");
    assert_eq!(info.path, "net/minecraftforge/forge/1.19.4-45.0.0/forge-1.19.4-45.0.0-universal.zip");
    assert_eq!(info.name, "net.minecraftforge:forge:1.19.4-45.0.0:universal@zip");
}

#[test]
fn library_info_defaults_and_snapshots() {
    let info = LibraryInfo::from_value(&legacy("org.example:tool:2.0-SNAPSHOT", None)).unwrap();
    assert_eq!(info.extension, "jar");
    assert_eq!(info.classifier, "");
    assert!(info.is_snapshot);
    assert_eq!(info.path, "org/example/tool/2.0-SNAPSHOT/tool-2.0-SNAPSHOT.jar");
    assert!(LibraryInfo::from_value(&legacy("org.example:tool", None)).is_none());
}

#[test]
fn library_info_classified_forge_path() {
    let info = LibraryInfo::from_value(&legacy("net.minecraftforge:forge:1.12.2-14.23.5.2859:universal@zip", None)).unwrap();
    assert_eq!(info.classifier, "universal");
    assert_eq!(info.extension, "zip");
    assert_eq!(info.version, "1.12.2-14.23.5.2859");
    assert_eq!(info.path, "net/minecraftforge/forge/1.12.2-14.23.5.2859/forge-1.12.2-14.23.5.2859-universal.zip");
}
