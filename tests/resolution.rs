use mgl_core::version::merge_versions;
use mgl_core::{
    Arguments, AssetIndex, ChainAction, Download, JavaVersion, LaunchArgument, LegacyLibrary, Library,
    LoadOutcome, MissingField, PlatformInfo, ResolveError, Version, VersionChain,
};

fn platform() -> PlatformInfo {
    PlatformInfo { name: "linux".to_string(), version: "6.1".to_string(), arch: "x86_64".to_string() }
}

fn descriptor(id: &str, parent: Option<&str>) -> Version {
    Version {
        id: id.to_string(),
        time: None,
        version_type: None,
        release_time: None,
        inherits_from: parent.map(|p| p.to_string()),
        minimum_launcher_version: None,
        minecraft_arguments: None,
        arguments: None,
        main_class: None,
        libraries: None,
        jar: None,
        asset_index: None,
        assets: None,
        downloads: None,
        client: None,
        server: None,
        logging: None,
        java_version: None,
        client_version: None,
    }
}

fn asset_index(id: &str) -> AssetIndex {
    AssetIndex { size: 100, url: format!("https://assets/{id}.json"), id: id.to_string(), total_size: 1000 }
}

fn client_download() -> Vec<(String, Download)> {
    vec![("client".to_string(), Download { sha1: "c0ffee".to_string(), size: 42, url: "https://client.jar".to_string() })]
}

fn complete(id: &str, parent: Option<&str>) -> Version {
    let mut v = descriptor(id, parent);
    v.main_class = Some("net.minecraft.client.main.Main".to_string());
    v.asset_index = Some(asset_index("5"));
    v.downloads = Some(client_download());
    v
}

fn legacy(name: &str) -> Library {
    Library::Legacy(LegacyLibrary { name: name.to_string(), url: None, clientreq: None, serverreq: None, checksums: None })
}

fn walk(leaf: Version, store: Vec<Version>) -> Result<VersionChain, ResolveError> {
    let mut chain = VersionChain::new(leaf);
    loop {
        match chain.next_action() {
            ChainAction::Complete => return Ok(chain),
            ChainAction::Load(id) => {
                let outcome = match store.iter().find(|v| v.id == id) {
                    Some(v) => LoadOutcome::Loaded(v.clone()),
                    None => LoadOutcome::NotFound,
                };
                chain = chain.add_parent(outcome, format!("versions/{id}/{id}.json"))?;
            }
        }
    }
}

#[test]
fn single_descriptor_merges_to_itself() {
    let mut v = complete("1.20.1", None);
    v.time = Some("t".to_string());
    v.release_time = Some("r".to_string());
    v.version_type = Some("release".to_string());
    v.assets = Some("5".to_string());
    v.minimum_launcher_version = Some(21);
    v.java_version = Some(JavaVersion { component: "java-runtime-gamma".to_string(), major_version: 17 });
    v.client_version = Some("1.20.1".to_string());
    let m = merge_versions(vec![v]);
    assert_eq!(m.id, "1.20.1");
    assert_eq!(m.main_class.as_deref(), Some("net.minecraft.client.main.Main"));
    assert_eq!(m.time.as_deref(), Some("t"));
    assert_eq!(m.release_time.as_deref(), Some("r"));
    assert_eq!(m.version_type.as_deref(), Some("release"));
    assert_eq!(m.assets.as_deref(), Some("5"));
    assert_eq!(m.minimum_launcher_version, Some(21));
    assert_eq!(m.java_version.unwrap().major_version, 17);
    assert_eq!(m.asset_index.unwrap().id, "5");
    assert_eq!(m.downloads.unwrap().len(), 1);
    assert_eq!(m.client_version.as_deref(), Some("1.20.1"));
}

#[test]
fn leaf_main_class_overrides_parent() {
    let mut leaf = descriptor("leaf", Some("parent"));
    leaf.main_class = Some("A".to_string());
    let mut parent = descriptor("parent", None);
    parent.main_class = Some("B".to_string());
    let m = merge_versions(vec![leaf, parent.clone()]);
    assert_eq!(m.main_class.as_deref(), Some("A"));
    assert_eq!(m.id, "leaf");
    let m = merge_versions(vec![descriptor("leaf", Some("parent")), parent]);
    assert_eq!(m.main_class.as_deref(), Some("B"));
}

#[test]
fn launcher_version_is_the_maximum() {
    let mut parent = descriptor("parent", None);
    parent.minimum_launcher_version = Some(5);
    let mut leaf = descriptor("leaf", Some("parent"));
    leaf.minimum_launcher_version = Some(2);
    assert_eq!(merge_versions(vec![leaf, parent.clone()]).minimum_launcher_version, Some(5));
    assert_eq!(merge_versions(vec![descriptor("leaf", Some("parent")), parent]).minimum_launcher_version, Some(5));
    assert_eq!(merge_versions(vec![descriptor("a", None)]).minimum_launcher_version, None);
}

#[test]
fn lists_are_concatenated_ancestors_first() {
    let mut leaf = descriptor("leaf", Some("parent"));
    leaf.libraries = Some(vec![legacy("l:leaf:1")]);
    leaf.arguments = Some(Arguments { game: Some(vec![LaunchArgument::String("--leaf".to_string())]), jvm: None });
    let mut parent = descriptor("parent", None);
    parent.libraries = Some(vec![legacy("p:one:1"), legacy("p:two:1")]);
    parent.arguments = Some(Arguments {
        game: Some(vec![LaunchArgument::String("--parent".to_string())]),
        jvm: Some(vec![LaunchArgument::String("-Xmx1G".to_string())]),
    });
    let m = merge_versions(vec![leaf, parent]);
    let names: Vec<String> = m.libraries.iter().map(|l| l.name().clone()).collect();
    assert_eq!(names, vec!["p:one:1", "p:two:1", "l:leaf:1"]);
    assert_eq!(m.game_arguments.len(), 2);
    assert!(matches!(&m.game_arguments[0], LaunchArgument::String(s) if s == "--parent"));
    assert!(matches!(&m.game_arguments[1], LaunchArgument::String(s) if s == "--leaf"));
    assert_eq!(m.jvm_arguments.len(), 1);
}

#[test]
fn chain_without_templates_gets_both_default_lists() {
    let resolved = VersionChain::new(complete("1.7.10", None)).resolve(&platform(), &Vec::new()).unwrap();
    assert_eq!(resolved.arguments.game.len(), 26);
    assert_eq!(resolved.arguments.jvm.len(), 16);
    assert_eq!(resolved.arguments.jvm[15], "${classpath}");
}

#[test]
fn missing_main_class_is_incomplete() {
    let mut v = complete("a", None);
    v.main_class = None;
    let r = VersionChain::new(v).resolve(&platform(), &Vec::new());
    assert!(matches!(r, Err(ResolveError::IncompleteVersion(MissingField::MainClass))));

    let mut leaf = complete("leaf", Some("parent"));
    leaf.main_class = Some(String::new());
    let parent = descriptor("parent", None);
    let chain = walk(leaf, vec![parent]).unwrap();
    let r = chain.resolve(&platform(), &Vec::new());
    assert!(matches!(r, Err(ResolveError::IncompleteVersion(MissingField::MainClass))));
}

#[test]
fn default_asset_index_and_empty_downloads_are_incomplete() {
    let mut v = complete("a", None);
    v.asset_index = Some(AssetIndex { size: 0, url: String::new(), id: String::new(), total_size: 0 });
    let r = VersionChain::new(v).resolve(&platform(), &Vec::new());
    assert!(matches!(r, Err(ResolveError::IncompleteVersion(MissingField::AssetIndex))));

    let mut v = complete("a", None);
    v.downloads = Some(Vec::new());
    let r = VersionChain::new(v).resolve(&platform(), &Vec::new());
    assert!(matches!(r, Err(ResolveError::IncompleteVersion(MissingField::Downloads))));
}

#[test]
fn cyclic_inheritance_is_rejected() {
    let a = descriptor("A", Some("B"));
    let b = descriptor("B", Some("A"));
    let r = walk(a.clone(), vec![a, b]);
    assert!(matches!(r, Err(ResolveError::CyclicInheritance(id)) if id == "A"));
}

#[test]
fn missing_ancestor_is_reported() {
    let r = walk(descriptor("A", Some("B")), Vec::new());
    assert!(matches!(r, Err(ResolveError::MissingAncestor(id)) if id == "B"));
}

#[test]
fn malformed_ancestor_is_reported() {
    let chain = VersionChain::new(descriptor("A", Some("B")));
    let r = chain.add_parent(LoadOutcome::Malformed("bad json".to_string()), "versions/B/B.json".to_string());
    assert!(matches!(r, Err(ResolveError::MalformedDescriptor(m)) if m == "bad json"));
}

#[test]
fn root_chain_is_complete_at_once() {
    let chain = VersionChain::new(descriptor("A", None));
    assert!(matches!(chain.next_action(), ChainAction::Complete));
    let chain = chain.add_parent(LoadOutcome::NotFound, String::new()).unwrap();
    assert_eq!(chain.versions().len(), 1);
}

#[test]
fn full_resolution_of_an_inherited_version() {
    let mut leaf = descriptor("fabric-loader-1.19.4", Some("1.19.4"));
    leaf.main_class = Some("net.fabricmc.loader.impl.launch.knot.KnotClient".to_string());
    leaf.libraries = Some(vec![legacy("net.fabricmc:fabric-loader:0.14.19")]);
    leaf.minimum_launcher_version = Some(2);
    let mut root = complete("1.19.4", None);
    root.main_class = Some("net.minecraft.client.main.Main".to_string());
    root.minimum_launcher_version = Some(21);
    root.libraries = Some(vec![legacy("com.mojang:brigadier:1.0.18"), legacy("bad:coordinate")]);
    root.arguments = Some(Arguments {
        game: Some(vec![LaunchArgument::String("--username".to_string())]),
        jvm: None,
    });
    root.release_time = Some("2023-03-14".to_string());

    let chain = walk(leaf, vec![root]).unwrap();
    assert_eq!(chain.inheritances(), &vec!["fabric-loader-1.19.4".to_string(), "1.19.4".to_string()]);
    let resolved = chain.resolve(&platform(), &Vec::new()).unwrap();
    assert_eq!(resolved.id, "fabric-loader-1.19.4");
    assert_eq!(resolved.main_class, "net.fabricmc.loader.impl.launch.knot.KnotClient");
    assert_eq!(resolved.minimum_launcher_version, 21);
    assert_eq!(resolved.release_time, "2023-03-14");
    assert_eq!(resolved.time, "");
    assert_eq!(resolved.asset_index.id, "5");
    assert_eq!(resolved.downloads.len(), 1);
    assert_eq!(resolved.libraries.len(), 2);
    assert_eq!(resolved.libraries[0].download_info.path, "com/mojang/brigadier/1.0.18/brigadier-1.0.18.jar");
    assert_eq!(resolved.libraries[1].download_info.path, "net/fabricmc/fabric-loader/0.14.19/fabric-loader-0.14.19.jar");
    assert_eq!(resolved.arguments.game, vec!["--username"]);
    assert!(resolved.arguments.jvm.is_empty());
    assert_eq!(resolved.java_version.component, "jre-legacy");
    assert_eq!(resolved.java_version.major_version, 8);
    assert_eq!(resolved.minecraft_version, "fabric-loader-1.19.4");
    assert_eq!(resolved.inheritances, vec!["fabric-loader-1.19.4", "1.19.4"]);
    assert_eq!(resolved.path_chain, vec!["versions/1.19.4/1.19.4.json"]);
}
