//! Launch argument templates and their expansion into tokens.

use vstd::prelude::*;

use crate::rules::{check_allowed, rules_allow, PlatformInfo, Rule};
use crate::text::views;

verus! {

/// One argument template: a literal token, or tokens included where rules allow.
#[derive(Clone, Debug)]
pub enum LaunchArgument {
    String(String),
    /// A conditional entry; a single value is a list of one.
    Object { rules: Vec<Rule>, value: Vec<String> },
}

/// The argument templates of one descriptor.
#[derive(Clone, Debug)]
pub struct Arguments {
    pub game: Option<Vec<LaunchArgument>>,
    pub jvm: Option<Vec<LaunchArgument>>,
}

/// Expanded argument tokens, placeholders still in place.
#[derive(Clone, Debug)]
pub struct ResolvedArguments {
    pub game: Vec<String>,
    pub jvm: Vec<String>,
}

/// The tokens one template contributes.
pub open spec fn argument_tokens(
    arg: LaunchArgument,
    platform: PlatformInfo,
    features: Seq<(String, bool)>,
) -> Seq<Seq<char>> {
    match arg {
        LaunchArgument::String(s) => seq![s@],
        LaunchArgument::Object { rules, value } => if rules_allow(rules@, platform, features) {
            views(value@)
        } else {
            Seq::empty()
        },
    }
}

/// The tokens of a template list, in order.
pub open spec fn expand_arguments(
    args: Seq<LaunchArgument>,
    platform: PlatformInfo,
    features: Seq<(String, bool)>,
) -> Seq<Seq<char>>
    decreases args.len(),
{
    if args.len() == 0 {
        Seq::empty()
    } else {
        expand_arguments(args.drop_last(), platform, features) + argument_tokens(
            args.last(),
            platform,
            features,
        )
    }
}

/// The game and JVM tokens of a descriptor's templates: where it gives no
/// template at all, the built-in lists; otherwise each list expanded as it stands.
pub open spec fn launch_tokens(
    game: Seq<LaunchArgument>,
    jvm: Seq<LaunchArgument>,
    platform: PlatformInfo,
    features: Seq<(String, bool)>,
) -> (Seq<Seq<char>>, Seq<Seq<char>>) {
    if game.len() == 0 && jvm.len() == 0 {
        (default_game_tokens(), default_jvm_tokens())
    } else {
        (expand_arguments(game, platform, features), expand_arguments(jvm, platform, features))
    }
}

/// The built-in game argument tokens.
pub open spec fn default_game_tokens() -> Seq<Seq<char>> {
    seq![
        "--username"@,
        "${auth_player_name}"@,
        "--version"@,
        "${version_name}"@,
        "--gameDir"@,
        "${game_directory}"@,
        "--assetsDir"@,
        "${assets_root}"@,
        "--assetIndex"@,
        "${asset_index}"@,
        "--uuid"@,
        "${auth_uuid}"@,
        "--accessToken"@,
        "${auth_access_token}"@,
        "--clientId"@,
        "${clientid}"@,
        "--xuid"@,
        "${auth_xuid}"@,
        "--userType"@,
        "${user_type}"@,
        "--versionType"@,
        "${version_type}"@,
        "--width"@,
        "${resolution_width}"@,
        "--height"@,
        "${resolution_height}"@,
    ]
}

/// The built-in JVM argument tokens.
pub open spec fn default_jvm_tokens() -> Seq<Seq<char>> {
    seq![
        "\"-Djava.library.path=${natives_directory}\""@,
        "\"-Dminecraft.launcher.brand=${launcher_name}\""@,
        "\"-Dminecraft.launcher.version=${launcher_version}\""@,
        "\"-Dfile.encoding=UTF-8\""@,
        "\"-Dsun.stdout.encoding=UTF-8\""@,
        "\"-Dsun.stderr.encoding=UTF-8\""@,
        "\"-Djava.rmi.server.useCodebaseOnly=true\""@,
        "\"-XX:MaxInlineSize=420\""@,
        "\"-XX:-UseAdaptiveSizePolicy\""@,
        "\"-XX:-OmitStackTraceInFastThrow\""@,
        "\"-XX:-DontCompileHugeMethods\""@,
        "\"-Dcom.sun.jndi.rmi.object.trustURLCodebase=false\""@,
        "\"-Dcom.sun.jndi.cosnaming.object.trustURLCodebase=false\""@,
        "\"-Dlog4j2.formatMsgNoLookups=true\""@,
        "-cp"@,
        "${classpath}"@,
    ]
}

/// Game arguments used for a descriptor that gives none.
pub fn default_game_arguments() -> (r: Vec<String>)
    ensures
        views(r@) == default_game_tokens(),
{
    let r = vec![
        "--username".to_owned(),
        "${auth_player_name}".to_owned(),
        "--version".to_owned(),
        "${version_name}".to_owned(),
        "--gameDir".to_owned(),
        "${game_directory}".to_owned(),
        "--assetsDir".to_owned(),
        "${assets_root}".to_owned(),
        "--assetIndex".to_owned(),
        "${asset_index}".to_owned(),
        "--uuid".to_owned(),
        "${auth_uuid}".to_owned(),
        "--accessToken".to_owned(),
        "${auth_access_token}".to_owned(),
        "--clientId".to_owned(),
        "${clientid}".to_owned(),
        "--xuid".to_owned(),
        "${auth_xuid}".to_owned(),
        "--userType".to_owned(),
        "${user_type}".to_owned(),
        "--versionType".to_owned(),
        "${version_type}".to_owned(),
        "--width".to_owned(),
        "${resolution_width}".to_owned(),
        "--height".to_owned(),
        "${resolution_height}".to_owned(),
    ];
    assert(views(r@) =~= default_game_tokens());
    r
}

/// JVM arguments used for a descriptor that gives none.
pub fn default_jvm_arguments() -> (r: Vec<String>)
    ensures
        views(r@) == default_jvm_tokens(),
{
    let r = vec![
        "\"-Djava.library.path=${natives_directory}\"".to_owned(),
        "\"-Dminecraft.launcher.brand=${launcher_name}\"".to_owned(),
        "\"-Dminecraft.launcher.version=${launcher_version}\"".to_owned(),
        "\"-Dfile.encoding=UTF-8\"".to_owned(),
        "\"-Dsun.stdout.encoding=UTF-8\"".to_owned(),
        "\"-Dsun.stderr.encoding=UTF-8\"".to_owned(),
        "\"-Djava.rmi.server.useCodebaseOnly=true\"".to_owned(),
        "\"-XX:MaxInlineSize=420\"".to_owned(),
        "\"-XX:-UseAdaptiveSizePolicy\"".to_owned(),
        "\"-XX:-OmitStackTraceInFastThrow\"".to_owned(),
        "\"-XX:-DontCompileHugeMethods\"".to_owned(),
        "\"-Dcom.sun.jndi.rmi.object.trustURLCodebase=false\"".to_owned(),
        "\"-Dcom.sun.jndi.cosnaming.object.trustURLCodebase=false\"".to_owned(),
        "\"-Dlog4j2.formatMsgNoLookups=true\"".to_owned(),
        "-cp".to_owned(),
        "${classpath}".to_owned(),
    ];
    assert(views(r@) =~= default_jvm_tokens());
    r
}

/// Expands `arguments` in order: literal tokens as they are, conditional
/// entries' values where their rules allow.
pub fn resolve_arguments(
    arguments: &Vec<LaunchArgument>,
    platform: &PlatformInfo,
    features: &Vec<(String, bool)>,
) -> (r: Vec<String>)
    ensures
        views(r@) == expand_arguments(arguments@, *platform, features@),
{
    let n = arguments.len();
    let mut result: Vec<String> = Vec::new();
    let mut i: usize = 0;
    assert(views(result@) =~= expand_arguments(arguments@.take(0), *platform, features@));
    while i < n
        invariant
            n == arguments.len(),
            i <= n,
            views(result@) == expand_arguments(arguments@.take(i as int), *platform, features@),
        decreases n - i,
    {
        let ghost before = views(result@);
        assert(arguments@.take(i + 1).drop_last() =~= arguments@.take(i as int));
        match &arguments[i] {
            LaunchArgument::String(s) => {
                result.push(s.clone());
                assert(views(result@) =~= before + seq![s@]);
            },
            LaunchArgument::Object { rules, value } => {
                if check_allowed(rules, platform, features) {
                    let m = value.len();
                    let mut j: usize = 0;
                    while j < m
                        invariant
                            m == value.len(),
                            j <= m,
                            views(result@) == before + views(value@.take(j as int)),
                        decreases m - j,
                    {
                        let ghost inner = views(result@);
                        result.push(value[j].clone());
                        assert(views(value@.take(j + 1)) =~= views(value@.take(j as int)).push(
                            value@[j as int]@,
                        ));
                        assert(views(result@) =~= inner.push(value@[j as int]@));
                        j = j + 1;
                    }
                    assert(value@.take(m as int) =~= value@);
                } else {
                    assert(views(result@) =~= before + Seq::<Seq<char>>::empty());
                }
            },
        }
        i = i + 1;
    }
    assert(arguments@.take(n as int) =~= arguments@);
    result
}

/// Expands the game and JVM templates; where there is no template at all,
/// both lists are the built-in defaults.
pub fn resolve_launch_arguments(
    game: &Vec<LaunchArgument>,
    jvm: &Vec<LaunchArgument>,
    platform: &PlatformInfo,
    features: &Vec<(String, bool)>,
) -> (r: ResolvedArguments)
    ensures
        (views(r.game@), views(r.jvm@)) == launch_tokens(game@, jvm@, *platform, features@),
{
    if game.len() == 0 && jvm.len() == 0 {
        ResolvedArguments { game: default_game_arguments(), jvm: default_jvm_arguments() }
    } else {
        ResolvedArguments {
            game: resolve_arguments(game, platform, features),
            jvm: resolve_arguments(jvm, platform, features),
        }
    }
}

} // verus!
