//! The buildpack's decisions: whether it applies to an application, which application
//! source it builds, which .NET SDK version it requires, in which scope the SDK is
//! available, and which launch processes it registers.
use vstd::prelude::*;
use crate::app_source::{
    AppSource, DiscoveryError, LoadError, SOLUTION_EXTENSIONS, PROJECT_EXTENSIONS, FILE_BASED_APP_EXTENSIONS,
    filter_by_extension, paths_with_extension, string_views, solution_extensions,
    project_extensions, file_based_app_extensions, str_views, has_extension_in,
};
use crate::dotnet::global_json::{SdkConfig, SdkConfigError, sdk_config_result};
use crate::dotnet::solution::Solution;
use crate::dotnet::target_framework_moniker::{
    TargetFrameworkMoniker, ParseTargetFrameworkError, parsed_tfm, tfm_result_matches,
    tfm_requirement_text,
};
use crate::dotnet_buildpack_configuration::{DotnetBuildpackConfigurationError, ExecutionEnvironment};
use crate::dotnet_layer_env::Scope;
use crate::launch_process::Process;
use crate::paths::{spec_join, spec_extension, join};
use crate::sln::{first_index_from, find_from, lemma_first_index_from_bounds};
use crate::text::{str_chars, str_to_string, chars_between};
use crate::versions::{SdkRequirement, semver_req_parses};

verus! {

/// `toml::de::Error`, carried through as an opaque value.
#[verifier::external_type_specification]
#[verifier::external_body]
pub struct ExTomlDeError(toml::de::Error);

/// `serde_json::Error`, carried through as an opaque value.
#[verifier::external_type_specification]
#[verifier::external_body]
pub struct ExJsonError(serde_json::Error);

/// Why the SDK layer could not be set up; outside errors are held as their messages.
#[derive(Debug)]
pub enum SdkLayerError {
    DownloadArchive(String),
    ReadArchive(std::io::Error),
    VerifyArchiveChecksum { expected: Vec<u8>, actual: Vec<u8> },
    OpenArchive(std::io::Error),
    DecompressArchive(std::io::Error),
}

/// Why a command run by the buildpack failed: it could not be started, or it exited
/// unsuccessfully (with the exit status as text).
#[derive(Debug)]
pub enum CommandError {
    SystemError(String, std::io::Error),
    NonZeroExit(String),
}

/// Why detection or a build stops.
#[derive(Debug)]
pub enum DotnetBuildpackError {
    BuildpackDetection(std::io::Error),
    ReadProjectTomlFile(std::io::Error),
    ParseProjectToml(toml::de::Error),
    NoSolutionProjects(String),
    ConfiguredSolutionFileNotFound(String),
    DiscoverAppSource(DiscoveryError),
    LoadAppSource(LoadError),
    ParseTargetFrameworkMoniker(ParseTargetFrameworkError),
    ReadGlobalJsonFile(std::io::Error),
    ParseGlobalJson(serde_json::Error),
    ParseGlobalJsonSdkConfig(SdkConfigError),
    ParseInventory(String),
    ParseSolutionVersionRequirement(semver::Error),
    ResolveSdkVersion(SdkRequirement),
    SdkLayer(SdkLayerError),
    RestoreDotnetToolsCommand(CommandError),
    ParseBuildpackConfiguration(DotnetBuildpackConfigurationError),
    PublishCommand(CommandError),
    CopyRuntimeFiles(std::io::Error),
}

/// The extensions of the files that make a directory a .NET application: solutions,
/// projects and file-based apps.
pub open spec fn supported_extensions() -> Seq<Seq<char>> {
    solution_extensions() + project_extensions() + file_based_app_extensions()
}

/// Whether the buildpack applies to an application whose directory listing gave
/// `listing`: a failed listing is `BuildpackDetection`; otherwise it applies exactly when
/// some file has a supported extension.
pub fn detect(listing: Result<Vec<String>, std::io::Error>) -> (r: Result<bool, DotnetBuildpackError>)
    ensures
        match listing {
            Err(e) => r matches Err(DotnetBuildpackError::BuildpackDetection(e2)) && e2 == e,
            Ok(files) => r == Ok::<bool, DotnetBuildpackError>(
                paths_with_extension(string_views(files@), supported_extensions()).len() > 0,
            ),
        },
{
    let files = match listing {
        Err(e) => return Err(DotnetBuildpackError::BuildpackDetection(e)),
        Ok(files) => files,
    };
    let extensions: [&str; 6] = [
        SOLUTION_EXTENSIONS[0],
        SOLUTION_EXTENSIONS[1],
        PROJECT_EXTENSIONS[0],
        PROJECT_EXTENSIONS[1],
        PROJECT_EXTENSIONS[2],
        FILE_BASED_APP_EXTENSIONS[0],
    ];
    proof {
        crate::app_source::lemma_extension_constants();
        assert(str_views(extensions@) =~= supported_extensions());
    }
    let found = filter_by_extension(files.as_slice(), &extensions);
    Ok(found.len() > 0)
}

proof fn lemma_extension_in_union(p: Seq<char>)
    ensures
        has_extension_in(p, supported_extensions()) <==> has_extension_in(p, solution_extensions())
            || has_extension_in(p, project_extensions()) || has_extension_in(p, file_based_app_extensions()),
{
    let all = supported_extensions();
    if let Some(e) = spec_extension(p) {
        if all.contains(e) {
            let k = choose|k: int| 0 <= k < all.len() && all[k] == e;
            if k < 2 {
                assert(solution_extensions()[k] == e);
            } else if k < 5 {
                assert(project_extensions()[k - 2] == e);
            } else {
                assert(file_based_app_extensions()[k - 5] == e);
            }
        }
        if solution_extensions().contains(e) {
            let k = choose|k: int| 0 <= k < 2 && solution_extensions()[k] == e;
            assert(all[k] == e);
        }
        if project_extensions().contains(e) {
            let k = choose|k: int| 0 <= k < 3 && project_extensions()[k] == e;
            assert(all[k + 2] == e);
        }
        if file_based_app_extensions().contains(e) {
            assert(all[5] == e);
        }
    }
}

proof fn lemma_found_in_union(files: Seq<Seq<char>>)
    ensures
        paths_with_extension(files, supported_extensions()).len() > 0 <==> (
            paths_with_extension(files, solution_extensions()).len() > 0
            || paths_with_extension(files, project_extensions()).len() > 0
            || paths_with_extension(files, file_based_app_extensions()).len() > 0),
    decreases files.len(),
{
    if files.len() > 0 {
        lemma_found_in_union(files.drop_last());
        lemma_extension_in_union(files.last());
    }
}

/// The buildpack applies to a directory exactly when choosing its application source finds
/// one, or finds several of one kind: detection fails only where discovery finds no
/// application at all.
pub proof fn lemma_detect_agrees_with_discovery(files: Seq<String>, r: Result<AppSource, DiscoveryError>)
    requires
        AppSource::chosen_from_files(files, r),
    ensures
        paths_with_extension(string_views(files), supported_extensions()).len() > 0
            <==> !(r matches Err(DiscoveryError::NoAppFound)),
{
    lemma_found_in_union(string_views(files));
}

/// The text that names the kind of an application source.
pub open spec fn source_type_text(s: AppSource) -> Seq<char> {
    match s {
        AppSource::Solution(_) => "solution"@,
        AppSource::Project(_) => "project"@,
        AppSource::FileBasedApp(_) => "file-based app"@,
    }
}

/// The kind of an application source, as text (`file-based app`).
pub fn source_type(source: &AppSource) -> (r: &'static str)
    ensures
        r@ == source_type_text(*source),
{
    match source {
        AppSource::Solution(_) => "solution",
        AppSource::Project(_) => "project",
        AppSource::FileBasedApp(_) => "file-based app",
    }
}

/// `is_file`, asked about a path with view `p`, may answer `b`.
pub open spec fn file_check<F: Fn(&str) -> bool>(is_file: F, p: Seq<char>, b: bool) -> bool {
    exists|s: &str| s@ == p && #[trigger] call_ensures(is_file, (s,), b)
}

/// Chooses the application source in `app_dir`. A configured solution file (relative to
/// `app_dir`) is used when `is_file` says it is a file, and is otherwise
/// `ConfiguredSolutionFileNotFound`; without one, the source is chosen among the files that
/// `list_files` gives (see [`AppSource::from_dir`]). Discovery errors are
/// `DiscoverAppSource`.
pub fn discover_app_source<F, L>(
    app_dir: &str,
    solution_file: Option<&str>,
    is_file: F,
    list_files: L,
) -> (r: Result<AppSource, DotnetBuildpackError>) where
    F: Fn(&str) -> bool,
    L: FnOnce() -> Result<Vec<String>, std::io::Error>,

    requires
        forall|s: &str| call_requires(is_file, (s,)),
        call_requires(list_files, ()),
    ensures
        match solution_file {
            Some(f) => {
                let configured = spec_join(app_dir@, f@);
                exists|b: bool| file_check(is_file, configured, b) && if b {
                    exists|a: Result<AppSource, DiscoveryError>| AppSource::from_file_result(configured, a)
                        && match a {
                            Ok(s) => r == Ok::<AppSource, DotnetBuildpackError>(s),
                            Err(e) => r matches Err(DotnetBuildpackError::DiscoverAppSource(e2)) && e2 == e,
                        }
                } else {
                    r matches Err(DotnetBuildpackError::ConfiguredSolutionFileNotFound(p)) && p@ == configured
                }
            },
            None => exists|listing: Result<Vec<String>, std::io::Error>, a: Result<AppSource, DiscoveryError>|
                call_ensures(list_files, (), listing) && AppSource::from_dir_result(listing, a)
                && match a {
                    Ok(s) => r == Ok::<AppSource, DotnetBuildpackError>(s),
                    Err(e) => r matches Err(DotnetBuildpackError::DiscoverAppSource(e2)) && e2 == e,
                },
        },
{
    match solution_file {
        Some(f) => {
            let configured = join(app_dir, f);
            let s = configured.as_str();
            let b = is_file(s);
            assert(file_check(is_file, configured@, b));
            if b {
                let a = AppSource::from_file(s);
                assert(AppSource::from_file_result(configured@, a));
                match a {
                    Ok(src) => Ok(src),
                    Err(e) => Err(DotnetBuildpackError::DiscoverAppSource(e)),
                }
            } else {
                Err(DotnetBuildpackError::ConfiguredSolutionFileNotFound(configured))
            }
        },
        None => {
            let listing = list_files();
            let ghost listing_copy = listing;
            let a = AppSource::from_dir(listing);
            assert(AppSource::from_dir_result(listing_copy, a));
            match a {
                Ok(src) => Ok(src),
                Err(e) => Err(DotnetBuildpackError::DiscoverAppSource(e)),
            }
        },
    }
}

/// `a` comes lexicographically (by characters) no later than `b`.
pub open spec fn lex_le(a: Seq<char>, b: Seq<char>) -> bool
    decreases a.len(),
{
    if a.len() == 0 {
        true
    } else if b.len() == 0 {
        false
    } else if a[0] != b[0] {
        a[0] < b[0]
    } else {
        lex_le(a.drop_first(), b.drop_first())
    }
}

fn lex_le_exec(a: &Vec<char>, b: &Vec<char>) -> (r: bool)
    ensures
        r == lex_le(a@, b@),
{
    let mut i: usize = 0;
    assert(a@.skip(0) =~= a@ && b@.skip(0) =~= b@);
    while i < a.len() && i < b.len() && a[i] == b[i]
        invariant
            i <= a.len() && i <= b.len(),
            lex_le(a@, b@) == lex_le(a@.skip(i as int), b@.skip(i as int)),
        decreases a.len() - i,
    {
        assert(a@.skip(i as int).drop_first() =~= a@.skip(i + 1));
        assert(b@.skip(i as int).drop_first() =~= b@.skip(i + 1));
        i += 1;
    }
    if i == a.len() {
        assert(a@.skip(i as int).len() == 0);
        true
    } else if i == b.len() {
        assert(b@.skip(i as int).len() == 0);
        false
    } else {
        assert(a@.skip(i as int)[0] == a@[i as int] && b@.skip(i as int)[0] == b@[i as int]);
        a[i] < b[i]
    }
}

/// The numeric segment `x` is smaller than `y`: it has fewer digits, or as many and comes
/// first.
pub open spec fn segment_lt(x: Seq<char>, y: Seq<char>) -> bool {
    x.len() < y.len() || (x.len() == y.len() && !lex_le(y, x))
}

/// The version `a` from index `i` is no later than the version `b` from index `j`, comparing
/// their dot-separated segments in turn (see [`segment_lt`]); a version that is a prefix of
/// another comes first.
pub open spec fn version_le_from(a: Seq<char>, i: int, b: Seq<char>, j: int) -> bool
    decreases a.len() - i,
{
    if i < 0 || j < 0 || i > a.len() || j > b.len() {
        true
    } else {
        let ea = first_index_from(a, i, '.');
        let eb = first_index_from(b, j, '.');
        proof {
            lemma_first_index_from_bounds(a, i, '.');
        }
        let sa = a.subrange(i, ea);
        let sb = b.subrange(j, eb);
        if segment_lt(sa, sb) {
            true
        } else if segment_lt(sb, sa) {
            false
        } else if ea >= a.len() {
            true
        } else if eb >= b.len() {
            false
        } else {
            version_le_from(a, ea + 1, b, eb + 1)
        }
    }
}

/// The version `a` is no later than the version `b` (see [`version_le_from`]).
pub open spec fn version_le(a: Seq<char>, b: Seq<char>) -> bool {
    version_le_from(a, 0, b, 0)
}

fn segment_lt_exec(a: &Vec<char>, i: usize, ea: usize, b: &Vec<char>, j: usize, eb: usize) -> (r: bool)
    requires
        i <= ea <= a.len(),
        j <= eb <= b.len(),
    ensures
        r == segment_lt(a@.subrange(i as int, ea as int), b@.subrange(j as int, eb as int)),
{
    if ea - i < eb - j {
        return true;
    }
    if ea - i > eb - j {
        return false;
    }
    let x = chars_between(a, i, ea);
    let y = chars_between(b, j, eb);
    !lex_le_exec(&y, &x)
}

/// Whether the version `a` is no later than the version `b` (see [`version_le`]).
fn version_le_exec(a: &Vec<char>, b: &Vec<char>) -> (r: bool)
    ensures
        r == version_le(a@, b@),
{
    let mut i: usize = 0;
    let mut j: usize = 0;
    loop
        invariant
            i <= a.len(),
            j <= b.len(),
            version_le(a@, b@) == version_le_from(a@, i as int, b@, j as int),
        decreases a.len() - i,
    {
        let ea = find_from(a, i, '.');
        let eb = find_from(b, j, '.');
        if segment_lt_exec(a, i, ea, b, j, eb) {
            return true;
        }
        if segment_lt_exec(b, j, eb, a, i, ea) {
            return false;
        }
        if ea >= a.len() {
            return true;
        }
        if eb >= b.len() {
            return false;
        }
        i = ea + 1;
        j = eb + 1;
    }
}

/// The most recent of the (non-empty) versions `parts` (see [`version_le`]); of equally
/// recent ones, the last.
pub open spec fn max_version_part(parts: Seq<Seq<char>>) -> Seq<char>
    decreases parts.len(),
{
    if parts.len() <= 1 {
        parts[0]
    } else {
        let m = max_version_part(parts.drop_last());
        if version_le(m, parts.last()) {
            parts.last()
        } else {
            m
        }
    }
}

proof fn lemma_lex_le_reflexive(a: Seq<char>)
    ensures
        lex_le(a, a),
    decreases a.len(),
{
    if a.len() > 0 {
        lemma_lex_le_reflexive(a.drop_first());
    }
}

proof fn lemma_lex_le_total(a: Seq<char>, b: Seq<char>)
    ensures
        lex_le(a, b) || lex_le(b, a),
    decreases a.len(),
{
    if a.len() > 0 && b.len() > 0 && a[0] == b[0] {
        lemma_lex_le_total(a.drop_first(), b.drop_first());
    }
}

proof fn lemma_lex_le_antisymmetric(a: Seq<char>, b: Seq<char>)
    requires
        lex_le(a, b),
        lex_le(b, a),
    ensures
        a == b,
    decreases a.len(),
{
    if a.len() > 0 {
        lemma_lex_le_antisymmetric(a.drop_first(), b.drop_first());
        assert forall|i: int| 0 <= i < a.len() implies a[i] == b[i] by {
            if i > 0 {
                assert(a[i] == a.drop_first()[i - 1]);
                assert(b[i] == b.drop_first()[i - 1]);
            }
        }
    }
    assert(a =~= b);
}

proof fn lemma_lex_le_transitive(a: Seq<char>, b: Seq<char>, c: Seq<char>)
    requires
        lex_le(a, b),
        lex_le(b, c),
    ensures
        lex_le(a, c),
    decreases a.len(),
{
    if a.len() > 0 && a[0] == b[0] && b[0] == c[0] {
        lemma_lex_le_transitive(a.drop_first(), b.drop_first(), c.drop_first());
    }
}

proof fn lemma_segment_order(x: Seq<char>, y: Seq<char>, z: Seq<char>)
    ensures
        !segment_lt(x, x),
        segment_lt(x, y) && segment_lt(y, z) ==> segment_lt(x, z),
        !segment_lt(x, y) && !segment_lt(y, x) ==> x == y,
{
    lemma_lex_le_reflexive(x);
    lemma_lex_le_total(x, y);
    lemma_lex_le_total(y, z);
    if segment_lt(x, y) && segment_lt(y, z) && x.len() == z.len() && lex_le(z, x) {
        lemma_lex_le_transitive(z, x, y);
    }
    if !segment_lt(x, y) && !segment_lt(y, x) {
        lemma_lex_le_antisymmetric(x, y);
    }
}

proof fn lemma_version_le_reflexive(a: Seq<char>, i: int)
    requires
        0 <= i <= a.len(),
    ensures
        version_le_from(a, i, a, i),
    decreases a.len() - i,
{
    let ea = first_index_from(a, i, '.');
    lemma_first_index_from_bounds(a, i, '.');
    lemma_segment_order(a.subrange(i, ea), a.subrange(i, ea), a.subrange(i, ea));
    if ea < a.len() {
        lemma_version_le_reflexive(a, ea + 1);
    }
}

proof fn lemma_version_le_total(a: Seq<char>, i: int, b: Seq<char>, j: int)
    requires
        0 <= i <= a.len(),
        0 <= j <= b.len(),
    ensures
        version_le_from(a, i, b, j) || version_le_from(b, j, a, i),
    decreases a.len() - i,
{
    let ea = first_index_from(a, i, '.');
    let eb = first_index_from(b, j, '.');
    lemma_first_index_from_bounds(a, i, '.');
    lemma_first_index_from_bounds(b, j, '.');
    if ea < a.len() && eb < b.len() {
        lemma_version_le_total(a, ea + 1, b, eb + 1);
    }
}

proof fn lemma_version_le_transitive(a: Seq<char>, i: int, b: Seq<char>, j: int, c: Seq<char>, k: int)
    requires
        0 <= i <= a.len(),
        0 <= j <= b.len(),
        0 <= k <= c.len(),
        version_le_from(a, i, b, j),
        version_le_from(b, j, c, k),
    ensures
        version_le_from(a, i, c, k),
    decreases a.len() - i,
{
    let ea = first_index_from(a, i, '.');
    let eb = first_index_from(b, j, '.');
    let ec = first_index_from(c, k, '.');
    lemma_first_index_from_bounds(a, i, '.');
    lemma_first_index_from_bounds(b, j, '.');
    lemma_first_index_from_bounds(c, k, '.');
    let sa = a.subrange(i, ea);
    let sb = b.subrange(j, eb);
    let sc = c.subrange(k, ec);
    lemma_segment_order(sa, sb, sc);
    lemma_segment_order(sb, sc, sa);
    lemma_segment_order(sc, sa, sb);
    lemma_segment_order(sa, sc, sb);
    lemma_segment_order(sb, sa, sc);
    lemma_segment_order(sc, sb, sa);
    if !segment_lt(sa, sb) && !segment_lt(sb, sc) && ea < a.len() && eb < b.len() && ec < c.len() {
        lemma_version_le_transitive(a, ea + 1, b, eb + 1, c, ec + 1);
    }
}

/// Of versions, the one that [`max_version_part`] picks is one of them, and none of them is
/// more recent.
pub proof fn lemma_max_version_part_is_most_recent(parts: Seq<Seq<char>>)
    requires
        parts.len() > 0,
    ensures
        parts.contains(max_version_part(parts)),
        forall|k: int| 0 <= k < parts.len() ==> version_le(#[trigger] parts[k], max_version_part(parts)),
    decreases parts.len(),
{
    let m = max_version_part(parts);
    if parts.len() == 1 {
        lemma_version_le_reflexive(parts[0], 0);
        assert(parts[0] == m);
    } else {
        let rest = parts.drop_last();
        let last = parts.last();
        lemma_max_version_part_is_most_recent(rest);
        let mr = max_version_part(rest);
        let ki = choose|ki: int| 0 <= ki < rest.len() && rest[ki] == mr;
        assert(parts[ki] == mr);
        lemma_version_le_reflexive(last, 0);
        lemma_version_le_total(mr, 0, last, 0);
        assert forall|k: int| 0 <= k < parts.len() implies version_le(#[trigger] parts[k], m) by {
            if k < parts.len() - 1 {
                assert(parts[k] == rest[k]);
                if version_le(mr, last) {
                    lemma_version_le_transitive(parts[k], 0, mr, 0, last, 0);
                }
            }
        }
        if version_le(mr, last) {
            assert(parts[parts.len() - 1] == m);
        }
    }
}

/// The SDK requirement of a solution's projects comes from the most recent target framework
/// version among them: it is one of their versions, and none of them is more recent.
pub proof fn lemma_solution_requirement_uses_most_recent_version(tfms: Seq<Seq<char>>)
    requires
        tfms.len() > 0,
        first_invalid_tfm(tfms) == tfms.len(),
    ensures
        version_parts(tfms).contains(max_version_part(version_parts(tfms))),
        forall|k: int| 0 <= k < tfms.len() ==> version_le(
            #[trigger] version_parts(tfms)[k],
            max_version_part(version_parts(tfms)),
        ),
{
    lemma_max_version_part_is_most_recent(version_parts(tfms));
}

/// The target frameworks of a solution's projects.
pub open spec fn target_frameworks(s: &Solution) -> Seq<Seq<char>> {
    s.projects@.map_values(|p: crate::dotnet::project::Project| p.target_framework@)
}

/// The index of the first target framework that does not parse, or the number of them.
pub open spec fn first_invalid_tfm(tfms: Seq<Seq<char>>) -> int
    decreases tfms.len(),
{
    if tfms.len() == 0 {
        0
    } else if first_invalid_tfm(tfms.drop_last()) < tfms.len() - 1 {
        first_invalid_tfm(tfms.drop_last())
    } else if parsed_tfm(tfms.last()) is Err {
        tfms.len() - 1
    } else {
        tfms.len() as int
    }
}

/// The version parts of the target frameworks (all of which parse).
pub open spec fn version_parts(tfms: Seq<Seq<char>>) -> Seq<Seq<char>> {
    tfms.map_values(|t: Seq<char>| parsed_tfm(t)->Ok_0)
}

/// `r` is the SDK requirement that a solution's projects imply: the first target framework
/// that does not parse is an error; a solution without projects is `NoSolutionProjects`;
/// otherwise the caret requirement on the most recent version part, which
/// is an error where `semver` rejects it.
pub open spec fn solution_requirement_result(s: &Solution, r: Result<SdkRequirement, DotnetBuildpackError>) -> bool {
    let tfms = target_frameworks(s);
    let k = first_invalid_tfm(tfms);
    if k < tfms.len() {
        r matches Err(DotnetBuildpackError::ParseTargetFrameworkMoniker(e)) && tfm_result_matches(
            tfms[k],
            Err(e),
        )
    } else if tfms.len() == 0 {
        r matches Err(DotnetBuildpackError::NoSolutionProjects(p)) && p@ == s.path@
    } else {
        &&& (r is Ok <==> semver_req_parses(tfm_requirement_text(max_version_part(version_parts(tfms)))))
        &&& (r matches Ok(q) ==> q@ == tfm_requirement_text(max_version_part(version_parts(tfms))))
        &&& (r is Err ==> r matches Err(DotnetBuildpackError::ParseSolutionVersionRequirement(_)))
    }
}

proof fn lemma_first_invalid_prefix(tfms: Seq<Seq<char>>, i: int)
    requires
        0 <= i <= tfms.len(),
        forall|j: int| 0 <= j < i ==> parsed_tfm(#[trigger] tfms[j]) is Ok,
    ensures
        first_invalid_tfm(tfms.take(i)) == i,
        i < tfms.len() && parsed_tfm(tfms[i]) is Err ==> first_invalid_tfm(tfms) == i,
        i == tfms.len() ==> first_invalid_tfm(tfms) == tfms.len(),
    decreases i,
{
    if i > 0 {
        lemma_first_invalid_prefix(tfms, i - 1);
        assert(tfms.take(i).drop_last() =~= tfms.take(i - 1));
        assert(tfms.take(i).last() == tfms[i - 1]);
    }
    assert(first_invalid_tfm(tfms.take(i)) == i);
    if i < tfms.len() && parsed_tfm(tfms[i]) is Err {
        assert(tfms.take(i + 1).drop_last() =~= tfms.take(i));
        assert(tfms.take(i + 1).last() == tfms[i]);
        lemma_first_invalid_take(tfms, i + 1, i);
    }
    if i == tfms.len() {
        assert(tfms.take(i) =~= tfms);
    }
}

proof fn lemma_first_invalid_take(tfms: Seq<Seq<char>>, n: int, k: int)
    requires
        0 <= k < n <= tfms.len(),
        first_invalid_tfm(tfms.take(n)) == k,
    ensures
        first_invalid_tfm(tfms) == k,
    decreases tfms.len() - n,
{
    if n < tfms.len() {
        assert(tfms.take(n + 1).drop_last() =~= tfms.take(n));
        lemma_first_invalid_take(tfms, n + 1, k);
    } else {
        assert(tfms.take(n) =~= tfms);
    }
}

/// The SDK version requirement that a solution's projects imply (see
/// [`solution_requirement_result`]).
pub fn get_solution_sdk_version_requirement(solution: &Solution) -> (r: Result<SdkRequirement, DotnetBuildpackError>)
    ensures
        solution_requirement_result(solution, r),
{
    let ghost tfms = target_frameworks(solution);
    let projects = &solution.projects;
    let mut monikers: Vec<TargetFrameworkMoniker> = Vec::new();
    let mut i: usize = 0;
    while i < projects.len()
        invariant
            i <= projects@.len(),
            tfms == target_frameworks(solution),
            projects@ == solution.projects@,
            monikers@.len() == i,
            forall|j: int| 0 <= j < i ==> parsed_tfm(#[trigger] tfms[j]) is Ok,
            forall|j: int| 0 <= j < i ==> (#[trigger] monikers@[j]).version_part@ == parsed_tfm(tfms[j])->Ok_0,
        decreases projects@.len() - i,
    {
        assert(tfms[i as int] == projects@[i as int].target_framework@);
        match TargetFrameworkMoniker::from_str(projects[i].target_framework.as_str()) {
            Ok(m) => {
                monikers.push(m);
            },
            Err(e) => {
                proof {
                    lemma_first_invalid_prefix(tfms, i as int);
                }
                return Err(DotnetBuildpackError::ParseTargetFrameworkMoniker(e));
            },
        }
        i += 1;
    }
    proof {
        lemma_first_invalid_prefix(tfms, tfms.len() as int);
    }
    if monikers.len() == 0 {
        return Err(DotnetBuildpackError::NoSolutionProjects(solution.path.clone()));
    }
    let ghost parts = version_parts(tfms);
    let mut best: usize = 0;
    let mut best_chars = str_chars(monikers[0].version_part.as_str());
    let mut k: usize = 1;
    assert(parts.take(1).len() == 1);
    while k < monikers.len()
        invariant
            1 <= k <= monikers@.len(),
            monikers@.len() == tfms.len(),
            parts == version_parts(tfms),
            best < monikers@.len(),
            best_chars@ == monikers@[best as int].version_part@,
            forall|j: int| 0 <= j < monikers@.len() ==> (#[trigger] monikers@[j]).version_part@ == parsed_tfm(tfms[j])->Ok_0,
            monikers@[best as int].version_part@ == max_version_part(parts.take(k as int)),
        decreases monikers@.len() - k,
    {
        let candidate = str_chars(monikers[k].version_part.as_str());
        assert(parts.take(k + 1).drop_last() =~= parts.take(k as int));
        assert(parts.take(k + 1).last() == monikers@[k as int].version_part@);
        if version_le_exec(&best_chars, &candidate) {
            best = k;
            best_chars = candidate;
        }
        k += 1;
    }
    assert(parts.take(monikers@.len() as int) =~= parts);
    match monikers[best].version_req() {
        Ok(req) => Ok(req),
        Err(e) => Err(DotnetBuildpackError::ParseSolutionVersionRequirement(e)),
    }
}

/// The SDK version requirement of a build: that of the root `global.json` file's SDK
/// configuration where there is one (its errors as `ParseGlobalJsonSdkConfig`), else the
/// one that the solution's projects imply.
pub fn detect_sdk_version_requirement(
    global_json_sdk: Option<SdkConfig>,
    solution: &Solution,
) -> (r: Result<SdkRequirement, DotnetBuildpackError>)
    ensures
        match global_json_sdk {
            Some(c) => exists|cr: Result<SdkRequirement, SdkConfigError>|
                sdk_config_result(c.version@, c.roll_forward, cr) && match cr {
                    Ok(req) => r == Ok::<SdkRequirement, DotnetBuildpackError>(req),
                    Err(e) => r matches Err(DotnetBuildpackError::ParseGlobalJsonSdkConfig(e2)) && e2 == e,
                },
            None => solution_requirement_result(solution, r),
        },
{
    match global_json_sdk {
        Some(c) => {
            let ghost c_copy = c;
            let cr = c.version_req();
            assert(sdk_config_result(c_copy.version@, c_copy.roll_forward, cr));
            match cr {
                Ok(req) => Ok(req),
                Err(e) => Err(DotnetBuildpackError::ParseGlobalJsonSdkConfig(e)),
            }
        },
        None => get_solution_sdk_version_requirement(solution),
    }
}

/// The scope of the SDK: build time only in production, and also launch time for tests.
pub open spec fn sdk_scope_of(env: ExecutionEnvironment) -> Scope {
    match env {
        ExecutionEnvironment::Production => Scope::Build,
        ExecutionEnvironment::Test => Scope::All,
    }
}

/// The scope in which the SDK (and the layers around it) is available.
pub fn sdk_scope(env: ExecutionEnvironment) -> (r: Scope)
    ensures
        r == sdk_scope_of(env),
{
    match env {
        ExecutionEnvironment::Production => Scope::Build,
        ExecutionEnvironment::Test => Scope::All,
    }
}

/// Whether what is set up in `scope` is available at launch time.
pub fn available_at_launch(scope: Scope) -> (r: bool)
    ensures
        r == (scope == Scope::Launch || scope == Scope::All),
{
    match scope {
        Scope::Launch | Scope::All => true,
        Scope::Build => false,
    }
}

/// The SDK is available at launch time exactly in the test execution environment.
pub proof fn lemma_sdk_at_launch_only_for_tests(env: ExecutionEnvironment)
    ensures
        (sdk_scope_of(env) == Scope::Launch || sdk_scope_of(env) == Scope::All)
            <==> env == ExecutionEnvironment::Test,
{
}

/// The launch processes to register: none where the app has a `Procfile`, which takes
/// precedence, else the detected ones.
pub fn processes_to_register(detected: Vec<Process>, procfile_exists: bool) -> (r: Vec<Process>)
    ensures
        procfile_exists ==> r@.len() == 0,
        !procfile_exists ==> r@ == detected@,
{
    if procfile_exists {
        Vec::new()
    } else {
        detected
    }
}

} // verus!
