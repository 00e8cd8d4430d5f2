//! .NET projects: what a project file's properties (or a file-based app's directives) say
//! about its target framework, type and assembly name.
use vstd::prelude::*;
use crate::paths::{spec_file_stem, file_stem};
use crate::sln::{spec_lines, lines_of, char_views};
use crate::text::{str_chars, string_from_chars, chars_between, chars_equal_str, starts_with, trim_chars, spec_trim, is_whitespace, spec_is_whitespace, str_to_string};

verus! {

/// `quick_xml::de::DeError`, carried through as an opaque value.
#[verifier::external_type_specification]
#[verifier::external_body]
pub struct ExDeError(quick_xml::de::DeError);

/// A loaded project.
#[derive(Debug)]
pub struct Project {
    pub path: String,
    pub target_framework: String,
    pub project_type: ProjectType,
    pub assembly_name: String,
}

/// What a project builds.
#[derive(Debug, PartialEq, Eq, Structural, Clone, Copy)]
pub enum ProjectType {
    ConsoleApplication,
    WebApplication,
    WorkerService,
    Unknown,
}

/// A `<PropertyGroup>` of a project file (or of `Directory.Build.props`), with the
/// properties that the buildpack reads.
#[derive(Debug, Default)]
pub struct PropertyGroup {
    pub target_framework: Option<String>,
    pub output_type: Option<String>,
    pub assembly_name: Option<String>,
}

/// The `<Sdk Name="..."/>` element of a project file.
#[derive(Debug)]
pub struct SdkElement {
    pub name: String,
}

/// The parts of a project file that the buildpack reads: the `Sdk` attribute of
/// `<Project>`, an `<Sdk>` element and the property groups, in document order.
#[derive(Debug)]
pub struct ProjectXml {
    pub sdk: Option<String>,
    pub sdk_element: Option<SdkElement>,
    pub property_groups: Vec<PropertyGroup>,
}

/// Why a project could not be loaded.
#[derive(Debug)]
pub enum LoadError {
    ReadProjectFile(std::io::Error),
    XmlParseError(quick_xml::de::DeError),
    MissingTargetFramework(String),
    ReadDirectoryBuildProps(std::io::Error),
    XmlParseDirectoryBuildProps(quick_xml::de::DeError),
}

/// The project type that an SDK and output type make: `Microsoft.NET.Sdk` with output type
/// `Exe` is a console application, the `Web` and `Razor` SDKs make web applications and the
/// `Worker` SDK a worker service; anything else is unknown.
pub open spec fn project_type_of(sdk_id: Seq<char>, output_type: Option<Seq<char>>) -> ProjectType {
    if sdk_id == "Microsoft.NET.Sdk"@ {
        if output_type == Some("Exe"@) {
            ProjectType::ConsoleApplication
        } else {
            ProjectType::Unknown
        }
    } else if sdk_id == "Microsoft.NET.Sdk.Web"@ || sdk_id == "Microsoft.NET.Sdk.Razor"@ {
        ProjectType::WebApplication
    } else if sdk_id == "Microsoft.NET.Sdk.Worker"@ {
        ProjectType::WorkerService
    } else {
        ProjectType::Unknown
    }
}

/// The view of an optional string.
pub open spec fn opt_view(o: Option<&str>) -> Option<Seq<char>> {
    match o {
        Some(s) => Some(s@),
        None => None,
    }
}

/// Infers the project type from the SDK and the output type (see [`project_type_of`]).
pub fn infer_project_type(sdk_id: &str, output_type: Option<&str>) -> (r: ProjectType)
    ensures
        r == project_type_of(sdk_id@, opt_view(output_type)),
{
    let sdk = str_chars(sdk_id);
    if chars_equal_str(&sdk, "Microsoft.NET.Sdk") {
        match output_type {
            Some(t) => {
                let tc = str_chars(t);
                if chars_equal_str(&tc, "Exe") {
                    ProjectType::ConsoleApplication
                } else {
                    ProjectType::Unknown
                }
            },
            None => ProjectType::Unknown,
        }
    } else if chars_equal_str(&sdk, "Microsoft.NET.Sdk.Web") || chars_equal_str(&sdk, "Microsoft.NET.Sdk.Razor") {
        ProjectType::WebApplication
    } else if chars_equal_str(&sdk, "Microsoft.NET.Sdk.Worker") {
        ProjectType::WorkerService
    } else {
        ProjectType::Unknown
    }
}

/// The last `TargetFramework` set among the property groups (the last one wins).
pub open spec fn last_target_framework(groups: Seq<PropertyGroup>) -> Option<Seq<char>>
    decreases groups.len(),
{
    if groups.len() == 0 {
        None
    } else {
        match groups.last().target_framework {
            Some(t) => Some(t@),
            None => last_target_framework(groups.drop_last()),
        }
    }
}

/// The last `OutputType` set among the property groups.
pub open spec fn last_output_type(groups: Seq<PropertyGroup>) -> Option<Seq<char>>
    decreases groups.len(),
{
    if groups.len() == 0 {
        None
    } else {
        match groups.last().output_type {
            Some(t) => Some(t@),
            None => last_output_type(groups.drop_last()),
        }
    }
}

/// The output type is the one that the last property group setting `OutputType` sets: none
/// when no group sets it; otherwise the value of the group at the greatest index that sets
/// it, whatever groups stand between or after without setting it.
pub proof fn lemma_output_type_is_last_set(groups: Seq<PropertyGroup>)
    ensures
        last_output_type(groups) is None <==> forall|i: int| 0 <= i < groups.len() ==> (#[trigger] groups[i]).output_type is None,
        forall|i: int| 0 <= i < groups.len() && (#[trigger] groups[i]).output_type is Some && (forall|j: int|
            i < j < groups.len() ==> groups[j].output_type is None) ==> last_output_type(groups) == Some(
            groups[i].output_type.unwrap()@,
        ),
    decreases groups.len(),
{
    if groups.len() > 0 {
        let rest = groups.drop_last();
        lemma_output_type_is_last_set(rest);
        assert forall|i: int| 0 <= i < rest.len() implies rest[i] == groups[i] by {}
        if last_output_type(groups) is None {
            assert forall|i: int| 0 <= i < groups.len() implies (#[trigger] groups[i]).output_type is None by {
                if i < rest.len() {
                    assert(rest[i] == groups[i]);
                }
            }
        }
        if forall|i: int| 0 <= i < groups.len() ==> (#[trigger] groups[i]).output_type is None {
            assert(groups[groups.len() - 1].output_type is None);
            assert forall|i: int| 0 <= i < rest.len() implies (#[trigger] rest[i]).output_type is None by {
                assert(rest[i] == groups[i]);
            }
        }
        assert forall|i: int| 0 <= i < groups.len() && (#[trigger] groups[i]).output_type is Some && (forall|j: int|
            i < j < groups.len() ==> groups[j].output_type is None) implies last_output_type(groups) == Some(
            groups[i].output_type.unwrap()@,
        ) by {
            if i < groups.len() - 1 {
                assert(groups[groups.len() - 1].output_type is None);
                assert(rest[i] == groups[i]);
                assert forall|j: int| i < j < rest.len() implies rest[j].output_type is None by {
                    assert(rest[j] == groups[j]);
                }
            }
        }
    }
}

/// A property group that does not set `OutputType` changes nothing, wherever it stands.
pub proof fn lemma_output_type_ignores_groups_without_it(a: Seq<PropertyGroup>, g: PropertyGroup, b: Seq<PropertyGroup>)
    requires
        g.output_type is None,
    ensures
        last_output_type(a + seq![g] + b) == last_output_type(a + b),
    decreases b.len(),
{
    if b.len() == 0 {
        assert(a + seq![g] + b =~= a.push(g));
        assert(a.push(g).drop_last() =~= a);
        assert(a + b =~= a);
    } else {
        lemma_output_type_ignores_groups_without_it(a, g, b.drop_last());
        assert((a + seq![g] + b).drop_last() =~= a + seq![g] + b.drop_last());
        assert((a + b).drop_last() =~= a + b.drop_last());
        assert((a + seq![g] + b).last() == b.last());
        assert((a + b).last() == b.last());
    }
}

/// The target framework is the one that the last property group setting `TargetFramework` sets: none
/// when no group sets it; otherwise the value of the group at the greatest index that sets
/// it, whatever groups stand between or after without setting it.
pub proof fn lemma_target_framework_is_last_set(groups: Seq<PropertyGroup>)
    ensures
        last_target_framework(groups) is None <==> forall|i: int| 0 <= i < groups.len() ==> (#[trigger] groups[i]).target_framework is None,
        forall|i: int| 0 <= i < groups.len() && (#[trigger] groups[i]).target_framework is Some && (forall|j: int|
            i < j < groups.len() ==> groups[j].target_framework is None) ==> last_target_framework(groups) == Some(
            groups[i].target_framework.unwrap()@,
        ),
    decreases groups.len(),
{
    if groups.len() > 0 {
        let rest = groups.drop_last();
        lemma_target_framework_is_last_set(rest);
        assert forall|i: int| 0 <= i < rest.len() implies rest[i] == groups[i] by {}
        if last_target_framework(groups) is None {
            assert forall|i: int| 0 <= i < groups.len() implies (#[trigger] groups[i]).target_framework is None by {
                if i < rest.len() {
                    assert(rest[i] == groups[i]);
                }
            }
        }
        if forall|i: int| 0 <= i < groups.len() ==> (#[trigger] groups[i]).target_framework is None {
            assert(groups[groups.len() - 1].target_framework is None);
            assert forall|i: int| 0 <= i < rest.len() implies (#[trigger] rest[i]).target_framework is None by {
                assert(rest[i] == groups[i]);
            }
        }
        assert forall|i: int| 0 <= i < groups.len() && (#[trigger] groups[i]).target_framework is Some && (forall|j: int|
            i < j < groups.len() ==> groups[j].target_framework is None) implies last_target_framework(groups) == Some(
            groups[i].target_framework.unwrap()@,
        ) by {
            if i < groups.len() - 1 {
                assert(groups[groups.len() - 1].target_framework is None);
                assert(rest[i] == groups[i]);
                assert forall|j: int| i < j < rest.len() implies rest[j].target_framework is None by {
                    assert(rest[j] == groups[j]);
                }
            }
        }
    }
}

/// A property group that does not set `TargetFramework` changes nothing, wherever it stands.
pub proof fn lemma_target_framework_ignores_groups_without_it(a: Seq<PropertyGroup>, g: PropertyGroup, b: Seq<PropertyGroup>)
    requires
        g.target_framework is None,
    ensures
        last_target_framework(a + seq![g] + b) == last_target_framework(a + b),
    decreases b.len(),
{
    if b.len() == 0 {
        assert(a + seq![g] + b =~= a.push(g));
        assert(a.push(g).drop_last() =~= a);
        assert(a + b =~= a);
    } else {
        lemma_target_framework_ignores_groups_without_it(a, g, b.drop_last());
        assert((a + seq![g] + b).drop_last() =~= a + seq![g] + b.drop_last());
        assert((a + b).drop_last() =~= a + b.drop_last());
        assert((a + seq![g] + b).last() == b.last());
        assert((a + b).last() == b.last());
    }
}

/// The assembly name is the one that the last property group setting `AssemblyName` sets: none
/// when no group sets it; otherwise the value of the group at the greatest index that sets
/// it, whatever groups stand between or after without setting it.
pub proof fn lemma_assembly_name_is_last_set(groups: Seq<PropertyGroup>)
    ensures
        last_assembly_name(groups) is None <==> forall|i: int| 0 <= i < groups.len() ==> (#[trigger] groups[i]).assembly_name is None,
        forall|i: int| 0 <= i < groups.len() && (#[trigger] groups[i]).assembly_name is Some && (forall|j: int|
            i < j < groups.len() ==> groups[j].assembly_name is None) ==> last_assembly_name(groups) == Some(
            groups[i].assembly_name.unwrap()@,
        ),
    decreases groups.len(),
{
    if groups.len() > 0 {
        let rest = groups.drop_last();
        lemma_assembly_name_is_last_set(rest);
        assert forall|i: int| 0 <= i < rest.len() implies rest[i] == groups[i] by {}
        if last_assembly_name(groups) is None {
            assert forall|i: int| 0 <= i < groups.len() implies (#[trigger] groups[i]).assembly_name is None by {
                if i < rest.len() {
                    assert(rest[i] == groups[i]);
                }
            }
        }
        if forall|i: int| 0 <= i < groups.len() ==> (#[trigger] groups[i]).assembly_name is None {
            assert(groups[groups.len() - 1].assembly_name is None);
            assert forall|i: int| 0 <= i < rest.len() implies (#[trigger] rest[i]).assembly_name is None by {
                assert(rest[i] == groups[i]);
            }
        }
        assert forall|i: int| 0 <= i < groups.len() && (#[trigger] groups[i]).assembly_name is Some && (forall|j: int|
            i < j < groups.len() ==> groups[j].assembly_name is None) implies last_assembly_name(groups) == Some(
            groups[i].assembly_name.unwrap()@,
        ) by {
            if i < groups.len() - 1 {
                assert(groups[groups.len() - 1].assembly_name is None);
                assert(rest[i] == groups[i]);
                assert forall|j: int| i < j < rest.len() implies rest[j].assembly_name is None by {
                    assert(rest[j] == groups[j]);
                }
            }
        }
    }
}

/// A property group that does not set `AssemblyName` changes nothing, wherever it stands.
pub proof fn lemma_assembly_name_ignores_groups_without_it(a: Seq<PropertyGroup>, g: PropertyGroup, b: Seq<PropertyGroup>)
    requires
        g.assembly_name is None,
    ensures
        last_assembly_name(a + seq![g] + b) == last_assembly_name(a + b),
    decreases b.len(),
{
    if b.len() == 0 {
        assert(a + seq![g] + b =~= a.push(g));
        assert(a.push(g).drop_last() =~= a);
        assert(a + b =~= a);
    } else {
        lemma_assembly_name_ignores_groups_without_it(a, g, b.drop_last());
        assert((a + seq![g] + b).drop_last() =~= a + seq![g] + b.drop_last());
        assert((a + b).drop_last() =~= a + b.drop_last());
        assert((a + seq![g] + b).last() == b.last());
        assert((a + b).last() == b.last());
    }
}

/// The last `AssemblyName` set among the property groups.
pub open spec fn last_assembly_name(groups: Seq<PropertyGroup>) -> Option<Seq<char>>
    decreases groups.len(),
{
    if groups.len() == 0 {
        None
    } else {
        match groups.last().assembly_name {
            Some(t) => Some(t@),
            None => last_assembly_name(groups.drop_last()),
        }
    }
}

/// The property selected from one group: 0 target framework, 1 output type, 2 assembly name.
fn group_property(g: &PropertyGroup, which: u8) -> (r: &Option<String>)
    ensures
        which == 0 ==> r == &g.target_framework,
        which == 1 ==> r == &g.output_type,
        which != 0 && which != 1 ==> r == &g.assembly_name,
{
    if which == 0 {
        &g.target_framework
    } else if which == 1 {
        &g.output_type
    } else {
        &g.assembly_name
    }
}

/// The last value of a property among the groups.
pub open spec fn last_property(groups: Seq<PropertyGroup>, which: u8) -> Option<Seq<char>> {
    if which == 0 {
        last_target_framework(groups)
    } else if which == 1 {
        last_output_type(groups)
    } else {
        last_assembly_name(groups)
    }
}

fn last_property_value(groups: &[PropertyGroup], which: u8) -> (r: Option<String>)
    ensures
        match r {
            Some(v) => last_property(groups@, which) == Some(v@),
            None => last_property(groups@, which) is None,
        },
{
    let mut i = groups.len();
    assert(groups@.take(i as int) =~= groups@);
    while i > 0
        invariant
            i <= groups@.len(),
            last_property(groups@, which) == last_property(groups@.take(i as int), which),
        decreases i,
    {
        assert(groups@.take(i as int).drop_last() =~= groups@.take(i - 1));
        assert(groups@.take(i as int).last() == groups@[i - 1]);
        match group_property(&groups[i - 1], which) {
            Some(v) => {
                return Some(v.clone());
            },
            None => {},
        }
        i -= 1;
    }
    None
}

/// The target framework of a list of property groups: the last one set, if any.
pub fn extract_target_framework(property_groups: &[PropertyGroup]) -> (r: Option<String>)
    ensures
        match r {
            Some(v) => last_target_framework(property_groups@) == Some(v@),
            None => last_target_framework(property_groups@) is None,
        },
{
    last_property_value(property_groups, 0)
}

/// Every character of `s` is whitespace (so `s.trim()` is empty).
pub open spec fn is_blank(s: Seq<char>) -> bool {
    forall|i: int| 0 <= i < s.len() ==> spec_is_whitespace(#[trigger] s[i])
}

fn is_blank_exec(s: &str) -> (r: bool)
    ensures
        r == is_blank(s@),
{
    let c = str_chars(s);
    let mut i: usize = 0;
    while i < c.len()
        invariant
            i <= c.len(),
            c@ == s@,
            forall|j: int| 0 <= j < i ==> spec_is_whitespace(#[trigger] c@[j]),
        decreases c.len() - i,
    {
        if !is_whitespace(c[i]) {
            return false;
        }
        i += 1;
    }
    true
}

/// The assembly name of a project file at `path` with these property groups: the last
/// `AssemblyName` set, unless it is blank, in which case (and when none is set) the file
/// stem of the path, as MSBuild does.
pub open spec fn project_assembly_name(path: Seq<char>, groups: Seq<PropertyGroup>) -> Seq<char> {
    match last_assembly_name(groups) {
        Some(n) => if is_blank(n) {
            spec_file_stem(path).unwrap()
        } else {
            n
        },
        None => spec_file_stem(path).unwrap(),
    }
}

/// The file stem of the path is needed for the assembly name.
pub open spec fn needs_file_stem(groups: Seq<PropertyGroup>) -> bool {
    match last_assembly_name(groups) {
        Some(n) => is_blank(n),
        None => true,
    }
}

/// The SDK of a project file: the `<Sdk>` element's name, else the `Sdk` attribute.
pub open spec fn project_sdk(xml: ProjectXml) -> Option<Seq<char>> {
    match xml.sdk_element {
        Some(e) => Some(e.name@),
        None => match xml.sdk {
            Some(s) => Some(s@),
            None => None,
        },
    }
}

/// The project type of a project file: unknown without an SDK, else inferred from the SDK
/// and the last `OutputType`.
pub open spec fn xml_project_type(xml: ProjectXml) -> ProjectType {
    match project_sdk(xml) {
        Some(sdk) => project_type_of(sdk, last_output_type(xml.property_groups@)),
        None => ProjectType::Unknown,
    }
}

/// `p` is the project at `path` read from `xml`, targeting `tfm`.
pub open spec fn project_from_xml(p: Project, path: Seq<char>, xml: ProjectXml, tfm: Seq<char>) -> bool {
    &&& p.path@ == path
    &&& p.target_framework@ == tfm
    &&& p.project_type == xml_project_type(xml)
    &&& p.assembly_name@ == project_assembly_name(path, xml.property_groups@)
}

/// The rest of the first line (trimmed of whitespace) that starts with `prefix`.
pub open spec fn first_directive(lines: Seq<Seq<char>>, prefix: Seq<char>) -> Option<Seq<char>>
    decreases lines.len(),
{
    if lines.len() == 0 {
        None
    } else {
        let t = spec_trim(lines[0]);
        if prefix.len() <= t.len() && t.take(prefix.len() as int) == prefix {
            Some(t.skip(prefix.len() as int))
        } else {
            first_directive(lines.drop_first(), prefix)
        }
    }
}

/// `#:sdk `
pub open spec fn sdk_directive() -> Seq<char> {
    seq!['#', ':', 's', 'd', 'k', ' ']
}

/// `#:property TargetFramework=`
pub open spec fn target_framework_directive() -> Seq<char> {
    "#:property TargetFramework="@
}

fn first_directive_exec(lines: &Vec<Vec<char>>, prefix: &Vec<char>) -> (r: Option<Vec<char>>)
    ensures
        match r {
            Some(v) => first_directive(char_views(lines@), prefix@) == Some(v@),
            None => first_directive(char_views(lines@), prefix@) is None,
        },
{
    let mut i: usize = 0;
    assert(char_views(lines@).skip(0) =~= char_views(lines@));
    while i < lines.len()
        invariant
            i <= lines@.len(),
            first_directive(char_views(lines@), prefix@) == first_directive(char_views(lines@).skip(i as int), prefix@),
        decreases lines@.len() - i,
    {
        let ghost rest = char_views(lines@).skip(i as int);
        assert(rest[0] == lines@[i as int]@);
        assert(rest.drop_first() =~= char_views(lines@).skip(i + 1));
        let t = trim_chars(&lines[i]);
        if starts_with(&t, prefix) {
            return Some(chars_between(&t, prefix.len(), t.len()));
        }
        i += 1;
    }
    assert(char_views(lines@).skip(i as int) =~= Seq::<Seq<char>>::empty());
    None
}

/// The SDK of a file-based app with contents `content`: the first `#:sdk` directive, else
/// `Microsoft.NET.Sdk`.
pub open spec fn file_based_app_sdk(content: Seq<char>) -> Seq<char> {
    match first_directive(spec_lines(content), sdk_directive()) {
        Some(s) => s,
        None => "Microsoft.NET.Sdk"@,
    }
}

/// `p` is the file-based app at `path` with SDK `sdk` and target framework `tfm`; file-based
/// apps are executables and use the file stem as assembly name.
pub open spec fn file_based_app_project(p: Project, path: Seq<char>, sdk: Seq<char>, tfm: Seq<char>) -> bool {
    &&& p.path@ == path
    &&& p.target_framework@ == tfm
    &&& p.project_type == project_type_of(sdk, Some("Exe"@))
    &&& p.assembly_name@ == spec_file_stem(path).unwrap()
}

impl Project {
    /// Loads the file-based app (a `.cs` file) at `path` with contents `content`. The SDK is
    /// the first `#:sdk` directive (default `Microsoft.NET.Sdk`); the target framework is the
    /// first `#:property TargetFramework=` directive, else the one that
    /// `props_target_framework` finds in the nearest `Directory.Build.props` (asked once),
    /// else `net10.0`.
    pub fn from_file_based_app<F>(path: &str, content: &str, props_target_framework: F) -> (r: Self) where
        F: FnOnce() -> Option<String>,

        requires
            call_requires(props_target_framework, ()),
            spec_file_stem(path@) is Some,
        ensures
            ({
                let sdk = file_based_app_sdk(content@);
                match first_directive(spec_lines(content@), target_framework_directive()) {
                    Some(tfm) => file_based_app_project(r, path@, sdk, tfm),
                    None => exists|res: Option<String>|
                        #[trigger] call_ensures(props_target_framework, (), res) && match res {
                            Some(tfm) => file_based_app_project(r, path@, sdk, tfm@),
                            None => file_based_app_project(r, path@, sdk, "net10.0"@),
                        },
                }
            }),
    {
        let c = str_chars(content);
        let lines = lines_of(&c);
        let sdk_prefix = vec!['#', ':', 's', 'd', 'k', ' '];
        assert(sdk_prefix@ =~= sdk_directive());
        let tfm_prefix = str_chars("#:property TargetFramework=");
        let sdk = match first_directive_exec(&lines, &sdk_prefix) {
            Some(v) => string_from_chars(v.as_slice()),
            None => str_to_string("Microsoft.NET.Sdk"),
        };
        let target_framework = match first_directive_exec(&lines, &tfm_prefix) {
            Some(v) => string_from_chars(v.as_slice()),
            None => {
                let res = props_target_framework();
                let ghost g = res;
                assert(call_ensures(props_target_framework, (), g));
                match res {
                    Some(t) => t,
                    None => str_to_string("net10.0"),
                }
            },
        };
        let project_type = infer_project_type(sdk.as_str(), Some("Exe"));
        Project {
            path: str_to_string(path),
            target_framework,
            project_type,
            assembly_name: file_stem(path).unwrap(),
        }
    }
}

impl Project {
    /// Loads the project at `path` from its parsed project file `project_xml`. The target
    /// framework is the last one set in the project file; without one, `props_target_framework`
    /// is asked once for the one of the nearest `Directory.Build.props` (its error is
    /// returned, and its absence is `MissingTargetFramework`).
    pub fn from_project_xml<F>(path: &str, project_xml: ProjectXml, props_target_framework: F) -> (r: Result<Self, LoadError>) where
        F: FnOnce() -> Result<Option<String>, LoadError>,

        requires
            call_requires(props_target_framework, ()),
            needs_file_stem(project_xml.property_groups@) ==> spec_file_stem(path@) is Some,
        ensures
            match last_target_framework(project_xml.property_groups@) {
                Some(tfm) => r matches Ok(p) && project_from_xml(p, path@, project_xml, tfm),
                None => exists|res: Result<Option<String>, LoadError>|
                    #[trigger] call_ensures(props_target_framework, (), res) && match res {
                        Ok(Some(tfm)) => r matches Ok(p) && project_from_xml(p, path@, project_xml, tfm@),
                        Ok(None) => r matches Err(LoadError::MissingTargetFramework(q)) && q@ == path@,
                        Err(e) => r == Err::<Project, LoadError>(e),
                    },
            },
    {
        let ghost xml = project_xml;
        let target_framework = match extract_target_framework(project_xml.property_groups.as_slice()) {
            Some(tfm) => tfm,
            None => {
                let res = props_target_framework();
                let ghost g = res;
                assert(call_ensures(props_target_framework, (), g));
                match res {
                    Ok(Some(tfm)) => tfm,
                    Ok(None) => return Err(LoadError::MissingTargetFramework(str_to_string(path))),
                    Err(e) => return Err(e),
                }
            },
        };
        let assembly_name = match last_property_value(project_xml.property_groups.as_slice(), 2) {
            Some(name) => {
                if is_blank_exec(name.as_str()) {
                    file_stem(path).unwrap()
                } else {
                    name
                }
            },
            None => file_stem(path).unwrap(),
        };
        let output_type = last_property_value(project_xml.property_groups.as_slice(), 1);
        let sdk = match project_xml.sdk_element {
            Some(e) => Some(e.name),
            None => project_xml.sdk,
        };
        let project_type = match sdk {
            Some(sdk_id) => match &output_type {
                Some(o) => infer_project_type(sdk_id.as_str(), Some(o.as_str())),
                None => infer_project_type(sdk_id.as_str(), None),
            },
            None => ProjectType::Unknown,
        };
        Ok(Project { path: str_to_string(path), target_framework, project_type, assembly_name })
    }
}

} // verus!
