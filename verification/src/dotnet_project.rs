//! Reading a .NET project file's metadata (its SDK, target framework, output type and
//! assembly name) from the nodes of its XML document, and the kind of project it is.
use vstd::prelude::*;
use crate::text::{str_chars, chars_equal_str, str_to_string};

verus! {

/// `roxmltree::Error`, carried through as an opaque value.
#[verifier::external_type_specification]
#[verifier::external_body]
pub struct ExXmlError(roxmltree::Error);

/// `std::io::Error`, carried through as an opaque value (declared in `app_source`).
pub type IoError = std::io::Error;

/// A node of a parsed XML document, in document order: the local name of its tag (empty
/// for nodes that are not elements), its attributes as (local name, value) pairs in
/// document order, and its text (for an element, that of its first child when that child
/// is text).
#[derive(Debug, Clone)]
pub struct XmlNode {
    pub tag_name: String,
    pub attributes: Vec<(String, String)>,
    pub text: Option<String>,
}

/// The view of a node: tag name, attributes, text.
pub type NodeView = (Seq<char>, Seq<(Seq<char>, Seq<char>)>, Option<Seq<char>>);

/// The view of an optional string.
pub open spec fn opt_view(o: Option<String>) -> Option<Seq<char>> {
    match o {
        Some(s) => Some(s@),
        None => None,
    }
}

/// The views of attribute pairs.
pub open spec fn attribute_views(v: Seq<(String, String)>) -> Seq<(Seq<char>, Seq<char>)> {
    v.map_values(|a: (String, String)| (a.0@, a.1@))
}

impl View for XmlNode {
    type V = NodeView;

    open spec fn view(&self) -> NodeView {
        (self.tag_name@, attribute_views(self.attributes@), opt_view(self.text))
    }
}

/// The views of a list of nodes.
pub open spec fn node_views(v: Seq<XmlNode>) -> Seq<NodeView> {
    v.map_values(|n: XmlNode| n@)
}

/// The nodes of the XML document `content` in document order (the document root first),
/// or `None` where `content` is not a well-formed XML document.
pub uninterp spec fn xml_descendants(content: Seq<char>) -> Option<Seq<NodeView>>;

/// `roxmltree::Document::parse` followed by `Document::descendants`. Stated: the result is
/// the named list of nodes of the document, or an error exactly where no such list exists.
/// What parses, and into which nodes, is only named.
#[verifier::external_body]
fn parse_xml_nodes(content: &str) -> (r: Result<Vec<XmlNode>, roxmltree::Error>)
    ensures
        match r {
            Ok(nodes) => xml_descendants(content@) == Some(node_views(nodes@)),
            Err(_) => xml_descendants(content@) is None,
        },
{
    match roxmltree::Document::parse(content) {
        Ok(doc) => Ok(doc.descendants().map(|n| XmlNode {
            tag_name: n.tag_name().name().to_string(),
            attributes: n.attributes().map(|a| (a.name().to_string(), a.value().to_string())).collect(),
            text: n.text().map(|t| t.to_string()),
        }).collect()),
        Err(e) => Err(e),
    }
}

/// The value of the first attribute named `name`.
pub open spec fn attribute_value(attrs: Seq<(Seq<char>, Seq<char>)>, name: Seq<char>) -> Option<Seq<char>>
    decreases attrs.len(),
{
    if attrs.len() == 0 {
        None
    } else if attrs[0].0 == name {
        Some(attrs[0].1)
    } else {
        attribute_value(attrs.drop_first(), name)
    }
}

/// The value of the first attribute of `node` named `name`.
pub fn attribute(node: &XmlNode, name: &str) -> (r: Option<String>)
    ensures
        opt_view(r) == attribute_value(node@.1, name@),
{
    let attrs = &node.attributes;
    let ghost views = attribute_views(attrs@);
    let mut i: usize = 0;
    assert(views.skip(0) =~= views);
    while i < attrs.len()
        invariant
            i <= attrs@.len(),
            views == attribute_views(attrs@),
            views == node@.1,
            attribute_value(views, name@) == attribute_value(views.skip(i as int), name@),
        decreases attrs@.len() - i,
    {
        let key = str_chars(attrs[i].0.as_str());
        assert(views.skip(i as int)[0] == views[i as int]);
        if chars_equal_str(&key, name) {
            return Some(attrs[i].1.clone());
        }
        assert(views.skip(i as int).drop_first() =~= views.skip(i + 1));
        i += 1;
    }
    assert(views.skip(i as int) =~= Seq::<(Seq<char>, Seq<char>)>::empty());
    None
}

/// A project's metadata as read from its project file.
#[derive(Debug)]
pub struct DotnetProjectMetadata {
    pub sdk_id: String,
    pub target_framework: String,
    pub output_type: Option<String>,
    pub assembly_name: Option<String>,
}

/// The view of project metadata.
pub struct MetadataView {
    pub sdk_id: Seq<char>,
    pub target_framework: Seq<char>,
    pub output_type: Option<Seq<char>>,
    pub assembly_name: Option<Seq<char>>,
}

impl View for DotnetProjectMetadata {
    type V = MetadataView;

    open spec fn view(&self) -> MetadataView {
        MetadataView {
            sdk_id: self.sdk_id@,
            target_framework: self.target_framework@,
            output_type: opt_view(self.output_type),
            assembly_name: opt_view(self.assembly_name),
        }
    }
}

/// The text of a node, or the empty text.
pub open spec fn text_or_empty(t: Option<Seq<char>>) -> Seq<char> {
    match t {
        Some(s) => s,
        None => Seq::empty(),
    }
}

/// What a node changes in the metadata read so far: the `Sdk` attribute of `Project` and
/// the `Name` attribute (else the text) of `Sdk` set the SDK; `TargetFramework`,
/// `OutputType` and a non-empty `AssemblyName` set their fields; other nodes change nothing.
pub open spec fn metadata_step(m: MetadataView, node: NodeView) -> MetadataView {
    let tag = node.0;
    let attrs = node.1;
    let text = node.2;
    if tag == "Project"@ {
        match attribute_value(attrs, "Sdk"@) {
            Some(sdk) => MetadataView { sdk_id: sdk, target_framework: m.target_framework, output_type: m.output_type, assembly_name: m.assembly_name },
            None => m,
        }
    } else if tag == "Sdk"@ {
        let sdk = match attribute_value(attrs, "Name"@) {
            Some(name) => name,
            None => text_or_empty(text),
        };
        MetadataView { sdk_id: sdk, target_framework: m.target_framework, output_type: m.output_type, assembly_name: m.assembly_name }
    } else if tag == "TargetFramework"@ {
        MetadataView { sdk_id: m.sdk_id, target_framework: text_or_empty(text), output_type: m.output_type, assembly_name: m.assembly_name }
    } else if tag == "OutputType"@ {
        MetadataView { sdk_id: m.sdk_id, target_framework: m.target_framework, output_type: text, assembly_name: m.assembly_name }
    } else if tag == "AssemblyName"@ {
        match text {
            Some(t) if t.len() > 0 => MetadataView { sdk_id: m.sdk_id, target_framework: m.target_framework, output_type: m.output_type, assembly_name: Some(t) },
            _ => m,
        }
    } else {
        m
    }
}

/// Metadata with nothing read yet.
pub open spec fn empty_metadata() -> MetadataView {
    MetadataView { sdk_id: Seq::empty(), target_framework: Seq::empty(), output_type: None, assembly_name: None }
}

/// The metadata read from `nodes`, in order: each field is what the last node that sets it
/// says.
pub open spec fn metadata_of(nodes: Seq<NodeView>) -> MetadataView
    decreases nodes.len(),
{
    if nodes.len() == 0 {
        empty_metadata()
    } else {
        metadata_step(metadata_of(nodes.drop_last()), nodes.last())
    }
}

/// Applies one node to the metadata read so far.
fn apply_node(m: &mut DotnetProjectMetadata, node: &XmlNode)
    ensures
        final(m)@ == metadata_step(old(m)@, node@),
{
    let tag = str_chars(node.tag_name.as_str());
    if chars_equal_str(&tag, "Project") {
        if let Some(sdk) = attribute(node, "Sdk") {
            m.sdk_id = sdk;
        }
    } else if chars_equal_str(&tag, "Sdk") {
        match attribute(node, "Name") {
            Some(name) => m.sdk_id = name,
            None => {
                m.sdk_id = match &node.text {
                    Some(t) => t.clone(),
                    None => String::new(),
                };
            },
        }
    } else if chars_equal_str(&tag, "TargetFramework") {
        m.target_framework = match &node.text {
            Some(t) => t.clone(),
            None => String::new(),
        };
    } else if chars_equal_str(&tag, "OutputType") {
        m.output_type = match &node.text {
            Some(t) => Some(t.clone()),
            None => None,
        };
    } else if chars_equal_str(&tag, "AssemblyName") {
        if let Some(t) = &node.text {
            if !t.as_str().is_empty() {
                m.assembly_name = Some(t.clone());
            }
        }
    }
}

/// Reads a project's metadata from the nodes of its project file (see [`metadata_of`]).
pub fn parse_dotnet_project_metadata(nodes: &[XmlNode]) -> (r: DotnetProjectMetadata)
    ensures
        r@ == metadata_of(node_views(nodes@)),
{
    let mut m = DotnetProjectMetadata {
        sdk_id: String::new(),
        target_framework: String::new(),
        output_type: None,
        assembly_name: None,
    };
    let mut i: usize = 0;
    while i < nodes.len()
        invariant
            i <= nodes@.len(),
            m@ == metadata_of(node_views(nodes@.take(i as int))),
        decreases nodes@.len() - i,
    {
        assert(node_views(nodes@.take(i + 1)).drop_last() =~= node_views(nodes@.take(i as int)));
        assert(node_views(nodes@.take(i + 1)).last() == nodes@[i as int]@);
        apply_node(&mut m, &nodes[i]);
        i += 1;
    }
    assert(nodes@.take(nodes@.len() as int) =~= nodes@);
    m
}

/// The kinds of .NET project.
#[derive(Debug, PartialEq, Eq, Structural, Clone, Copy)]
pub enum ProjectType {
    ConsoleApplication,
    WebApplication,
    RazorApplication,
    BlazorWebAssembly,
    Worker,
    Library,
    Unknown,
}

/// The kind of project that metadata describes: an `Exe` output with the plain SDK is a
/// console application; the Web and Razor SDKs make web applications; anything else is
/// unknown.
pub open spec fn project_type_of(m: MetadataView) -> ProjectType {
    if m.sdk_id == "Microsoft.NET.Sdk"@ {
        if m.output_type == Some("Exe"@) {
            ProjectType::ConsoleApplication
        } else {
            ProjectType::Unknown
        }
    } else if m.sdk_id == "Microsoft.NET.Sdk.Web"@ || m.sdk_id == "Microsoft.NET.Sdk.Razor"@ {
        ProjectType::WebApplication
    } else {
        ProjectType::Unknown
    }
}

/// The kind of project that `metadata` describes (see [`project_type_of`]).
pub fn infer_project_type(metadata: &DotnetProjectMetadata) -> (r: ProjectType)
    ensures
        r == project_type_of(metadata@),
{
    let sdk = str_chars(metadata.sdk_id.as_str());
    if chars_equal_str(&sdk, "Microsoft.NET.Sdk") {
        match &metadata.output_type {
            Some(t) => {
                let tc = str_chars(t.as_str());
                if chars_equal_str(&tc, "Exe") {
                    ProjectType::ConsoleApplication
                } else {
                    ProjectType::Unknown
                }
            },
            None => ProjectType::Unknown,
        }
    } else if chars_equal_str(&sdk, "Microsoft.NET.Sdk.Web") || chars_equal_str(&sdk, "Microsoft.NET.Sdk.Razor") {
        ProjectType::WebApplication
    } else {
        ProjectType::Unknown
    }
}

/// A loaded .NET project.
#[derive(Debug)]
pub struct DotnetProject {
    pub path: String,
    pub sdk_id: String,
    pub target_framework: String,
    pub project_type: ProjectType,
    pub assembly_name: Option<String>,
}

/// Why a project could not be loaded.
#[derive(Debug)]
pub enum LoadProjectError {
    ReadProjectFile(IoError),
    XmlParseError(roxmltree::Error),
    MissingTargetFramework,
}

/// `r` is the project at `path` whose file has the nodes `nodes`: an error where no
/// target framework is set, else the project with the metadata's fields and kind.
pub open spec fn project_from_nodes(path: Seq<char>, nodes: Seq<NodeView>, r: Result<DotnetProject, LoadProjectError>) -> bool {
    let m = metadata_of(nodes);
    if m.target_framework.len() == 0 {
        r matches Err(LoadProjectError::MissingTargetFramework)
    } else {
        r matches Ok(p) && p.path@ == path && p.sdk_id@ == m.sdk_id
            && p.target_framework@ == m.target_framework
            && p.project_type == project_type_of(m)
            && opt_view(p.assembly_name) == m.assembly_name
    }
}

/// The nodes of the project file `content`, or `XmlParseError` where it is not
/// well-formed XML.
pub fn parse_project_xml(content: &str) -> (r: Result<Vec<XmlNode>, LoadProjectError>)
    ensures
        match xml_descendants(content@) {
            Some(nodes) => r matches Ok(v) && node_views(v@) == nodes,
            None => r matches Err(LoadProjectError::XmlParseError(_)),
        },
{
    match parse_xml_nodes(content) {
        Ok(nodes) => Ok(nodes),
        Err(e) => Err(LoadProjectError::XmlParseError(e)),
    }
}

impl DotnetProject {
    /// The project at `path` whose file has the nodes `nodes` (see [`project_from_nodes`]).
    pub fn from_nodes(path: &str, nodes: &[XmlNode]) -> (r: Result<Self, LoadProjectError>)
        ensures
            project_from_nodes(path@, node_views(nodes@), r),
    {
        let metadata = parse_dotnet_project_metadata(nodes);
        if metadata.target_framework.as_str().is_empty() {
            return Err(LoadProjectError::MissingTargetFramework);
        }
        let project_type = infer_project_type(&metadata);
        Ok(DotnetProject {
            path: str_to_string(path),
            sdk_id: metadata.sdk_id,
            target_framework: metadata.target_framework,
            project_type,
            assembly_name: metadata.assembly_name,
        })
    }

    /// Loads the project at `path` from what reading its file gave: a failed read is
    /// `ReadProjectFile`, a file that is not well-formed XML is `XmlParseError`, else the
    /// project that its nodes describe.
    pub fn load_from_path(path: &str, contents: Result<String, IoError>) -> (r: Result<Self, LoadProjectError>)
        ensures
            match contents {
                Err(e) => r matches Err(LoadProjectError::ReadProjectFile(e2)) && e2 == e,
                Ok(c) => match xml_descendants(c@) {
                    None => r matches Err(LoadProjectError::XmlParseError(_)),
                    Some(nodes) => project_from_nodes(path@, nodes, r),
                },
            },
    {
        match contents {
            Err(e) => Err(LoadProjectError::ReadProjectFile(e)),
            Ok(c) => match parse_project_xml(c.as_str()) {
                Err(e) => Err(e),
                Ok(nodes) => Self::from_nodes(path, nodes.as_slice()),
            },
        }
    }
}

} // verus!
