//! The environment that the buildpack's layers set: the .NET SDK or runtime layer's
//! variables, the NuGet package cache and the `dotnet` CLI home.
use vstd::prelude::*;
use crate::text::str_to_string;

verus! {

/// When an environment modification applies: at build time, at launch time, or both.
#[derive(Debug, PartialEq, Eq, Structural, Clone, Copy)]
pub enum Scope {
    All,
    Build,
    Launch,
}

/// How a modification changes a variable.
#[derive(Debug, PartialEq, Eq, Structural, Clone, Copy)]
pub enum ModificationBehavior {
    Append,
    Default,
    Delimiter,
    Override,
    Prepend,
}

/// One change to one environment variable.
#[derive(Debug, PartialEq, Clone)]
pub struct EnvModification {
    pub scope: Scope,
    pub behavior: ModificationBehavior,
    pub name: String,
    pub value: String,
}

/// The view of a modification: scope, behavior, variable name, value.
pub type ModificationView = (Scope, ModificationBehavior, Seq<char>, Seq<char>);

impl View for EnvModification {
    type V = ModificationView;

    open spec fn view(&self) -> ModificationView {
        (self.scope, self.behavior, self.name@, self.value@)
    }
}

/// The views of a list of modifications.
pub open spec fn modification_views(v: Seq<EnvModification>) -> Seq<ModificationView> {
    v.map_values(|m: EnvModification| m@)
}

fn modification(scope: Scope, behavior: ModificationBehavior, name: &str, value: &str) -> (r: EnvModification)
    ensures
        r@ == (scope, behavior, name@, value@),
{
    EnvModification { scope, behavior, name: str_to_string(name), value: str_to_string(value) }
}

/// The environment of a layer holding the .NET SDK or runtime at `layer_path`, in `scope`:
/// the layer on `PATH` (prepended, `:`-delimited), telemetry and the logo off, W^X off, the
/// layer as `DOTNET_ROOT`, and the container flag on.
pub open spec fn dotnet_layer_env(layer_path: Seq<char>, scope: Scope) -> Seq<ModificationView> {
    seq![
        (scope, ModificationBehavior::Delimiter, "PATH"@, ":"@),
        (scope, ModificationBehavior::Prepend, "PATH"@, layer_path),
        (scope, ModificationBehavior::Override, "DOTNET_CLI_TELEMETRY_OPTOUT"@, "true"@),
        (scope, ModificationBehavior::Override, "DOTNET_EnableWriteXorExecute"@, "0"@),
        (scope, ModificationBehavior::Override, "DOTNET_NOLOGO"@, "true"@),
        (scope, ModificationBehavior::Override, "DOTNET_ROOT"@, layer_path),
        (scope, ModificationBehavior::Override, "DOTNET_RUNNING_IN_CONTAINER"@, "true"@),
    ]
}

/// The environment of a .NET SDK or runtime layer (see [`dotnet_layer_env`]).
pub fn generate_layer_env(layer_path: &str, scope: &Scope) -> (r: Vec<EnvModification>)
    ensures
        modification_views(r@) == dotnet_layer_env(layer_path@, *scope),
{
    let s = *scope;
    let r = vec![
        modification(s, ModificationBehavior::Delimiter, "PATH", ":"),
        modification(s, ModificationBehavior::Prepend, "PATH", layer_path),
        modification(s, ModificationBehavior::Override, "DOTNET_CLI_TELEMETRY_OPTOUT", "true"),
        modification(s, ModificationBehavior::Override, "DOTNET_EnableWriteXorExecute", "0"),
        modification(s, ModificationBehavior::Override, "DOTNET_NOLOGO", "true"),
        modification(s, ModificationBehavior::Override, "DOTNET_ROOT", layer_path),
        modification(s, ModificationBehavior::Override, "DOTNET_RUNNING_IN_CONTAINER", "true"),
    ];
    assert(modification_views(r@) =~= dotnet_layer_env(layer_path@, *scope));
    r
}

/// The environment of the NuGet package cache layer at `layer_path`: the packages folder,
/// and no XML documentation files extracted unless configured otherwise.
pub open spec fn nuget_cache_layer_env(layer_path: Seq<char>, scope: Scope) -> Seq<ModificationView> {
    seq![
        (scope, ModificationBehavior::Override, "NUGET_PACKAGES"@, layer_path),
        (scope, ModificationBehavior::Default, "NUGET_XMLDOC_MODE"@, "skip"@),
    ]
}

/// The environment of the NuGet package cache layer (see [`nuget_cache_layer_env`]).
pub fn generate_nuget_cache_layer_env(layer_path: &str, scope: &Scope) -> (r: Vec<EnvModification>)
    ensures
        modification_views(r@) == nuget_cache_layer_env(layer_path@, *scope),
{
    let s = *scope;
    let r = vec![
        modification(s, ModificationBehavior::Override, "NUGET_PACKAGES", layer_path),
        modification(s, ModificationBehavior::Default, "NUGET_XMLDOC_MODE", "skip"),
    ];
    assert(modification_views(r@) =~= nuget_cache_layer_env(layer_path@, *scope));
    r
}

/// The environment of the `dotnet` CLI home layer at `layer_path`.
pub open spec fn dotnet_cli_layer_env(layer_path: Seq<char>, scope: Scope) -> Seq<ModificationView> {
    seq![(scope, ModificationBehavior::Override, "DOTNET_CLI_HOME"@, layer_path)]
}

/// The environment of the `dotnet` CLI home layer (see [`dotnet_cli_layer_env`]).
pub fn generate_dotnet_cli_layer_env(layer_path: &str, scope: &Scope) -> (r: Vec<EnvModification>)
    ensures
        modification_views(r@) == dotnet_cli_layer_env(layer_path@, *scope),
{
    let r = vec![modification(*scope, ModificationBehavior::Override, "DOTNET_CLI_HOME", layer_path)];
    assert(modification_views(r@) =~= dotnet_cli_layer_env(layer_path@, *scope));
    r
}

} // verus!
