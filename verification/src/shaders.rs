//! The two shader programs of a run and where their sources are found.

use vstd::prelude::*;
use vstd::string::StringExecFns;

verus! {

/// One of the two programs that are held for the whole run.
#[derive(Clone, Copy, Debug, PartialEq, Eq, Structural)]
pub enum ProgramKind {
    /// Copies a buffer to the screen as it is.
    Display,
    /// Computes the next state from the current one. It can be loaded again
    /// while the run goes on.
    Simulation,
}

/// A stage of a program, each with a source file of its own.
#[derive(Clone, Copy, Debug, PartialEq, Eq, Structural)]
pub enum ShaderStage {
    Vertex,
    Fragment,
}

/// The logical name of the vertex shader of both programs.
pub open spec fn vertex_name_of(kind: ProgramKind) -> Seq<char> {
    "default"@
}

/// The logical name of the fragment shader of a program.
pub open spec fn fragment_name_of(kind: ProgramKind) -> Seq<char> {
    match kind {
        ProgramKind::Display => "default"@,
        ProgramKind::Simulation => "main"@,
    }
}

/// The ending of the source file of a stage.
pub open spec fn extension_of(stage: ShaderStage) -> Seq<char> {
    match stage {
        ShaderStage::Vertex => ".vert"@,
        ShaderStage::Fragment => ".frag"@,
    }
}

/// The place of the source of the shader `name` for `stage`.
pub open spec fn source_path_of(name: Seq<char>, stage: ShaderStage) -> Seq<char> {
    "src/shaders/"@ + name + extension_of(stage)
}

/// The logical name of the vertex shader of a program.
pub fn vertex_name(kind: ProgramKind) -> (name: &'static str)
    ensures
        name@ == vertex_name_of(kind),
{
    "default"
}

/// The logical name of the fragment shader of a program.
pub fn fragment_name(kind: ProgramKind) -> (name: &'static str)
    ensures
        name@ == fragment_name_of(kind),
{
    match kind {
        ProgramKind::Display => "default",
        ProgramKind::Simulation => "main",
    }
}

/// The place of the source of the shader `name` for `stage`: the shader
/// directory, the name and the ending of the stage.
pub fn shader_source_path(name: &str, stage: ShaderStage) -> (path: String)
    ensures
        path@ == source_path_of(name@, stage),
{
    let mut path = String::from_str("src/shaders/");
    path.append(name);
    match stage {
        ShaderStage::Vertex => path.append(".vert"),
        ShaderStage::Fragment => path.append(".frag"),
    }
    path
}

} // verus!
