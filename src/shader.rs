//! The shader program: a vertex and a fragment shader compiled and linked
//! into one program object.

use vstd::prelude::*;
use vstd::string::StringExecFns;
use crate::calls::GlCall;

verus! {

/// The directory, below the working directory, that holds shader sources.
pub open spec fn shader_dir() -> Seq<char> {
    "/resources/shaders/"@
}

/// The path of the shader source file `file` below the working directory `cwd`.
pub fn shader_path(cwd: &str, file: &str) -> (r: String)
    ensures
        r@ == cwd@ + shader_dir() + file@,
{
    let mut path = String::from_str(cwd);
    path.append("/resources/shaders/");
    path.append(file);
    path
}

/// The three object names that the driver handed out for one program: the
/// program and its two intermediate shader objects.
#[derive(Clone, Copy, Debug, PartialEq, Eq, Structural)]
pub struct ShaderObjects {
    pub program: u32,
    pub vertex: u32,
    pub fragment: u32,
}

/// A linked program. Its name stays the same for the life of the value and
/// is released once, by the calls of `release`.
pub struct Shader {
    id: u32,
}

/// The calls that compile `vertex_source` and `fragment_source` into the
/// shader objects of `o`, link both into the program, and then delete the
/// shader objects, which the program no longer needs. Compile and link
/// results are not queried.
pub open spec fn shader_build_calls(
    o: ShaderObjects,
    vertex_source: String,
    fragment_source: String,
) -> Seq<GlCall> {
    seq![
        GlCall::ShaderSource { shader: o.vertex, source: vertex_source },
        GlCall::CompileShader { shader: o.vertex },
        GlCall::ShaderSource { shader: o.fragment, source: fragment_source },
        GlCall::CompileShader { shader: o.fragment },
        GlCall::AttachShader { program: o.program, shader: o.vertex },
        GlCall::AttachShader { program: o.program, shader: o.fragment },
        GlCall::LinkProgram { program: o.program },
        GlCall::DeleteShader { shader: o.vertex },
        GlCall::DeleteShader { shader: o.fragment },
    ]
}

impl Shader {
    /// The program name.
    pub closed spec fn program(&self) -> u32 {
        self.id
    }

    /// Takes the freshly created objects `objects` and the two source texts,
    /// and returns the program with the calls that build it.
    pub fn init(objects: ShaderObjects, vertex_source: String, fragment_source: String) -> (r: (
        Shader,
        Vec<GlCall>,
    ))
        ensures
            r.0.program() == objects.program,
            r.1@ == shader_build_calls(objects, vertex_source, fragment_source),
    {
        let ghost vs = vertex_source;
        let ghost fs = fragment_source;
        let mut calls: Vec<GlCall> = Vec::new();
        calls.push(GlCall::ShaderSource { shader: objects.vertex, source: vertex_source });
        calls.push(GlCall::CompileShader { shader: objects.vertex });
        calls.push(GlCall::ShaderSource { shader: objects.fragment, source: fragment_source });
        calls.push(GlCall::CompileShader { shader: objects.fragment });
        calls.push(GlCall::AttachShader { program: objects.program, shader: objects.vertex });
        calls.push(GlCall::AttachShader { program: objects.program, shader: objects.fragment });
        calls.push(GlCall::LinkProgram { program: objects.program });
        calls.push(GlCall::DeleteShader { shader: objects.vertex });
        calls.push(GlCall::DeleteShader { shader: objects.fragment });
        assert(calls@ =~= shader_build_calls(objects, vs, fs));
        (Shader { id: objects.program }, calls)
    }

    /// The program name.
    pub fn id(&self) -> (r: u32)
        ensures
            r == self.program(),
    {
        self.id
    }

    /// The call that makes this program current for the draws that follow.
    pub fn activate(&self) -> (r: GlCall)
        ensures
            r == (GlCall::UseProgram { program: self.program() }),
    {
        GlCall::UseProgram { program: self.id }
    }

    /// Gives up the program and returns the call that releases it.
    pub fn release(self) -> (r: Vec<GlCall>)
        ensures
            r@ == seq![GlCall::DeleteProgram { program: self.program() }],
    {
        let mut calls: Vec<GlCall> = Vec::new();
        calls.push(GlCall::DeleteProgram { program: self.id });
        calls
    }
}

} // verus!
