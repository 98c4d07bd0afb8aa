//! Shader source assembly.
use vstd::prelude::*;
use vstd::string::StringExecFns;

verus! {

/// The full source handed to the shader compiler: the version directive, a line break,
/// then the body.
pub open spec fn shader_source_spec(version: Seq<char>, body: Seq<char>) -> Seq<char> {
    version + seq!['\n'] + body
}

/// Prefixes a shader body with its version directive on a line of its own.
pub fn shader_source(version: &str, body: &str) -> (r: String)
    ensures
        r@ == shader_source_spec(version@, body@),
{
    let mut r = String::from_str(version);
    proof { reveal_strlit("\n"); }
    r.append("\n");
    r.append(body);
    assert(r@ =~= shader_source_spec(version@, body@));
    r
}

/// The assembled source is the version directive, a single line break, and the body,
/// each unchanged: the directive always ends the first line.
pub proof fn lemma_shader_source_layout(version: Seq<char>, body: Seq<char>)
    ensures
        shader_source_spec(version, body).len() == version.len() + 1 + body.len(),
        shader_source_spec(version, body).take(version.len() as int) == version,
        shader_source_spec(version, body)[version.len() as int] == '\n',
        shader_source_spec(version, body).skip(version.len() + 1int) == body,
{
    assert(shader_source_spec(version, body).take(version.len() as int) =~= version);
    assert(shader_source_spec(version, body).skip(version.len() + 1int) =~= body);
}

} // verus!
