use crate::config_file::{InputBufferConfig, OutputBufferConfig, RenderPassConfig};
use crate::gamedata::{last_shader_index, GameData, ShaderSource};
use crate::node::NodeError;
use vstd::prelude::*;
use vstd::string::*;

verus! {

/// Why the device could not build a shader program. The device reports these.
#[derive(Debug)]
pub enum ShaderError {
    /// The device could not allocate a shader object.
    ShaderAllocError(String),
    /// The device could not allocate a program object.
    ShaderProgramAllocError(String),
    /// A stage did not compile: the stage, the compiler's log and the full source.
    ShaderCompileError { shader_type: u32, compiler_output: String, shader_text: String },
    /// The stages did not link: the linker's log and the full fragment source.
    ShaderLinkError { compiler_output: String, shader_text: String },
}

/// The vertex stage shared by every program: it passes the quad through and
/// hands the fragment stage texture coordinates `uv` in [0, 1].
pub const VERTEX_SHADER: &'static str = "#version 300 es
layout(location = 0) in vec2 aVertexPosition;
out vec2 uv;
void main() {
    uv = (aVertexPosition + vec2(1)) / vec2(2);
    gl_Position = vec4(aVertexPosition, 0, 1);
}
";

/// What precedes the generated declarations of every render pass: the version
/// and the built-in uniforms.
pub const FRAGMENT_PREAMBLE: &'static str = "#version 300 es
precision highp float;
precision highp int;
in vec2 uv;
uniform vec3 iResolution;
uniform float iTime;
uniform float iTimeDelta;
uniform uint iFrame;
uniform vec4 iMouse;
uniform vec4 iDate;
";

/// The fragment stage of the output node: it copies its input `col` to the screen.
pub const OUTPUT_FRAGMENT_SHADER: &'static str = "#version 300 es
precision highp float;
in vec2 uv;
uniform sampler2D col;
out vec4 FragColor;
void main() {
    FragColor = texture(col, uv);
}
";

/// The decimal digit `d`.
pub open spec fn digit_char(d: int) -> char {
    seq!['0', '1', '2', '3', '4', '5', '6', '7', '8', '9'][d]
}

/// The decimal representation of `n`, without leading zeros.
pub open spec fn decimal(n: nat) -> Seq<char>
    decreases n,
{
    if n < 10 {
        seq![digit_char(n as int)]
    } else {
        decimal(n / 10) + seq![digit_char((n % 10) as int)]
    }
}

fn digit_str(d: usize) -> (r: &'static str)
    requires
        d < 10,
    ensures
        r@ == seq![digit_char(d as int)],
{
    match d {
        0 => {
            proof { reveal_strlit("0"); }
            "0"
        },
        1 => {
            proof { reveal_strlit("1"); }
            "1"
        },
        2 => {
            proof { reveal_strlit("2"); }
            "2"
        },
        3 => {
            proof { reveal_strlit("3"); }
            "3"
        },
        4 => {
            proof { reveal_strlit("4"); }
            "4"
        },
        5 => {
            proof { reveal_strlit("5"); }
            "5"
        },
        6 => {
            proof { reveal_strlit("6"); }
            "6"
        },
        7 => {
            proof { reveal_strlit("7"); }
            "7"
        },
        8 => {
            proof { reveal_strlit("8"); }
            "8"
        },
        _ => {
            proof { reveal_strlit("9"); }
            "9"
        },
    }
}

/// Appends the decimal representation of `n`.
pub fn push_decimal(out: &mut String, n: usize)
    ensures
        final(out)@ == old(out)@ + decimal(n as nat),
    decreases n,
{
    if n >= 10 {
        push_decimal(out, n / 10);
    }
    out.append(digit_str(n % 10));
    assert(final(out)@ =~= old(out)@ + decimal(n as nat));
}

/// The declaration of output slot `i`.
pub open spec fn output_declaration(i: int, slot: OutputBufferConfig) -> Seq<char> {
    "layout(location="@ + decimal(i as nat) + ") out vec"@ + decimal(slot.format.channel_count() as nat)
        + " "@ + slot.name@ + ";\n"@
}

/// The declarations of all output slots, in declared order.
pub open spec fn output_declarations(slots: Seq<OutputBufferConfig>) -> Seq<char>
    decreases slots.len(),
{
    if slots.len() == 0 {
        seq![]
    } else {
        output_declarations(slots.drop_last()) + output_declaration(slots.len() - 1, slots.last())
    }
}

/// The declaration of an input slot's sampler.
pub open spec fn input_declaration(slot: InputBufferConfig) -> Seq<char> {
    "uniform sampler2D "@ + slot.name@ + ";\n"@
}

/// The declarations of all input slots, in declared order.
pub open spec fn input_declarations(slots: Seq<InputBufferConfig>) -> Seq<char>
    decreases slots.len(),
{
    if slots.len() == 0 {
        seq![]
    } else {
        input_declarations(slots.drop_last()) + input_declaration(slots.last())
    }
}

/// The index of the first path that names no shader source.
pub open spec fn first_missing_source(sources: Seq<ShaderSource>, paths: Seq<String>) -> Option<int>
    decreases paths.len(),
{
    if paths.len() == 0 {
        None
    } else {
        match first_missing_source(sources, paths.drop_last()) {
            Some(i) => Some(i),
            None => if last_shader_index(sources, paths.last()@) is None {
                Some(paths.len() - 1)
            } else {
                None
            },
        }
    }
}

/// The user sources named by `paths`, concatenated in order.
pub open spec fn user_sources(sources: Seq<ShaderSource>, paths: Seq<String>) -> Seq<char>
    decreases paths.len(),
{
    if paths.len() == 0 {
        seq![]
    } else {
        user_sources(sources, paths.drop_last()) + match last_shader_index(sources, paths.last()@) {
            Some(i) => sources[i].text@,
            None => seq![],
        }
    }
}

/// The generated part that follows the preamble: output and input declarations.
pub open spec fn slot_declarations(config: RenderPassConfig) -> Seq<char> {
    output_declarations(config.output_texture_slots@) + input_declarations(config.input_texture_slots@)
}

/// The full fragment source of a render pass whose sources are all present.
pub open spec fn fragment_source(config: RenderPassConfig, sources: Seq<ShaderSource>) -> Seq<char> {
    FRAGMENT_PREAMBLE@ + slot_declarations(config) + user_sources(sources, config.fragment_shader_paths@)
}

/// The outcome of assembling the fragment source of a render pass.
pub open spec fn shader_text_result(config: RenderPassConfig, sources: Seq<ShaderSource>) -> Result<Seq<char>, NodeError> {
    match first_missing_source(sources, config.fragment_shader_paths@) {
        Some(i) => Err(NodeError::MissingResource(config.fragment_shader_paths@[i])),
        None => if user_sources(sources, config.fragment_shader_paths@).len() == 0 {
            Err(NodeError::NoShader)
        } else {
            Ok(fragment_source(config, sources))
        },
    }
}

/// Whether an assembled source matches the expected outcome.
pub open spec fn shader_text_matches(r: Result<String, NodeError>, expected: Result<Seq<char>, NodeError>) -> bool {
    match (r, expected) {
        (Ok(t), Ok(e)) => t@ == e,
        (Err(NodeError::MissingResource(p)), Err(NodeError::MissingResource(q))) => p@ == q@,
        (Err(NodeError::NoShader), Err(NodeError::NoShader)) => true,
        _ => false,
    }
}

/// Assembles the fragment source of a render pass: the preamble, a declaration
/// for each output (location = slot index, components = channel count) and for
/// each input sampler, then the user sources in declared order.
///
/// Fails with `MissingResource` on the first path the bundle does not hold, and
/// with `NoShader` where the user sources add nothing.
pub fn generate_shader_text(config: &RenderPassConfig, gamedata: &GameData) -> (r: Result<String, NodeError>)
    ensures
        shader_text_matches(r, shader_text_result(*config, gamedata.shader_sources@)),
{
    let mut text = String::from_str(FRAGMENT_PREAMBLE);
    let outputs = &config.output_texture_slots;
    let mut i: usize = 0;
    while i < outputs.len()
        invariant
            i <= outputs@.len(),
            outputs == &config.output_texture_slots,
            text@ == FRAGMENT_PREAMBLE@ + output_declarations(outputs@.subrange(0, i as int)),
        decreases outputs@.len() - i,
    {
        let slot = &outputs[i];
        text.append("layout(location=");
        push_decimal(&mut text, i);
        text.append(") out vec");
        push_decimal(&mut text, slot.format.to_channel_count() as usize);
        text.append(" ");
        text.append(slot.name.as_str());
        text.append(";\n");
        assert(outputs@.subrange(0, i + 1).drop_last() =~= outputs@.subrange(0, i as int));
        i = i + 1;
        assert(text@ =~= FRAGMENT_PREAMBLE@ + output_declarations(outputs@.subrange(0, i as int)));
    }
    assert(outputs@.subrange(0, i as int) =~= outputs@);
    let ghost after_outputs = text@;
    let inputs = &config.input_texture_slots;
    let mut j: usize = 0;
    while j < inputs.len()
        invariant
            j <= inputs@.len(),
            inputs == &config.input_texture_slots,
            text@ == after_outputs + input_declarations(inputs@.subrange(0, j as int)),
        decreases inputs@.len() - j,
    {
        text.append("uniform sampler2D ");
        text.append(inputs[j].name.as_str());
        text.append(";\n");
        assert(inputs@.subrange(0, j + 1).drop_last() =~= inputs@.subrange(0, j as int));
        j = j + 1;
        assert(text@ =~= after_outputs + input_declarations(inputs@.subrange(0, j as int)));
    }
    assert(inputs@.subrange(0, j as int) =~= inputs@);
    assert(text@ =~= FRAGMENT_PREAMBLE@ + slot_declarations(*config));
    let ghost preamble = text@;
    let preamble_length = text.unicode_len();
    let paths = &config.fragment_shader_paths;
    let mut k: usize = 0;
    while k < paths.len()
        invariant
            k <= paths@.len(),
            paths == &config.fragment_shader_paths,
            preamble_length == preamble.len(),
            first_missing_source(gamedata.shader_sources@, paths@.subrange(0, k as int)) is None,
            text@ == preamble + user_sources(gamedata.shader_sources@, paths@.subrange(0, k as int)),
        decreases paths@.len() - k,
    {
        let path = &paths[k];
        assert(paths@.subrange(0, k + 1).drop_last() =~= paths@.subrange(0, k as int));
        assert(paths@.subrange(0, k + 1).last() == paths@[k as int]);
        match gamedata.shader_source(path) {
            Some(source) => {
                text.append(source.as_str());
            },
            None => {
                proof {
                    lemma_first_missing_prefix(gamedata.shader_sources@, paths@, k + 1, k as int);
                }
                return Err(NodeError::MissingResource(path.clone()));
            },
        }
        k = k + 1;
        assert(text@ =~= preamble + user_sources(gamedata.shader_sources@, paths@.subrange(0, k as int)));
    }
    assert(paths@.subrange(0, k as int) =~= paths@);
    if text.unicode_len() == preamble_length {
        return Err(NodeError::NoShader);
    }
    Ok(text)
}

/// A missing source in a prefix stays the first missing source of the whole list.
proof fn lemma_first_missing_prefix(sources: Seq<ShaderSource>, paths: Seq<String>, k: int, i: int)
    requires
        0 <= k <= paths.len(),
        first_missing_source(sources, paths.subrange(0, k)) == Some(i),
    ensures
        first_missing_source(sources, paths) == Some(i),
    decreases paths.len() - k,
{
    if k == paths.len() {
        assert(paths.subrange(0, k) =~= paths);
    } else {
        assert(paths.subrange(0, k + 1).drop_last() =~= paths.subrange(0, k));
        lemma_first_missing_prefix(sources, paths, k + 1, i);
    }
}

} // verus!
