use crate::command::TextureId;
use crate::image::{node_texture, Image};
use crate::keyboard::Keyboard;
use crate::output::Output;
use crate::renderpass::{name_index, RenderPass};
use crate::shader::ShaderError;
use vstd::prelude::*;
use vstd::string::*;

verus! {

/// Why a node could not be built or wired.
#[derive(Debug)]
pub enum NodeError {
    /// The node has no input slot of this name.
    NoSuchInputTexture(String),
    /// The node has no output slot of this name.
    NoSuchOutputTexture(String),
    /// The device could not allocate a framebuffer.
    CreateFramebufferFailed(String),
    /// The device could not allocate a texture.
    CreateTextureFailed(String),
    /// The bundle holds no file of this path.
    MissingResource(String),
    /// Two input slots of a render pass share this name.
    DuplicateInputSlotName(String),
    /// Two output slots of a render pass share this name.
    DuplicateOutputSlotName(String),
    /// The render pass's sources add no code.
    NoShader,
    /// The device could not build the shader program.
    ShaderError(ShaderError),
    /// The image at this path is not a PNG that can be decoded.
    ImageDecodeFailed(String),
    /// The image's PNG color type and bit depth have no texture format.
    UnsupportedImageFormat { color_type: u8, bit_depth: u8 },
}

/// A node of the running graph.
pub enum NodeKernel {
    RenderPass(RenderPass),
    Image(Image),
    Keyboard(Keyboard),
    Output(Output),
}

/// The name of a running node.
pub open spec fn kernel_name(k: NodeKernel) -> Seq<char> {
    match k {
        NodeKernel::RenderPass(p) => p.name@,
        NodeKernel::Image(n) => n.name@,
        NodeKernel::Keyboard(n) => n.name@,
        NodeKernel::Output(n) => n.name@,
    }
}

/// The texture a reader of output slot `slot` of a node sees, if the node has that slot.
pub open spec fn kernel_output_texture(k: NodeKernel, slot: Seq<char>) -> Option<TextureId> {
    match k {
        NodeKernel::RenderPass(p) => p.output_texture(slot),
        NodeKernel::Image(n) => if slot == Image::OUTPUT_BUFFER_NAME@ {
            Some(node_texture(n.node))
        } else {
            None
        },
        NodeKernel::Keyboard(n) => if slot == Keyboard::OUTPUT_BUFFER_NAME@ {
            Some(node_texture(n.node))
        } else {
            None
        },
        NodeKernel::Output(_) => None,
    }
}

/// The index of input slot `slot` of a node, if it has that slot.
pub open spec fn kernel_input_index(k: NodeKernel, slot: Seq<char>) -> Option<int> {
    match k {
        NodeKernel::RenderPass(p) => name_index(p.input_names@.map_values(|s: String| s@), slot),
        NodeKernel::Output(_) => if slot == Output::INPUT_BUFFER_NAME@ {
            Some(0)
        } else {
            None
        },
        _ => None,
    }
}

/// How many input slots a node has.
pub open spec fn kernel_input_count(k: NodeKernel) -> nat {
    match k {
        NodeKernel::RenderPass(p) => p.input_names@.len(),
        NodeKernel::Output(_) => 1,
        _ => 0,
    }
}

/// Returns whether a string holds the text `t`.
pub fn text_is(s: &String, t: &str) -> (r: bool)
    ensures
        r == (s@ == t@),
{
    *s == String::from_str(t)
}

proof fn lemma_input_index_bounds(k: NodeKernel, slot: Seq<char>)
    ensures
        kernel_input_index(k, slot) matches Some(i) ==> 0 <= i < kernel_input_count(k),
{
    match k {
        NodeKernel::RenderPass(p) => {
            crate::renderpass::lemma_name_index_bounds(p.input_names@.map_values(|s: String| s@), slot);
        },
        _ => {},
    }
}

impl NodeKernel {
    /// Returns the node's name.
    pub fn get_name(&self) -> (r: &String)
        ensures
            r@ == kernel_name(*self),
            *r == crate::runtime::kernel_name_string(*self),
    {
        match self {
            NodeKernel::RenderPass(p) => &p.name,
            NodeKernel::Image(n) => &n.name,
            NodeKernel::Keyboard(n) => &n.name,
            NodeKernel::Output(n) => &n.name,
        }
    }

    /// Returns the texture a reader of output slot `name` sees.
    pub fn get_output_texture(&self, name: &String) -> (r: Result<TextureId, NodeError>)
        ensures
            r matches Ok(t) ==> kernel_output_texture(*self, name@) == Some(t),
            r matches Err(e) ==> kernel_output_texture(*self, name@) is None && (e matches NodeError::NoSuchOutputTexture(n) && n@ == name@),
    {
        match self {
            NodeKernel::RenderPass(p) => p.get_output_texture(name),
            NodeKernel::Image(n) => if text_is(name, Image::OUTPUT_BUFFER_NAME) {
                Ok(TextureId { node: n.node, back: false, slot: 0 })
            } else {
                Err(NodeError::NoSuchOutputTexture(name.clone()))
            },
            NodeKernel::Keyboard(n) => if text_is(name, Keyboard::OUTPUT_BUFFER_NAME) {
                Ok(TextureId { node: n.node, back: false, slot: 0 })
            } else {
                Err(NodeError::NoSuchOutputTexture(name.clone()))
            },
            NodeKernel::Output(_) => Err(NodeError::NoSuchOutputTexture(name.clone())),
        }
    }

    /// Returns the index of input slot `name`.
    pub fn get_input_index(&self, name: &String) -> (r: Result<usize, NodeError>)
        ensures
            r matches Ok(i) ==> kernel_input_index(*self, name@) == Some(i as int) && i < kernel_input_count(*self),
            r matches Err(e) ==> kernel_input_index(*self, name@) is None && (e matches NodeError::NoSuchInputTexture(n) && n@ == name@),
    {
        proof {
            lemma_input_index_bounds(*self, name@);
        }
        match self {
            NodeKernel::RenderPass(p) => {
                match crate::renderpass::find_name(&p.input_names, name) {
                    Some(i) => Ok(i),
                    None => Err(NodeError::NoSuchInputTexture(name.clone())),
                }
            },
            NodeKernel::Output(_) => if text_is(name, Output::INPUT_BUFFER_NAME) {
                Ok(0)
            } else {
                Err(NodeError::NoSuchInputTexture(name.clone()))
            },
            _ => Err(NodeError::NoSuchInputTexture(name.clone())),
        }
    }

    /// Returns how many input slots the node has.
    pub fn input_count(&self) -> (r: usize)
        ensures
            r == kernel_input_count(*self),
    {
        match self {
            NodeKernel::RenderPass(p) => p.input_names.len(),
            NodeKernel::Output(_) => 1,
            _ => 0,
        }
    }
}

} // verus!
