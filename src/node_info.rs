use crate::config_file::{ExecutionMode, Node, OutputBufferFormat};
use vstd::prelude::*;
use vstd::string::*;

verus! {

/// The name of the single input slot of an output node.
pub const OUTPUT_INPUT_SLOT: &'static str = "col";

/// The name of the single output slot of image and keyboard nodes.
pub const TEXTURE_OUTPUT_SLOT: &'static str = "tex";

/// The name of a node.
pub open spec fn node_name(node: Node) -> Seq<char> {
    match node {
        Node::RenderPass(c) => c.name@,
        Node::Image(c) => c.name@,
        Node::Keyboard(c) => c.name@,
        Node::Output(c) => c.name@,
    }
}

/// The names of a node's input slots, in declared order.
pub open spec fn input_slot_names(node: Node) -> Seq<Seq<char>> {
    match node {
        Node::RenderPass(c) => c.input_texture_slots@.map_values(|s: crate::config_file::InputBufferConfig| s.name@),
        Node::Image(_) => seq![],
        Node::Keyboard(_) => seq![],
        Node::Output(_) => seq![OUTPUT_INPUT_SLOT@],
    }
}

/// The names of a node's output slots, in declared order.
pub open spec fn output_slot_names(node: Node) -> Seq<Seq<char>> {
    match node {
        Node::RenderPass(c) => c.output_texture_slots@.map_values(|s: crate::config_file::OutputBufferConfig| s.name@),
        Node::Image(_) => seq![TEXTURE_OUTPUT_SLOT@],
        Node::Keyboard(_) => seq![TEXTURE_OUTPUT_SLOT@],
        Node::Output(_) => seq![],
    }
}

/// The views of a sequence of strings.
pub open spec fn string_views(v: Seq<String>) -> Seq<Seq<char>> {
    v.map_values(|s: String| s@)
}

/// Returns the name of a node.
pub fn get_node_name(node_data: &Node) -> (r: &str)
    ensures
        r@ == node_name(*node_data),
{
    match node_data {
        Node::RenderPass(c) => c.name.as_str(),
        Node::Image(c) => c.name.as_str(),
        Node::Keyboard(c) => c.name.as_str(),
        Node::Output(c) => c.name.as_str(),
    }
}

/// The name of a node's kind.
pub open spec fn node_type_name(node: Node) -> Seq<char> {
    match node {
        Node::RenderPass(_) => "RenderPass"@,
        Node::Image(_) => "Image"@,
        Node::Keyboard(_) => "Keyboard"@,
        Node::Output(_) => "Output"@,
    }
}

/// Returns the name of a node's kind.
pub fn get_node_type_name(node_data: &Node) -> (r: &'static str)
    ensures
        r@ == node_type_name(*node_data),
{
    match node_data {
        Node::RenderPass(_) => "RenderPass",
        Node::Image(_) => "Image",
        Node::Keyboard(_) => "Keyboard",
        Node::Output(_) => "Output",
    }
}

/// Returns the names of a node's input slots, in declared order.
pub fn get_input_slots(node: &Node) -> (r: Vec<String>)
    ensures
        string_views(r@) == input_slot_names(*node),
{
    match node {
        Node::RenderPass(c) => {
            let mut names: Vec<String> = Vec::new();
            let mut i: usize = 0;
            while i < c.input_texture_slots.len()
                invariant
                    i <= c.input_texture_slots@.len(),
                    names@.len() == i,
                    forall|j: int| 0 <= j < i ==> #[trigger] names@[j]@ == c.input_texture_slots@[j].name@,
                decreases c.input_texture_slots@.len() - i,
            {
                names.push(c.input_texture_slots[i].name.clone());
                i = i + 1;
            }
            assert(string_views(names@) =~= input_slot_names(*node));
            names
        },
        Node::Image(_) => Vec::new(),
        Node::Keyboard(_) => Vec::new(),
        Node::Output(_) => {
            let mut names: Vec<String> = Vec::new();
            names.push(String::from_str(OUTPUT_INPUT_SLOT));
            assert(string_views(names@) =~= seq![OUTPUT_INPUT_SLOT@]);
            names
        },
    }
}

/// Returns the names of a node's output slots, in declared order.
pub fn get_output_slots(node: &Node) -> (r: Vec<String>)
    ensures
        string_views(r@) == output_slot_names(*node),
{
    match node {
        Node::RenderPass(c) => {
            let mut names: Vec<String> = Vec::new();
            let mut i: usize = 0;
            while i < c.output_texture_slots.len()
                invariant
                    i <= c.output_texture_slots@.len(),
                    names@.len() == i,
                    forall|j: int| 0 <= j < i ==> #[trigger] names@[j]@ == c.output_texture_slots@[j].name@,
                decreases c.output_texture_slots@.len() - i,
            {
                names.push(c.output_texture_slots[i].name.clone());
                i = i + 1;
            }
            assert(string_views(names@) =~= output_slot_names(*node));
            names
        },
        Node::Image(_) | Node::Keyboard(_) => {
            let mut names: Vec<String> = Vec::new();
            names.push(String::from_str(TEXTURE_OUTPUT_SLOT));
            assert(string_views(names@) =~= seq![TEXTURE_OUTPUT_SLOT@]);
            names
        },
        Node::Output(_) => Vec::new(),
    }
}

/// The name under which an execution mode is shown.
pub open spec fn execution_mode_label(mode: ExecutionMode) -> Seq<char> {
    match mode {
        ExecutionMode::Always => "Always"@,
        ExecutionMode::CreationOrResized => "Creation Or Resized"@,
        ExecutionMode::InputsChanged => "Inputs Changed"@,
    }
}

/// Returns the name under which an execution mode is shown.
pub fn execution_mode_to_str(this_mode: &ExecutionMode) -> (r: &'static str)
    ensures
        r@ == execution_mode_label(*this_mode),
{
    match this_mode {
        ExecutionMode::Always => "Always",
        ExecutionMode::CreationOrResized => "Creation Or Resized",
        ExecutionMode::InputsChanged => "Inputs Changed",
    }
}

/// The name under which a pixel format is shown.
pub open spec fn format_label(f: OutputBufferFormat) -> Seq<char> {
    match f {
        OutputBufferFormat::R8 => "R8"@,
        OutputBufferFormat::R8_SNORM => "R8_SNORM"@,
        OutputBufferFormat::R16F => "R16F"@,
        OutputBufferFormat::R32F => "R32F"@,
        OutputBufferFormat::R8UI => "R8UI"@,
        OutputBufferFormat::R8I => "R8I"@,
        OutputBufferFormat::R16UI => "R16UI"@,
        OutputBufferFormat::R16I => "R16I"@,
        OutputBufferFormat::R32UI => "R32UI"@,
        OutputBufferFormat::R32I => "R32I"@,
        OutputBufferFormat::RG8 => "RG8"@,
        OutputBufferFormat::RG8_SNORM => "RG8_SNORM"@,
        OutputBufferFormat::RG16F => "RG16F"@,
        OutputBufferFormat::RG32F => "RG32F"@,
        OutputBufferFormat::RG8UI => "RG8UI"@,
        OutputBufferFormat::RG8I => "RG8I"@,
        OutputBufferFormat::RG16UI => "RG16UI"@,
        OutputBufferFormat::RG16I => "RG16I"@,
        OutputBufferFormat::RG32UI => "RG32UI"@,
        OutputBufferFormat::RG32I => "RG32I"@,
        OutputBufferFormat::RGB8 => "RGB8"@,
        OutputBufferFormat::SRGB8 => "SRGB8"@,
        OutputBufferFormat::RGB565 => "RGB565"@,
        OutputBufferFormat::RGB8_SNORM => "RGB8_SNORM"@,
        OutputBufferFormat::R11F_G11F_B10F => "R11F_G11F_B10F"@,
        OutputBufferFormat::RGB9_E5 => "RGB9_E5"@,
        OutputBufferFormat::RGB16F => "RGB16F"@,
        OutputBufferFormat::RGB32F => "RGB32F"@,
        OutputBufferFormat::RGB8UI => "RGB8UI"@,
        OutputBufferFormat::RGB8I => "RGB8I"@,
        OutputBufferFormat::RGB16UI => "RGB16UI"@,
        OutputBufferFormat::RGB16I => "RGB16I"@,
        OutputBufferFormat::RGB32UI => "RGB32UI"@,
        OutputBufferFormat::RGB32I => "RGB32I"@,
        OutputBufferFormat::RGBA8 => "RGBA8"@,
        OutputBufferFormat::SRGB8_ALPHA8 => "SRGB8_ALPHA8"@,
        OutputBufferFormat::RGBA8_SNORM => "RGBA8_SNORM"@,
        OutputBufferFormat::RGB5_A1 => "RGB5_A1"@,
        OutputBufferFormat::RGBA4 => "RGBA4"@,
        OutputBufferFormat::RGB10_A2 => "RGB10_A2"@,
        OutputBufferFormat::RGBA16F => "RGBA16F"@,
        OutputBufferFormat::RGBA32F => "RGBA32F"@,
        OutputBufferFormat::RGBA8UI => "RGBA8UI"@,
        OutputBufferFormat::RGBA8I => "RGBA8I"@,
        OutputBufferFormat::RGB10_A2UI => "RGB10_A2UI"@,
        OutputBufferFormat::RGBA16UI => "RGBA16UI"@,
        OutputBufferFormat::RGBA16I => "RGBA16I"@,
        OutputBufferFormat::RGBA32I => "RGBA32I"@,
        OutputBufferFormat::RGBA32UI => "RGBA32UI"@,
    }
}

/// Returns the name under which a pixel format is shown.
pub fn pixel_format_to_str(this_format: &OutputBufferFormat) -> (r: &'static str)
    ensures
        r@ == format_label(*this_format),
{
    match this_format {
        OutputBufferFormat::R8 => "R8",
        OutputBufferFormat::R8_SNORM => "R8_SNORM",
        OutputBufferFormat::R16F => "R16F",
        OutputBufferFormat::R32F => "R32F",
        OutputBufferFormat::R8UI => "R8UI",
        OutputBufferFormat::R8I => "R8I",
        OutputBufferFormat::R16UI => "R16UI",
        OutputBufferFormat::R16I => "R16I",
        OutputBufferFormat::R32UI => "R32UI",
        OutputBufferFormat::R32I => "R32I",
        OutputBufferFormat::RG8 => "RG8",
        OutputBufferFormat::RG8_SNORM => "RG8_SNORM",
        OutputBufferFormat::RG16F => "RG16F",
        OutputBufferFormat::RG32F => "RG32F",
        OutputBufferFormat::RG8UI => "RG8UI",
        OutputBufferFormat::RG8I => "RG8I",
        OutputBufferFormat::RG16UI => "RG16UI",
        OutputBufferFormat::RG16I => "RG16I",
        OutputBufferFormat::RG32UI => "RG32UI",
        OutputBufferFormat::RG32I => "RG32I",
        OutputBufferFormat::RGB8 => "RGB8",
        OutputBufferFormat::SRGB8 => "SRGB8",
        OutputBufferFormat::RGB565 => "RGB565",
        OutputBufferFormat::RGB8_SNORM => "RGB8_SNORM",
        OutputBufferFormat::R11F_G11F_B10F => "R11F_G11F_B10F",
        OutputBufferFormat::RGB9_E5 => "RGB9_E5",
        OutputBufferFormat::RGB16F => "RGB16F",
        OutputBufferFormat::RGB32F => "RGB32F",
        OutputBufferFormat::RGB8UI => "RGB8UI",
        OutputBufferFormat::RGB8I => "RGB8I",
        OutputBufferFormat::RGB16UI => "RGB16UI",
        OutputBufferFormat::RGB16I => "RGB16I",
        OutputBufferFormat::RGB32UI => "RGB32UI",
        OutputBufferFormat::RGB32I => "RGB32I",
        OutputBufferFormat::RGBA8 => "RGBA8",
        OutputBufferFormat::SRGB8_ALPHA8 => "SRGB8_ALPHA8",
        OutputBufferFormat::RGBA8_SNORM => "RGBA8_SNORM",
        OutputBufferFormat::RGB5_A1 => "RGB5_A1",
        OutputBufferFormat::RGBA4 => "RGBA4",
        OutputBufferFormat::RGB10_A2 => "RGB10_A2",
        OutputBufferFormat::RGBA16F => "RGBA16F",
        OutputBufferFormat::RGBA32F => "RGBA32F",
        OutputBufferFormat::RGBA8UI => "RGBA8UI",
        OutputBufferFormat::RGBA8I => "RGBA8I",
        OutputBufferFormat::RGB10_A2UI => "RGB10_A2UI",
        OutputBufferFormat::RGBA16UI => "RGBA16UI",
        OutputBufferFormat::RGBA16I => "RGBA16I",
        OutputBufferFormat::RGBA32I => "RGBA32I",
        OutputBufferFormat::RGBA32UI => "RGBA32UI",
    }
}

} // verus!
