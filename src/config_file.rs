use vstd::prelude::*;

verus! {

// OpenGL enumerants for the sized internal formats, pixel layouts and component types.
pub const GL_BYTE: u32 = 0x1400;
pub const GL_UNSIGNED_BYTE: u32 = 0x1401;
pub const GL_SHORT: u32 = 0x1402;
pub const GL_UNSIGNED_SHORT: u32 = 0x1403;
pub const GL_INT: u32 = 0x1404;
pub const GL_UNSIGNED_INT: u32 = 0x1405;
pub const GL_FLOAT: u32 = 0x1406;
pub const GL_HALF_FLOAT: u32 = 0x140B;
pub const GL_RED: u32 = 0x1903;
pub const GL_RGB: u32 = 0x1907;
pub const GL_RGBA: u32 = 0x1908;
pub const GL_UNSIGNED_SHORT_4_4_4_4: u32 = 0x8033;
pub const GL_RGB8: u32 = 0x8051;
pub const GL_RGBA4: u32 = 0x8056;
pub const GL_RGB5_A1: u32 = 0x8057;
pub const GL_RGBA8: u32 = 0x8058;
pub const GL_RGB10_A2: u32 = 0x8059;
pub const GL_RG: u32 = 0x8227;
pub const GL_RG_INTEGER: u32 = 0x8228;
pub const GL_R8: u32 = 0x8229;
pub const GL_RG8: u32 = 0x822B;
pub const GL_R16F: u32 = 0x822D;
pub const GL_R32F: u32 = 0x822E;
pub const GL_RG16F: u32 = 0x822F;
pub const GL_RG32F: u32 = 0x8230;
pub const GL_R8I: u32 = 0x8231;
pub const GL_R8UI: u32 = 0x8232;
pub const GL_R16I: u32 = 0x8233;
pub const GL_R16UI: u32 = 0x8234;
pub const GL_R32I: u32 = 0x8235;
pub const GL_R32UI: u32 = 0x8236;
pub const GL_RG8I: u32 = 0x8237;
pub const GL_RG8UI: u32 = 0x8238;
pub const GL_RG16I: u32 = 0x8239;
pub const GL_RG16UI: u32 = 0x823A;
pub const GL_RG32I: u32 = 0x823B;
pub const GL_RG32UI: u32 = 0x823C;
pub const GL_UNSIGNED_SHORT_5_6_5: u32 = 0x8363;
pub const GL_UNSIGNED_INT_2_10_10_10_REV: u32 = 0x8368;
pub const GL_RGBA32F: u32 = 0x8814;
pub const GL_RGB32F: u32 = 0x8815;
pub const GL_RGBA16F: u32 = 0x881A;
pub const GL_RGB16F: u32 = 0x881B;
pub const GL_R11F_G11F_B10F: u32 = 0x8C3A;
pub const GL_UNSIGNED_INT_10F_11F_11F_REV: u32 = 0x8C3B;
pub const GL_RGB9_E5: u32 = 0x8C3D;
pub const GL_UNSIGNED_INT_5_9_9_9_REV: u32 = 0x8C3E;
pub const GL_SRGB8: u32 = 0x8C41;
pub const GL_SRGB8_ALPHA8: u32 = 0x8C43;
pub const GL_RGB565: u32 = 0x8D62;
pub const GL_RGBA32UI: u32 = 0x8D70;
pub const GL_RGB32UI: u32 = 0x8D71;
pub const GL_RGBA16UI: u32 = 0x8D76;
pub const GL_RGB16UI: u32 = 0x8D77;
pub const GL_RGBA8UI: u32 = 0x8D7C;
pub const GL_RGB8UI: u32 = 0x8D7D;
pub const GL_RGBA32I: u32 = 0x8D82;
pub const GL_RGB32I: u32 = 0x8D83;
pub const GL_RGBA16I: u32 = 0x8D88;
pub const GL_RGB16I: u32 = 0x8D89;
pub const GL_RGBA8I: u32 = 0x8D8E;
pub const GL_RGB8I: u32 = 0x8D8F;
pub const GL_RED_INTEGER: u32 = 0x8D94;
pub const GL_RGB_INTEGER: u32 = 0x8D98;
pub const GL_RGBA_INTEGER: u32 = 0x8D99;
pub const GL_R8_SNORM: u32 = 0x8F94;
pub const GL_RG8_SNORM: u32 = 0x8F95;
pub const GL_RGB8_SNORM: u32 = 0x8F96;
pub const GL_RGBA8_SNORM: u32 = 0x8F97;
pub const GL_RGB10_A2UI: u32 = 0x906F;

/// The project as a whole: descriptive metadata and the render graph.
pub struct ConfigFile {
    pub metadata: MetaData,
    pub graph: GraphConfig,
}

/// Informational data about the project; carried along but never interpreted.
pub struct MetaData {
    pub game_name: String,
    pub game_version: String,
    pub release_date: String,
    pub website: String,
    pub author_name: String,
    pub license: String,
}

/// The render graph. The order of `nodes` is the order of execution.
pub struct GraphConfig {
    pub nodes: Vec<Node>,
    pub links: Vec<Link>,
}

/// Connects an output slot of one node to an input slot of another (or the same) node.
pub struct Link {
    pub start_node: String,
    pub start_output_slot: String,
    pub end_node: String,
    pub end_input_slot: String,
}

/// One node of the render graph.
pub enum Node {
    RenderPass(RenderPassConfig),
    Image(TextureConfig),
    Keyboard(KeyboardConfig),
    Output(OutputConfig),
}

/// A static image read from a PNG file of the bundle.
pub struct TextureConfig {
    pub name: String,
    pub path: String,
}

/// The node that exposes the keyboard state as a texture.
pub struct KeyboardConfig {
    pub name: String,
}

/// The node that draws its single input onto the screen.
pub struct OutputConfig {
    pub name: String,
}

/// A node that runs a fragment shader over its inputs to produce its outputs.
pub struct RenderPassConfig {
    pub name: String,
    pub output_texture_slots: Vec<OutputBufferConfig>,
    pub input_texture_slots: Vec<InputBufferConfig>,
    pub resolution_scaling_mode: ResolutionScalingMode,
    pub fragment_shader_paths: Vec<String>,
    pub execution_mode: ExecutionMode,
}

/// An output slot of a render pass.
pub struct OutputBufferConfig {
    pub name: String,
    pub format: OutputBufferFormat,
    pub generate_mipmap: bool,
}

/// An input slot of a render pass.
pub struct InputBufferConfig {
    pub name: String,
}

/// A non-negative rational scale factor `numerator / denominator`.
/// A zero denominator scales everything to zero.
#[derive(Clone, Copy, Debug, PartialEq, Eq, Structural)]
pub struct ScaleFactor {
    pub numerator: u32,
    pub denominator: u32,
}

impl ScaleFactor {
    /// `floor(size * numerator / denominator)`.
    pub open spec fn scaled(self, size: int) -> int {
        if self.denominator == 0 {
            0
        } else {
            (size * self.numerator) / (self.denominator as int)
        }
    }

    /// Scales a screen dimension by this factor, rounding down.
    pub fn apply(&self, size: u32) -> (r: u64)
        ensures
            r as int == self.scaled(size as int),
    {
        if self.denominator == 0 {
            0
        } else {
            proof {
                vstd::arithmetic::mul::lemma_mul_upper_bound(size as int, u32::MAX as int, self.numerator as int, u32::MAX as int);
            }
            (size as u64) * (self.numerator as u64) / (self.denominator as u64)
        }
    }
}

/// How a render pass picks its resolution.
#[derive(Clone, Copy, Debug, PartialEq, Eq, Structural)]
pub enum ResolutionScalingMode {
    /// A fixed size in pixels that never changes.
    Fixed(u32, u32),
    /// A fraction of the screen size, re-evaluated whenever the screen is resized.
    ViewportScale(ScaleFactor, ScaleFactor),
}

/// When a render pass runs. Every pass currently runs on every frame; the other
/// two modes are reserved.
#[derive(Clone, Copy, Debug, PartialEq, Eq, Structural)]
pub enum ExecutionMode {
    Always,
    CreationOrResized,
    InputsChanged,
}

/// The pixel format of a render pass output.
#[allow(non_camel_case_types)]
#[derive(Clone, Copy, Debug, PartialEq, Eq, Structural)]
pub enum OutputBufferFormat {
    R8,
    R8_SNORM,
    R16F,
    R32F,
    R8UI,
    R8I,
    R16UI,
    R16I,
    R32UI,
    R32I,
    RG8,
    RG8_SNORM,
    RG16F,
    RG32F,
    RG8UI,
    RG8I,
    RG16UI,
    RG16I,
    RG32UI,
    RG32I,
    RGB8,
    SRGB8,
    RGB565,
    RGB8_SNORM,
    R11F_G11F_B10F,
    RGB9_E5,
    RGB16F,
    RGB32F,
    RGB8UI,
    RGB8I,
    RGB16UI,
    RGB16I,
    RGB32UI,
    RGB32I,
    RGBA8,
    SRGB8_ALPHA8,
    RGBA8_SNORM,
    RGB5_A1,
    RGBA4,
    RGB10_A2,
    RGBA16F,
    RGBA32F,
    RGBA8UI,
    RGBA8I,
    RGB10_A2UI,
    RGBA16UI,
    RGBA16I,
    RGBA32I,
    RGBA32UI,
}

impl OutputBufferFormat {
    /// The sized internal format enumerant.
    pub open spec fn sized_internal_format(self) -> u32 {
        match self {
            OutputBufferFormat::R8 => GL_R8,
            OutputBufferFormat::R8_SNORM => GL_R8_SNORM,
            OutputBufferFormat::R16F => GL_R16F,
            OutputBufferFormat::R32F => GL_R32F,
            OutputBufferFormat::R8UI => GL_R8UI,
            OutputBufferFormat::R8I => GL_R8I,
            OutputBufferFormat::R16UI => GL_R16UI,
            OutputBufferFormat::R16I => GL_R16I,
            OutputBufferFormat::R32UI => GL_R32UI,
            OutputBufferFormat::R32I => GL_R32I,
            OutputBufferFormat::RG8 => GL_RG8,
            OutputBufferFormat::RG8_SNORM => GL_RG8_SNORM,
            OutputBufferFormat::RG16F => GL_RG16F,
            OutputBufferFormat::RG32F => GL_RG32F,
            OutputBufferFormat::RG8UI => GL_RG8UI,
            OutputBufferFormat::RG8I => GL_RG8I,
            OutputBufferFormat::RG16UI => GL_RG16UI,
            OutputBufferFormat::RG16I => GL_RG16I,
            OutputBufferFormat::RG32UI => GL_RG32UI,
            OutputBufferFormat::RG32I => GL_RG32I,
            OutputBufferFormat::RGB8 => GL_RGB8,
            OutputBufferFormat::SRGB8 => GL_SRGB8,
            OutputBufferFormat::RGB565 => GL_RGB565,
            OutputBufferFormat::RGB8_SNORM => GL_RGB8_SNORM,
            OutputBufferFormat::R11F_G11F_B10F => GL_R11F_G11F_B10F,
            OutputBufferFormat::RGB9_E5 => GL_RGB9_E5,
            OutputBufferFormat::RGB16F => GL_RGB16F,
            OutputBufferFormat::RGB32F => GL_RGB32F,
            OutputBufferFormat::RGB8UI => GL_RGB8UI,
            OutputBufferFormat::RGB8I => GL_RGB8I,
            OutputBufferFormat::RGB16UI => GL_RGB16UI,
            OutputBufferFormat::RGB16I => GL_RGB16I,
            OutputBufferFormat::RGB32UI => GL_RGB32UI,
            OutputBufferFormat::RGB32I => GL_RGB32I,
            OutputBufferFormat::RGBA8 => GL_RGBA8,
            OutputBufferFormat::SRGB8_ALPHA8 => GL_SRGB8_ALPHA8,
            OutputBufferFormat::RGBA8_SNORM => GL_RGBA8_SNORM,
            OutputBufferFormat::RGB5_A1 => GL_RGB5_A1,
            OutputBufferFormat::RGBA4 => GL_RGBA4,
            OutputBufferFormat::RGB10_A2 => GL_RGB10_A2,
            OutputBufferFormat::RGBA16F => GL_RGBA16F,
            OutputBufferFormat::RGBA32F => GL_RGBA32F,
            OutputBufferFormat::RGBA8UI => GL_RGBA8UI,
            OutputBufferFormat::RGBA8I => GL_RGBA8I,
            OutputBufferFormat::RGB10_A2UI => GL_RGB10_A2UI,
            OutputBufferFormat::RGBA16UI => GL_RGBA16UI,
            OutputBufferFormat::RGBA16I => GL_RGBA16I,
            OutputBufferFormat::RGBA32I => GL_RGBA32I,
            OutputBufferFormat::RGBA32UI => GL_RGBA32UI,
        }
    }

    /// The pixel layout family of the format.
    pub open spec fn pixel_layout(self) -> u32 {
        match self {
            OutputBufferFormat::R8 => GL_RED,
            OutputBufferFormat::R8_SNORM => GL_RED,
            OutputBufferFormat::R16F => GL_RED,
            OutputBufferFormat::R32F => GL_RED,
            OutputBufferFormat::R8UI => GL_RED_INTEGER,
            OutputBufferFormat::R8I => GL_RED_INTEGER,
            OutputBufferFormat::R16UI => GL_RED_INTEGER,
            OutputBufferFormat::R16I => GL_RED_INTEGER,
            OutputBufferFormat::R32UI => GL_RED_INTEGER,
            OutputBufferFormat::R32I => GL_RED_INTEGER,
            OutputBufferFormat::RG8 => GL_RG,
            OutputBufferFormat::RG8_SNORM => GL_RG,
            OutputBufferFormat::RG16F => GL_RG,
            OutputBufferFormat::RG32F => GL_RG,
            OutputBufferFormat::RG8UI => GL_RG_INTEGER,
            OutputBufferFormat::RG8I => GL_RG_INTEGER,
            OutputBufferFormat::RG16UI => GL_RG_INTEGER,
            OutputBufferFormat::RG16I => GL_RG_INTEGER,
            OutputBufferFormat::RG32UI => GL_RG_INTEGER,
            OutputBufferFormat::RG32I => GL_RG_INTEGER,
            OutputBufferFormat::RGB8 => GL_RGB,
            OutputBufferFormat::SRGB8 => GL_RGB,
            OutputBufferFormat::RGB565 => GL_RGB,
            OutputBufferFormat::RGB8_SNORM => GL_RGB,
            OutputBufferFormat::R11F_G11F_B10F => GL_RGB,
            OutputBufferFormat::RGB9_E5 => GL_RGB,
            OutputBufferFormat::RGB16F => GL_RGB,
            OutputBufferFormat::RGB32F => GL_RGB,
            OutputBufferFormat::RGB8UI => GL_RGB_INTEGER,
            OutputBufferFormat::RGB8I => GL_RGB_INTEGER,
            OutputBufferFormat::RGB16UI => GL_RGB_INTEGER,
            OutputBufferFormat::RGB16I => GL_RGB_INTEGER,
            OutputBufferFormat::RGB32UI => GL_RGB_INTEGER,
            OutputBufferFormat::RGB32I => GL_RGB_INTEGER,
            OutputBufferFormat::RGBA8 => GL_RGBA,
            OutputBufferFormat::SRGB8_ALPHA8 => GL_RGBA,
            OutputBufferFormat::RGBA8_SNORM => GL_RGBA,
            OutputBufferFormat::RGB5_A1 => GL_RGBA,
            OutputBufferFormat::RGBA4 => GL_RGBA,
            OutputBufferFormat::RGB10_A2 => GL_RGBA,
            OutputBufferFormat::RGBA16F => GL_RGBA,
            OutputBufferFormat::RGBA32F => GL_RGBA,
            OutputBufferFormat::RGBA8UI => GL_RGBA_INTEGER,
            OutputBufferFormat::RGBA8I => GL_RGBA_INTEGER,
            OutputBufferFormat::RGB10_A2UI => GL_RGBA_INTEGER,
            OutputBufferFormat::RGBA16UI => GL_RGBA_INTEGER,
            OutputBufferFormat::RGBA16I => GL_RGBA_INTEGER,
            OutputBufferFormat::RGBA32I => GL_RGBA_INTEGER,
            OutputBufferFormat::RGBA32UI => GL_RGBA_INTEGER,
        }
    }

    /// The type of one component of a pixel.
    pub open spec fn component_type(self) -> u32 {
        match self {
            OutputBufferFormat::R8 => GL_UNSIGNED_BYTE,
            OutputBufferFormat::R8_SNORM => GL_BYTE,
            OutputBufferFormat::R16F => GL_HALF_FLOAT,
            OutputBufferFormat::R32F => GL_FLOAT,
            OutputBufferFormat::R8UI => GL_UNSIGNED_BYTE,
            OutputBufferFormat::R8I => GL_BYTE,
            OutputBufferFormat::R16UI => GL_UNSIGNED_SHORT,
            OutputBufferFormat::R16I => GL_SHORT,
            OutputBufferFormat::R32UI => GL_UNSIGNED_INT,
            OutputBufferFormat::R32I => GL_INT,
            OutputBufferFormat::RG8 => GL_UNSIGNED_BYTE,
            OutputBufferFormat::RG8_SNORM => GL_BYTE,
            OutputBufferFormat::RG16F => GL_FLOAT,
            OutputBufferFormat::RG32F => GL_FLOAT,
            OutputBufferFormat::RG8UI => GL_UNSIGNED_BYTE,
            OutputBufferFormat::RG8I => GL_BYTE,
            OutputBufferFormat::RG16UI => GL_UNSIGNED_SHORT,
            OutputBufferFormat::RG16I => GL_SHORT,
            OutputBufferFormat::RG32UI => GL_UNSIGNED_INT,
            OutputBufferFormat::RG32I => GL_INT,
            OutputBufferFormat::RGB8 => GL_UNSIGNED_BYTE,
            OutputBufferFormat::SRGB8 => GL_UNSIGNED_BYTE,
            OutputBufferFormat::RGB565 => GL_UNSIGNED_SHORT_5_6_5,
            OutputBufferFormat::RGB8_SNORM => GL_BYTE,
            OutputBufferFormat::R11F_G11F_B10F => GL_UNSIGNED_INT_10F_11F_11F_REV,
            OutputBufferFormat::RGB9_E5 => GL_UNSIGNED_INT_5_9_9_9_REV,
            OutputBufferFormat::RGB16F => GL_HALF_FLOAT,
            OutputBufferFormat::RGB32F => GL_FLOAT,
            OutputBufferFormat::RGB8UI => GL_UNSIGNED_BYTE,
            OutputBufferFormat::RGB8I => GL_BYTE,
            OutputBufferFormat::RGB16UI => GL_UNSIGNED_SHORT,
            OutputBufferFormat::RGB16I => GL_SHORT,
            OutputBufferFormat::RGB32UI => GL_UNSIGNED_INT,
            OutputBufferFormat::RGB32I => GL_INT,
            OutputBufferFormat::RGBA8 => GL_UNSIGNED_BYTE,
            OutputBufferFormat::SRGB8_ALPHA8 => GL_UNSIGNED_BYTE,
            OutputBufferFormat::RGBA8_SNORM => GL_BYTE,
            OutputBufferFormat::RGB5_A1 => GL_UNSIGNED_INT_2_10_10_10_REV,
            OutputBufferFormat::RGBA4 => GL_UNSIGNED_SHORT_4_4_4_4,
            OutputBufferFormat::RGB10_A2 => GL_UNSIGNED_INT_2_10_10_10_REV,
            OutputBufferFormat::RGBA16F => GL_HALF_FLOAT,
            OutputBufferFormat::RGBA32F => GL_FLOAT,
            OutputBufferFormat::RGBA8UI => GL_UNSIGNED_BYTE,
            OutputBufferFormat::RGBA8I => GL_BYTE,
            OutputBufferFormat::RGB10_A2UI => GL_UNSIGNED_INT_2_10_10_10_REV,
            OutputBufferFormat::RGBA16UI => GL_UNSIGNED_SHORT,
            OutputBufferFormat::RGBA16I => GL_SHORT,
            OutputBufferFormat::RGBA32I => GL_INT,
            OutputBufferFormat::RGBA32UI => GL_UNSIGNED_INT,
        }
    }

    /// The number of channels of a pixel.
    pub open spec fn channel_count(self) -> u32 {
        match self {
            OutputBufferFormat::R8 => 1,
            OutputBufferFormat::R8_SNORM => 1,
            OutputBufferFormat::R16F => 1,
            OutputBufferFormat::R32F => 1,
            OutputBufferFormat::R8UI => 1,
            OutputBufferFormat::R8I => 1,
            OutputBufferFormat::R16UI => 1,
            OutputBufferFormat::R16I => 1,
            OutputBufferFormat::R32UI => 1,
            OutputBufferFormat::R32I => 1,
            OutputBufferFormat::RG8 => 2,
            OutputBufferFormat::RG8_SNORM => 2,
            OutputBufferFormat::RG16F => 2,
            OutputBufferFormat::RG32F => 2,
            OutputBufferFormat::RG8UI => 2,
            OutputBufferFormat::RG8I => 2,
            OutputBufferFormat::RG16UI => 2,
            OutputBufferFormat::RG16I => 2,
            OutputBufferFormat::RG32UI => 2,
            OutputBufferFormat::RG32I => 2,
            OutputBufferFormat::RGB8 => 3,
            OutputBufferFormat::SRGB8 => 3,
            OutputBufferFormat::RGB565 => 3,
            OutputBufferFormat::RGB8_SNORM => 3,
            OutputBufferFormat::R11F_G11F_B10F => 3,
            OutputBufferFormat::RGB9_E5 => 3,
            OutputBufferFormat::RGB16F => 3,
            OutputBufferFormat::RGB32F => 3,
            OutputBufferFormat::RGB8UI => 3,
            OutputBufferFormat::RGB8I => 3,
            OutputBufferFormat::RGB16UI => 3,
            OutputBufferFormat::RGB16I => 3,
            OutputBufferFormat::RGB32UI => 3,
            OutputBufferFormat::RGB32I => 3,
            OutputBufferFormat::RGBA8 => 4,
            OutputBufferFormat::SRGB8_ALPHA8 => 4,
            OutputBufferFormat::RGBA8_SNORM => 4,
            OutputBufferFormat::RGB5_A1 => 4,
            OutputBufferFormat::RGBA4 => 4,
            OutputBufferFormat::RGB10_A2 => 4,
            OutputBufferFormat::RGBA16F => 4,
            OutputBufferFormat::RGBA32F => 4,
            OutputBufferFormat::RGBA8UI => 4,
            OutputBufferFormat::RGBA8I => 4,
            OutputBufferFormat::RGB10_A2UI => 4,
            OutputBufferFormat::RGBA16UI => 4,
            OutputBufferFormat::RGBA16I => 4,
            OutputBufferFormat::RGBA32I => 4,
            OutputBufferFormat::RGBA32UI => 4,
        }
    }

    /// Returns the sized internal format used to allocate a texture of this format.
    pub fn to_sized_internal_format(&self) -> (r: u32)
        ensures
            r == self.sized_internal_format(),
    {
        match self {
            OutputBufferFormat::R8 => GL_R8,
            OutputBufferFormat::R8_SNORM => GL_R8_SNORM,
            OutputBufferFormat::R16F => GL_R16F,
            OutputBufferFormat::R32F => GL_R32F,
            OutputBufferFormat::R8UI => GL_R8UI,
            OutputBufferFormat::R8I => GL_R8I,
            OutputBufferFormat::R16UI => GL_R16UI,
            OutputBufferFormat::R16I => GL_R16I,
            OutputBufferFormat::R32UI => GL_R32UI,
            OutputBufferFormat::R32I => GL_R32I,
            OutputBufferFormat::RG8 => GL_RG8,
            OutputBufferFormat::RG8_SNORM => GL_RG8_SNORM,
            OutputBufferFormat::RG16F => GL_RG16F,
            OutputBufferFormat::RG32F => GL_RG32F,
            OutputBufferFormat::RG8UI => GL_RG8UI,
            OutputBufferFormat::RG8I => GL_RG8I,
            OutputBufferFormat::RG16UI => GL_RG16UI,
            OutputBufferFormat::RG16I => GL_RG16I,
            OutputBufferFormat::RG32UI => GL_RG32UI,
            OutputBufferFormat::RG32I => GL_RG32I,
            OutputBufferFormat::RGB8 => GL_RGB8,
            OutputBufferFormat::SRGB8 => GL_SRGB8,
            OutputBufferFormat::RGB565 => GL_RGB565,
            OutputBufferFormat::RGB8_SNORM => GL_RGB8_SNORM,
            OutputBufferFormat::R11F_G11F_B10F => GL_R11F_G11F_B10F,
            OutputBufferFormat::RGB9_E5 => GL_RGB9_E5,
            OutputBufferFormat::RGB16F => GL_RGB16F,
            OutputBufferFormat::RGB32F => GL_RGB32F,
            OutputBufferFormat::RGB8UI => GL_RGB8UI,
            OutputBufferFormat::RGB8I => GL_RGB8I,
            OutputBufferFormat::RGB16UI => GL_RGB16UI,
            OutputBufferFormat::RGB16I => GL_RGB16I,
            OutputBufferFormat::RGB32UI => GL_RGB32UI,
            OutputBufferFormat::RGB32I => GL_RGB32I,
            OutputBufferFormat::RGBA8 => GL_RGBA8,
            OutputBufferFormat::SRGB8_ALPHA8 => GL_SRGB8_ALPHA8,
            OutputBufferFormat::RGBA8_SNORM => GL_RGBA8_SNORM,
            OutputBufferFormat::RGB5_A1 => GL_RGB5_A1,
            OutputBufferFormat::RGBA4 => GL_RGBA4,
            OutputBufferFormat::RGB10_A2 => GL_RGB10_A2,
            OutputBufferFormat::RGBA16F => GL_RGBA16F,
            OutputBufferFormat::RGBA32F => GL_RGBA32F,
            OutputBufferFormat::RGBA8UI => GL_RGBA8UI,
            OutputBufferFormat::RGBA8I => GL_RGBA8I,
            OutputBufferFormat::RGB10_A2UI => GL_RGB10_A2UI,
            OutputBufferFormat::RGBA16UI => GL_RGBA16UI,
            OutputBufferFormat::RGBA16I => GL_RGBA16I,
            OutputBufferFormat::RGBA32I => GL_RGBA32I,
            OutputBufferFormat::RGBA32UI => GL_RGBA32UI,
        }
    }

    /// Returns the pixel layout family (`RED`, `RG_INTEGER`, ...) of this format.
    pub fn to_format(&self) -> (r: u32)
        ensures
            r == self.pixel_layout(),
    {
        match self {
            OutputBufferFormat::R8 => GL_RED,
            OutputBufferFormat::R8_SNORM => GL_RED,
            OutputBufferFormat::R16F => GL_RED,
            OutputBufferFormat::R32F => GL_RED,
            OutputBufferFormat::R8UI => GL_RED_INTEGER,
            OutputBufferFormat::R8I => GL_RED_INTEGER,
            OutputBufferFormat::R16UI => GL_RED_INTEGER,
            OutputBufferFormat::R16I => GL_RED_INTEGER,
            OutputBufferFormat::R32UI => GL_RED_INTEGER,
            OutputBufferFormat::R32I => GL_RED_INTEGER,
            OutputBufferFormat::RG8 => GL_RG,
            OutputBufferFormat::RG8_SNORM => GL_RG,
            OutputBufferFormat::RG16F => GL_RG,
            OutputBufferFormat::RG32F => GL_RG,
            OutputBufferFormat::RG8UI => GL_RG_INTEGER,
            OutputBufferFormat::RG8I => GL_RG_INTEGER,
            OutputBufferFormat::RG16UI => GL_RG_INTEGER,
            OutputBufferFormat::RG16I => GL_RG_INTEGER,
            OutputBufferFormat::RG32UI => GL_RG_INTEGER,
            OutputBufferFormat::RG32I => GL_RG_INTEGER,
            OutputBufferFormat::RGB8 => GL_RGB,
            OutputBufferFormat::SRGB8 => GL_RGB,
            OutputBufferFormat::RGB565 => GL_RGB,
            OutputBufferFormat::RGB8_SNORM => GL_RGB,
            OutputBufferFormat::R11F_G11F_B10F => GL_RGB,
            OutputBufferFormat::RGB9_E5 => GL_RGB,
            OutputBufferFormat::RGB16F => GL_RGB,
            OutputBufferFormat::RGB32F => GL_RGB,
            OutputBufferFormat::RGB8UI => GL_RGB_INTEGER,
            OutputBufferFormat::RGB8I => GL_RGB_INTEGER,
            OutputBufferFormat::RGB16UI => GL_RGB_INTEGER,
            OutputBufferFormat::RGB16I => GL_RGB_INTEGER,
            OutputBufferFormat::RGB32UI => GL_RGB_INTEGER,
            OutputBufferFormat::RGB32I => GL_RGB_INTEGER,
            OutputBufferFormat::RGBA8 => GL_RGBA,
            OutputBufferFormat::SRGB8_ALPHA8 => GL_RGBA,
            OutputBufferFormat::RGBA8_SNORM => GL_RGBA,
            OutputBufferFormat::RGB5_A1 => GL_RGBA,
            OutputBufferFormat::RGBA4 => GL_RGBA,
            OutputBufferFormat::RGB10_A2 => GL_RGBA,
            OutputBufferFormat::RGBA16F => GL_RGBA,
            OutputBufferFormat::RGBA32F => GL_RGBA,
            OutputBufferFormat::RGBA8UI => GL_RGBA_INTEGER,
            OutputBufferFormat::RGBA8I => GL_RGBA_INTEGER,
            OutputBufferFormat::RGB10_A2UI => GL_RGBA_INTEGER,
            OutputBufferFormat::RGBA16UI => GL_RGBA_INTEGER,
            OutputBufferFormat::RGBA16I => GL_RGBA_INTEGER,
            OutputBufferFormat::RGBA32I => GL_RGBA_INTEGER,
            OutputBufferFormat::RGBA32UI => GL_RGBA_INTEGER,
        }
    }

    /// Returns the component type (`UNSIGNED_BYTE`, `HALF_FLOAT`, ...) of this format.
    pub fn to_type(&self) -> (r: u32)
        ensures
            r == self.component_type(),
    {
        match self {
            OutputBufferFormat::R8 => GL_UNSIGNED_BYTE,
            OutputBufferFormat::R8_SNORM => GL_BYTE,
            OutputBufferFormat::R16F => GL_HALF_FLOAT,
            OutputBufferFormat::R32F => GL_FLOAT,
            OutputBufferFormat::R8UI => GL_UNSIGNED_BYTE,
            OutputBufferFormat::R8I => GL_BYTE,
            OutputBufferFormat::R16UI => GL_UNSIGNED_SHORT,
            OutputBufferFormat::R16I => GL_SHORT,
            OutputBufferFormat::R32UI => GL_UNSIGNED_INT,
            OutputBufferFormat::R32I => GL_INT,
            OutputBufferFormat::RG8 => GL_UNSIGNED_BYTE,
            OutputBufferFormat::RG8_SNORM => GL_BYTE,
            OutputBufferFormat::RG16F => GL_FLOAT,
            OutputBufferFormat::RG32F => GL_FLOAT,
            OutputBufferFormat::RG8UI => GL_UNSIGNED_BYTE,
            OutputBufferFormat::RG8I => GL_BYTE,
            OutputBufferFormat::RG16UI => GL_UNSIGNED_SHORT,
            OutputBufferFormat::RG16I => GL_SHORT,
            OutputBufferFormat::RG32UI => GL_UNSIGNED_INT,
            OutputBufferFormat::RG32I => GL_INT,
            OutputBufferFormat::RGB8 => GL_UNSIGNED_BYTE,
            OutputBufferFormat::SRGB8 => GL_UNSIGNED_BYTE,
            OutputBufferFormat::RGB565 => GL_UNSIGNED_SHORT_5_6_5,
            OutputBufferFormat::RGB8_SNORM => GL_BYTE,
            OutputBufferFormat::R11F_G11F_B10F => GL_UNSIGNED_INT_10F_11F_11F_REV,
            OutputBufferFormat::RGB9_E5 => GL_UNSIGNED_INT_5_9_9_9_REV,
            OutputBufferFormat::RGB16F => GL_HALF_FLOAT,
            OutputBufferFormat::RGB32F => GL_FLOAT,
            OutputBufferFormat::RGB8UI => GL_UNSIGNED_BYTE,
            OutputBufferFormat::RGB8I => GL_BYTE,
            OutputBufferFormat::RGB16UI => GL_UNSIGNED_SHORT,
            OutputBufferFormat::RGB16I => GL_SHORT,
            OutputBufferFormat::RGB32UI => GL_UNSIGNED_INT,
            OutputBufferFormat::RGB32I => GL_INT,
            OutputBufferFormat::RGBA8 => GL_UNSIGNED_BYTE,
            OutputBufferFormat::SRGB8_ALPHA8 => GL_UNSIGNED_BYTE,
            OutputBufferFormat::RGBA8_SNORM => GL_BYTE,
            OutputBufferFormat::RGB5_A1 => GL_UNSIGNED_INT_2_10_10_10_REV,
            OutputBufferFormat::RGBA4 => GL_UNSIGNED_SHORT_4_4_4_4,
            OutputBufferFormat::RGB10_A2 => GL_UNSIGNED_INT_2_10_10_10_REV,
            OutputBufferFormat::RGBA16F => GL_HALF_FLOAT,
            OutputBufferFormat::RGBA32F => GL_FLOAT,
            OutputBufferFormat::RGBA8UI => GL_UNSIGNED_BYTE,
            OutputBufferFormat::RGBA8I => GL_BYTE,
            OutputBufferFormat::RGB10_A2UI => GL_UNSIGNED_INT_2_10_10_10_REV,
            OutputBufferFormat::RGBA16UI => GL_UNSIGNED_SHORT,
            OutputBufferFormat::RGBA16I => GL_SHORT,
            OutputBufferFormat::RGBA32I => GL_INT,
            OutputBufferFormat::RGBA32UI => GL_UNSIGNED_INT,
        }
    }

    /// Returns how many channels a pixel of this format has.
    pub fn to_channel_count(&self) -> (r: u32)
        ensures
            r == self.channel_count(),
    {
        match self {
            OutputBufferFormat::R8 => 1,
            OutputBufferFormat::R8_SNORM => 1,
            OutputBufferFormat::R16F => 1,
            OutputBufferFormat::R32F => 1,
            OutputBufferFormat::R8UI => 1,
            OutputBufferFormat::R8I => 1,
            OutputBufferFormat::R16UI => 1,
            OutputBufferFormat::R16I => 1,
            OutputBufferFormat::R32UI => 1,
            OutputBufferFormat::R32I => 1,
            OutputBufferFormat::RG8 => 2,
            OutputBufferFormat::RG8_SNORM => 2,
            OutputBufferFormat::RG16F => 2,
            OutputBufferFormat::RG32F => 2,
            OutputBufferFormat::RG8UI => 2,
            OutputBufferFormat::RG8I => 2,
            OutputBufferFormat::RG16UI => 2,
            OutputBufferFormat::RG16I => 2,
            OutputBufferFormat::RG32UI => 2,
            OutputBufferFormat::RG32I => 2,
            OutputBufferFormat::RGB8 => 3,
            OutputBufferFormat::SRGB8 => 3,
            OutputBufferFormat::RGB565 => 3,
            OutputBufferFormat::RGB8_SNORM => 3,
            OutputBufferFormat::R11F_G11F_B10F => 3,
            OutputBufferFormat::RGB9_E5 => 3,
            OutputBufferFormat::RGB16F => 3,
            OutputBufferFormat::RGB32F => 3,
            OutputBufferFormat::RGB8UI => 3,
            OutputBufferFormat::RGB8I => 3,
            OutputBufferFormat::RGB16UI => 3,
            OutputBufferFormat::RGB16I => 3,
            OutputBufferFormat::RGB32UI => 3,
            OutputBufferFormat::RGB32I => 3,
            OutputBufferFormat::RGBA8 => 4,
            OutputBufferFormat::SRGB8_ALPHA8 => 4,
            OutputBufferFormat::RGBA8_SNORM => 4,
            OutputBufferFormat::RGB5_A1 => 4,
            OutputBufferFormat::RGBA4 => 4,
            OutputBufferFormat::RGB10_A2 => 4,
            OutputBufferFormat::RGBA16F => 4,
            OutputBufferFormat::RGBA32F => 4,
            OutputBufferFormat::RGBA8UI => 4,
            OutputBufferFormat::RGBA8I => 4,
            OutputBufferFormat::RGB10_A2UI => 4,
            OutputBufferFormat::RGBA16UI => 4,
            OutputBufferFormat::RGBA16I => 4,
            OutputBufferFormat::RGBA32I => 4,
            OutputBufferFormat::RGBA32UI => 4,
        }
    }

}

} // verus!
