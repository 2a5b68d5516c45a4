use vstd::prelude::*;

verus! {

/// A texture on the device: output `slot` of node `node`, in its back set if `back`.
/// Image and keyboard nodes own the texture of slot 0 of their front set.
#[derive(Clone, Copy, Debug, PartialEq, Eq, Hash, Structural)]
pub struct TextureId {
    pub node: usize,
    pub back: bool,
    pub slot: usize,
}

/// A framebuffer on the device: the front or back framebuffer of a render pass.
#[derive(Clone, Copy, Debug, PartialEq, Eq, Hash, Structural)]
pub struct FramebufferId {
    pub node: usize,
    pub back: bool,
}

/// A linked shader program on the device, owned by node `node`.
#[derive(Clone, Copy, Debug, PartialEq, Eq, Hash, Structural)]
pub struct ProgramId {
    pub node: usize,
}

/// A texture sampling filter.
#[derive(Clone, Copy, Debug, PartialEq, Eq, Structural)]
pub enum TextureFilter {
    Nearest,
    Linear,
    LinearMipmapLinear,
}

/// How texture coordinates outside [0, 1] are treated.
#[derive(Clone, Copy, Debug, PartialEq, Eq, Structural)]
pub enum TextureWrap {
    Repeat,
    ClampToEdge,
}

/// One call on the graphics device. Sizes are in pixels, times in microseconds.
#[allow(inconsistent_fields)]
#[derive(Debug)]
pub enum GlCommand {
    /// Creates the vertex buffer of the full-screen quad.
    CreateQuad,
    /// Creates a texture with the given sampling state and no storage.
    CreateTexture { texture: TextureId, min_filter: TextureFilter, mag_filter: TextureFilter, wrap: TextureWrap },
    /// Allocates immutable storage of `levels` mip levels.
    TexStorage { texture: TextureId, levels: u32, internal_format: u32, width: u64, height: u64 },
    /// Allocates resizable storage for mip level 0, with no data.
    TexImage { texture: TextureId, internal_format: u32, width: u64, height: u64, format: u32, data_type: u32 },
    /// Uploads pixels into mip level 0.
    TexSubImage { texture: TextureId, width: u64, height: u64, format: u32, data_type: u32, pixels: Vec<u8> },
    /// Regenerates the mip chain of a texture.
    GenerateMipmap { texture: TextureId },
    /// Creates a framebuffer.
    CreateFramebuffer { framebuffer: FramebufferId },
    /// Attaches a texture as color attachment `attachment` of a framebuffer.
    AttachTexture { framebuffer: FramebufferId, attachment: usize, texture: TextureId },
    /// Sets the color attachments `0..count` as the draw buffers of a framebuffer.
    DrawBuffers { framebuffer: FramebufferId, count: usize },
    /// Compiles both stages and links them into a program.
    CreateProgram { program: ProgramId, vertex_source: String, fragment_source: String },
    /// Sets the color the screen is cleared to, one byte per channel.
    ClearColor { red: u8, green: u8, blue: u8, alpha: u8 },
    /// Binds a framebuffer; `None` is the screen.
    BindFramebuffer { framebuffer: Option<FramebufferId> },
    /// Sets the viewport to `(0, 0, width, height)`.
    Viewport { width: u64, height: u64 },
    /// Makes a program current.
    UseProgram { program: ProgramId },
    /// Sets `iResolution` where the program has it.
    UniformResolution { program: ProgramId, width: u64, height: u64 },
    /// Sets `iFrame` where the program has it.
    UniformFrame { program: ProgramId, frame: u32 },
    /// Sets `iTimeDelta` where the program has it.
    UniformTimeDelta { program: ProgramId, micros: u64 },
    /// Sets `iTime` where the program has it.
    UniformTime { program: ProgramId, micros: u64 },
    /// Sets `iDate` (year, month, day, seconds since midnight) where the program has it.
    UniformDate { program: ProgramId, year: u32, month: u32, day: u32, seconds: u32 },
    /// Binds a texture (or none) to a texture unit.
    BindTexture { unit: usize, texture: Option<TextureId> },
    /// Points the sampler uniform `name` at a texture unit, where the program has it.
    UniformSampler { program: ProgramId, name: String, unit: usize },
    /// Binds the quad's vertex buffer to the position attribute.
    BindQuad,
    /// Draws the quad as a four-vertex triangle strip.
    DrawQuad,
}

/// The mathematical value of a `GlCommand`: strings and buffers as sequences.
#[allow(inconsistent_fields)]
pub enum CommandView {
    CreateQuad,
    CreateTexture { texture: TextureId, min_filter: TextureFilter, mag_filter: TextureFilter, wrap: TextureWrap },
    TexStorage { texture: TextureId, levels: u32, internal_format: u32, width: u64, height: u64 },
    TexImage { texture: TextureId, internal_format: u32, width: u64, height: u64, format: u32, data_type: u32 },
    TexSubImage { texture: TextureId, width: u64, height: u64, format: u32, data_type: u32, pixels: Seq<u8> },
    GenerateMipmap { texture: TextureId },
    CreateFramebuffer { framebuffer: FramebufferId },
    AttachTexture { framebuffer: FramebufferId, attachment: usize, texture: TextureId },
    DrawBuffers { framebuffer: FramebufferId, count: usize },
    CreateProgram { program: ProgramId, vertex_source: Seq<char>, fragment_source: Seq<char> },
    ClearColor { red: u8, green: u8, blue: u8, alpha: u8 },
    BindFramebuffer { framebuffer: Option<FramebufferId> },
    Viewport { width: u64, height: u64 },
    UseProgram { program: ProgramId },
    UniformResolution { program: ProgramId, width: u64, height: u64 },
    UniformFrame { program: ProgramId, frame: u32 },
    UniformTimeDelta { program: ProgramId, micros: u64 },
    UniformTime { program: ProgramId, micros: u64 },
    UniformDate { program: ProgramId, year: u32, month: u32, day: u32, seconds: u32 },
    BindTexture { unit: usize, texture: Option<TextureId> },
    UniformSampler { program: ProgramId, name: Seq<char>, unit: usize },
    BindQuad,
    DrawQuad,
}

impl View for GlCommand {
    type V = CommandView;

    open spec fn view(&self) -> CommandView {
        match *self {
            GlCommand::CreateQuad => CommandView::CreateQuad,
            GlCommand::CreateTexture { texture, min_filter, mag_filter, wrap } => CommandView::CreateTexture {
                texture,
                min_filter,
                mag_filter,
                wrap,
            },
            GlCommand::TexStorage { texture, levels, internal_format, width, height } => CommandView::TexStorage {
                texture,
                levels,
                internal_format,
                width,
                height,
            },
            GlCommand::TexImage { texture, internal_format, width, height, format, data_type } => CommandView::TexImage {
                texture,
                internal_format,
                width,
                height,
                format,
                data_type,
            },
            GlCommand::TexSubImage { texture, width, height, format, data_type, pixels } => CommandView::TexSubImage {
                texture,
                width,
                height,
                format,
                data_type,
                pixels: pixels@,
            },
            GlCommand::GenerateMipmap { texture } => CommandView::GenerateMipmap { texture },
            GlCommand::CreateFramebuffer { framebuffer } => CommandView::CreateFramebuffer { framebuffer },
            GlCommand::AttachTexture { framebuffer, attachment, texture } => CommandView::AttachTexture {
                framebuffer,
                attachment,
                texture,
            },
            GlCommand::DrawBuffers { framebuffer, count } => CommandView::DrawBuffers { framebuffer, count },
            GlCommand::CreateProgram { program, vertex_source, fragment_source } => CommandView::CreateProgram {
                program,
                vertex_source: vertex_source@,
                fragment_source: fragment_source@,
            },
            GlCommand::ClearColor { red, green, blue, alpha } => CommandView::ClearColor { red, green, blue, alpha },
            GlCommand::BindFramebuffer { framebuffer } => CommandView::BindFramebuffer { framebuffer },
            GlCommand::Viewport { width, height } => CommandView::Viewport { width, height },
            GlCommand::UseProgram { program } => CommandView::UseProgram { program },
            GlCommand::UniformResolution { program, width, height } => CommandView::UniformResolution {
                program,
                width,
                height,
            },
            GlCommand::UniformFrame { program, frame } => CommandView::UniformFrame { program, frame },
            GlCommand::UniformTimeDelta { program, micros } => CommandView::UniformTimeDelta { program, micros },
            GlCommand::UniformTime { program, micros } => CommandView::UniformTime { program, micros },
            GlCommand::UniformDate { program, year, month, day, seconds } => CommandView::UniformDate {
                program,
                year,
                month,
                day,
                seconds,
            },
            GlCommand::BindTexture { unit, texture } => CommandView::BindTexture { unit, texture },
            GlCommand::UniformSampler { program, name, unit } => CommandView::UniformSampler {
                program,
                name: name@,
                unit,
            },
            GlCommand::BindQuad => CommandView::BindQuad,
            GlCommand::DrawQuad => CommandView::DrawQuad,
        }
    }
}

/// The views of a sequence of commands.
pub open spec fn commands_view(cmds: Seq<GlCommand>) -> Seq<CommandView> {
    cmds.map_values(|c: GlCommand| c@)
}

/// Appends one command to a command list.
pub fn emit(out: &mut Vec<GlCommand>, cmd: GlCommand)
    ensures
        commands_view(final(out)@) == commands_view(old(out)@).push(cmd@),
{
    out.push(cmd);
    assert(commands_view(final(out)@) =~= commands_view(old(out)@).push(cmd@));
}

/// The first color attachment enumerant.
pub const GL_COLOR_ATTACHMENT0: u32 = 0x8CE0;

/// The first texture unit enumerant.
pub const GL_TEXTURE0: u32 = 0x84C0;

/// Returns the enumerant of color attachment `index`.
pub fn color_attachment_int_to_gl(index: u32) -> (r: u32)
    requires
        index <= 10,
    ensures
        r == GL_COLOR_ATTACHMENT0 + index,
{
    GL_COLOR_ATTACHMENT0 + index
}

/// Returns the enumerant of texture unit `index`.
pub fn texture_unit_id_to_gl(index: u32) -> (r: u32)
    requires
        index <= 32,
    ensures
        r == GL_TEXTURE0 + index,
{
    GL_TEXTURE0 + index
}

} // verus!
