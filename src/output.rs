use crate::command::{commands_view, emit, CommandView, GlCommand, ProgramId, TextureId};
use crate::config_file::OutputConfig;
use crate::renderpass::{DEFAULT_SCREEN_HEIGHT, DEFAULT_SCREEN_WIDTH};
use crate::shader::{OUTPUT_FRAGMENT_SHADER, VERTEX_SHADER};
use vstd::prelude::*;
use vstd::string::*;

verus! {

/// The output node: draws the texture linked to its slot `col` onto the screen,
/// at the screen's resolution.
pub struct Output {
    pub name: String,
    pub node: usize,
    pub width: u64,
    pub height: u64,
}

/// The commands that create the program of output node `node`.
pub open spec fn output_create_commands(node: usize) -> Seq<CommandView> {
    seq![
        CommandView::CreateProgram {
            program: ProgramId { node },
            vertex_source: VERTEX_SHADER@,
            fragment_source: OUTPUT_FRAGMENT_SHADER@,
        },
    ]
}

impl Output {
    /// The name of the single input slot of an output node.
    pub const INPUT_BUFFER_NAME: &'static str = "col";

    /// The commands of a bind, with `input` the texture linked to `col`.
    pub open spec fn bind_commands(&self, input: Option<TextureId>) -> Seq<CommandView> {
        let program = ProgramId { node: self.node };
        seq![
            CommandView::BindFramebuffer { framebuffer: None },
            CommandView::Viewport { width: self.width, height: self.height },
            CommandView::UseProgram { program },
            CommandView::BindQuad,
            CommandView::BindTexture { unit: 0, texture: input },
            CommandView::UniformSampler { program, name: Self::INPUT_BUFFER_NAME@, unit: 0 },
        ]
    }

    /// Builds the output node as node `node`, sized for the default screen.
    pub fn create_from_config(node: usize, config: &OutputConfig, out: &mut Vec<GlCommand>) -> (r: Output)
        ensures
            r.name@ == config.name@,
            r.node == node,
            r.width == DEFAULT_SCREEN_WIDTH,
            r.height == DEFAULT_SCREEN_HEIGHT,
            commands_view(final(out)@) == commands_view(old(out)@) + output_create_commands(node),
    {
        emit(out, GlCommand::CreateProgram {
            program: ProgramId { node },
            vertex_source: String::from_str(VERTEX_SHADER),
            fragment_source: String::from_str(OUTPUT_FRAGMENT_SHADER),
        });
        assert(commands_view(final(out)@) =~= commands_view(old(out)@) + output_create_commands(node));
        Output { name: config.name.clone(), node, width: DEFAULT_SCREEN_WIDTH as u64, height: DEFAULT_SCREEN_HEIGHT as u64 }
    }

    /// Binds the screen with a viewport of the screen's size, the copying program,
    /// and `input` on texture unit 0.
    pub fn bind(&self, input: Option<TextureId>, out: &mut Vec<GlCommand>)
        ensures
            commands_view(final(out)@) == commands_view(old(out)@) + self.bind_commands(input),
    {
        let program = ProgramId { node: self.node };
        emit(out, GlCommand::BindFramebuffer { framebuffer: None });
        emit(out, GlCommand::Viewport { width: self.width, height: self.height });
        emit(out, GlCommand::UseProgram { program });
        emit(out, GlCommand::BindQuad);
        emit(out, GlCommand::BindTexture { unit: 0, texture: input });
        emit(out, GlCommand::UniformSampler { program, name: String::from_str(Self::INPUT_BUFFER_NAME), unit: 0 });
        assert(commands_view(final(out)@) =~= commands_view(old(out)@) + self.bind_commands(input));
    }

    /// Takes the new screen size.
    pub fn update_resolution(&mut self, screen_width: u32, screen_height: u32)
        ensures
            *final(self) == (Output { width: screen_width as u64, height: screen_height as u64, ..*old(self) }),
    {
        self.width = screen_width as u64;
        self.height = screen_height as u64;
    }
}

} // verus!
