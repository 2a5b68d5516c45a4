use crate::command::{commands_view, emit, CommandView, GlCommand, TextureFilter, TextureId, TextureWrap};
use crate::config_file::{KeyboardConfig, GL_BYTE, GL_R8_SNORM, GL_RED};
use crate::gamestate::{GameState, KEY_STATE_LEN};
use crate::image::node_texture;
use vstd::prelude::*;

verus! {

/// Width of the keyboard texture: one texel per key code.
pub const KEYBOARD_TEXTURE_WIDTH: u64 = 256;

/// Height of the keyboard texture: the held, edge and toggle rows.
pub const KEYBOARD_TEXTURE_HEIGHT: u64 = 3;

/// A keyboard node: a 256 by 3 signed 8-bit texture that mirrors the key rows.
pub struct Keyboard {
    pub name: String,
    pub node: usize,
}

/// The key rows as the bytes uploaded to the texture.
pub open spec fn key_bytes(keys: Seq<i8>) -> Seq<u8> {
    keys.map_values(|k: i8| k as u8)
}

/// The commands that create the keyboard texture of node `node`.
pub open spec fn keyboard_create_commands(node: usize) -> Seq<CommandView> {
    let texture = node_texture(node);
    seq![
        CommandView::CreateTexture {
            texture,
            min_filter: TextureFilter::Nearest,
            mag_filter: TextureFilter::Nearest,
            wrap: TextureWrap::ClampToEdge,
        },
        CommandView::TexStorage {
            texture,
            levels: 1,
            internal_format: GL_R8_SNORM,
            width: KEYBOARD_TEXTURE_WIDTH,
            height: KEYBOARD_TEXTURE_HEIGHT,
        },
    ]
}

/// The commands of a bind: the key rows are uploaded where they changed.
pub open spec fn keyboard_bind_commands(node: usize, gs: GameState) -> Seq<CommandView> {
    if gs.keys_dirty {
        seq![
            CommandView::TexSubImage {
                texture: node_texture(node),
                width: KEYBOARD_TEXTURE_WIDTH,
                height: KEYBOARD_TEXTURE_HEIGHT,
                format: GL_RED,
                data_type: GL_BYTE,
                pixels: key_bytes(gs.keys@),
            },
        ]
    } else {
        seq![]
    }
}

impl Keyboard {
    /// The name of the single output slot of a keyboard node.
    pub const OUTPUT_BUFFER_NAME: &'static str = "tex";

    /// Builds a keyboard node as node `node`, with its texture allocated.
    pub fn create_from_config(node: usize, config: &KeyboardConfig, out: &mut Vec<GlCommand>) -> (r: Keyboard)
        ensures
            r.name@ == config.name@,
            r.node == node,
            commands_view(final(out)@) == commands_view(old(out)@) + keyboard_create_commands(node),
    {
        let texture = TextureId { node, back: false, slot: 0 };
        emit(out, GlCommand::CreateTexture {
            texture,
            min_filter: TextureFilter::Nearest,
            mag_filter: TextureFilter::Nearest,
            wrap: TextureWrap::ClampToEdge,
        });
        emit(out, GlCommand::TexStorage {
            texture,
            levels: 1,
            internal_format: GL_R8_SNORM,
            width: KEYBOARD_TEXTURE_WIDTH,
            height: KEYBOARD_TEXTURE_HEIGHT,
        });
        assert(commands_view(final(out)@) =~= commands_view(old(out)@) + keyboard_create_commands(node));
        Keyboard { name: config.name.clone(), node }
    }

    /// Uploads the key rows to the texture where they changed since the last frame.
    pub fn bind(&self, game_state: &GameState, out: &mut Vec<GlCommand>)
        requires
            game_state.wf(),
        ensures
            commands_view(final(out)@) == commands_view(old(out)@) + keyboard_bind_commands(self.node, *game_state),
    {
        if game_state.keys_dirty {
            let mut pixels: Vec<u8> = Vec::new();
            let mut i: usize = 0;
            while i < KEY_STATE_LEN
                invariant
                    i <= KEY_STATE_LEN,
                    game_state.keys@.len() == KEY_STATE_LEN,
                    pixels@ == key_bytes(game_state.keys@.subrange(0, i as int)),
                decreases KEY_STATE_LEN - i,
            {
                pixels.push(game_state.keys[i] as u8);
                i = i + 1;
                assert(pixels@ =~= key_bytes(game_state.keys@.subrange(0, i as int)));
            }
            assert(game_state.keys@.subrange(0, i as int) =~= game_state.keys@);
            emit(out, GlCommand::TexSubImage {
                texture: TextureId { node: self.node, back: false, slot: 0 },
                width: KEYBOARD_TEXTURE_WIDTH,
                height: KEYBOARD_TEXTURE_HEIGHT,
                format: GL_RED,
                data_type: GL_BYTE,
                pixels,
            });
            assert(commands_view(final(out)@) =~= commands_view(old(out)@) + keyboard_bind_commands(self.node, *game_state));
        } else {
            assert(commands_view(final(out)@) =~= commands_view(old(out)@) + keyboard_bind_commands(self.node, *game_state));
        }
    }
}

} // verus!
