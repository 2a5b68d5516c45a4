use crate::command::{
    commands_view, emit, CommandView, FramebufferId, GlCommand, ProgramId, TextureFilter, TextureId,
    TextureWrap,
};
use crate::config_file::{OutputBufferFormat, RenderPassConfig, ResolutionScalingMode};
use crate::gamedata::GameData;
use crate::gamestate::GameState;
use crate::node::NodeError;
use crate::shader::{generate_shader_text, shader_text_result, VERTEX_SHADER};
use vstd::prelude::*;
use vstd::string::*;

verus! {

/// Screen width used until the host reports its size.
pub const DEFAULT_SCREEN_WIDTH: u32 = 1920;

/// Screen height used until the host reports its size.
pub const DEFAULT_SCREEN_HEIGHT: u32 = 1080;

/// An output slot of a render pass.
pub struct OutputSlot {
    pub name: String,
    pub format: OutputBufferFormat,
    pub generate_mipmap: bool,
}

/// A render pass: runs its fragment shader into its output textures.
///
/// Its device objects are named by its node index: program `ProgramId { node }`,
/// framebuffers `FramebufferId { node, back }` and output textures
/// `TextureId { node, back, slot }`. The back set exists once the pass reads its own
/// output; the pass then draws into the back set on even frames and into the front
/// set on odd frames.
pub struct RenderPass {
    pub name: String,
    pub node: usize,
    pub scaling: ResolutionScalingMode,
    pub width: u64,
    pub height: u64,
    /// Number of binds so far, wrapping.
    pub frame: u32,
    pub input_names: Vec<String>,
    pub outputs: Vec<OutputSlot>,
    pub double_buffered: bool,
}

/// `ceil(log2(m))`, and 0 for `m <= 1`.
pub open spec fn ceil_log2(m: nat) -> nat
    decreases m,
{
    if m <= 1 {
        0
    } else {
        1 + ceil_log2(m / 2 + m % 2)
    }
}

/// Mip levels allocated for a fixed-size texture with a mip chain:
/// `ceil(log2(max(width, height)))`, and at least one.
pub open spec fn mip_levels(width: u64, height: u64) -> u32 {
    let m = if width >= height { width } else { height };
    if ceil_log2(m as nat) == 0 {
        1
    } else {
        ceil_log2(m as nat) as u32
    }
}

proof fn lemma_ceil_log2_small(m: nat, k: nat)
    requires
        m <= pow2(k),
    ensures
        ceil_log2(m) <= k,
    decreases m,
{
    if m > 1 {
        assert(k > 0) by {
            if k == 0 {
                vstd::arithmetic::power2::lemma2_to64();
            }
        }
        assert(pow2(k) == 2 * pow2((k - 1) as nat)) by {
            vstd::arithmetic::power2::lemma_pow2_unfold(k);
        }
        lemma_ceil_log2_small(m / 2 + m % 2, (k - 1) as nat);
    }
}

/// Two to the power `k`.
pub open spec fn pow2(k: nat) -> nat {
    vstd::arithmetic::power2::pow2(k)
}

/// Returns the mip levels allocated for a fixed-size texture with a mip chain.
pub fn compute_mip_levels(width: u64, height: u64) -> (r: u32)
    ensures
        r == mip_levels(width, height),
        r >= 1,
{
    let mut m: u64 = if width >= height { width } else { height };
    let mut k: u32 = 0;
    proof {
        vstd::arithmetic::power2::lemma2_to64();
        lemma_ceil_log2_small(m as nat, 64);
    }
    while m > 1
        invariant
            k + ceil_log2(m as nat) == ceil_log2(if width >= height { width } else { height } as nat),
            ceil_log2(if width >= height { width } else { height } as nat) <= 64,
        decreases m,
    {
        m = m / 2 + m % 2;
        k = k + 1;
    }
    if k == 0 {
        1
    } else {
        k
    }
}

/// Whether a pass drawing at this frame counter draws into its back set.
pub open spec fn draws_back(double_buffered: bool, frame: u32) -> bool {
    double_buffered && frame % 2 == 0
}

/// Whether a pass at this frame counter shows its back set to readers.
pub open spec fn shows_back(double_buffered: bool, frame: u32) -> bool {
    double_buffered && frame % 2 == 1
}

/// The frame counter after one more bind, wrapping.
pub open spec fn next_frame(frame: u32) -> u32 {
    if frame == u32::MAX {
        0
    } else {
        (frame + 1) as u32
    }
}

/// The resolution of a pass with this scaling on a screen of this size.
pub open spec fn scaled_resolution(scaling: ResolutionScalingMode, screen_width: u32, screen_height: u32) -> (u64, u64) {
    match scaling {
        ResolutionScalingMode::Fixed(w, h) => (w as u64, h as u64),
        ResolutionScalingMode::ViewportScale(sx, sy) => (
            sx.scaled(screen_width as int) as u64,
            sy.scaled(screen_height as int) as u64,
        ),
    }
}

/// The first index of `name` among `names`.
pub open spec fn name_index(names: Seq<Seq<char>>, name: Seq<char>) -> Option<int>
    decreases names.len(),
{
    if names.len() == 0 {
        None
    } else {
        match name_index(names.drop_last(), name) {
            Some(i) => Some(i),
            None => if names.last() == name {
                Some(names.len() - 1)
            } else {
                None
            },
        }
    }
}

/// The index of the first name that repeats an earlier one.
pub open spec fn first_duplicate(names: Seq<Seq<char>>) -> Option<int>
    decreases names.len(),
{
    if names.len() == 0 {
        None
    } else {
        match first_duplicate(names.drop_last()) {
            Some(j) => Some(j),
            None => if name_index(names.drop_last(), names.last()) is Some {
                Some(names.len() - 1)
            } else {
                None
            },
        }
    }
}

proof fn lemma_name_index_found(names: Seq<Seq<char>>, name: Seq<char>, i: int)
    requires
        0 <= i < names.len(),
        names[i] == name,
    ensures
        name_index(names, name) is Some,
    decreases names.len(),
{
    if i < names.len() - 1 {
        lemma_name_index_found(names.drop_last(), name, i);
    }
}

proof fn lemma_name_index_some(names: Seq<Seq<char>>, name: Seq<char>)
    ensures
        name_index(names, name) matches Some(i) ==> 0 <= i < names.len() && names[i] == name
            && forall|j: int| 0 <= j < i ==> names[j] != name,
        name_index(names, name) is None ==> forall|j: int| 0 <= j < names.len() ==> names[j] != name,
    decreases names.len(),
{
    if names.len() > 0 {
        lemma_name_index_some(names.drop_last(), name);
        assert forall|j: int| 0 <= j < names.len() - 1 implies names[j] == names.drop_last()[j] by {}
    }
}

proof fn lemma_first_duplicate_prefix(names: Seq<Seq<char>>, k: int, j: int)
    requires
        0 <= k <= names.len(),
        first_duplicate(names.subrange(0, k)) == Some(j),
    ensures
        first_duplicate(names) == Some(j),
    decreases names.len() - k,
{
    if k == names.len() {
        assert(names.subrange(0, k) =~= names);
    } else {
        assert(names.subrange(0, k + 1).drop_last() =~= names.subrange(0, k));
        lemma_first_duplicate_prefix(names, k + 1, j);
    }
}

/// Returns the index of the first name that repeats an earlier one.
pub fn find_duplicate(names: &Vec<String>) -> (r: Option<usize>)
    ensures
        r matches Some(j) ==> j < names@.len() && first_duplicate(names@.map_values(|s: String| s@)) == Some(j as int),
        r is None ==> first_duplicate(names@.map_values(|s: String| s@)) is None,
{
    let ghost views = names@.map_values(|s: String| s@);
    let mut j: usize = 0;
    while j < names.len()
        invariant
            j <= names@.len(),
            views == names@.map_values(|s: String| s@),
            first_duplicate(views.subrange(0, j as int)) is None,
        decreases names@.len() - j,
    {
        let mut i: usize = 0;
        while i < j
            invariant
                i <= j < names@.len(),
                views == names@.map_values(|s: String| s@),
                forall|t: int| 0 <= t < i ==> names@[t]@ != names@[j as int]@,
                first_duplicate(views.subrange(0, j as int)) is None,
            decreases j - i,
        {
            if names[i] == names[j] {
                proof {
                    let pre = views.subrange(0, j + 1);
                    assert(pre.drop_last() =~= views.subrange(0, j as int));
                    assert(views[i as int] == names@[i as int]@);
                    assert(views[j as int] == names@[j as int]@);
                    assert(pre.drop_last()[i as int] == pre.last());
                    lemma_name_index_found(pre.drop_last(), pre.last(), i as int);
                    assert(first_duplicate(pre) == Some(j as int));
                    lemma_first_duplicate_prefix(views, j + 1, j as int);
                }
                return Some(j);
            }
            i = i + 1;
        }
        proof {
            let pre = views.subrange(0, j + 1);
            assert(pre.drop_last() =~= views.subrange(0, j as int));
            assert(views[j as int] == names@[j as int]@);
            assert forall|t: int| 0 <= t < j implies pre.drop_last()[t] != pre.last() by {
                assert(views[t] == names@[t]@);
            }
            lemma_name_index_some(pre.drop_last(), pre.last());
        }
        j = j + 1;
    }
    assert(views.subrange(0, j as int) =~= views);
    None
}

/// The program of node `node`.
pub open spec fn program_of(node: usize) -> ProgramId {
    ProgramId { node }
}

/// The commands that allocate storage for output `i` of a set.
pub open spec fn storage_commands(
    texture: TextureId,
    slot: OutputSlot,
    scaling: ResolutionScalingMode,
    width: u64,
    height: u64,
) -> Seq<CommandView> {
    match scaling {
        ResolutionScalingMode::Fixed(_, _) => seq![
            CommandView::TexStorage {
                texture,
                levels: if slot.generate_mipmap { mip_levels(width, height) } else { 1 },
                internal_format: slot.format.sized_internal_format(),
                width,
                height,
            },
        ],
        ResolutionScalingMode::ViewportScale(_, _) => seq![
            CommandView::TexImage {
                texture,
                internal_format: slot.format.sized_internal_format(),
                width,
                height,
                format: slot.format.pixel_layout(),
                data_type: slot.format.component_type(),
            },
            CommandView::GenerateMipmap { texture },
        ],
    }
}

/// The commands that create output texture `i` of a set and attach it.
pub open spec fn output_texture_commands(
    node: usize,
    back: bool,
    i: int,
    slot: OutputSlot,
    scaling: ResolutionScalingMode,
    width: u64,
    height: u64,
) -> Seq<CommandView> {
    let texture = TextureId { node, back, slot: i as usize };
    seq![
        CommandView::CreateTexture {
            texture,
            min_filter: if slot.generate_mipmap { TextureFilter::LinearMipmapLinear } else { TextureFilter::Linear },
            mag_filter: TextureFilter::Linear,
            wrap: TextureWrap::Repeat,
        },
    ] + storage_commands(texture, slot, scaling, width, height) + seq![
        CommandView::AttachTexture { framebuffer: FramebufferId { node, back }, attachment: i as usize, texture },
    ]
}

/// The commands for the first `n` output textures of a set.
pub open spec fn output_set_commands(
    node: usize,
    back: bool,
    slots: Seq<OutputSlot>,
    n: nat,
    scaling: ResolutionScalingMode,
    width: u64,
    height: u64,
) -> Seq<CommandView>
    decreases n,
{
    if n == 0 {
        seq![]
    } else {
        output_set_commands(node, back, slots, (n - 1) as nat, scaling, width, height)
            + output_texture_commands(node, back, n - 1, slots[n - 1], scaling, width, height)
    }
}

/// The commands that create a framebuffer and its set of output textures.
pub open spec fn framebuffer_commands(
    node: usize,
    back: bool,
    slots: Seq<OutputSlot>,
    scaling: ResolutionScalingMode,
    width: u64,
    height: u64,
) -> Seq<CommandView> {
    seq![CommandView::CreateFramebuffer { framebuffer: FramebufferId { node, back } }]
        + output_set_commands(node, back, slots, slots.len(), scaling, width, height)
        + seq![CommandView::DrawBuffers { framebuffer: FramebufferId { node, back }, count: slots.len() as usize }]
}

/// The commands that reallocate the first `n` textures of a set at a new size.
pub open spec fn resize_set_commands(node: usize, back: bool, slots: Seq<OutputSlot>, n: nat, width: u64, height: u64) -> Seq<CommandView>
    decreases n,
{
    if n == 0 {
        seq![]
    } else {
        let slot = slots[n - 1];
        let texture = TextureId { node, back, slot: (n - 1) as usize };
        resize_set_commands(node, back, slots, (n - 1) as nat, width, height) + seq![
            CommandView::TexImage {
                texture,
                internal_format: slot.format.sized_internal_format(),
                width,
                height,
                format: slot.format.pixel_layout(),
                data_type: slot.format.component_type(),
            },
            CommandView::GenerateMipmap { texture },
        ]
    }
}

/// The commands that rebuild the mip chains of the first `n` textures of a set.
pub open spec fn mipmap_commands(node: usize, back: bool, slots: Seq<OutputSlot>, n: nat) -> Seq<CommandView>
    decreases n,
{
    if n == 0 {
        seq![]
    } else {
        mipmap_commands(node, back, slots, (n - 1) as nat) + if slots[n - 1].generate_mipmap {
            seq![CommandView::GenerateMipmap { texture: TextureId { node, back, slot: (n - 1) as usize } }]
        } else {
            seq![]
        }
    }
}

/// The commands that bind the first `n` inputs to texture units `0..n`.
pub open spec fn input_bind_commands(
    program: ProgramId,
    names: Seq<String>,
    textures: Seq<Option<TextureId>>,
    n: nat,
) -> Seq<CommandView>
    decreases n,
{
    if n == 0 {
        seq![]
    } else {
        let i = n - 1;
        input_bind_commands(program, names, textures, (n - 1) as nat) + seq![
            CommandView::BindTexture { unit: i as usize, texture: textures[i] },
            CommandView::UniformSampler { program, name: names[i]@, unit: i as usize },
        ]
    }
}

/// The output slots of a configuration.
pub open spec fn config_outputs_match(slots: Seq<OutputSlot>, config: RenderPassConfig) -> bool {
    &&& slots.len() == config.output_texture_slots@.len()
    &&& forall|i: int|
        0 <= i < slots.len() ==> (#[trigger] slots[i]).name@ == config.output_texture_slots@[i].name@
            && slots[i].format == config.output_texture_slots@[i].format && slots[i].generate_mipmap
            == config.output_texture_slots@[i].generate_mipmap
}

/// The names of the output slots of a configuration.
pub open spec fn config_output_names(config: RenderPassConfig) -> Seq<Seq<char>> {
    config.output_texture_slots@.map_values(|s: crate::config_file::OutputBufferConfig| s.name@)
}

/// The names of the input slots of a configuration.
pub open spec fn config_input_names(config: RenderPassConfig) -> Seq<Seq<char>> {
    config.input_texture_slots@.map_values(|s: crate::config_file::InputBufferConfig| s.name@)
}

/// Why a render pass cannot be built from this configuration, if it cannot.
pub open spec fn render_pass_error(config: RenderPassConfig, data: GameData) -> Option<NodeError> {
    match first_duplicate(config_output_names(config)) {
        Some(j) => Some(NodeError::DuplicateOutputSlotName(config.output_texture_slots@[j].name)),
        None => match shader_text_result(config, data.shader_sources@) {
            Err(e) => Some(e),
            Ok(_) => match first_duplicate(config_input_names(config)) {
                Some(j) => Some(NodeError::DuplicateInputSlotName(config.input_texture_slots@[j].name)),
                None => None,
            },
        },
    }
}

/// Whether two node errors are the same error, comparing texts by their characters.
pub open spec fn same_node_error(a: NodeError, b: NodeError) -> bool {
    match (a, b) {
        (NodeError::DuplicateOutputSlotName(x), NodeError::DuplicateOutputSlotName(y)) => x@ == y@,
        (NodeError::DuplicateInputSlotName(x), NodeError::DuplicateInputSlotName(y)) => x@ == y@,
        (NodeError::MissingResource(x), NodeError::MissingResource(y)) => x@ == y@,
        (NodeError::NoShader, NodeError::NoShader) => true,
        (NodeError::ImageDecodeFailed(x), NodeError::ImageDecodeFailed(y)) => x@ == y@,
        (
            NodeError::UnsupportedImageFormat { color_type: c1, bit_depth: d1 },
            NodeError::UnsupportedImageFormat { color_type: c2, bit_depth: d2 },
        ) => c1 == c2 && d1 == d2,
        _ => false,
    }
}

impl RenderPass {
    /// The framebuffer drawn into by the next bind.
    pub open spec fn draw_framebuffer(&self) -> FramebufferId {
        FramebufferId { node: self.node, back: draws_back(self.double_buffered, self.frame) }
    }

    /// The index of output slot `name`.
    pub open spec fn output_index(&self, name: Seq<char>) -> Option<int> {
        name_index(self.outputs@.map_values(|s: OutputSlot| s.name@), name)
    }

    /// The texture readers see for output slot `name`: the set written most recently.
    pub open spec fn output_texture(&self, name: Seq<char>) -> Option<TextureId> {
        match self.output_index(name) {
            Some(i) => Some(TextureId { node: self.node, back: shows_back(self.double_buffered, self.frame), slot: i as usize }),
            None => None,
        }
    }

    /// The pass after one bind.
    pub open spec fn bound(self) -> RenderPass {
        RenderPass { frame: next_frame(self.frame), ..self }
    }

    /// The commands of a bind, with `inputs` the textures of the input slots.
    pub open spec fn bind_commands(&self, gs: GameState, inputs: Seq<Option<TextureId>>) -> Seq<CommandView> {
        let program = program_of(self.node);
        seq![
            CommandView::BindFramebuffer { framebuffer: Some(self.draw_framebuffer()) },
            CommandView::Viewport { width: self.width, height: self.height },
            CommandView::UseProgram { program },
            CommandView::UniformResolution { program, width: self.width, height: self.height },
            CommandView::UniformFrame { program, frame: self.frame },
            CommandView::UniformTimeDelta { program, micros: gs.time_delta },
            CommandView::UniformTime { program, micros: gs.time_since_start },
            CommandView::UniformDate {
                program,
                year: gs.date@[0],
                month: gs.date@[1],
                day: gs.date@[2],
                seconds: gs.date@[3],
            },
        ] + input_bind_commands(program, self.input_names@, inputs, self.input_names@.len())
            + seq![CommandView::BindQuad]
    }

    /// The commands after a draw: rebuild the mip chains of the set just written.
    pub open spec fn post_draw_commands(&self) -> Seq<CommandView> {
        mipmap_commands(self.node, shows_back(self.double_buffered, self.frame), self.outputs@, self.outputs@.len())
    }

    /// The pass after the screen became `w` by `h`.
    pub open spec fn resized(self, w: u32, h: u32) -> RenderPass {
        match self.scaling {
            ResolutionScalingMode::Fixed(_, _) => self,
            ResolutionScalingMode::ViewportScale(_, _) => RenderPass {
                width: scaled_resolution(self.scaling, w, h).0,
                height: scaled_resolution(self.scaling, w, h).1,
                ..self
            },
        }
    }

    /// The commands of a resize to a `w` by `h` screen.
    pub open spec fn resize_commands(&self, w: u32, h: u32) -> Seq<CommandView> {
        let (pw, ph) = scaled_resolution(self.scaling, w, h);
        match self.scaling {
            ResolutionScalingMode::Fixed(_, _) => seq![],
            ResolutionScalingMode::ViewportScale(_, _) => resize_set_commands(self.node, false, self.outputs@, self.outputs@.len(), pw, ph)
                + if self.double_buffered {
                resize_set_commands(self.node, true, self.outputs@, self.outputs@.len(), pw, ph)
            } else {
                seq![]
            },
        }
    }

    /// The commands that create the back set.
    pub open spec fn back_set_commands(&self) -> Seq<CommandView> {
        framebuffer_commands(self.node, true, self.outputs@, self.scaling, self.width, self.height)
    }

    /// Builds a render pass as node `node` from its configuration.
    ///
    /// Fails on a repeated output slot name, then on a missing or empty shader
    /// source, then on a repeated input slot name. The commands create the front
    /// framebuffer with one texture per output slot at the seed resolution, then
    /// the program.
    pub fn create_from_config(node: usize, gamedata: &GameData, config: &RenderPassConfig, out: &mut Vec<GlCommand>) -> (r: Result<RenderPass, NodeError>)
        ensures
            match render_pass_error(*config, *gamedata) {
                Some(e) => r matches Err(f) && same_node_error(f, e) && final(out)@ == old(out)@,
                None => r matches Ok(p) && {
                    let (w, h) = scaled_resolution(config.resolution_scaling_mode, DEFAULT_SCREEN_WIDTH, DEFAULT_SCREEN_HEIGHT);
                    &&& p.name@ == config.name@
                    &&& p.node == node
                    &&& p.scaling == config.resolution_scaling_mode
                    &&& p.width == w
                    &&& p.height == h
                    &&& p.frame == 0
                    &&& !p.double_buffered
                    &&& p.input_names@.map_values(|s: String| s@) == config_input_names(*config)
                    &&& config_outputs_match(p.outputs@, *config)
                    &&& commands_view(final(out)@) == commands_view(old(out)@)
                        + framebuffer_commands(node, false, p.outputs@, p.scaling, w, h)
                        + seq![CommandView::CreateProgram {
                            program: program_of(node),
                            vertex_source: VERTEX_SHADER@,
                            fragment_source: shader_text_result(*config, gamedata.shader_sources@)->Ok_0,
                        }]
                },
            },
    {
        let mut output_names: Vec<String> = Vec::new();
        let mut i: usize = 0;
        while i < config.output_texture_slots.len()
            invariant
                i <= config.output_texture_slots@.len(),
                output_names@.len() == i,
                forall|j: int| 0 <= j < i ==> #[trigger] output_names@[j]@ == config.output_texture_slots@[j].name@,
            decreases config.output_texture_slots@.len() - i,
        {
            output_names.push(config.output_texture_slots[i].name.clone());
            i = i + 1;
        }
        assert(output_names@.map_values(|s: String| s@) =~= config_output_names(*config));
        match find_duplicate(&output_names) {
            Some(j) => {
                return Err(NodeError::DuplicateOutputSlotName(config.output_texture_slots[j].name.clone()));
            },
            None => {},
        }
        let text = match generate_shader_text(config, gamedata) {
            Ok(t) => t,
            Err(e) => {
                return Err(e);
            },
        };
        let mut input_names: Vec<String> = Vec::new();
        let mut k: usize = 0;
        while k < config.input_texture_slots.len()
            invariant
                k <= config.input_texture_slots@.len(),
                input_names@.len() == k,
                forall|j: int| 0 <= j < k ==> #[trigger] input_names@[j]@ == config.input_texture_slots@[j].name@,
            decreases config.input_texture_slots@.len() - k,
        {
            input_names.push(config.input_texture_slots[k].name.clone());
            k = k + 1;
        }
        assert(input_names@.map_values(|s: String| s@) =~= config_input_names(*config));
        match find_duplicate(&input_names) {
            Some(j) => {
                return Err(NodeError::DuplicateInputSlotName(config.input_texture_slots[j].name.clone()));
            },
            None => {},
        }
        let mut outputs: Vec<OutputSlot> = Vec::new();
        let mut m: usize = 0;
        while m < config.output_texture_slots.len()
            invariant
                m <= config.output_texture_slots@.len(),
                outputs@.len() == m,
                forall|j: int|
                    0 <= j < m ==> (#[trigger] outputs@[j]).name@ == config.output_texture_slots@[j].name@
                        && outputs@[j].format == config.output_texture_slots@[j].format
                        && outputs@[j].generate_mipmap == config.output_texture_slots@[j].generate_mipmap,
            decreases config.output_texture_slots@.len() - m,
        {
            let slot = &config.output_texture_slots[m];
            outputs.push(OutputSlot { name: slot.name.clone(), format: slot.format, generate_mipmap: slot.generate_mipmap });
            m = m + 1;
        }
        let (width, height) = resolution_for(config.resolution_scaling_mode, DEFAULT_SCREEN_WIDTH, DEFAULT_SCREEN_HEIGHT);
        let pass = RenderPass {
            name: config.name.clone(),
            node,
            scaling: config.resolution_scaling_mode,
            width,
            height,
            frame: 0,
            input_names,
            outputs,
            double_buffered: false,
        };
        create_framebuffer_and_textures(node, false, &pass.outputs, pass.scaling, width, height, out);
        emit(out, GlCommand::CreateProgram {
            program: ProgramId { node },
            vertex_source: String::from_str(VERTEX_SHADER),
            fragment_source: text,
        });
        Ok(pass)
    }

    /// Returns the texture readers see for output slot `name`: while double
    /// buffered, the set the last bind drew into.
    pub fn get_output_texture(&self, name: &String) -> (r: Result<TextureId, NodeError>)
        ensures
            r matches Ok(t) ==> self.output_texture(name@) == Some(t),
            r matches Err(e) ==> self.output_texture(name@) is None && (e matches NodeError::NoSuchOutputTexture(n) && n@ == name@),
    {
        let mut i: usize = 0;
        let ghost names = self.outputs@.map_values(|s: OutputSlot| s.name@);
        while i < self.outputs.len()
            invariant
                i <= self.outputs@.len(),
                names == self.outputs@.map_values(|s: OutputSlot| s.name@),
                name_index(names.subrange(0, i as int), name@) is None,
            decreases self.outputs@.len() - i,
        {
            proof {
                assert(names.subrange(0, i + 1).drop_last() =~= names.subrange(0, i as int));
            }
            if self.outputs[i].name == *name {
                proof {
                    assert(name_index(names.subrange(0, i + 1), name@) == Some(i as int));
                    lemma_name_index_prefix(names, i + 1, i as int, name@);
                }
                return Ok(TextureId { node: self.node, back: self.double_buffered && self.frame % 2 == 1, slot: i });
            }
            i = i + 1;
        }
        assert(names.subrange(0, i as int) =~= names);
        Err(NodeError::NoSuchOutputTexture(name.clone()))
    }

    /// Sets up the pass for drawing: binds the framebuffer to draw into (the back
    /// one on even frames while double buffered, else the front one), the viewport,
    /// the program and the built-in uniforms, binds input `i` to texture unit `i`,
    /// binds the quad, and advances the frame counter.
    pub fn bind(&mut self, game_state: &GameState, inputs: &Vec<Option<TextureId>>, out: &mut Vec<GlCommand>)
        requires
            game_state.wf(),
            inputs@.len() == old(self).input_names@.len(),
        ensures
            *final(self) == old(self).bound(),
            commands_view(final(out)@) == commands_view(old(out)@) + old(self).bind_commands(*game_state, inputs@),
    {
        let program = ProgramId { node: self.node };
        let back = self.double_buffered && self.frame % 2 == 0;
        emit(out, GlCommand::BindFramebuffer { framebuffer: Some(FramebufferId { node: self.node, back }) });
        emit(out, GlCommand::Viewport { width: self.width, height: self.height });
        emit(out, GlCommand::UseProgram { program });
        emit(out, GlCommand::UniformResolution { program, width: self.width, height: self.height });
        emit(out, GlCommand::UniformFrame { program, frame: self.frame });
        emit(out, GlCommand::UniformTimeDelta { program, micros: game_state.time_delta });
        emit(out, GlCommand::UniformTime { program, micros: game_state.time_since_start });
        emit(out, GlCommand::UniformDate {
            program,
            year: game_state.date[0],
            month: game_state.date[1],
            day: game_state.date[2],
            seconds: game_state.date[3],
        });
        let ghost head = commands_view(out@);
        let mut i: usize = 0;
        while i < self.input_names.len()
            invariant
                i <= self.input_names@.len(),
                inputs@.len() == self.input_names@.len(),
                program == program_of(self.node),
                commands_view(out@) == head + input_bind_commands(program, self.input_names@, inputs@, i as nat),
            decreases self.input_names@.len() - i,
        {
            emit(out, GlCommand::BindTexture { unit: i, texture: inputs[i] });
            emit(out, GlCommand::UniformSampler { program, name: self.input_names[i].clone(), unit: i });
            i = i + 1;
            assert(commands_view(out@) =~= head + input_bind_commands(program, self.input_names@, inputs@, i as nat));
        }
        emit(out, GlCommand::BindQuad);
        self.frame = self.frame.wrapping_add(1);
        assert(commands_view(final(out)@) =~= commands_view(old(out)@) + old(self).bind_commands(*game_state, inputs@));
    }

    /// After the draw: rebuilds the mip chains of the outputs that have one, in
    /// the set just written.
    pub fn post_draw(&self, out: &mut Vec<GlCommand>)
        ensures
            commands_view(final(out)@) == commands_view(old(out)@) + self.post_draw_commands(),
    {
        let back = self.double_buffered && self.frame % 2 == 1;
        let ghost head = commands_view(out@);
        let mut i: usize = 0;
        while i < self.outputs.len()
            invariant
                i <= self.outputs@.len(),
                back == shows_back(self.double_buffered, self.frame),
                commands_view(out@) == head + mipmap_commands(self.node, back, self.outputs@, i as nat),
            decreases self.outputs@.len() - i,
        {
            if self.outputs[i].generate_mipmap {
                emit(out, GlCommand::GenerateMipmap { texture: TextureId { node: self.node, back, slot: i } });
            }
            i = i + 1;
            assert(commands_view(out@) =~= head + mipmap_commands(self.node, back, self.outputs@, i as nat));
        }
    }

    /// Follows a screen resize: a viewport-scaled pass takes its new resolution
    /// and reallocates every output texture, both sets where double buffered.
    /// A fixed-size pass is unchanged.
    pub fn update_resolution(&mut self, screen_width: u32, screen_height: u32, out: &mut Vec<GlCommand>)
        ensures
            *final(self) == old(self).resized(screen_width, screen_height),
            commands_view(final(out)@) == commands_view(old(out)@) + old(self).resize_commands(screen_width, screen_height),
    {
        match self.scaling {
            ResolutionScalingMode::Fixed(_, _) => {
                assert(commands_view(final(out)@) =~= commands_view(old(out)@) + old(self).resize_commands(screen_width, screen_height));
            },
            ResolutionScalingMode::ViewportScale(_, _) => {
                let (w, h) = resolution_for(self.scaling, screen_width, screen_height);
                self.width = w;
                self.height = h;
                let ghost head = commands_view(out@);
                resize_textures(self.node, false, &self.outputs, w, h, out);
                if self.double_buffered {
                    resize_textures(self.node, true, &self.outputs, w, h, out);
                }
                assert(commands_view(final(out)@) =~= commands_view(old(out)@) + old(self).resize_commands(screen_width, screen_height));
            },
        }
    }

    /// Prepares the pass to read its own output: creates the back framebuffer and
    /// a second set of output textures. Does nothing once they exist.
    pub fn set_up_self_reference(&mut self, out: &mut Vec<GlCommand>)
        ensures
            final(self).double_buffered,
            *final(self) == (RenderPass { double_buffered: true, ..*old(self) }),
            commands_view(final(out)@) == commands_view(old(out)@) + if old(self).double_buffered {
                seq![]
            } else {
                old(self).back_set_commands()
            },
    {
        if !self.double_buffered {
            create_framebuffer_and_textures(self.node, true, &self.outputs, self.scaling, self.width, self.height, out);
            self.double_buffered = true;
        } else {
            assert(commands_view(final(out)@) =~= commands_view(old(out)@));
        }
    }
}

/// Bounds of a found name index.
pub proof fn lemma_name_index_bounds(names: Seq<Seq<char>>, name: Seq<char>)
    ensures
        name_index(names, name) matches Some(i) ==> 0 <= i < names.len() && names[i] == name,
{
    lemma_name_index_some(names, name);
}

/// A name with no index appears nowhere.
pub proof fn lemma_name_index_none(names: Seq<Seq<char>>, name: Seq<char>)
    ensures
        name_index(names, name) is None ==> forall|j: int| 0 <= j < names.len() ==> names[j] != name,
{
    lemma_name_index_some(names, name);
}

/// Returns the first index of `name` among `names`.
pub fn find_name(names: &Vec<String>, name: &String) -> (r: Option<usize>)
    ensures
        r matches Some(i) ==> name_index(names@.map_values(|s: String| s@), name@) == Some(i as int),
        r is None ==> name_index(names@.map_values(|s: String| s@), name@) is None,
{
    let ghost views = names@.map_values(|s: String| s@);
    let mut i: usize = 0;
    while i < names.len()
        invariant
            i <= names@.len(),
            views == names@.map_values(|s: String| s@),
            name_index(views.subrange(0, i as int), name@) is None,
        decreases names@.len() - i,
    {
        proof {
            assert(views.subrange(0, i + 1).drop_last() =~= views.subrange(0, i as int));
            assert(views[i as int] == names@[i as int]@);
        }
        if names[i] == *name {
            proof {
                assert(name_index(views.subrange(0, i + 1), name@) == Some(i as int));
                lemma_name_index_prefix(views, i + 1, i as int, name@);
            }
            return Some(i);
        }
        i = i + 1;
    }
    assert(views.subrange(0, i as int) =~= views);
    None
}

/// Double-buffer alternation: for a double-buffered pass, a reader after a bind
/// sees the very set that bind drew into, and a reader before the bind (the pass
/// reading itself) sees the other set, the one drawn on the previous frame.
pub proof fn lemma_double_buffer_alternation(p: RenderPass, name: Seq<char>)
    requires
        p.double_buffered,
        p.output_index(name) is Some,
    ensures
        p.bound().output_texture(name) == Some(
            TextureId { node: p.node, back: p.draw_framebuffer().back, slot: p.output_index(name)->0 as usize },
        ),
        p.output_texture(name)->0.back != p.draw_framebuffer().back,
        p.bound().draw_framebuffer().back != p.draw_framebuffer().back,
{
    assert(p.bound().outputs == p.outputs);
    if p.frame == u32::MAX {
        assert(p.frame % 2 == 1);
    }
}

/// Setting up self-reference is idempotent: a second call changes nothing and
/// issues no command.
pub proof fn lemma_self_reference_idempotent(p: RenderPass)
    ensures
        ({
            let once = RenderPass { double_buffered: true, ..p };
            &&& (RenderPass { double_buffered: true, ..once }) == once
            &&& (if once.double_buffered { seq![] } else { once.back_set_commands() }) == Seq::<CommandView>::empty()
        }),
{
}

/// Texture units follow declared input order: input `i` is bound to unit `i`,
/// and its sampler uniform is pointed at unit `i`.
pub proof fn lemma_input_units(
    program: ProgramId,
    names: Seq<String>,
    textures: Seq<Option<TextureId>>,
    n: nat,
    i: int,
)
    requires
        0 <= i < n,
        n <= names.len(),
        n <= textures.len(),
        n < usize::MAX,
    ensures
        input_bind_commands(program, names, textures, n).len() == 2 * n,
        input_bind_commands(program, names, textures, n)[2 * i] == (CommandView::BindTexture {
            unit: i as usize,
            texture: textures[i],
        }),
        input_bind_commands(program, names, textures, n)[2 * i + 1] == (CommandView::UniformSampler {
            program,
            name: names[i]@,
            unit: i as usize,
        }),
    decreases n,
{
    lemma_input_bind_len(program, names, textures, (n - 1) as nat);
    if i < n - 1 {
        lemma_input_units(program, names, textures, (n - 1) as nat, i);
    }
}

proof fn lemma_input_bind_len(program: ProgramId, names: Seq<String>, textures: Seq<Option<TextureId>>, n: nat)
    ensures
        input_bind_commands(program, names, textures, n).len() == 2 * n,
    decreases n,
{
    if n > 0 {
        lemma_input_bind_len(program, names, textures, (n - 1) as nat);
    }
}

proof fn lemma_name_index_prefix(names: Seq<Seq<char>>, k: int, i: int, name: Seq<char>)
    requires
        0 <= k <= names.len(),
        name_index(names.subrange(0, k), name) == Some(i),
    ensures
        name_index(names, name) == Some(i),
    decreases names.len() - k,
{
    if k == names.len() {
        assert(names.subrange(0, k) =~= names);
    } else {
        assert(names.subrange(0, k + 1).drop_last() =~= names.subrange(0, k));
        lemma_name_index_prefix(names, k + 1, i, name);
    }
}

/// Returns the resolution of a pass with this scaling on a screen of this size.
pub fn resolution_for(scaling: ResolutionScalingMode, screen_width: u32, screen_height: u32) -> (r: (u64, u64))
    ensures
        r == scaled_resolution(scaling, screen_width, screen_height),
{
    match scaling {
        ResolutionScalingMode::Fixed(w, h) => (w as u64, h as u64),
        ResolutionScalingMode::ViewportScale(sx, sy) => (sx.apply(screen_width), sy.apply(screen_height)),
    }
}

/// Creates a framebuffer with one texture per output slot, attached in slot order.
fn create_framebuffer_and_textures(
    node: usize,
    back: bool,
    slots: &Vec<OutputSlot>,
    scaling: ResolutionScalingMode,
    width: u64,
    height: u64,
    out: &mut Vec<GlCommand>,
)
    ensures
        commands_view(final(out)@) == commands_view(old(out)@) + framebuffer_commands(node, back, slots@, scaling, width, height),
{
    let framebuffer = FramebufferId { node, back };
    emit(out, GlCommand::CreateFramebuffer { framebuffer });
    let ghost head = commands_view(out@);
    let mut i: usize = 0;
    while i < slots.len()
        invariant
            i <= slots@.len(),
            framebuffer == (FramebufferId { node, back }),
            commands_view(out@) == head + output_set_commands(node, back, slots@, i as nat, scaling, width, height),
        decreases slots@.len() - i,
    {
        emit_output_texture(node, back, i, &slots[i], scaling, width, height, out);
        i = i + 1;
        assert(commands_view(out@) =~= head + output_set_commands(node, back, slots@, i as nat, scaling, width, height));
    }
    emit(out, GlCommand::DrawBuffers { framebuffer, count: slots.len() });
    assert(commands_view(final(out)@) =~= commands_view(old(out)@) + framebuffer_commands(node, back, slots@, scaling, width, height));
}

/// Creates output texture `i` of a set, allocates its storage and attaches it.
fn emit_output_texture(
    node: usize,
    back: bool,
    i: usize,
    slot: &OutputSlot,
    scaling: ResolutionScalingMode,
    width: u64,
    height: u64,
    out: &mut Vec<GlCommand>,
)
    ensures
        commands_view(final(out)@) == commands_view(old(out)@) + output_texture_commands(
            node,
            back,
            i as int,
            *slot,
            scaling,
            width,
            height,
        ),
{
    let texture = TextureId { node, back, slot: i };
    emit(out, GlCommand::CreateTexture {
        texture,
        min_filter: if slot.generate_mipmap { TextureFilter::LinearMipmapLinear } else { TextureFilter::Linear },
        mag_filter: TextureFilter::Linear,
        wrap: TextureWrap::Repeat,
    });
    match scaling {
        ResolutionScalingMode::Fixed(_, _) => {
            let levels = if slot.generate_mipmap { compute_mip_levels(width, height) } else { 1 };
            emit(out, GlCommand::TexStorage {
                texture,
                levels,
                internal_format: slot.format.to_sized_internal_format(),
                width,
                height,
            });
        },
        ResolutionScalingMode::ViewportScale(_, _) => {
            emit(out, GlCommand::TexImage {
                texture,
                internal_format: slot.format.to_sized_internal_format(),
                width,
                height,
                format: slot.format.to_format(),
                data_type: slot.format.to_type(),
            });
            emit(out, GlCommand::GenerateMipmap { texture });
        },
    }
    emit(out, GlCommand::AttachTexture { framebuffer: FramebufferId { node, back }, attachment: i, texture });
    assert(commands_view(final(out)@) =~= commands_view(old(out)@) + output_texture_commands(
        node,
        back,
        i as int,
        *slot,
        scaling,
        width,
        height,
    ));
}

/// Reallocates every texture of a set at a new size and rebuilds its mip chain.
fn resize_textures(node: usize, back: bool, slots: &Vec<OutputSlot>, width: u64, height: u64, out: &mut Vec<GlCommand>)
    ensures
        commands_view(final(out)@) == commands_view(old(out)@) + resize_set_commands(node, back, slots@, slots@.len(), width, height),
{
    let ghost head = commands_view(out@);
    let mut i: usize = 0;
    while i < slots.len()
        invariant
            i <= slots@.len(),
            commands_view(out@) == head + resize_set_commands(node, back, slots@, i as nat, width, height),
        decreases slots@.len() - i,
    {
        let slot = &slots[i];
        let texture = TextureId { node, back, slot: i };
        emit(out, GlCommand::TexImage {
            texture,
            internal_format: slot.format.to_sized_internal_format(),
            width,
            height,
            format: slot.format.to_format(),
            data_type: slot.format.to_type(),
        });
        emit(out, GlCommand::GenerateMipmap { texture });
        i = i + 1;
        assert(commands_view(out@) =~= head + resize_set_commands(node, back, slots@, i as nat, width, height));
    }
}

} // verus!
