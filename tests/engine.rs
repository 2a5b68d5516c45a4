use gametoy::command::{FramebufferId, GlCommand, ProgramId, TextureId};
use gametoy::config_file::{
    ConfigFile, ExecutionMode, GraphConfig, InputBufferConfig, KeyboardConfig, Link, MetaData, Node,
    OutputBufferConfig, OutputBufferFormat, OutputConfig, RenderPassConfig, ResolutionScalingMode,
    ScaleFactor,
};
use gametoy::gamedata::{GameData, ShaderSource};
use gametoy::node::{NodeError, NodeKernel};
use gametoy::{GameToy, GameToyError};

const NOW: u64 = 1_000_000_000_000;

fn full_scale() -> ResolutionScalingMode {
    let one = ScaleFactor { numerator: 1, denominator: 1 };
    ResolutionScalingMode::ViewportScale(one, one)
}

fn pass(name: &str, outputs: &[(&str, OutputBufferFormat)], inputs: &[&str], scaling: ResolutionScalingMode, paths: &[&str]) -> Node {
    Node::RenderPass(RenderPassConfig {
        name: name.to_string(),
        output_texture_slots: outputs
            .iter()
            .map(|(n, f)| OutputBufferConfig { name: n.to_string(), format: *f, generate_mipmap: false })
            .collect(),
        input_texture_slots: inputs.iter().map(|n| InputBufferConfig { name: n.to_string() }).collect(),
        resolution_scaling_mode: scaling,
        fragment_shader_paths: paths.iter().map(|p| p.to_string()).collect(),
        execution_mode: ExecutionMode::Always,
    })
}

fn link(a: &str, out: &str, b: &str, input: &str) -> Link {
    Link {
        start_node: a.to_string(),
        start_output_slot: out.to_string(),
        end_node: b.to_string(),
        end_input_slot: input.to_string(),
    }
}

fn keyboard(name: &str) -> Node {
    Node::Keyboard(KeyboardConfig { name: name.to_string() })
}

fn output(name: &str) -> Node {
    Node::Output(OutputConfig { name: name.to_string() })
}

fn game(nodes: Vec<Node>, links: Vec<Link>, shaders: &[(&str, &str)]) -> GameData {
    GameData {
        config_file: ConfigFile {
            metadata: MetaData {
                game_name: "Test".to_string(),
                game_version: "0.0.0".to_string(),
                release_date: "Today".to_string(),
                website: String::new(),
                author_name: "Me".to_string(),
                license: String::new(),
            },
            graph: GraphConfig { nodes, links },
        },
        textures: vec![],
        shader_sources: shaders
            .iter()
            .map(|(p, t)| ShaderSource { path: p.to_string(), text: t.to_string() })
            .collect(),
    }
}

fn passthrough(shader: &str) -> GameData {
    game(
        vec![
            keyboard("Keyboard"),
            pass("Render Pass 1", &[("RenderOut", OutputBufferFormat::RGB8)], &["KeyboardInput"], full_scale(), &["render.frag"]),
            output("Output"),
        ],
        vec![
            link("Keyboard", "tex", "Render Pass 1", "KeyboardInput"),
            link("Render Pass 1", "RenderOut", "Output", "col"),
        ],
        &[("render.frag", shader)],
    )
}

fn tex(node: usize, back: bool, slot: usize) -> TextureId {
    TextureId { node, back, slot }
}

fn key_upload(cmds: &[GlCommand]) -> Option<Vec<u8>> {
    cmds.iter().find_map(|c| match c {
        GlCommand::TexSubImage { pixels, .. } => Some(pixels.clone()),
        _ => None,
    })
}

fn bound_framebuffers(cmds: &[GlCommand]) -> Vec<Option<FramebufferId>> {
    cmds.iter()
        .filter_map(|c| match c {
            GlCommand::BindFramebuffer { framebuffer } => Some(*framebuffer),
            _ => None,
        })
        .collect()
}

fn bound_textures(cmds: &[GlCommand]) -> Vec<(usize, Option<TextureId>)> {
    cmds.iter()
        .filter_map(|c| match c {
            GlCommand::BindTexture { unit, texture } => Some((*unit, *texture)),
            _ => None,
        })
        .collect()
}

#[test]
fn minimal_passthrough_builds_and_draws() {
    let data = passthrough("void main(){RenderOut = vec3(1.0, 0.0, 1.0);}");
    let (mut toy, setup) = GameToy::new(&data, true).unwrap();
    assert_eq!(setup.len(), 12);
    assert!(matches!(setup[0], GlCommand::CreateQuad));
    assert!(matches!(setup[2], GlCommand::TexStorage { internal_format: 0x8F94, width: 256, height: 3, .. }));
    assert!(matches!(setup[5], GlCommand::TexImage { internal_format: 0x8051, width: 1920, height: 1080, .. }));
    match &setup[9] {
        GlCommand::CreateProgram { program, fragment_source, .. } => {
            assert_eq!(*program, ProgramId { node: 1 });
            assert!(fragment_source.contains("layout(location=0) out vec3 RenderOut;\nuniform sampler2D KeyboardInput;\n"));
            assert!(fragment_source.ends_with("void main(){RenderOut = vec3(1.0, 0.0, 1.0);}"));
        },
        _ => panic!("expected the pass program"),
    }
    assert!(matches!(setup[10], GlCommand::CreateProgram { program: ProgramId { node: 2 }, .. }));
    assert!(matches!(setup[11], GlCommand::ClearColor { red: 0, green: 255, blue: 255, alpha: 255 }));

    let frame = toy.render(NOW).unwrap();
    assert_eq!(frame.len(), 20);
    assert_eq!(
        bound_framebuffers(&frame),
        vec![Some(FramebufferId { node: 1, back: false }), None]
    );
    assert_eq!(bound_textures(&frame), vec![(0, Some(tex(0, false, 0))), (0, Some(tex(1, false, 0)))]);
    assert!(matches!(frame[2], GlCommand::Viewport { width: 1920, height: 1080 }));
    assert!(matches!(frame[8], GlCommand::UniformDate { year: 1970, month: 1, day: 12, seconds: 49_600, .. }));
    assert_eq!(frame.iter().filter(|c| matches!(c, GlCommand::DrawQuad)).count(), 3);
}

#[test]
fn time_uniforms_follow_the_clock() {
    let data = passthrough("void main(){RenderOut = vec3(0.5 + 0.5*sin(iTime));}");
    let (mut toy, _) = GameToy::new(&data, true).unwrap();
    let first = toy.render(NOW).unwrap();
    assert!(first.iter().any(|c| matches!(c, GlCommand::UniformTime { micros: 16_000, .. })));
    assert!(first.iter().any(|c| matches!(c, GlCommand::UniformTimeDelta { micros: 16_000, .. })));
    assert!(first.iter().any(|c| matches!(c, GlCommand::UniformFrame { frame: 0, .. })));
    let second = toy.render(NOW + 1_570_796).unwrap();
    assert!(second.iter().any(|c| matches!(c, GlCommand::UniformTime { micros: 1_586_796, .. })));
    assert!(second.iter().any(|c| matches!(c, GlCommand::UniformTimeDelta { micros: 1_570_796, .. })));
    assert!(second.iter().any(|c| matches!(c, GlCommand::UniformFrame { frame: 1, .. })));
}

#[test]
fn keyboard_edge_lasts_one_frame() {
    let data = passthrough("void main(){}");
    let (mut toy, _) = GameToy::new(&data, true).unwrap();
    assert_eq!(key_upload(&toy.render(NOW).unwrap()), None);
    toy.set_key_state(65, true);
    let pressed = key_upload(&toy.render(NOW + 16_000).unwrap()).unwrap();
    assert_eq!(pressed.len(), 768);
    assert_eq!(pressed[65], 1);
    assert_eq!(pressed[256 + 65], 1);
    assert_eq!(pressed[512 + 65], 1);
    toy.set_key_state(65, false);
    let released = key_upload(&toy.render(NOW + 32_000).unwrap()).unwrap();
    assert_eq!(released[65], 0);
    assert_eq!(released[256 + 65], 0xff);
    let cleared = key_upload(&toy.render(NOW + 48_000).unwrap()).unwrap();
    assert_eq!(cleared[256 + 65], 0);
    assert_eq!(cleared[512 + 65], 1);
    assert_eq!(key_upload(&toy.render(NOW + 64_000).unwrap()), None);
}

#[test]
fn out_of_range_key_codes_are_ignored() {
    let data = passthrough("void main(){}");
    let (mut toy, _) = GameToy::new(&data, true).unwrap();
    toy.set_key_state(300, true);
    assert!(!toy.game_state.keys_dirty);
    assert_eq!(key_upload(&toy.render(NOW).unwrap()), None);
}

#[test]
fn self_reference_reads_the_previous_frame() {
    let data = game(
        vec![
            pass("Feedback", &[("Cur", OutputBufferFormat::RGBA8)], &["Prev"], ResolutionScalingMode::Fixed(4, 4), &["f.frag"]),
            output("Output"),
        ],
        vec![link("Feedback", "Cur", "Feedback", "Prev"), link("Feedback", "Cur", "Output", "col")],
        &[("f.frag", "void main(){Cur = texture(Prev, uv) + vec4(0.01);}")],
    );
    let (mut toy, setup) = GameToy::new(&data, true).unwrap();
    let back_fb = FramebufferId { node: 0, back: true };
    assert!(setup.iter().any(|c| matches!(c, GlCommand::CreateFramebuffer { framebuffer } if *framebuffer == back_fb)));
    assert!(setup.iter().any(|c| matches!(c, GlCommand::AttachTexture { framebuffer, texture, .. } if *framebuffer == back_fb && *texture == tex(0, true, 0))));
    match &toy.nodes[0] {
        NodeKernel::RenderPass(p) => assert!(p.double_buffered),
        _ => panic!("expected a render pass"),
    }
    for f in 0..4u64 {
        let frame = toy.render(NOW + f * 16_000).unwrap();
        let draws_back = f % 2 == 0;
        assert_eq!(
            bound_framebuffers(&frame),
            vec![Some(FramebufferId { node: 0, back: draws_back }), None]
        );
        assert_eq!(
            bound_textures(&frame),
            vec![(0, Some(tex(0, !draws_back, 0))), (0, Some(tex(0, draws_back, 0)))]
        );
    }
}

#[test]
fn double_buffer_output_follows_last_draw() {
    let data = game(
        vec![pass("Loop", &[("A", OutputBufferFormat::R8)], &["In"], ResolutionScalingMode::Fixed(2, 2), &["l.frag"])],
        vec![link("Loop", "A", "Loop", "In"), link("Loop", "A", "Loop", "In")],
        &[("l.frag", "void main(){}")],
    );
    let (mut toy, setup) = GameToy::new(&data, false).unwrap();
    assert_eq!(setup.iter().filter(|c| matches!(c, GlCommand::CreateFramebuffer { .. })).count(), 2);
    for f in 0..3u32 {
        toy.render(NOW + f as u64).unwrap();
        match &toy.nodes[0] {
            NodeKernel::RenderPass(p) => {
                assert_eq!(p.frame, f + 1);
                let t = p.get_output_texture(&"A".to_string()).unwrap();
                assert_eq!(t, tex(0, f % 2 == 0, 0));
            },
            _ => panic!("expected a render pass"),
        }
    }
}

#[test]
fn self_reference_setup_is_idempotent() {
    let data = game(
        vec![pass("P", &[("A", OutputBufferFormat::RGBA8)], &[], ResolutionScalingMode::Fixed(2, 2), &["p.frag"])],
        vec![],
        &[("p.frag", "void main(){}")],
    );
    let (mut toy, _) = GameToy::new(&data, false).unwrap();
    match &mut toy.nodes[0] {
        NodeKernel::RenderPass(p) => {
            let mut first = Vec::new();
            p.set_up_self_reference(&mut first);
            assert_eq!(first.len(), 5);
            let mut second = Vec::new();
            p.set_up_self_reference(&mut second);
            assert!(second.is_empty());
            assert!(p.double_buffered);
        },
        _ => panic!("expected a render pass"),
    }
}

#[test]
fn resize_to_smaller_reallocates_scaled_passes() {
    let data = game(
        vec![
            pass("Scaled", &[("A", OutputBufferFormat::RGBA8)], &[], full_scale(), &["s.frag"]),
            pass("Fixed", &[("B", OutputBufferFormat::RGBA8)], &[], ResolutionScalingMode::Fixed(64, 64), &["s.frag"]),
            output("Output"),
        ],
        vec![link("Scaled", "A", "Output", "col")],
        &[("s.frag", "void main(){}")],
    );
    let (mut toy, _) = GameToy::new(&data, true).unwrap();
    toy.render(NOW).unwrap();
    toy.resize(960, 540);
    let frame = toy.render(NOW + 16_000).unwrap();
    assert!(matches!(frame[0], GlCommand::TexImage { texture, width: 960, height: 540, .. } if texture == tex(0, false, 0)));
    assert!(matches!(frame[1], GlCommand::GenerateMipmap { texture } if texture == tex(0, false, 0)));
    let viewports: Vec<(u64, u64)> = frame
        .iter()
        .filter_map(|c| match c {
            GlCommand::Viewport { width, height } => Some((*width, *height)),
            _ => None,
        })
        .collect();
    assert_eq!(viewports, vec![(960, 540), (64, 64), (960, 540)]);
    assert_eq!(frame.iter().filter(|c| matches!(c, GlCommand::TexImage { .. })).count(), 1);
    assert!(!toy.resolution_dirty);
    let next = toy.render(NOW + 32_000).unwrap();
    assert!(!next.iter().any(|c| matches!(c, GlCommand::TexImage { .. })));
}

#[test]
fn half_scale_pass_follows_the_screen() {
    let half = ScaleFactor { numerator: 1, denominator: 2 };
    let data = game(
        vec![pass("Half", &[("A", OutputBufferFormat::RGBA8)], &[], ResolutionScalingMode::ViewportScale(half, half), &["s.frag"])],
        vec![],
        &[("s.frag", "void main(){}")],
    );
    let (mut toy, setup) = GameToy::new(&data, false).unwrap();
    assert!(setup.iter().any(|c| matches!(c, GlCommand::TexImage { width: 960, height: 540, .. })));
    toy.resize(1001, 333);
    let frame = toy.render(NOW).unwrap();
    assert!(matches!(frame[0], GlCommand::TexImage { width: 500, height: 166, .. }));
}

#[test]
fn inputs_bind_to_units_in_declared_order() {
    let data = game(
        vec![
            keyboard("K"),
            pass("Src", &[("A", OutputBufferFormat::RGBA8), ("B", OutputBufferFormat::R8)], &[], ResolutionScalingMode::Fixed(8, 8), &["s.frag"]),
            pass("Dst", &[("Out", OutputBufferFormat::RGBA8)], &["First", "Second", "Third"], ResolutionScalingMode::Fixed(8, 8), &["s.frag"]),
        ],
        vec![link("Src", "B", "Dst", "Third"), link("K", "tex", "Dst", "First"), link("Src", "A", "Dst", "First")],
        &[("s.frag", "void main(){}")],
    );
    let (mut toy, _) = GameToy::new(&data, false).unwrap();
    let frame = toy.render(NOW).unwrap();
    assert_eq!(
        bound_textures(&frame),
        vec![(0, Some(tex(1, false, 0))), (1, None), (2, Some(tex(1, false, 1)))]
    );
    let samplers: Vec<(String, usize)> = frame
        .iter()
        .filter_map(|c| match c {
            GlCommand::UniformSampler { name, unit, .. } => Some((name.clone(), *unit)),
            _ => None,
        })
        .collect();
    assert_eq!(
        samplers,
        vec![("First".to_string(), 0), ("Second".to_string(), 1), ("Third".to_string(), 2)]
    );
}

#[test]
fn disabled_output_is_skipped() {
    let data = passthrough("void main(){}");
    let (mut toy, setup) = GameToy::new(&data, false).unwrap();
    assert_eq!(setup.len(), 11);
    let frame = toy.render(NOW).unwrap();
    assert_eq!(bound_framebuffers(&frame), vec![Some(FramebufferId { node: 1, back: false })]);
    assert_eq!(frame.iter().filter(|c| matches!(c, GlCommand::DrawQuad)).count(), 2);
}

#[test]
fn missing_shader_file_fails_construction() {
    let data = game(
        vec![pass("Main", &[("RenderOut", OutputBufferFormat::RGB8)], &[], full_scale(), &["missing.frag"])],
        vec![],
        &[],
    );
    match GameToy::new(&data, true) {
        Err(GameToyError::NodeCreateError(name, NodeError::MissingResource(path))) => {
            assert_eq!(name, "Main");
            assert_eq!(path, "missing.frag");
        },
        _ => panic!("expected a missing shader"),
    }
}

#[test]
fn duplicate_slot_names_fail_construction() {
    let dup_out = game(
        vec![pass("P", &[("A", OutputBufferFormat::R8), ("A", OutputBufferFormat::R8)], &[], full_scale(), &["p.frag"])],
        vec![],
        &[("p.frag", "void main(){}")],
    );
    match GameToy::new(&dup_out, true) {
        Err(GameToyError::NodeCreateError(n, NodeError::DuplicateOutputSlotName(s))) => assert_eq!((n.as_str(), s.as_str()), ("P", "A")),
        _ => panic!("expected a duplicate output"),
    }
    let dup_in = game(
        vec![pass("P", &[("A", OutputBufferFormat::R8)], &["X", "Y", "X"], full_scale(), &["p.frag"])],
        vec![],
        &[("p.frag", "void main(){}")],
    );
    match GameToy::new(&dup_in, true) {
        Err(GameToyError::NodeCreateError(n, NodeError::DuplicateInputSlotName(s))) => assert_eq!((n.as_str(), s.as_str()), ("P", "X")),
        _ => panic!("expected a duplicate input"),
    }
}

#[test]
fn empty_shader_fails_construction() {
    let data = game(
        vec![pass("P", &[("A", OutputBufferFormat::R8)], &[], full_scale(), &["p.frag"])],
        vec![],
        &[("p.frag", "")],
    );
    assert!(matches!(GameToy::new(&data, true), Err(GameToyError::NodeCreateError(_, NodeError::NoShader))));
}

#[test]
fn duplicate_node_names_fail_construction() {
    let data = game(vec![keyboard("Same"), output("Other"), keyboard("Same")], vec![], &[]);
    match GameToy::new(&data, true) {
        Err(GameToyError::DuplicateNodeName(n)) => assert_eq!(n, "Same"),
        _ => panic!("expected a duplicate name"),
    }
}

#[test]
fn unknown_link_ends_fail_construction() {
    let start = game(vec![keyboard("K"), output("O")], vec![link("Nope", "tex", "O", "col")], &[]);
    match GameToy::new(&start, true) {
        Err(GameToyError::NoSuchNodeName(n)) => assert_eq!(n, "Nope"),
        _ => panic!("expected an unknown start"),
    }
    let end = game(vec![keyboard("K"), output("O")], vec![link("K", "tex", "O", "col"), link("K", "tex", "Gone", "col")], &[]);
    match GameToy::new(&end, true) {
        Err(GameToyError::NoSuchNodeName(n)) => assert_eq!(n, "Gone"),
        _ => panic!("expected an unknown end"),
    }
}

#[test]
fn bad_slots_fail_the_frame_and_change_nothing() {
    let data = game(vec![keyboard("K"), output("O")], vec![link("K", "nope", "O", "col")], &[]);
    let (mut toy, _) = GameToy::new(&data, true).unwrap();
    match toy.render(NOW) {
        Err(GameToyError::GetInputTextureFailed(n, NodeError::NoSuchOutputTexture(s))) => {
            assert_eq!((n.as_str(), s.as_str()), ("O", "nope"));
        },
        _ => panic!("expected a missing output slot"),
    }
    assert_eq!(toy.game_state.prev_render_time, None);
    let data = game(vec![keyboard("K"), output("O")], vec![link("K", "tex", "O", "colour")], &[]);
    let (mut toy, _) = GameToy::new(&data, true).unwrap();
    match toy.render(NOW) {
        Err(GameToyError::BindInputTextureFailed(n, NodeError::NoSuchInputTexture(s))) => {
            assert_eq!((n.as_str(), s.as_str()), ("O", "colour"));
        },
        _ => panic!("expected a missing input slot"),
    }
}

#[test]
fn identical_inputs_give_identical_commands() {
    let run = || {
        let data = passthrough("void main(){}");
        let (mut toy, setup) = GameToy::new(&data, true).unwrap();
        let mut log = format!("{:?}", setup);
        toy.set_key_state(38, true);
        log += &format!("{:?}", toy.render(NOW).unwrap());
        toy.resize(800, 600);
        toy.set_key_state(38, false);
        log += &format!("{:?}", toy.render(NOW + 20_000).unwrap());
        log
    };
    assert_eq!(run(), run());
}

#[test]
fn node_names_are_unique_after_construction() {
    let data = passthrough("void main(){}");
    let (toy, _) = GameToy::new(&data, true).unwrap();
    let names: Vec<String> = toy.nodes.iter().map(|n| n.get_name().clone()).collect();
    assert_eq!(names, vec!["Keyboard".to_string(), "Render Pass 1".to_string(), "Output".to_string()]);
    assert_eq!(toy.output_node, Some(2));
}

#[test]
fn empty_graph_builds_and_renders_nothing() {
    let data = game(vec![], vec![], &[]);
    let (mut toy, setup) = GameToy::new(&data, true).unwrap();
    assert_eq!(setup.len(), 2);
    assert!(matches!(setup[0], GlCommand::CreateQuad));
    assert!(matches!(setup[1], GlCommand::ClearColor { .. }));
    assert!(toy.render(NOW).unwrap().is_empty());
    assert_eq!(toy.output_node, None);
}

#[test]
fn unconnected_output_binds_no_texture() {
    let data = game(vec![output("O")], vec![], &[]);
    let (mut toy, _) = GameToy::new(&data, true).unwrap();
    let frame = toy.render(NOW).unwrap();
    assert_eq!(bound_textures(&frame), vec![(0, None)]);
    assert_eq!(bound_framebuffers(&frame), vec![None]);
}

#[test]
fn highest_key_code_has_a_texel() {
    let data = passthrough("void main(){}");
    let (mut toy, _) = GameToy::new(&data, true).unwrap();
    toy.set_key_state(255, true);
    let upload = key_upload(&toy.render(NOW).unwrap()).unwrap();
    assert_eq!((upload[255], upload[511], upload[767]), (1, 1, 1));
}
