use gametoy::config_file::{
    ConfigFile, ExecutionMode, GraphConfig, InputBufferConfig, MetaData, OutputBufferConfig,
    OutputBufferFormat, RenderPassConfig, ResolutionScalingMode,
};
use gametoy::gamedata::{ends_with, BundleEntry, BundleFiles, GameData, GameDataError, ShaderSource};
use gametoy::node::NodeError;
use gametoy::shader::{generate_shader_text, push_decimal, FRAGMENT_PREAMBLE};

fn entry(path: &str, data: &[u8]) -> BundleEntry {
    BundleEntry { path: path.to_string(), data: data.to_vec() }
}

fn empty_config() -> ConfigFile {
    ConfigFile {
        metadata: MetaData {
            game_name: String::new(),
            game_version: String::new(),
            release_date: String::new(),
            website: String::new(),
            author_name: String::new(),
            license: String::new(),
        },
        graph: GraphConfig { nodes: vec![], links: vec![] },
    }
}

fn pass_config(paths: &[&str]) -> RenderPassConfig {
    RenderPassConfig {
        name: "Pass".to_string(),
        output_texture_slots: vec![
            OutputBufferConfig { name: "Color".to_string(), format: OutputBufferFormat::RGBA8, generate_mipmap: false },
            OutputBufferConfig { name: "Mask".to_string(), format: OutputBufferFormat::R8, generate_mipmap: false },
        ],
        input_texture_slots: vec![InputBufferConfig { name: "Prev".to_string() }],
        resolution_scaling_mode: ResolutionScalingMode::Fixed(8, 8),
        fragment_shader_paths: paths.iter().map(|p| p.to_string()).collect(),
        execution_mode: ExecutionMode::Always,
    }
}

fn data_with(sources: &[(&str, &str)]) -> GameData {
    GameData {
        config_file: empty_config(),
        textures: vec![],
        shader_sources: sources
            .iter()
            .map(|(p, t)| ShaderSource { path: p.to_string(), text: t.to_string() })
            .collect(),
    }
}

#[test]
fn entries_are_sorted_by_kind() {
    let files = BundleFiles::from_entries(vec![
        entry("a.frag", b"void main(){}"),
        entry("data.json", b"{}"),
        entry("notes.txt", b"ignored"),
        entry("logo.png", &[1, 2, 3]),
        entry("b.frag", b"// b"),
    ])
    .unwrap();
    assert_eq!(files.config_text, b"{}".to_vec());
    assert_eq!(files.textures.len(), 1);
    assert_eq!(files.textures[0].path, "logo.png");
    assert_eq!(files.textures[0].data, vec![1, 2, 3]);
    assert_eq!(files.shader_sources.len(), 2);
    assert_eq!(files.shader_sources[0].path, "a.frag");
    assert_eq!(files.shader_sources[0].text, "void main(){}");
    assert_eq!(files.shader_sources[1].text, "// b");
}

#[test]
fn last_config_wins() {
    let files = BundleFiles::from_entries(vec![entry("data.json", b"1"), entry("data.json", b"2")]).unwrap();
    assert_eq!(files.config_text, b"2".to_vec());
}

#[test]
fn bundle_without_config_is_rejected() {
    let r = BundleFiles::from_entries(vec![entry("a.frag", b"x"), entry("b.png", b"y")]);
    assert!(matches!(r, Err(GameDataError::MissingConfigFile)));
    assert!(matches!(BundleFiles::from_entries(vec![]), Err(GameDataError::MissingConfigFile)));
}

#[test]
fn shader_that_is_not_text_is_rejected() {
    let r = BundleFiles::from_entries(vec![entry("data.json", b"{}"), entry("bad.frag", &[0xff, 0xfe, 0x41])]);
    match r {
        Err(GameDataError::TarError(p)) => assert_eq!(p, "bad.frag"),
        _ => panic!("expected a read error"),
    }
}

#[test]
fn suffix_test() {
    assert!(ends_with("shader.frag", ".frag"));
    assert!(!ends_with("shader.frag.txt", ".frag"));
    assert!(!ends_with("frag", ".frag"));
    assert!(ends_with("ünï.png", ".png"));
}

#[test]
fn lookups_take_the_last_file_of_a_path() {
    let data = data_with(&[("a.frag", "first"), ("a.frag", "second")]);
    assert_eq!(data.shader_source(&"a.frag".to_string()).unwrap(), "second");
    assert!(data.shader_source(&"b.frag".to_string()).is_none());
}

#[test]
fn decimal_text() {
    let mut s = String::from("n=");
    push_decimal(&mut s, 0);
    push_decimal(&mut s, 1207);
    assert_eq!(s, "n=01207");
}

#[test]
fn shader_text_is_preamble_declarations_and_sources() {
    let data = data_with(&[("common.frag", "float f(){return 1.0;}\n"), ("main.frag", "void main(){}\n")]);
    let text = generate_shader_text(&pass_config(&["common.frag", "main.frag"]), &data).unwrap();
    let expected = format!(
        "{}layout(location=0) out vec4 Color;\nlayout(location=1) out vec1 Mask;\nuniform sampler2D Prev;\nfloat f(){{return 1.0;}}\nvoid main(){{}}\n",
        FRAGMENT_PREAMBLE
    );
    assert_eq!(text, expected);
    assert!(text.contains("uniform float iTime;"));
}

#[test]
fn missing_shader_source_is_named() {
    let data = data_with(&[("main.frag", "void main(){}")]);
    match generate_shader_text(&pass_config(&["main.frag", "missing.frag"]), &data) {
        Err(NodeError::MissingResource(p)) => assert_eq!(p, "missing.frag"),
        _ => panic!("expected a missing resource"),
    }
}

#[test]
fn empty_sources_are_no_shader() {
    let data = data_with(&[("empty.frag", "")]);
    assert!(matches!(generate_shader_text(&pass_config(&["empty.frag"]), &data), Err(NodeError::NoShader)));
    assert!(matches!(generate_shader_text(&pass_config(&[]), &data), Err(NodeError::NoShader)));
}
