use gametoy::command::{GlCommand, TextureFilter, TextureId};
use gametoy::config_file::{ConfigFile, GraphConfig, Link, MetaData, Node, OutputBufferFormat, OutputConfig, TextureConfig};
use gametoy::GameToy;
use gametoy::gamedata::{BundleEntry, GameData};
use gametoy::image::{format_for_image, Image};
use gametoy::node::NodeError;

fn encode(width: u32, height: u32, color: png::ColorType, pixels: &[u8]) -> Vec<u8> {
    encode_with(width, height, color, png::BitDepth::Eight, None, pixels)
}

fn encode_with(
    width: u32,
    height: u32,
    color: png::ColorType,
    depth: png::BitDepth,
    palette: Option<Vec<u8>>,
    pixels: &[u8],
) -> Vec<u8> {
    let mut buf = Vec::new();
    {
        let mut enc = png::Encoder::new(&mut buf, width, height);
        enc.set_color(color);
        enc.set_depth(depth);
        if let Some(p) = palette {
            enc.set_palette(p);
        }
        let mut writer = enc.write_header().unwrap();
        writer.write_image_data(pixels).unwrap();
    }
    buf
}

fn data_with(path: &str, bytes: Vec<u8>) -> GameData {
    GameData {
        config_file: ConfigFile {
            metadata: MetaData {
                game_name: String::new(),
                game_version: String::new(),
                release_date: String::new(),
                website: String::new(),
                author_name: String::new(),
                license: String::new(),
            },
            graph: GraphConfig { nodes: vec![], links: vec![] },
        },
        textures: vec![BundleEntry { path: path.to_string(), data: bytes }],
        shader_sources: vec![],
    }
}

fn config(path: &str) -> TextureConfig {
    TextureConfig { name: "Logo".to_string(), path: path.to_string() }
}

#[test]
fn image_formats_by_png_kind() {
    assert_eq!(format_for_image(2, 8), Some(OutputBufferFormat::RGB8));
    assert_eq!(format_for_image(2, 16), Some(OutputBufferFormat::RGBA16UI));
    assert_eq!(format_for_image(6, 8), Some(OutputBufferFormat::RGBA8));
    assert_eq!(format_for_image(6, 16), Some(OutputBufferFormat::RGBA16UI));
    assert_eq!(format_for_image(0, 8), Some(OutputBufferFormat::R8));
    assert_eq!(format_for_image(0, 16), Some(OutputBufferFormat::R16UI));
    assert_eq!(format_for_image(3, 8), None);
    assert_eq!(format_for_image(4, 8), None);
    assert_eq!(format_for_image(0, 4), None);
}

#[test]
fn png_is_decoded_and_uploaded() {
    let pixels = [255, 0, 0, 0, 255, 0];
    let data = data_with("logo.png", encode(2, 1, png::ColorType::RGB, &pixels));
    let mut out = Vec::new();
    let img = Image::create_from_config(3, &data, &config("logo.png"), &mut out).unwrap();
    assert_eq!(img.name, "Logo");
    assert_eq!(img.node, 3);
    assert_eq!(out.len(), 3);
    let tex = TextureId { node: 3, back: false, slot: 0 };
    assert!(matches!(out[0], GlCommand::CreateTexture { texture, min_filter: TextureFilter::Linear, .. } if texture == tex));
    assert!(matches!(out[1], GlCommand::TexStorage { levels: 1, internal_format: 0x8051, width: 2, height: 1, .. }));
    match &out[2] {
        GlCommand::TexSubImage { texture, width, height, format, data_type, pixels: uploaded } => {
            assert_eq!(*texture, tex);
            assert_eq!((*width, *height, *format, *data_type), (2, 1, 0x1907, 0x1401));
            assert_eq!(uploaded, &pixels.to_vec());
        },
        _ => panic!("expected an upload"),
    }
}

#[test]
fn grayscale_png_is_single_channel() {
    let data = data_with("g.png", encode(1, 2, png::ColorType::Grayscale, &[7, 9]));
    let mut out = Vec::new();
    Image::create_from_config(0, &data, &config("g.png"), &mut out).unwrap();
    assert!(matches!(out[1], GlCommand::TexStorage { internal_format: 0x8229, width: 1, height: 2, .. }));
    assert!(matches!(&out[2], GlCommand::TexSubImage { pixels, .. } if pixels == &vec![7, 9]));
}

#[test]
fn missing_image_is_named() {
    let data = data_with("logo.png", vec![]);
    let mut out = Vec::new();
    match Image::create_from_config(0, &data, &config("other.png"), &mut out) {
        Err(NodeError::MissingResource(p)) => assert_eq!(p, "other.png"),
        _ => panic!("expected a missing resource"),
    }
    assert!(out.is_empty());
}

#[test]
fn corrupt_png_fails_to_decode() {
    let data = data_with("bad.png", b"not a png at all".to_vec());
    let mut out = Vec::new();
    match Image::create_from_config(0, &data, &config("bad.png"), &mut out) {
        Err(NodeError::ImageDecodeFailed(p)) => assert_eq!(p, "bad.png"),
        _ => panic!("expected a decode failure"),
    }
}

#[test]
fn gray_alpha_png_has_no_format() {
    let data = data_with("ga.png", encode(1, 1, png::ColorType::GrayscaleAlpha, &[1, 2]));
    let mut out = Vec::new();
    match Image::create_from_config(0, &data, &config("ga.png"), &mut out) {
        Err(NodeError::UnsupportedImageFormat { color_type, bit_depth }) => {
            assert_eq!((color_type, bit_depth), (4, 8));
        },
        _ => panic!("expected an unsupported format"),
    }
}

#[test]
fn image_node_feeds_the_output() {
    let mut data = data_with("logo.png", encode(1, 1, png::ColorType::RGBA, &[1, 2, 3, 4]));
    data.config_file.graph.nodes = vec![
        Node::Image(config("logo.png")),
        Node::Output(OutputConfig { name: "Screen".to_string() }),
    ];
    data.config_file.graph.links = vec![Link {
        start_node: "Logo".to_string(),
        start_output_slot: "tex".to_string(),
        end_node: "Screen".to_string(),
        end_input_slot: "col".to_string(),
    }];
    let (mut toy, setup) = GameToy::new(&data, true).unwrap();
    assert!(matches!(setup[2], GlCommand::TexStorage { internal_format: 0x8058, .. }));
    let frame = toy.render(1_000_000).unwrap();
    assert!(frame.iter().any(|c| matches!(c, GlCommand::BindTexture { unit: 0, texture: Some(t) } if *t == TextureId { node: 0, back: false, slot: 0 })));
}

#[test]
fn sixteen_bit_png_keeps_its_depth() {
    let data = data_with("g16.png", encode_with(2, 1, png::ColorType::Grayscale, png::BitDepth::Sixteen, None, &[1, 2, 3, 4]));
    let mut out = Vec::new();
    Image::create_from_config(0, &data, &config("g16.png"), &mut out).unwrap();
    assert!(matches!(out[1], GlCommand::TexStorage { internal_format: 0x8234, width: 2, height: 1, .. }));
    assert!(matches!(&out[2], GlCommand::TexSubImage { pixels, data_type: 0x1403, .. } if pixels == &vec![1, 2, 3, 4]));
}

#[test]
fn palette_png_is_rejected() {
    let data = data_with("p.png", encode_with(1, 1, png::ColorType::Indexed, png::BitDepth::Eight, Some(vec![9, 9, 9]), &[0]));
    let mut out = Vec::new();
    match Image::create_from_config(0, &data, &config("p.png"), &mut out) {
        Err(NodeError::UnsupportedImageFormat { color_type, bit_depth }) => assert_eq!((color_type, bit_depth), (3, 8)),
        _ => panic!("expected an unsupported format"),
    }
}
