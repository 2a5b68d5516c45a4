use gametoy::command::{color_attachment_int_to_gl, texture_unit_id_to_gl};
use gametoy::config_file::{
    ExecutionMode, InputBufferConfig, KeyboardConfig, Node, OutputBufferConfig, OutputBufferFormat,
    OutputConfig, RenderPassConfig, ResolutionScalingMode, ScaleFactor, TextureConfig,
};
use gametoy::node_info::{
    execution_mode_to_str, get_input_slots, get_node_name, get_node_type_name, get_output_slots,
    pixel_format_to_str,
};
use gametoy::pairing::{pairing_function, unpairing_function};

fn sample_pass() -> Node {
    Node::RenderPass(RenderPassConfig {
        name: "Blur".to_string(),
        output_texture_slots: vec![
            OutputBufferConfig { name: "Color".to_string(), format: OutputBufferFormat::RGBA8, generate_mipmap: false },
            OutputBufferConfig { name: "Depth".to_string(), format: OutputBufferFormat::R32F, generate_mipmap: true },
        ],
        input_texture_slots: vec![
            InputBufferConfig { name: "Source".to_string() },
            InputBufferConfig { name: "Noise".to_string() },
        ],
        resolution_scaling_mode: ResolutionScalingMode::Fixed(64, 32),
        fragment_shader_paths: vec!["blur.frag".to_string()],
        execution_mode: ExecutionMode::Always,
    })
}

#[test]
fn sized_internal_formats_are_gl_values() {
    assert_eq!(OutputBufferFormat::R8.to_sized_internal_format(), 0x8229);
    assert_eq!(OutputBufferFormat::RGBA8.to_sized_internal_format(), 0x8058);
    assert_eq!(OutputBufferFormat::RGBA32F.to_sized_internal_format(), 0x8814);
    assert_eq!(OutputBufferFormat::SRGB8_ALPHA8.to_sized_internal_format(), 0x8C43);
    assert_eq!(OutputBufferFormat::RGB10_A2UI.to_sized_internal_format(), 0x906F);
}

#[test]
fn pixel_layouts_follow_channels_and_integer_kind() {
    assert_eq!(OutputBufferFormat::R16F.to_format(), 0x1903);
    assert_eq!(OutputBufferFormat::R8UI.to_format(), 0x8D94);
    assert_eq!(OutputBufferFormat::RG8.to_format(), 0x8227);
    assert_eq!(OutputBufferFormat::RGB32I.to_format(), 0x8D98);
    assert_eq!(OutputBufferFormat::RGBA16UI.to_format(), 0x8D99);
}

#[test]
fn component_types_match_formats() {
    assert_eq!(OutputBufferFormat::R8_SNORM.to_type(), 0x1400);
    assert_eq!(OutputBufferFormat::RGB565.to_type(), 0x8363);
    assert_eq!(OutputBufferFormat::R11F_G11F_B10F.to_type(), 0x8C3B);
    assert_eq!(OutputBufferFormat::RGBA4.to_type(), 0x8033);
    assert_eq!(OutputBufferFormat::RGBA16F.to_type(), 0x140B);
}

#[test]
fn channel_counts() {
    assert_eq!(OutputBufferFormat::R32UI.to_channel_count(), 1);
    assert_eq!(OutputBufferFormat::RG16I.to_channel_count(), 2);
    assert_eq!(OutputBufferFormat::RGB9_E5.to_channel_count(), 3);
    assert_eq!(OutputBufferFormat::RGB5_A1.to_channel_count(), 4);
}

#[test]
fn format_labels() {
    assert_eq!(pixel_format_to_str(&OutputBufferFormat::R11F_G11F_B10F), "R11F_G11F_B10F");
    assert_eq!(pixel_format_to_str(&OutputBufferFormat::RGBA8_SNORM), "RGBA8_SNORM");
    assert_eq!(execution_mode_to_str(&ExecutionMode::Always), "Always");
    assert_eq!(execution_mode_to_str(&ExecutionMode::CreationOrResized), "Creation Or Resized");
    assert_eq!(execution_mode_to_str(&ExecutionMode::InputsChanged), "Inputs Changed");
}

#[test]
fn node_names_and_kinds() {
    let pass = sample_pass();
    let image = Node::Image(TextureConfig { name: "Logo".to_string(), path: "logo.png".to_string() });
    let keys = Node::Keyboard(KeyboardConfig { name: "Keys".to_string() });
    let out = Node::Output(OutputConfig { name: "Screen".to_string() });
    assert_eq!(get_node_name(&pass), "Blur");
    assert_eq!(get_node_name(&image), "Logo");
    assert_eq!(get_node_type_name(&pass), "RenderPass");
    assert_eq!(get_node_type_name(&image), "Image");
    assert_eq!(get_node_type_name(&keys), "Keyboard");
    assert_eq!(get_node_type_name(&out), "Output");
}

#[test]
fn slots_of_each_kind() {
    assert_eq!(get_input_slots(&sample_pass()), vec!["Source".to_string(), "Noise".to_string()]);
    assert_eq!(get_output_slots(&sample_pass()), vec!["Color".to_string(), "Depth".to_string()]);
    let image = Node::Image(TextureConfig { name: "Logo".to_string(), path: "logo.png".to_string() });
    assert!(get_input_slots(&image).is_empty());
    assert_eq!(get_output_slots(&image), vec!["tex".to_string()]);
    let keys = Node::Keyboard(KeyboardConfig { name: "Keys".to_string() });
    assert_eq!(get_output_slots(&keys), vec!["tex".to_string()]);
    let out = Node::Output(OutputConfig { name: "Screen".to_string() });
    assert_eq!(get_input_slots(&out), vec!["col".to_string()]);
    assert!(get_output_slots(&out).is_empty());
}

#[test]
fn pairing_values() {
    assert_eq!(pairing_function(0, 0), 0);
    assert_eq!(pairing_function(3, 5), 28);
    assert_eq!(pairing_function(5, 3), 33);
    assert_eq!(unpairing_function(28), (3, 5));
    assert_eq!(unpairing_function(33), (5, 3));
}

#[test]
fn unpairing_inverts_pairing() {
    for x in 0..40usize {
        for y in 0..40usize {
            assert_eq!(unpairing_function(pairing_function(x, y)), (x, y));
        }
    }
    assert_eq!(unpairing_function(pairing_function(4_000_000_000, 7)), (4_000_000_000, 7));
}

#[test]
fn scale_factors_round_down() {
    assert_eq!(ScaleFactor { numerator: 1, denominator: 1 }.apply(1920), 1920);
    assert_eq!(ScaleFactor { numerator: 1, denominator: 2 }.apply(1080), 540);
    assert_eq!(ScaleFactor { numerator: 1, denominator: 3 }.apply(1000), 333);
    assert_eq!(ScaleFactor { numerator: 3, denominator: 2 }.apply(u32::MAX), 6_442_450_942);
    assert_eq!(ScaleFactor { numerator: 5, denominator: 0 }.apply(640), 0);
}

#[test]
fn gl_enumerant_offsets() {
    assert_eq!(color_attachment_int_to_gl(0), 0x8CE0);
    assert_eq!(color_attachment_int_to_gl(3), 0x8CE3);
    assert_eq!(texture_unit_id_to_gl(0), 0x84C0);
    assert_eq!(texture_unit_id_to_gl(5), 0x84C5);
}
