use crate::command::{commands_view, emit, CommandView, GlCommand, TextureFilter, TextureId, TextureWrap};
use crate::config_file::{OutputBufferFormat, TextureConfig};
use crate::gamedata::{last_texture_index, GameData};
use crate::node::NodeError;
use vstd::prelude::*;

verus! {

/// PNG color type code of grayscale images.
pub const PNG_GRAYSCALE: u8 = 0;

/// PNG color type code of RGB images.
pub const PNG_RGB: u8 = 2;

/// PNG color type code of RGB images with alpha.
pub const PNG_RGBA: u8 = 6;

/// A decoded image: its size, the PNG color type and bit depth of its pixels,
/// and the pixel bytes row by row.
pub struct DecodedImage {
    pub width: u32,
    pub height: u32,
    pub color_type: u8,
    pub bit_depth: u8,
    pub pixels: Vec<u8>,
}

#[verifier::external_type_specification]
#[verifier::external_body]
pub struct ExDecodingError(png::DecodingError);

/// The first frame of the PNG file `data` as width, height, color type, bit depth
/// and pixels; `None` where `data` is not a PNG the decoder reads.
pub uninterp spec fn png_decoded(data: Seq<u8>) -> Option<(u32, u32, u8, u8, Seq<u8>)>;

/// Relies on png's `Decoder` with no transformations (`Transformations::IDENTITY`,
/// set before `read_info`): `read_info`, then `next_frame` into a buffer of
/// `buffer_size()` bytes, then `output_color_type`, which without transformations
/// is the color type and bit depth of the PNG header (as their header codes).
#[verifier::external_body]
fn decode_png(data: &[u8]) -> (r: Result<DecodedImage, png::DecodingError>)
    ensures
        r is Ok <==> png_decoded(data@) is Some,
        r matches Ok(img) ==> png_decoded(data@) == Some(
            (img.width, img.height, img.color_type, img.bit_depth, img.pixels@),
        ),
{
    let mut decoder = png::Decoder::new(data);
    decoder.set_transformations(png::Transformations::IDENTITY);
    let (info, mut reader) = decoder.read_info()?;
    let mut pixels = vec![0; info.buffer_size()];
    reader.next_frame(&mut pixels)?;
    let (color, depth) = reader.output_color_type();
    Ok(DecodedImage { width: info.width, height: info.height, color_type: color as u8, bit_depth: depth as u8, pixels })
}

/// The texture format of an image of this PNG color type and bit depth.
pub open spec fn image_format(color_type: u8, bit_depth: u8) -> Option<OutputBufferFormat> {
    if color_type == PNG_RGB && bit_depth == 8 {
        Some(OutputBufferFormat::RGB8)
    } else if color_type == PNG_RGB && bit_depth == 16 {
        Some(OutputBufferFormat::RGBA16UI)
    } else if color_type == PNG_RGBA && bit_depth == 8 {
        Some(OutputBufferFormat::RGBA8)
    } else if color_type == PNG_RGBA && bit_depth == 16 {
        Some(OutputBufferFormat::RGBA16UI)
    } else if color_type == PNG_GRAYSCALE && bit_depth == 8 {
        Some(OutputBufferFormat::R8)
    } else if color_type == PNG_GRAYSCALE && bit_depth == 16 {
        Some(OutputBufferFormat::R16UI)
    } else {
        None
    }
}

/// Returns the texture format of an image of this PNG color type and bit depth:
/// RGB, RGBA and grayscale at 8 or 16 bits; any other kind has none.
pub fn format_for_image(color_type: u8, bit_depth: u8) -> (r: Option<OutputBufferFormat>)
    ensures
        r == image_format(color_type, bit_depth),
{
    if color_type == PNG_RGB && bit_depth == 8 {
        Some(OutputBufferFormat::RGB8)
    } else if color_type == PNG_RGB && bit_depth == 16 {
        Some(OutputBufferFormat::RGBA16UI)
    } else if color_type == PNG_RGBA && bit_depth == 8 {
        Some(OutputBufferFormat::RGBA8)
    } else if color_type == PNG_RGBA && bit_depth == 16 {
        Some(OutputBufferFormat::RGBA16UI)
    } else if color_type == PNG_GRAYSCALE && bit_depth == 8 {
        Some(OutputBufferFormat::R8)
    } else if color_type == PNG_GRAYSCALE && bit_depth == 16 {
        Some(OutputBufferFormat::R16UI)
    } else {
        None
    }
}

/// An image node: a texture filled once from a PNG file of the bundle.
pub struct Image {
    pub name: String,
    pub node: usize,
}

/// The texture of image or keyboard node `node`.
pub open spec fn node_texture(node: usize) -> TextureId {
    TextureId { node, back: false, slot: 0 }
}

/// The commands that create an image texture from a decoded image.
pub open spec fn image_commands(node: usize, format: OutputBufferFormat, width: u32, height: u32, pixels: Seq<u8>) -> Seq<CommandView> {
    let texture = node_texture(node);
    seq![
        CommandView::CreateTexture {
            texture,
            min_filter: TextureFilter::Linear,
            mag_filter: TextureFilter::Linear,
            wrap: TextureWrap::Repeat,
        },
        CommandView::TexStorage {
            texture,
            levels: 1,
            internal_format: format.sized_internal_format(),
            width: width as u64,
            height: height as u64,
        },
        CommandView::TexSubImage {
            texture,
            width: width as u64,
            height: height as u64,
            format: format.pixel_layout(),
            data_type: format.component_type(),
            pixels,
        },
    ]
}

/// What building an image node from its configuration gives: an error, or the
/// format, size and pixels of its texture.
pub open spec fn image_outcome(config: TextureConfig, data: GameData) -> Result<(OutputBufferFormat, u32, u32, Seq<u8>), NodeError> {
    match last_texture_index(data.textures@, config.path@) {
        None => Err(NodeError::MissingResource(config.path)),
        Some(i) => match png_decoded(data.textures@[i].data@) {
            None => Err(NodeError::ImageDecodeFailed(config.path)),
            Some((w, h, c, d, px)) => match image_format(c, d) {
                None => Err(NodeError::UnsupportedImageFormat { color_type: c, bit_depth: d }),
                Some(f) => Ok((f, w, h, px)),
            },
        },
    }
}

impl Image {
    /// The name of the single output slot of an image node.
    pub const OUTPUT_BUFFER_NAME: &'static str = "tex";

    /// Builds an image node as node `node`: decodes the PNG the configuration
    /// names and uploads it once.
    ///
    /// Fails with `MissingResource` where the bundle holds no such file, with
    /// `ImageDecodeFailed` where it is not a readable PNG, and with
    /// `UnsupportedImageFormat` where its pixels have no texture format.
    pub fn create_from_config(node: usize, gamedata: &GameData, config: &TextureConfig, out: &mut Vec<GlCommand>) -> (r: Result<Image, NodeError>)
        ensures
            match image_outcome(*config, *gamedata) {
                Err(e) => r matches Err(f) && crate::renderpass::same_node_error(f, e) && final(out)@ == old(out)@,
                Ok((format, w, h, px)) => r matches Ok(img) && img.name@ == config.name@ && img.node == node
                    && commands_view(final(out)@) == commands_view(old(out)@) + image_commands(node, format, w, h, px),
            },
    {
        let data = match gamedata.texture(&config.path) {
            Some(d) => d,
            None => {
                return Err(NodeError::MissingResource(config.path.clone()));
            },
        };
        let decoded = match decode_png(data.as_slice()) {
            Ok(img) => img,
            Err(_) => {
                return Err(NodeError::ImageDecodeFailed(config.path.clone()));
            },
        };
        let format = match format_for_image(decoded.color_type, decoded.bit_depth) {
            Some(f) => f,
            None => {
                return Err(NodeError::UnsupportedImageFormat { color_type: decoded.color_type, bit_depth: decoded.bit_depth });
            },
        };
        let texture = TextureId { node, back: false, slot: 0 };
        emit(out, GlCommand::CreateTexture {
            texture,
            min_filter: TextureFilter::Linear,
            mag_filter: TextureFilter::Linear,
            wrap: TextureWrap::Repeat,
        });
        emit(out, GlCommand::TexStorage {
            texture,
            levels: 1,
            internal_format: format.to_sized_internal_format(),
            width: decoded.width as u64,
            height: decoded.height as u64,
        });
        emit(out, GlCommand::TexSubImage {
            texture,
            width: decoded.width as u64,
            height: decoded.height as u64,
            format: format.to_format(),
            data_type: format.to_type(),
            pixels: decoded.pixels,
        });
        assert(commands_view(final(out)@) =~= commands_view(old(out)@) + image_commands(
            node,
            format,
            decoded.width,
            decoded.height,
            decoded.pixels@,
        ));
        Ok(Image { name: config.name.clone(), node })
    }
}

} // verus!
