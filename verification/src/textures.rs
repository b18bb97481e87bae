//! 2D texture model: the unconfigured-to-configured state machine.
//!
//! A texture starts unconfigured.  Configuring it (with or without initial
//! pixel data) sets the wrap and filter parameters once and is terminal: a
//! second attempt is answered with `None`, and the embedding application
//! performs no native call for it.  Writing a sub-region of an unconfigured
//! texture is likewise answered with `None`.  Each successful operation is
//! returned as plain call descriptors that the embedding application
//! performs against the native context.

use vstd::prelude::*;

verus! {

/// Native identifier of the 2D texture binding target.
pub const GL_TEXTURE_2D: u32 = 0x0DE1;
/// Native identifier of the magnification-filter parameter.
pub const GL_TEXTURE_MAG_FILTER: u32 = 0x2800;
/// Native identifier of the minification-filter parameter.
pub const GL_TEXTURE_MIN_FILTER: u32 = 0x2801;
/// Native identifier of the horizontal wrap-mode parameter.
pub const GL_TEXTURE_WRAP_S: u32 = 0x2802;
/// Native identifier of the vertical wrap-mode parameter.
pub const GL_TEXTURE_WRAP_T: u32 = 0x2803;
/// Native identifier of the unsigned-byte pixel component type.
pub const GL_UNSIGNED_BYTE: u32 = 0x1401;
/// Native value of the linear filter.
pub const GL_LINEAR: u32 = 0x2601;
/// Native value of the nearest-sample filter.
pub const GL_NEAREST: u32 = 0x2600;
/// Native value of the repeating wrap mode.
pub const GL_REPEAT: u32 = 0x2901;
/// Native value of the clamp-to-edge wrap mode.
pub const GL_CLAMP_TO_EDGE: u32 = 0x812F;
/// Native value of the four-channel pixel format.
pub const GL_RGBA: u32 = 0x1908;
/// Native value of the three-channel pixel format.
pub const GL_RGB: u32 = 0x1907;
/// Native value of the single-channel pixel format.
pub const GL_RED: u32 = 0x1903;

/// A filter or wrap-mode choice for a texture parameter.
#[derive(Clone, Copy, Debug, PartialEq, Eq, Structural)]
pub enum TextureParam {
    Linear,
    ClampToEdge,
    Nearest,
    Repeat,
}

/// Native value of a filter or wrap-mode choice.
pub open spec fn texture_param_gl_spec(param: TextureParam) -> u32 {
    match param {
        TextureParam::Linear => GL_LINEAR,
        TextureParam::ClampToEdge => GL_CLAMP_TO_EDGE,
        TextureParam::Nearest => GL_NEAREST,
        TextureParam::Repeat => GL_REPEAT,
    }
}

pub fn texture_param_gl(param: TextureParam) -> (r: u32)
    ensures
        r == texture_param_gl_spec(param),
{
    match param {
        TextureParam::Linear => GL_LINEAR,
        TextureParam::ClampToEdge => GL_CLAMP_TO_EDGE,
        TextureParam::Nearest => GL_NEAREST,
        TextureParam::Repeat => GL_REPEAT,
    }
}

/// A pixel format: how many channels one pixel carries.
#[derive(Clone, Copy, Debug, PartialEq, Eq, Structural)]
pub enum TextureFormat {
    Rgba,
    Rgb,
    Red,
}

/// Native value of a pixel format.
pub open spec fn texture_format_gl_spec(format: TextureFormat) -> u32 {
    match format {
        TextureFormat::Rgba => GL_RGBA,
        TextureFormat::Rgb => GL_RGB,
        TextureFormat::Red => GL_RED,
    }
}

pub fn texture_format_gl(format: TextureFormat) -> (r: u32)
    ensures
        r == texture_format_gl_spec(format),
{
    match format {
        TextureFormat::Rgba => GL_RGBA,
        TextureFormat::Rgb => GL_RGB,
        TextureFormat::Red => GL_RED,
    }
}

/// Pixel format inferred from the channel count a decoded image reports:
/// one channel is single-channel, three is three-channel, anything else is
/// four-channel.
pub open spec fn format_for_channels_spec(channels: u32) -> TextureFormat {
    if channels == 1 {
        TextureFormat::Red
    } else if channels == 3 {
        TextureFormat::Rgb
    } else {
        TextureFormat::Rgba
    }
}

pub fn format_for_channels(channels: u32) -> (r: TextureFormat)
    ensures
        r == format_for_channels_spec(channels),
{
    if channels == 1 {
        TextureFormat::Red
    } else if channels == 3 {
        TextureFormat::Rgb
    } else {
        TextureFormat::Rgba
    }
}

/// The configuration a texture is given once, at creation: filters, wrap
/// modes, pixel formats, and whether a full mip chain is generated after an
/// image upload.
#[derive(Clone, Copy, Debug, PartialEq, Eq, Structural)]
pub struct TextureConfig {
    pub min_filter: TextureParam,
    pub mag_filter: TextureParam,
    pub wrap_s: TextureParam,
    pub wrap_t: TextureParam,
    pub format: TextureFormat,
    pub internal_format: TextureFormat,
    pub bitmap: bool,
}

impl TextureConfig {
    /// The default configuration: nearest minification, linear magnification,
    /// repeating wrap on both axes, three-channel pixel data in four-channel
    /// storage, and mip generation requested.
    pub fn new() -> (r: Self)
        ensures
            r.min_filter == TextureParam::Nearest,
            r.mag_filter == TextureParam::Linear,
            r.wrap_s == TextureParam::Repeat,
            r.wrap_t == TextureParam::Repeat,
            r.format == TextureFormat::Rgb,
            r.internal_format == TextureFormat::Rgba,
            r.bitmap == true,
    {
        Self {
            min_filter: TextureParam::Nearest,
            mag_filter: TextureParam::Linear,
            wrap_s: TextureParam::Repeat,
            wrap_t: TextureParam::Repeat,
            format: TextureFormat::Rgb,
            internal_format: TextureFormat::Rgba,
            bitmap: true,
        }
    }
}

/// One set-texture-parameter call on the 2D texture target.
#[derive(Clone, Copy, Debug, PartialEq, Eq, Structural)]
pub struct TexParamCall {
    pub pname: u32,
    pub value: u32,
}

/// One allocate-and-upload-image call on the 2D texture target, at mip level
/// 0 with unsigned-byte components.
#[derive(Clone, Copy, Debug, PartialEq, Eq, Structural)]
pub struct TexImageCall {
    pub internal_format: u32,
    pub width: u32,
    pub height: u32,
    pub format: u32,
}

/// One write-sub-region call on the 2D texture target, at mip level 0 with
/// unsigned-byte components.
#[derive(Clone, Copy, Debug, PartialEq, Eq, Structural)]
pub struct TexSubImageCall {
    pub xoffset: u32,
    pub yoffset: u32,
    pub width: u32,
    pub height: u32,
    pub format: u32,
}

/// The native calls of one successful configuration, in order: four
/// set-parameter calls, optionally one image upload, and optionally one
/// generate-mip-chain call.
pub struct TextureSetup {
    pub param_calls: Vec<TexParamCall>,
    pub image: Option<TexImageCall>,
    pub gen_mipmap: bool,
}

/// The four set-parameter calls a configuration issues, in order: wrap S,
/// wrap T, minification filter, magnification filter.
pub open spec fn param_calls_spec(config: TextureConfig) -> Seq<TexParamCall> {
    seq![
        TexParamCall { pname: GL_TEXTURE_WRAP_S, value: texture_param_gl_spec(config.wrap_s) },
        TexParamCall { pname: GL_TEXTURE_WRAP_T, value: texture_param_gl_spec(config.wrap_t) },
        TexParamCall {
            pname: GL_TEXTURE_MIN_FILTER,
            value: texture_param_gl_spec(config.min_filter),
        },
        TexParamCall {
            pname: GL_TEXTURE_MAG_FILTER,
            value: texture_param_gl_spec(config.mag_filter),
        },
    ]
}

/// A 2D texture: the native handle (0 until the embedding application
/// generates one and hands it in), the dimensions, and the configuration,
/// `None` while the texture is unconfigured.
pub struct Texture2D {
    pub id: u32,
    pub width: u32,
    pub height: u32,
    pub config: Option<TextureConfig>,
}

impl Texture2D {
    /// A fresh, unconfigured texture.
    pub fn new() -> (r: Self)
        ensures
            r.id == 0,
            r.width == 0,
            r.height == 0,
            r.config is None,
    {
        Self { id: 0, width: 0, height: 0, config: None }
    }

    /// Records the native identifier the driver generated for this texture.
    pub fn attach_native_id(&mut self, id: u32)
        ensures
            final(self).id == id,
            final(self).width == old(self).width,
            final(self).height == old(self).height,
            final(self).config == old(self).config,
    {
        self.id = id;
    }

    /// Configures the texture without uploading pixel data, so that regions
    /// can be written later.  On the first call the configuration is stored
    /// and the set-parameter calls are returned; on a texture that is already
    /// configured nothing changes and `None` is returned, so the embedding
    /// application performs the native allocation exactly once.
    pub fn gen_texture(&mut self, config: TextureConfig) -> (r: Option<TextureSetup>)
        ensures
            old(self).config is Some ==> r is None && *final(self) == *old(self),
            old(self).config is None ==> {
                &&& final(self).config == Some(config)
                &&& final(self).id == old(self).id
                &&& final(self).width == old(self).width
                &&& final(self).height == old(self).height
                &&& r matches Some(setup) && setup.param_calls@ == param_calls_spec(config)
                    && setup.image is None && setup.gen_mipmap == false
            },
    {
        if self.config.is_some() {
            return None;
        }
        self.config = Some(config);
        Some(TextureSetup { param_calls: build_param_calls(&config), image: None, gen_mipmap: false })
    }

    /// Configures the texture and uploads the caller's pixel data of the
    /// given dimensions.  On a texture that is already configured nothing
    /// changes and `None` is returned.  No mip chain is generated on this
    /// path.
    pub fn load_from_memory(&mut self, width: u32, height: u32, config: TextureConfig) -> (r:
        Option<TextureSetup>)
        ensures
            old(self).config is Some ==> r is None && *final(self) == *old(self),
            old(self).config is None ==> {
                &&& final(self).config == Some(config)
                &&& final(self).id == old(self).id
                &&& final(self).width == old(self).width
                &&& final(self).height == old(self).height
                &&& r matches Some(setup) && setup.param_calls@ == param_calls_spec(config)
                    && setup.gen_mipmap == false && setup.image == Some(
                    TexImageCall {
                        internal_format: texture_format_gl_spec(config.internal_format),
                        width,
                        height,
                        format: texture_format_gl_spec(config.format),
                    },
                )
            },
    {
        if self.config.is_some() {
            return None;
        }
        self.config = Some(config);
        let image = TexImageCall {
            internal_format: texture_format_gl(config.internal_format),
            width,
            height,
            format: texture_format_gl(config.format),
        };
        Some(
            TextureSetup {
                param_calls: build_param_calls(&config),
                image: Some(image),
                gen_mipmap: false,
            },
        )
    }

    /// Configures the texture from an image that an external decoder has
    /// already decoded: the pixel format is inferred from the reported
    /// channel count, overriding the one in the configuration, and a mip
    /// chain is generated exactly when the configuration requests it.  On a
    /// texture that is already configured nothing changes and `None` is
    /// returned.
    pub fn load_decoded(&mut self, width: u32, height: u32, channels: u32, config: TextureConfig)
        -> (r: Option<TextureSetup>)
        ensures
            old(self).config is Some ==> r is None && *final(self) == *old(self),
            old(self).config is None ==> {
                let stored = TextureConfig {
                    format: format_for_channels_spec(channels),
                    ..config
                };
                &&& final(self).config == Some(stored)
                &&& final(self).id == old(self).id
                &&& final(self).width == old(self).width
                &&& final(self).height == old(self).height
                &&& r matches Some(setup) && setup.param_calls@ == param_calls_spec(stored)
                    && setup.gen_mipmap == config.bitmap && setup.image == Some(
                    TexImageCall {
                        internal_format: texture_format_gl_spec(config.internal_format),
                        width,
                        height,
                        format: texture_format_gl_spec(format_for_channels_spec(channels)),
                    },
                )
            },
    {
        if self.config.is_some() {
            return None;
        }
        let stored = TextureConfig { format: format_for_channels(channels), ..config };
        self.config = Some(stored);
        let image = TexImageCall {
            internal_format: texture_format_gl(stored.internal_format),
            width,
            height,
            format: texture_format_gl(stored.format),
        };
        Some(
            TextureSetup {
                param_calls: build_param_calls(&stored),
                image: Some(image),
                gen_mipmap: stored.bitmap,
            },
        )
    }

    /// The write-sub-region call for an already-configured texture, in the
    /// pixel format the texture was configured with.  On an unconfigured
    /// texture the result is `None` and the embedding application performs no
    /// native call.
    pub fn send_data(&self, xoffset: u32, yoffset: u32, width: u32, height: u32) -> (r: Option<
        TexSubImageCall,
    >)
        ensures
            self.config is None ==> r is None,
            self.config matches Some(config) ==> r == Some(
                TexSubImageCall {
                    xoffset,
                    yoffset,
                    width,
                    height,
                    format: texture_format_gl_spec(config.format),
                },
            ),
    {
        match &self.config {
            None => None,
            Some(config) => Some(
                TexSubImageCall {
                    xoffset,
                    yoffset,
                    width,
                    height,
                    format: texture_format_gl(config.format),
                },
            ),
        }
    }
}

/// Builds the four set-parameter calls of a configuration.
fn build_param_calls(config: &TextureConfig) -> (r: Vec<TexParamCall>)
    ensures
        r@ == param_calls_spec(*config),
{
    let mut calls: Vec<TexParamCall> = Vec::new();
    calls.push(TexParamCall { pname: GL_TEXTURE_WRAP_S, value: texture_param_gl(config.wrap_s) });
    calls.push(TexParamCall { pname: GL_TEXTURE_WRAP_T, value: texture_param_gl(config.wrap_t) });
    calls.push(
        TexParamCall { pname: GL_TEXTURE_MIN_FILTER, value: texture_param_gl(config.min_filter) },
    );
    calls.push(
        TexParamCall { pname: GL_TEXTURE_MAG_FILTER, value: texture_param_gl(config.mag_filter) },
    );
    proof {
        assert(calls@ =~= param_calls_spec(*config));
    }
    calls
}

} // verus!
