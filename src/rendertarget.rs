use vstd::prelude::*;

use crate::color::Color;
use crate::command::GlCall;
use crate::error::{CreationError, UploadError};
use crate::glenum::{
    COLOR_ATTACHMENT0, FLOAT, FRAMEBUFFER, FRAMEBUFFER_COMPLETE, NEAREST, R16, R8, RED, RGBA,
    RGBA32F, RGBA8, TEXTURE_2D, TEXTURE_MAG_FILTER, TEXTURE_MIN_FILTER, UNSIGNED_BYTE,
    UNSIGNED_SHORT,
};

verus! {

/// Available pixel formats for textures and render targets.
#[allow(non_camel_case_types)]
#[derive(Clone, Copy, Debug, PartialEq, Eq, Structural)]
pub enum PixelFormat {
    RGBA32F,
    RGBA8,
    R8,
    R16,
}

impl PixelFormat {
    /// The layout in which pixel data of this format is uploaded.
    pub open spec fn spec_gl_format(self) -> u32 {
        match self {
            PixelFormat::RGBA32F | PixelFormat::RGBA8 => RGBA,
            PixelFormat::R8 | PixelFormat::R16 => RED,
        }
    }

    /// The storage the backend allocates for this format.
    pub open spec fn spec_gl_internal(self) -> u32 {
        match self {
            PixelFormat::RGBA32F => RGBA32F,
            PixelFormat::RGBA8 => RGBA8,
            PixelFormat::R8 => R8,
            PixelFormat::R16 => R16,
        }
    }

    /// The type of one component of a pixel of this format.
    pub open spec fn spec_gl_type(self) -> u32 {
        match self {
            PixelFormat::RGBA32F => FLOAT,
            PixelFormat::RGBA8 | PixelFormat::R8 => UNSIGNED_BYTE,
            PixelFormat::R16 => UNSIGNED_SHORT,
        }
    }

    pub fn get_gl_format(&self) -> (r: u32)
        ensures
            r == self.spec_gl_format(),
    {
        match self {
            PixelFormat::RGBA32F | PixelFormat::RGBA8 => RGBA,
            PixelFormat::R8 | PixelFormat::R16 => RED,
        }
    }

    pub fn get_gl_internal(&self) -> (r: u32)
        ensures
            r == self.spec_gl_internal(),
    {
        match self {
            PixelFormat::RGBA32F => RGBA32F,
            PixelFormat::RGBA8 => RGBA8,
            PixelFormat::R8 => R8,
            PixelFormat::R16 => R16,
        }
    }

    pub fn get_gl_type(&self) -> (r: u32)
        ensures
            r == self.spec_gl_type(),
    {
        match self {
            PixelFormat::RGBA32F => FLOAT,
            PixelFormat::RGBA8 | PixelFormat::R8 => UNSIGNED_BYTE,
            PixelFormat::R16 => UNSIGNED_SHORT,
        }
    }
}

/// Whether a target of `width` by `height` can be created: neither side is
/// zero, and both fit the backend's signed sizes.
pub open spec fn size_accepted(width: u32, height: u32) -> bool {
    0 < width <= i32::MAX && 0 < height <= i32::MAX
}

/// The calls that set up framebuffer `fb` with texture `tex` as its color
/// attachment, storage of `width` by `height` in `fmt`, and then query its
/// completeness; both bindings are undone at the end.
pub open spec fn creation_seq(fb: u32, tex: u32, width: u32, height: u32, fmt: PixelFormat) -> Seq<GlCall> {
    seq![
        GlCall::BindFramebuffer { target: FRAMEBUFFER, framebuffer: fb },
        GlCall::BindTexture { target: TEXTURE_2D, texture: tex },
        GlCall::TexParameteri { target: TEXTURE_2D, pname: TEXTURE_MAG_FILTER, param: NEAREST as i32 },
        GlCall::TexParameteri { target: TEXTURE_2D, pname: TEXTURE_MIN_FILTER, param: NEAREST as i32 },
        GlCall::FramebufferTexture { target: FRAMEBUFFER, attachment: COLOR_ATTACHMENT0, texture: tex, level: 0 },
        GlCall::TexImage2D {
            target: TEXTURE_2D,
            level: 0,
            internal_format: fmt.spec_gl_internal() as i32,
            width: width as i32,
            height: height as i32,
            border: 0,
            format: fmt.spec_gl_format(),
            ty: fmt.spec_gl_type(),
            with_pixels: false,
        },
        GlCall::CheckFramebufferStatus { target: FRAMEBUFFER },
        GlCall::BindFramebuffer { target: FRAMEBUFFER, framebuffer: 0 },
        GlCall::BindTexture { target: TEXTURE_2D, texture: 0 },
    ]
}

/// The calls that delete framebuffer `fb` and texture `tex`.
pub open spec fn release_seq(fb: u32, tex: u32) -> Seq<GlCall> {
    seq![
        GlCall::DeleteFramebuffer { framebuffer: fb },
        GlCall::DeleteTexture { texture: tex },
    ]
}

/// The calls that replace the storage of texture `tex`, attached to `fb`,
/// by `width` by `height` RGBA pixels of 8 bits per channel taken from the
/// caller's data; both bindings are undone at the end.
pub open spec fn upload_seq(fb: u32, tex: u32, width: u32, height: u32) -> Seq<GlCall> {
    seq![
        GlCall::BindFramebuffer { target: FRAMEBUFFER, framebuffer: fb },
        GlCall::BindTexture { target: TEXTURE_2D, texture: tex },
        GlCall::TexImage2D {
            target: TEXTURE_2D,
            level: 0,
            internal_format: RGBA8 as i32,
            width: width as i32,
            height: height as i32,
            border: 0,
            format: RGBA,
            ty: UNSIGNED_BYTE,
            with_pixels: true,
        },
        GlCall::BindTexture { target: TEXTURE_2D, texture: 0 },
        GlCall::BindFramebuffer { target: FRAMEBUFFER, framebuffer: 0 },
    ]
}

/// A framebuffer with one texture as its color attachment. Its sizes are
/// fixed at creation. Not `Clone`: the two handles have a single owner.
#[derive(Debug)]
pub struct RenderTarget {
    width: u32,
    height: u32,
    fmt: PixelFormat,
    fb: u32,
    tex: u32,
}

impl RenderTarget {
    pub closed spec fn spec_width(&self) -> u32 {
        self.width
    }

    pub closed spec fn spec_height(&self) -> u32 {
        self.height
    }

    pub closed spec fn format(&self) -> PixelFormat {
        self.fmt
    }

    pub closed spec fn framebuffer(&self) -> u32 {
        self.fb
    }

    pub closed spec fn texture(&self) -> u32 {
        self.tex
    }

    /// Both handles are valid, and the sizes are those that were accepted.
    pub open spec fn wf(&self) -> bool {
        self.framebuffer() != 0 && self.texture() != 0 && size_accepted(
            self.spec_width(),
            self.spec_height(),
        )
    }

    /// Whether a target of these sizes may be created; the error says why not.
    pub fn check_size(width: u32, height: u32) -> (r: Result<(), CreationError>)
        ensures
            size_accepted(width, height) <==> r is Ok,
            (width == 0 || height == 0) <==> r == Err::<(), CreationError>(
                CreationError::EmptySize { width, height },
            ),
            (width != 0 && height != 0 && !size_accepted(width, height)) <==> r
                == Err::<(), CreationError>(CreationError::TooLarge { width, height }),
    {
        if width == 0 || height == 0 {
            Err(CreationError::EmptySize { width, height })
        } else if width > i32::MAX as u32 || height > i32::MAX as u32 {
            Err(CreationError::TooLarge { width, height })
        } else {
            Ok(())
        }
    }

    /// The calls that set up the fresh handles `fb` and `tex` as a target of
    /// `width` by `height` in `fmt`. The last query answers the completeness
    /// status that `new` takes.
    pub fn creation_calls(fb: u32, tex: u32, width: u32, height: u32, fmt: PixelFormat) -> (r: Vec<GlCall>)
        requires
            size_accepted(width, height),
        ensures
            r@ == creation_seq(fb, tex, width, height, fmt),
    {
        vec![
            GlCall::BindFramebuffer { target: FRAMEBUFFER, framebuffer: fb },
            GlCall::BindTexture { target: TEXTURE_2D, texture: tex },
            GlCall::TexParameteri { target: TEXTURE_2D, pname: TEXTURE_MAG_FILTER, param: NEAREST as i32 },
            GlCall::TexParameteri { target: TEXTURE_2D, pname: TEXTURE_MIN_FILTER, param: NEAREST as i32 },
            GlCall::FramebufferTexture { target: FRAMEBUFFER, attachment: COLOR_ATTACHMENT0, texture: tex, level: 0 },
            GlCall::TexImage2D {
                target: TEXTURE_2D,
                level: 0,
                internal_format: fmt.get_gl_internal() as i32,
                width: width as i32,
                height: height as i32,
                border: 0,
                format: fmt.get_gl_format(),
                ty: fmt.get_gl_type(),
                with_pixels: false,
            },
            GlCall::CheckFramebufferStatus { target: FRAMEBUFFER },
            GlCall::BindFramebuffer { target: FRAMEBUFFER, framebuffer: 0 },
            GlCall::BindTexture { target: TEXTURE_2D, texture: 0 },
        ]
    }

    /// Completes the creation of a target of `width` by `height` in `fmt`
    /// from the handles `fb` and `tex` and the completeness `status` that
    /// `creation_calls` queried. On failure the error comes with the calls
    /// that release both handles, so the caller keeps no partial object.
    pub fn new(fb: u32, tex: u32, width: u32, height: u32, fmt: PixelFormat, status: u32) -> (r: Result<
        RenderTarget,
        (CreationError, Vec<GlCall>),
    >)
        requires
            fb != 0,
            tex != 0,
        ensures
            (size_accepted(width, height) && status == FRAMEBUFFER_COMPLETE) <==> r is Ok,
            r matches Ok(t) ==> t.wf() && t.spec_width() == width && t.spec_height() == height
                && t.format() == fmt && t.framebuffer() == fb && t.texture() == tex,
            r matches Err(e) ==> e.1@ == release_seq(fb, tex),
            (width == 0 || height == 0) ==> (r matches Err(e)
                && e.0 == CreationError::EmptySize { width, height }),
            (width != 0 && height != 0 && !size_accepted(width, height)) ==> (r matches Err(e)
                && e.0 == CreationError::TooLarge { width, height }),
            (size_accepted(width, height) && status != FRAMEBUFFER_COMPLETE) ==> (r matches Err(e)
                && e.0 == CreationError::IncompleteFramebuffer { status, width, height }),
    {
        let checked = RenderTarget::check_size(width, height);
        match checked {
            Err(e) => Err((e, RenderTarget::release_calls(fb, tex))),
            Ok(()) => {
                if status != FRAMEBUFFER_COMPLETE {
                    Err((CreationError::IncompleteFramebuffer { status, width, height }, RenderTarget::release_calls(fb, tex)))
                } else {
                    Ok(RenderTarget { width, height, fmt, fb, tex })
                }
            }
        }
    }

    fn release_calls(fb: u32, tex: u32) -> (r: Vec<GlCall>)
        ensures
            r@ == release_seq(fb, tex),
    {
        vec![GlCall::DeleteFramebuffer { framebuffer: fb }, GlCall::DeleteTexture { texture: tex }]
    }

    /// The calls that copy `data`, one color per pixel in rows, into the
    /// texture. Pixel data is 8 bits per channel RGBA, so only a target
    /// stored as `RGBA8` takes it, and `data` must cover every pixel; the
    /// first `width * height` colors are taken, any further ones are ignored.
    pub fn map_data(&mut self, data: &Vec<Color>) -> (r: Result<Vec<GlCall>, UploadError>)
        requires
            old(self).wf(),
        ensures
            *final(self) == *old(self),
            (old(self).format() != PixelFormat::RGBA8) <==> r == Err::<Vec<GlCall>, UploadError>(
                UploadError::FormatMismatch,
            ),
            (old(self).format() == PixelFormat::RGBA8 && data@.len() < old(self).spec_width()
                * old(self).spec_height()) <==> r == Err::<Vec<GlCall>, UploadError>(
                UploadError::SizeMismatch {
                    expected: (old(self).spec_width() * old(self).spec_height()) as u64,
                    actual: data@.len() as u64,
                },
            ),
            (old(self).format() == PixelFormat::RGBA8 && data@.len() >= old(self).spec_width()
                * old(self).spec_height()) ==> r is Ok,
            r matches Ok(calls) ==> calls@ == upload_seq(
                old(self).framebuffer(),
                old(self).texture(),
                old(self).spec_width(),
                old(self).spec_height(),
            ),
    {
        if self.fmt != PixelFormat::RGBA8 {
            return Err(UploadError::FormatMismatch);
        }
        let w = self.width as u64;
        let h = self.height as u64;
        assert(w * h <= u32::MAX as int * u32::MAX as int) by (nonlinear_arith)
            requires
                w <= u32::MAX,
                h <= u32::MAX,
        ;
        let expected = w * h;
        let actual = data.len() as u64;
        if actual < expected {
            return Err(UploadError::SizeMismatch { expected, actual });
        }
        Ok(vec![
            GlCall::BindFramebuffer { target: FRAMEBUFFER, framebuffer: self.fb },
            GlCall::BindTexture { target: TEXTURE_2D, texture: self.tex },
            GlCall::TexImage2D {
                target: TEXTURE_2D,
                level: 0,
                internal_format: RGBA8 as i32,
                width: self.width as i32,
                height: self.height as i32,
                border: 0,
                format: RGBA,
                ty: UNSIGNED_BYTE,
                with_pixels: true,
            },
            GlCall::BindTexture { target: TEXTURE_2D, texture: 0 },
            GlCall::BindFramebuffer { target: FRAMEBUFFER, framebuffer: 0 },
        ])
    }

    /// The call that deletes both objects. Consuming the target, it can be
    /// issued once only.
    pub fn release(self) -> (r: Vec<GlCall>)
        ensures
            r@ == release_seq(self.framebuffer(), self.texture()),
    {
        RenderTarget::release_calls(self.fb, self.tex)
    }

    /// The handle of the framebuffer.
    pub fn get_fb(&self) -> (r: u32)
        ensures
            r == self.framebuffer(),
    {
        self.fb
    }

    /// The handle of the texture.
    pub fn get_texture(&self) -> (r: u32)
        ensures
            r == self.texture(),
    {
        self.tex
    }

    pub fn width(&self) -> (r: u32)
        ensures
            r == self.spec_width(),
    {
        self.width
    }

    pub fn height(&self) -> (r: u32)
        ensures
            r == self.spec_height(),
    {
        self.height
    }

    pub fn pixel_format(&self) -> (r: PixelFormat)
        ensures
            r == self.format(),
    {
        self.fmt
    }
}

} // verus!
