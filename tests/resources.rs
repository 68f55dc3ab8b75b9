use glw::buffers::StructuredBuffer;
use glw::color::Color;
use glw::command::GlCall;
use glw::error::{CreationError, UploadError};
use glw::rendertarget::{PixelFormat, RenderTarget};

#[derive(Default, Clone, Copy)]
struct Particle {
    _pos: [f32; 4],
    _vel: [f32; 4],
}

#[test]
fn buffer_byte_size_is_element_size_times_count() {
    let b: StructuredBuffer<u32> = StructuredBuffer::new(1, 10);
    assert_eq!(b.get_size(), 40);
    assert_eq!(b.len(), 10);
    assert_eq!(b.get_id(), 1);
    let p: StructuredBuffer<Particle> = StructuredBuffer::new(2, 3);
    assert_eq!(p.get_size(), 96);
    let e: StructuredBuffer<u64> = StructuredBuffer::new(3, 0);
    assert_eq!(e.get_size(), 0);
}

#[test]
fn buffer_from_data_uploads_all_of_it() {
    let data: Vec<u16> = vec![1, 2, 3, 4, 5];
    let b = StructuredBuffer::from(9, &data);
    assert_eq!(b.get_size(), 10);
    assert_eq!(b.len(), 5);
    assert_eq!(
        b.allocation_calls(),
        vec![
            GlCall::BindBuffer { target: 0x90D2, buffer: 9 },
            GlCall::BufferData { target: 0x90D2, size: 10, usage: 0x88EA },
            GlCall::BindBuffer { target: 0x90D2, buffer: 0 },
        ]
    );
}

#[test]
fn buffer_map_data_checks_the_count() {
    let mut b: StructuredBuffer<u32> = StructuredBuffer::new(4, 2);
    assert_eq!(
        b.map_data(&vec![1, 2, 3]),
        Err(UploadError::SizeMismatch { expected: 2, actual: 3 })
    );
    assert_eq!(
        b.map_data(&vec![7, 8]),
        Ok(vec![
            GlCall::BindBuffer { target: 0x90D2, buffer: 4 },
            GlCall::MapBuffer { target: 0x90D2, access: 0x88B9 },
            GlCall::CopyToMapped { bytes: 8 },
            GlCall::UnmapBuffer { target: 0x90D2 },
            GlCall::BindBuffer { target: 0x90D2, buffer: 0 },
        ])
    );
    assert_eq!(b.release(), vec![GlCall::DeleteBuffer { buffer: 4 }]);
}

#[test]
fn pixel_format_table() {
    let rows = [
        (PixelFormat::RGBA32F, 0x1908, 0x8814, 0x1406),
        (PixelFormat::RGBA8, 0x1908, 0x8058, 0x1401),
        (PixelFormat::R8, 0x1903, 0x8229, 0x1401),
        (PixelFormat::R16, 0x1903, 0x822A, 0x1403),
    ];
    for (fmt, upload, internal, ty) in rows {
        assert_eq!(fmt.get_gl_format(), upload);
        assert_eq!(fmt.get_gl_internal(), internal);
        assert_eq!(fmt.get_gl_type(), ty);
    }
}

#[test]
fn render_target_creation_calls() {
    let calls = RenderTarget::creation_calls(3, 5, 640, 480, PixelFormat::RGBA32F);
    assert_eq!(
        calls,
        vec![
            GlCall::BindFramebuffer { target: 0x8D40, framebuffer: 3 },
            GlCall::BindTexture { target: 0x0DE1, texture: 5 },
            GlCall::TexParameteri { target: 0x0DE1, pname: 0x2800, param: 0x2600 },
            GlCall::TexParameteri { target: 0x0DE1, pname: 0x2801, param: 0x2600 },
            GlCall::FramebufferTexture { target: 0x8D40, attachment: 0x8CE0, texture: 5, level: 0 },
            GlCall::TexImage2D {
                target: 0x0DE1,
                level: 0,
                internal_format: 0x8814,
                width: 640,
                height: 480,
                border: 0,
                format: 0x1908,
                ty: 0x1406,
                with_pixels: false,
            },
            GlCall::CheckFramebufferStatus { target: 0x8D40 },
            GlCall::BindFramebuffer { target: 0x8D40, framebuffer: 0 },
            GlCall::BindTexture { target: 0x0DE1, texture: 0 },
        ]
    );
}

#[test]
fn render_target_complete_keeps_sizes() {
    let rt = RenderTarget::new(3, 5, 640, 480, PixelFormat::RGBA32F, 0x8CD5).unwrap();
    assert_eq!(rt.width(), 640);
    assert_eq!(rt.height(), 480);
    assert_eq!(rt.get_fb(), 3);
    assert_eq!(rt.get_texture(), 5);
    assert_eq!(rt.pixel_format(), PixelFormat::RGBA32F);
    assert_eq!(
        rt.release(),
        vec![GlCall::DeleteFramebuffer { framebuffer: 3 }, GlCall::DeleteTexture { texture: 5 }]
    );
}

#[test]
fn render_target_incomplete_releases_both_handles() {
    let (e, cleanup) = RenderTarget::new(3, 5, 16, 16, PixelFormat::RGBA8, 0x8CD6).unwrap_err();
    assert_eq!(e, CreationError::IncompleteFramebuffer { status: 0x8CD6, width: 16, height: 16 });
    assert_eq!(
        cleanup,
        vec![GlCall::DeleteFramebuffer { framebuffer: 3 }, GlCall::DeleteTexture { texture: 5 }]
    );
}

#[test]
fn render_target_zero_size_is_rejected() {
    assert_eq!(
        RenderTarget::check_size(0, 0),
        Err(CreationError::EmptySize { width: 0, height: 0 })
    );
    assert_eq!(
        RenderTarget::check_size(8, 0),
        Err(CreationError::EmptySize { width: 8, height: 0 })
    );
    let (e, cleanup) = RenderTarget::new(1, 2, 0, 0, PixelFormat::RGBA32F, 0x8CD5).unwrap_err();
    assert_eq!(e, CreationError::EmptySize { width: 0, height: 0 });
    assert_eq!(cleanup.len(), 2);
}

#[test]
fn render_target_too_large_is_rejected() {
    assert_eq!(
        RenderTarget::check_size(1 << 31, 4),
        Err(CreationError::TooLarge { width: 1 << 31, height: 4 })
    );
    assert_eq!(RenderTarget::check_size(i32::MAX as u32, 1), Ok(()));
}

#[test]
fn render_target_upload_checks_format_and_size() {
    let mut f = RenderTarget::new(1, 2, 2, 2, PixelFormat::RGBA32F, 0x8CD5).unwrap();
    assert_eq!(f.map_data(&vec![Color::default(); 4]), Err(UploadError::FormatMismatch));
    let mut rt = RenderTarget::new(1, 2, 2, 3, PixelFormat::RGBA8, 0x8CD5).unwrap();
    assert_eq!(
        rt.map_data(&vec![Color::new(1, 2, 3, 4); 5]),
        Err(UploadError::SizeMismatch { expected: 6, actual: 5 })
    );
    let longer = rt.map_data(&vec![Color::new(1, 2, 3, 4); 9]);
    assert_eq!(longer, rt.map_data(&vec![Color::new(1, 2, 3, 4); 6]));
    assert_eq!(
        rt.map_data(&vec![Color::new(1, 2, 3, 4); 6]),
        Ok(vec![
            GlCall::BindFramebuffer { target: 0x8D40, framebuffer: 1 },
            GlCall::BindTexture { target: 0x0DE1, texture: 2 },
            GlCall::TexImage2D {
                target: 0x0DE1,
                level: 0,
                internal_format: 0x8058,
                width: 2,
                height: 3,
                border: 0,
                format: 0x1908,
                ty: 0x1401,
                with_pixels: true,
            },
            GlCall::BindTexture { target: 0x0DE1, texture: 0 },
            GlCall::BindFramebuffer { target: 0x8D40, framebuffer: 0 },
        ])
    );
}

#[test]
fn color_new_and_default() {
    let c = Color::new(1, 2, 3, 4);
    assert_eq!((c.r, c.g, c.b, c.a), (1, 2, 3, 4));
    assert_eq!(Color::default(), Color::new(0, 0, 0, 0));
}
