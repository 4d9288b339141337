//! The surface that the browser window draws to.
use vstd::prelude::*;

verus! {

/// A texture format that a surface may offer.
#[derive(Clone, Copy, Debug, PartialEq, Eq, Structural)]
pub enum TextureFormat {
    /// Eight bits each of blue, green, red and alpha, in sRGB encoding.
    Bgra8UnormSrgb,
    /// Any other format.
    Other,
}

/// How a surface is blended with what lies behind its window.
#[derive(Clone, Copy, Debug, PartialEq, Eq, Structural)]
pub enum CompositeAlphaMode {
    Auto,
    Opaque,
    PreMultiplied,
    PostMultiplied,
    Inherit,
}

/// What the textures of a surface are used for.
#[derive(Clone, Copy, Debug, PartialEq, Eq, Structural)]
pub enum TextureUsage {
    RenderAttachment,
}

/// When finished frames reach the screen.
#[derive(Clone, Copy, Debug, PartialEq, Eq, Structural)]
pub enum PresentMode {
    AutoVsync,
}

/// How a surface is set up.
pub struct SurfaceConfiguration {
    pub usage: TextureUsage,
    pub format: TextureFormat,
    pub width: u32,
    pub height: u32,
    pub present_mode: PresentMode,
    pub desired_maximum_frame_latency: u32,
    pub alpha_mode: CompositeAlphaMode,
    pub view_formats: Vec<TextureFormat>,
}

/// The mathematical value of a [`SurfaceConfiguration`].
#[verifier::ext_equal]
pub struct SurfaceView {
    pub usage: TextureUsage,
    pub format: TextureFormat,
    pub width: u32,
    pub height: u32,
    pub present_mode: PresentMode,
    pub desired_maximum_frame_latency: u32,
    pub alpha_mode: CompositeAlphaMode,
    pub view_formats: Seq<TextureFormat>,
}

impl View for SurfaceConfiguration {
    type V = SurfaceView;

    open spec fn view(&self) -> SurfaceView {
        SurfaceView {
            usage: self.usage,
            format: self.format,
            width: self.width,
            height: self.height,
            present_mode: self.present_mode,
            desired_maximum_frame_latency: self.desired_maximum_frame_latency,
            alpha_mode: self.alpha_mode,
            view_formats: self.view_formats@,
        }
    }
}

/// What the browser has once it has a window to draw in.
pub struct AppState {
    pub surface_config: SurfaceConfiguration,
}

impl View for AppState {
    type V = SurfaceView;

    open spec fn view(&self) -> SurfaceView {
        self.surface_config@
    }
}

impl SurfaceView {
    /// The configuration of a surface of the given extent.
    pub open spec fn of_extent(
        alpha_mode: CompositeAlphaMode,
        width: u32,
        height: u32,
    ) -> SurfaceView {
        SurfaceView {
            usage: TextureUsage::RenderAttachment,
            format: TextureFormat::Bgra8UnormSrgb,
            width,
            height,
            present_mode: PresentMode::AutoVsync,
            desired_maximum_frame_latency: 0,
            alpha_mode,
            view_formats: Seq::empty(),
        }
    }

    /// The same surface at another extent.
    pub open spec fn with_extent(self, width: u32, height: u32) -> SurfaceView {
        SurfaceView { width, height, ..self }
    }
}

/// Picks the format to draw in, `None` where the surface does not offer it.
pub fn select_format(formats: &Vec<TextureFormat>) -> (format: Option<TextureFormat>)
    ensures
        format == if formats@.contains(TextureFormat::Bgra8UnormSrgb) {
            Some(TextureFormat::Bgra8UnormSrgb)
        } else {
            None
        },
{
    let selected = TextureFormat::Bgra8UnormSrgb;
    let mut i: usize = 0;
    while i < formats.len()
        invariant
            i <= formats.len(),
            selected == TextureFormat::Bgra8UnormSrgb,
            !formats@.take(i as int).contains(selected),
        decreases formats.len() - i,
    {
        if formats[i] == selected {
            assert(formats@.contains(formats@[i as int]));
            return Some(formats[i]);
        }
        assert(formats@.take(i + 1) == formats@.take(i as int).push(formats@[i as int]));
        i += 1;
    }
    assert(formats@.take(formats@.len() as int) == formats@);
    None
}

impl AppState {
    /// Sets a surface up, given what it offers.
    ///
    /// There is no browser without the one format that it draws in, nor without any way to blend.
    pub fn new(
        formats: &Vec<TextureFormat>,
        alpha_modes: &Vec<CompositeAlphaMode>,
        width: u32,
        height: u32,
    ) -> (state: AppState)
        requires
            formats@.contains(TextureFormat::Bgra8UnormSrgb),
            alpha_modes@.len() > 0,
        ensures
            state@ == SurfaceView::of_extent(alpha_modes@[0], width, height),
    {
        let format = select_format(formats).unwrap();
        let surface_config = SurfaceConfiguration {
            usage: TextureUsage::RenderAttachment,
            format,
            width,
            height,
            present_mode: PresentMode::AutoVsync,
            desired_maximum_frame_latency: 0,
            alpha_mode: alpha_modes[0],
            view_formats: Vec::new(),
        };
        AppState { surface_config }
    }

    /// Changes the extent of the surface.
    pub fn resize_surface(&mut self, width: u32, height: u32)
        ensures
            final(self)@ == old(self)@.with_extent(width, height),
    {
        self.surface_config.width = width;
        self.surface_config.height = height;
    }
}

} // verus!
