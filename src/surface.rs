//! The surface manager: the configuration of the window's presentable surface,
//! kept equal to the last non-zero size the window reported.

use vstd::prelude::*;

verus! {

/// How presented frames are synchronised with the display.
#[derive(Clone, Copy, PartialEq, Eq, Structural, Debug)]
pub enum PresentMode {
    AutoVsync,
    AutoNoVsync,
    Fifo,
    FifoRelaxed,
    Immediate,
    Mailbox,
}

/// A configuration to apply to the surface: pixel format, size in physical
/// pixels and presentation mode.
pub struct SurfaceConfig<F> {
    pub format: F,
    pub width: u32,
    pub height: u32,
    pub present_mode: PresentMode,
}

/// What a surface manager holds: its configuration, and whether that
/// configuration has been applied to the surface.
pub struct SurfaceState<F> {
    pub config: SurfaceConfig<F>,
    pub configured: bool,
}

/// Owns the configuration of one surface. Until a non-zero size is seen the
/// surface is unconfigured; after that it stays configured, and its size is the
/// last non-zero size reported.
pub struct SurfaceManager<F> {
    format: F,
    present_mode: PresentMode,
    width: u32,
    height: u32,
    configured: bool,
}

impl<F> View for SurfaceManager<F> {
    type V = SurfaceState<F>;

    closed spec fn view(&self) -> SurfaceState<F> {
        SurfaceState {
            config: SurfaceConfig {
                format: self.format,
                width: self.width,
                height: self.height,
                present_mode: self.present_mode,
            },
            configured: self.configured,
        }
    }
}

/// A size can be configured when neither side is zero.
pub open spec fn is_presentable(width: u32, height: u32) -> bool {
    width > 0 && height > 0
}

/// A surface manager is configured exactly when its size is presentable.
pub open spec fn surface_wf<F>(s: SurfaceState<F>) -> bool {
    s.configured == is_presentable(s.config.width, s.config.height)
}

/// The state after the window reports `width` × `height`, and the configuration
/// to apply: none for a zero side (a minimized window), which changes nothing;
/// otherwise the stored size becomes the new one and the surface is configured
/// with it.
pub open spec fn spec_resize<F>(s: SurfaceState<F>, width: u32, height: u32) -> (
    SurfaceState<F>,
    Option<SurfaceConfig<F>>,
) {
    if is_presentable(width, height) {
        let config = SurfaceConfig { width, height, ..s.config };
        (SurfaceState { config, configured: true }, Some(config))
    } else {
        (s, None)
    }
}

impl<F: Copy> SurfaceManager<F> {
    /// A manager for a surface of `format` presented with `present_mode`, for a
    /// window of `width` × `height`; configured at once if that size is presentable.
    pub fn new(format: F, present_mode: PresentMode, width: u32, height: u32) -> (r: Self)
        ensures
            r@.config == (SurfaceConfig { format, width, height, present_mode }),
            r@.configured == is_presentable(width, height),
            surface_wf(r@),
    {
        SurfaceManager { format, present_mode, width, height, configured: width > 0 && height > 0 }
    }

    /// The current configuration.
    pub fn config(&self) -> (r: SurfaceConfig<F>)
        ensures
            r == self@.config,
    {
        SurfaceConfig {
            format: self.format,
            width: self.width,
            height: self.height,
            present_mode: self.present_mode,
        }
    }

    /// Whether a configuration has been applied to the surface.
    pub fn is_configured(&self) -> (r: bool)
        ensures
            r == self@.configured,
    {
        self.configured
    }

    /// Takes the new physical size of the window. Returns the configuration that
    /// must be applied to the surface, or `None` when a side is zero, in which
    /// case nothing changes.
    pub fn resize(&mut self, width: u32, height: u32) -> (r: Option<SurfaceConfig<F>>)
        requires
            surface_wf(old(self)@),
        ensures
            (final(self)@, r) == spec_resize(old(self)@, width, height),
            surface_wf(final(self)@),
    {
        if width > 0 && height > 0 {
            self.width = width;
            self.height = height;
            self.configured = true;
            Some(self.config())
        } else {
            None
        }
    }

    /// Configures the surface again at the last known size, after it was lost.
    /// Returns the configuration to apply, or `None` while the surface has never
    /// seen a presentable size. The stored state does not change.
    pub fn reconfigure(&mut self) -> (r: Option<SurfaceConfig<F>>)
        requires
            surface_wf(old(self)@),
        ensures
            (final(self)@, r) == spec_resize(old(self)@, old(self)@.config.width, old(self)@.config.height),
            final(self)@ == old(self)@,
            r == (if old(self)@.configured { Some(old(self)@.config) } else { None }),
    {
        let width = self.width;
        let height = self.height;
        self.resize(width, height)
    }
}

/// A resize to a zero width or height leaves the surface state unchanged and
/// applies no configuration.
pub proof fn lemma_zero_resize_is_noop<F>(s: SurfaceState<F>, width: u32, height: u32)
    requires
        width == 0 || height == 0,
    ensures
        spec_resize(s, width, height) == (s, None::<SurfaceConfig<F>>),
{
}

/// Every resize keeps the manager well formed; a presentable one configures the
/// surface at exactly the new size, with format and presentation mode kept.
pub proof fn lemma_resize_configures_new_size<F>(s: SurfaceState<F>, width: u32, height: u32)
    requires
        surface_wf(s),
    ensures
        surface_wf(spec_resize(s, width, height).0),
        is_presentable(width, height) ==> {
            let (t, c) = spec_resize(s, width, height);
            &&& c == Some(t.config)
            &&& t.configured
            &&& t.config.width == width && t.config.height == height
            &&& t.config.format == s.config.format
            &&& t.config.present_mode == s.config.present_mode
        },
{
}

} // verus!
