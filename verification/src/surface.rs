//! The surface configuration and the rules that keep it up to date.
//!
//! The backend reports the surface's capabilities as plain lists: the texture
//! formats it supports (each with a flag saying whether it is a perceptual,
//! gamma-corrected format) and the alpha-compositing modes. The configuration
//! picks from those lists, stores the window's pixel dimensions, and is
//! reconfigured on every genuine resize.
use vstd::prelude::*;

verus! {

/// How many frames the backend may queue ahead of presentation.
pub const FRAME_LATENCY: u32 = 2;

/// One texture format the surface supports. `code` identifies the format to
/// the backend (the shell keeps the mapping); `srgb` says whether the format
/// is a perceptual, gamma-corrected one.
#[derive(Clone, Copy, Debug, PartialEq, Eq, Structural)]
pub struct SurfaceFormat {
    pub code: u32,
    pub srgb: bool,
}

/// The policy governing when a completed image is shown.
#[derive(Clone, Copy, Debug, PartialEq, Eq, Structural)]
pub enum PresentMode {
    /// Vertical-sync-locked presentation.
    Fifo,
    /// Any other mode the backend may report; never chosen here.
    Other,
}

/// How the surface's alpha channel is composited with the windowing system.
#[derive(Clone, Copy, Debug, PartialEq, Eq, Structural)]
pub enum AlphaMode {
    Auto,
    Opaque,
    PreMultiplied,
    PostMultiplied,
    Inherit,
}

/// `f` is the format the construction rule picks from `formats`: the first
/// format flagged as perceptual if one exists, else the first format.
pub open spec fn is_preferred_format(formats: Seq<SurfaceFormat>, f: SurfaceFormat) -> bool {
    if exists|i: int| 0 <= i < formats.len() && formats[i].srgb {
        exists|i: int|
            0 <= i < formats.len() && formats[i].srgb && f == formats[i] && (forall|j: int|
                0 <= j < i ==> !formats[j].srgb)
    } else {
        formats.len() > 0 && f == formats[0]
    }
}

/// Picks the surface format: the first perceptual (gamma-corrected) format if
/// the capability list holds one, else the first listed format.
pub fn choose_format(formats: &Vec<SurfaceFormat>) -> (f: SurfaceFormat)
    requires
        formats@.len() > 0,
    ensures
        is_preferred_format(formats@, f),
{
    let n = formats.len();
    let mut i: usize = 0;
    while i < n
        invariant
            n == formats@.len(),
            0 <= i <= n,
            forall|j: int| 0 <= j < i ==> !formats@[j].srgb,
        decreases n - i,
    {
        if formats[i].srgb {
            return formats[i];
        }
        i += 1;
    }
    formats[0]
}

/// The surface configuration: the chosen format, the stored pixel dimensions,
/// the presentation mode, the alpha handling, and the frame-latency hint.
#[derive(Clone, Copy, Debug, PartialEq, Eq, Structural)]
pub struct SurfaceConfig {
    pub format: SurfaceFormat,
    pub width: u32,
    pub height: u32,
    pub present_mode: PresentMode,
    pub alpha_mode: AlphaMode,
    pub frame_latency: u32,
}

/// `c` is the configuration construction builds for a window of the given
/// pixel dimensions and the given capability lists: the preferred format, the
/// reported dimensions, vertical-sync-locked presentation, the first reported
/// alpha mode, and the fixed frame-latency hint.
pub open spec fn is_initial_config(
    c: SurfaceConfig,
    width: u32,
    height: u32,
    formats: Seq<SurfaceFormat>,
    alpha_modes: Seq<AlphaMode>,
) -> bool {
    &&& c.width == width
    &&& c.height == height
    &&& is_preferred_format(formats, c.format)
    &&& c.present_mode == PresentMode::Fifo
    &&& alpha_modes.len() > 0 && c.alpha_mode == alpha_modes[0]
    &&& c.frame_latency == FRAME_LATENCY
}

impl SurfaceConfig {
    /// The stored dimensions describe a presentable surface: both non-zero.
    pub open spec fn wf(self) -> bool {
        self.width > 0 && self.height > 0
    }

    /// Builds the initial configuration from the window's pixel dimensions
    /// and the capability lists the backend reported for the surface.
    pub fn new(
        width: u32,
        height: u32,
        formats: &Vec<SurfaceFormat>,
        alpha_modes: &Vec<AlphaMode>,
    ) -> (c: SurfaceConfig)
        requires
            width > 0,
            height > 0,
            formats@.len() > 0,
            alpha_modes@.len() > 0,
        ensures
            c.wf(),
            is_initial_config(c, width, height, formats@, alpha_modes@),
    {
        let format = choose_format(formats);
        SurfaceConfig {
            format,
            width,
            height,
            present_mode: PresentMode::Fifo,
            alpha_mode: alpha_modes[0],
            frame_latency: FRAME_LATENCY,
        }
    }

    /// What one resize report does to a configuration: a zero dimension is
    /// ignored, any other report replaces the stored dimensions and changes
    /// nothing else.
    pub open spec fn spec_resize(self, width: u32, height: u32) -> SurfaceConfig {
        if width > 0 && height > 0 {
            SurfaceConfig { width, height, ..self }
        } else {
            self
        }
    }

    /// Applies a resize report. Returns whether the surface must be
    /// reconfigured before the next frame is acquired: true exactly when both
    /// dimensions are non-zero, in which case they are stored; a zero-area
    /// report (a minimized window) changes nothing.
    pub fn resize(&mut self, width: u32, height: u32) -> (reconfigure: bool)
        ensures
            *final(self) == old(self).spec_resize(width, height),
            reconfigure == (width > 0 && height > 0),
            old(self).wf() ==> final(self).wf(),
    {
        if width > 0 && height > 0 {
            self.width = width;
            self.height = height;
            true
        } else {
            false
        }
    }
}

/// The configuration after a whole sequence of resize reports, applied oldest
/// first.
pub open spec fn apply_resizes(c: SurfaceConfig, reports: Seq<(u32, u32)>) -> SurfaceConfig
    decreases reports.len(),
{
    if reports.len() == 0 {
        c
    } else {
        apply_resizes(c, reports.drop_last()).spec_resize(reports.last().0, reports.last().1)
    }
}

/// The last report of a sequence that has both dimensions non-zero, if any:
/// the one whose dimensions a configuration keeps.
pub open spec fn last_applied(reports: Seq<(u32, u32)>) -> Option<(u32, u32)>
    decreases reports.len(),
{
    if reports.len() == 0 {
        None
    } else if reports.last().0 > 0 && reports.last().1 > 0 {
        Some(reports.last())
    } else {
        last_applied(reports.drop_last())
    }
}

/// After any sequence of resize reports, the stored dimensions equal the most
/// recently applied non-zero report; if no report was applicable, the whole
/// configuration is unchanged. Zero-area reports never mutate anything, and
/// no report ever touches the format, present mode, alpha mode or latency.
pub proof fn lemma_resize_sequence(c: SurfaceConfig, reports: Seq<(u32, u32)>)
    ensures
        match last_applied(reports) {
            Some(r) => apply_resizes(c, reports).width == r.0 && apply_resizes(c, reports).height
                == r.1,
            None => apply_resizes(c, reports) == c,
        },
        apply_resizes(c, reports).format == c.format,
        apply_resizes(c, reports).present_mode == c.present_mode,
        apply_resizes(c, reports).alpha_mode == c.alpha_mode,
        apply_resizes(c, reports).frame_latency == c.frame_latency,
    decreases reports.len(),
{
    if reports.len() > 0 {
        lemma_resize_sequence(c, reports.drop_last());
    }
}

/// Resizing is idempotent: applying the same report twice leaves the same
/// configuration as applying it once.
pub proof fn lemma_resize_idempotent(c: SurfaceConfig, width: u32, height: u32)
    ensures
        c.spec_resize(width, height).spec_resize(width, height) == c.spec_resize(width, height),
{
}

} // verus!

