//! # Per-frame decisions
//!
//! What the application does with incoming input frames, when a matrix test
//! pattern is (re)uploaded, which texture the output preview shows, when the
//! video wall and matrix renderers are set up or reconfigured, and how a
//! video-wall calibration step is followed up.

use vstd::prelude::*;
use crate::commands::InputState;

verus! {

/// What to do with input 1 or input 2 this frame.
#[derive(Debug, Clone, Copy, PartialEq, Eq, Structural)]
pub enum FrameRoute {
    /// No frame arrived.
    Skip,
    /// Take the receiver's GPU texture (Syphon, zero-copy).
    TakeTexture,
    /// Take the CPU frame and upload it.
    TakeCpuFrame,
    /// Take the frame and drop it (a test pattern is shown instead).
    Discard,
}

/// The route of input 1: while the matrix test pattern is shown, arriving
/// frames are dropped; otherwise Syphon inputs hand over their texture and
/// all others their CPU frame.
pub fn route_input1(has_frame: bool, showing_pattern: bool, is_syphon: bool) -> (r: FrameRoute)
    ensures
        r == (if !has_frame {
            FrameRoute::Skip
        } else if showing_pattern {
            FrameRoute::Discard
        } else if is_syphon {
            FrameRoute::TakeTexture
        } else {
            FrameRoute::TakeCpuFrame
        }),
{
    if !has_frame {
        FrameRoute::Skip
    } else if showing_pattern {
        FrameRoute::Discard
    } else if is_syphon {
        FrameRoute::TakeTexture
    } else {
        FrameRoute::TakeCpuFrame
    }
}

/// The route of input 2, which the test pattern does not affect.
pub fn route_input2(has_frame: bool, is_syphon: bool) -> (r: FrameRoute)
    ensures
        r == (if !has_frame {
            FrameRoute::Skip
        } else if is_syphon {
            FrameRoute::TakeTexture
        } else {
            FrameRoute::TakeCpuFrame
        }),
{
    route_input1(has_frame, false, is_syphon)
}

/// What was taken from an input this frame.
#[derive(Debug, Clone, Copy, PartialEq, Eq, Structural)]
pub enum TakenFrame {
    /// Nothing (no frame, a dropped frame, or no texture handed over).
    Nothing,
    /// The receiver's GPU texture, of this size, was taken and copied.
    Texture { width: u32, height: u32 },
    /// A CPU frame of this size was taken.
    CpuFrame { width: u32, height: u32 },
}

/// What follows a taken frame.
#[derive(Debug, Clone, Copy, PartialEq, Eq, Structural)]
pub struct TakenFrameFollowUp {
    /// Hand a copy of the frame to the video-wall calibration that waits
    /// for a capture.
    pub submit_to_calibration: bool,
    /// Upload the CPU frame to the input texture.
    pub upload: bool,
}

/// The size an input shows after a frame was taken: the frame's size when
/// one was taken, the old size otherwise.
pub open spec fn size_after(old_size: (u32, u32), taken: TakenFrame) -> (u32, u32) {
    match taken {
        TakenFrame::Nothing => old_size,
        TakenFrame::Texture { width, height } => (width, height),
        TakenFrame::CpuFrame { width, height } => (width, height),
    }
}

/// Record a frame taken from input `slot` (1 or 2): the input's status shows
/// the frame's size. A CPU frame is uploaded, and a CPU frame of input 1 is
/// also handed to a calibration that waits for a capture.
pub fn record_taken_frame(
    state: &mut InputState,
    slot: u8,
    taken: TakenFrame,
    calibration_waiting: bool,
) -> (f: TakenFrameFollowUp)
    ensures
        (final(state).width, final(state).height) == size_after(
            (old(state).width, old(state).height),
            taken,
        ),
        final(state).is_active == old(state).is_active,
        final(state).source_name == old(state).source_name,
        f.upload == (taken is CpuFrame),
        f.submit_to_calibration == (slot == 1 && taken is CpuFrame && calibration_waiting),
{
    match taken {
        TakenFrame::Nothing => TakenFrameFollowUp { submit_to_calibration: false, upload: false },
        TakenFrame::Texture { width, height } => {
            state.width = width;
            state.height = height;
            TakenFrameFollowUp { submit_to_calibration: false, upload: false }
        },
        TakenFrame::CpuFrame { width, height } => {
            state.width = width;
            state.height = height;
            TakenFrameFollowUp { submit_to_calibration: slot == 1 && calibration_waiting, upload: true }
        },
    }
}

/// The part of the shared state that device discovery fills in.
#[derive(Debug, Clone, PartialEq)]
pub struct DiscoveryState {
    pub discovered_webcams: Vec<String>,
    pub discovered_ndi_sources: Vec<String>,
    pub discovering_devices: bool,
}

/// Record this frame's discovery poll: when a discovery finished, its
/// webcam and NDI lists (`found`) replace the shown ones and discovery is
/// no longer in progress; otherwise only the in-progress flag follows the
/// input manager (`still_discovering`).
pub fn record_discovery(
    state: &mut DiscoveryState,
    found: Option<(Vec<String>, Vec<String>)>,
    still_discovering: bool,
)
    ensures
        match found {
            Some((w, n)) => final(state).discovered_webcams@ == w@
                && final(state).discovered_ndi_sources@ == n@ && !final(state).discovering_devices,
            None => final(state).discovered_webcams@ == old(state).discovered_webcams@
                && final(state).discovered_ndi_sources@ == old(state).discovered_ndi_sources@
                && final(state).discovering_devices == still_discovering,
        },
{
    match found {
        Some((w, n)) => {
            state.discovered_webcams = w;
            state.discovered_ndi_sources = n;
            state.discovering_devices = false;
        },
        None => {
            state.discovering_devices = still_discovering;
        },
    }
}

/// Whether a requested pattern (its size, if any) must be uploaded when the
/// last upload had size `last`.
pub open spec fn upload_needed(last: Option<(u32, u32)>, pattern: Option<(u32, u32)>) -> bool {
    pattern is Some && last != pattern
}

/// The remembered size after a frame with `pattern` requested and the
/// upload `uploaded` (successful) or not.
pub open spec fn last_after(last: Option<(u32, u32)>, pattern: Option<(u32, u32)>, uploaded: bool) -> Option<
    (u32, u32),
> {
    match pattern {
        None => None,
        Some(d) => if uploaded {
            Some(d)
        } else {
            last
        },
    }
}

/// Remembers the size of the matrix test pattern last uploaded, so that a
/// pattern is uploaded once rather than every frame.
#[derive(Debug, Clone, PartialEq)]
pub struct PatternUploadTracker {
    pub last: Option<(u32, u32)>,
}

impl PatternUploadTracker {
    pub fn new() -> (t: Self)
        ensures
            t.last is None,
    {
        PatternUploadTracker { last: None }
    }

    /// Whether the pattern currently requested (its size, if any) must be
    /// uploaded: there is one and its size differs from the last upload.
    pub fn needs_upload(&self, pattern: Option<(u32, u32)>) -> (b: bool)
        ensures
            b == upload_needed(self.last, pattern),
    {
        match pattern {
            Some(dims) => match self.last {
                Some(l) => !(l.0 == dims.0 && l.1 == dims.1),
                None => true,
            },
            None => false,
        }
    }

    /// Record the frame's outcome: after a successful upload the pattern's
    /// size is remembered; when no pattern is requested the memory is
    /// cleared; otherwise it stays.
    pub fn record(&mut self, pattern: Option<(u32, u32)>, uploaded: bool)
        ensures
            final(self).last == last_after(old(self).last, pattern, uploaded),
    {
        match pattern {
            None => {
                self.last = None;
            },
            Some(d) => {
                if uploaded {
                    self.last = Some(d);
                }
            },
        }
    }
}

/// Once a pattern has been uploaded, a pattern of the same size is not
/// uploaded again; a pattern of another size is; and after the pattern is
/// withdrawn, the next one is uploaded whatever its size. A failed upload is
/// tried again next frame.
pub proof fn law_pattern_uploaded_once(last: Option<(u32, u32)>, d: (u32, u32), e: (u32, u32), uploaded: bool)
    ensures
        !upload_needed(last_after(last, Some(d), true), Some(d)),
        e != d ==> upload_needed(last_after(last, Some(d), true), Some(e)),
        upload_needed(last_after(last, None, uploaded), Some(e)),
        upload_needed(last, Some(d)) ==> upload_needed(last_after(last, Some(d), false), Some(d)),
{
}

/// Which texture the output preview shows.
#[derive(Debug, Clone, Copy, PartialEq, Eq, Structural)]
pub enum PreviewSource {
    MatrixOutput,
    RenderTarget,
}

/// The preview shows the matrix output while the matrix is enabled and its
/// output texture exists, and the mapping render target otherwise.
pub fn preview_source(matrix_enabled: bool, has_matrix_output: bool) -> (p: PreviewSource)
    ensures
        p == (if matrix_enabled && has_matrix_output {
            PreviewSource::MatrixOutput
        } else {
            PreviewSource::RenderTarget
        }),
{
    if matrix_enabled && has_matrix_output {
        PreviewSource::MatrixOutput
    } else {
        PreviewSource::RenderTarget
    }
}

/// What to do when the video wall or matrix is switched to `enabled`.
#[derive(Debug, Clone, Copy, PartialEq, Eq, Structural)]
pub struct EnableChange {
    /// The flag changes.
    pub changed: bool,
    /// The renderer is created now.
    pub create_renderer: bool,
    /// The output texture is created now (the output exists while enabled).
    pub create_output: bool,
    /// The output texture is released now (there is no output while
    /// disabled).
    pub release_output: bool,
}

/// The decision for switching a post-process renderer from `current` to
/// `enabled`: only a change counts; the renderer is created the first time
/// it is switched on; its output texture exists exactly while it is on, so
/// it is created on every switch on and released on every switch off.
pub open spec fn switch_decision(current: bool, enabled: bool, has_renderer: bool) -> EnableChange {
    let changed = current != enabled;
    EnableChange {
        changed,
        create_renderer: changed && enabled && !has_renderer,
        create_output: changed && enabled,
        release_output: changed && !enabled,
    }
}

/// Decide how to switch a post-process renderer on or off.
pub fn enable_change(current: bool, enabled: bool, has_renderer: bool) -> (c: EnableChange)
    ensures
        c == switch_decision(current, enabled, has_renderer),
{
    let changed = current != enabled;
    EnableChange {
        changed,
        create_renderer: changed && enabled && !has_renderer,
        create_output: changed && enabled,
        release_output: changed && !enabled,
    }
}

/// Whether the output texture exists after carrying out `c`, when it
/// `existed` before.
pub open spec fn output_after(existed: bool, c: EnableChange) -> bool {
    if c.create_output {
        true
    } else if c.release_output {
        false
    } else {
        existed
    }
}

/// The output of the video wall or matrix exists exactly while it is
/// enabled: from a state where it exists iff enabled, every switch keeps it
/// so; in particular switching on and then off leaves no output.
pub proof fn law_output_exists_while_enabled(
    existed: bool,
    current: bool,
    enabled: bool,
    has_renderer: bool,
)
    requires
        existed == current,
    ensures
        output_after(existed, switch_decision(current, enabled, has_renderer)) == enabled,
        !output_after(
            output_after(existed, switch_decision(current, true, has_renderer)),
            switch_decision(true, false, true),
        ),
{
}

/// Whether the video wall renderer takes a configuration: it has none yet,
/// or the configuration differs from the one it holds. Every change is
/// applied.
pub fn wall_config_needs_update(has_config: bool, config_changed: bool) -> (b: bool)
    ensures
        b == (!has_config || config_changed),
{
    !has_config || config_changed
}

/// What syncing the matrix state to the engine does this frame.
#[derive(Debug, Clone, Copy, PartialEq, Eq, Structural)]
pub struct MatrixSync {
    /// Hand the configuration to the renderer (and remember it).
    pub update_config: bool,
    /// The enabled flag changed (logged).
    pub toggled: bool,
}

/// The configuration is handed over only while the matrix is enabled and
/// the configuration differs from the one last handed over.
pub fn matrix_sync(enabled: bool, was_enabled: bool, config_changed: bool) -> (s: MatrixSync)
    ensures
        s.update_config == (enabled && config_changed),
        s.toggled == (enabled != was_enabled),
{
    MatrixSync { update_config: enabled && config_changed, toggled: enabled != was_enabled }
}

/// The kind of status a video-wall calibration step reports.
#[derive(Debug, Clone, Copy, PartialEq, Eq, Structural)]
pub enum CalibrationStatusKind {
    InProgress,
    ReadyForCapture,
    Processing,
    Complete,
    Error,
}

/// What follows a calibration step.
#[derive(Debug, Clone, Copy, PartialEq, Eq, Structural)]
pub struct CalibrationFollowUp {
    /// Show the current calibration pattern (when there is one).
    pub show_pattern: bool,
    /// Store the finished configuration and enable the video wall.
    pub apply_result: bool,
    /// The calibration is still running.
    pub still_running: bool,
}

/// While a calibration runs (in progress, waiting for a capture, or
/// processing) its pattern is shown; when it completes its configuration is
/// applied; on an error it stops.
pub fn calibration_follow_up(status: CalibrationStatusKind) -> (f: CalibrationFollowUp)
    ensures
        f.show_pattern == f.still_running,
        f.still_running == (status == CalibrationStatusKind::InProgress || status
            == CalibrationStatusKind::ReadyForCapture || status
            == CalibrationStatusKind::Processing),
        f.apply_result == (status == CalibrationStatusKind::Complete),
{
    match status {
        CalibrationStatusKind::Complete => CalibrationFollowUp {
            show_pattern: false,
            apply_result: true,
            still_running: false,
        },
        CalibrationStatusKind::Error => CalibrationFollowUp {
            show_pattern: false,
            apply_result: false,
            still_running: false,
        },
        _ => CalibrationFollowUp { show_pattern: true, apply_result: false, still_running: true },
    }
}

/// A calibration is dropped from the shared state when this frame did not
/// keep it running and it reports itself inactive.
pub fn drop_calibration(still_running: bool, has_calibration: bool, calibration_active: bool) -> (b:
    bool)
    ensures
        b == (!still_running && has_calibration && !calibration_active),
{
    !still_running && has_calibration && !calibration_active
}

} // verus!
