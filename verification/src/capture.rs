//! Screen capture abstraction.

use vstd::prelude::*;
use vstd::string::*;
use crate::config::ScreenConfig;

verus! {

/// Errors that can occur during screen capture.
#[derive(Debug)]
pub enum CaptureError {
    NotStarted,
    AlreadyStarted,
    PlatformError(String),
    InvalidConfig(String),
    Timeout,
    DeviceLost,
    Other(String),
}

/// A captured raw video frame.
#[derive(Debug, Clone)]
pub struct CapturedFrame {
    /// Raw pixel data (BGRA on Windows).
    pub data: Vec<u8>,
    /// Frame width in pixels.
    pub width: u32,
    /// Frame height in pixels.
    pub height: u32,
    /// Capture timestamp in microseconds.
    pub timestamp: u64,
}

/// Trait for screen capture implementations.
pub trait ScreenCapturer: Send + Sync {
    fn start(&mut self, config: &ScreenConfig) -> Result<(), CaptureError>;

    fn capture_frame(&mut self) -> Result<CapturedFrame, CaptureError>;

    fn stop(&mut self) -> Result<(), CaptureError>;
}

/// The message of the capturer for platforms without an implementation.
pub open spec fn no_capture_message() -> Seq<char> {
    "No screen capture implementation for this platform"@
}

/// Capturer for platforms without an implementation: starting and capturing
/// fail, stopping succeeds.
pub struct StubCapturer;

impl ScreenCapturer for StubCapturer {
    fn start(&mut self, config: &ScreenConfig) -> (r: Result<(), CaptureError>)
        ensures
            r matches Err(CaptureError::PlatformError(m)) && m@ == no_capture_message(),
    {
        Err(CaptureError::PlatformError(
            String::from_str("No screen capture implementation for this platform"),
        ))
    }

    fn capture_frame(&mut self) -> (r: Result<CapturedFrame, CaptureError>)
        ensures
            r matches Err(CaptureError::PlatformError(m)) && m@ == no_capture_message(),
    {
        Err(CaptureError::PlatformError(
            String::from_str("No screen capture implementation for this platform"),
        ))
    }

    fn stop(&mut self) -> (r: Result<(), CaptureError>)
        ensures
            r is Ok,
    {
        Ok(())
    }
}


// ── Desktop duplication (DXGI) capturer ────────────────────────────────────

/// The HRESULT `DXGI_ERROR_WAIT_TIMEOUT` (0x887A0027): no new frame within
/// the acquire timeout.
pub const DXGI_WAIT_TIMEOUT: i32 = -2005270489i32;

/// The HRESULT `DXGI_ERROR_ACCESS_LOST` (0x887A0026): the desktop
/// duplication interface is no longer valid.
pub const DXGI_ACCESS_LOST: i32 = -2005270490i32;

/// How many display outputs of the adapter are examined, at most.
pub const MAX_OUTPUTS: u32 = 16;

/// Screen capturer over the DXGI Desktop Duplication API. `G` holds the
/// graphics objects (device, immediate context and output duplication) of a
/// started capture.
pub struct DxgiCapturer<G> {
    handles: Option<G>,
    started: bool,
    width: u32,
    height: u32,
}

impl<G> DxgiCapturer<G> {
    /// The graphics objects, if a capture was set up.
    pub closed spec fn spec_handles(&self) -> Option<G> {
        self.handles
    }

    /// Whether a capture is running.
    pub closed spec fn spec_started(&self) -> bool {
        self.started
    }

    /// Width of the duplicated desktop, in pixels.
    pub closed spec fn spec_width(&self) -> u32 {
        self.width
    }

    /// Height of the duplicated desktop, in pixels.
    pub closed spec fn spec_height(&self) -> u32 {
        self.height
    }

    /// Whether nothing is held: no graphics objects, not started, 0x0.
    pub open spec fn is_idle(&self) -> bool {
        &&& self.spec_handles() is None
        &&& !self.spec_started()
        &&& self.spec_width() == 0
        &&& self.spec_height() == 0
    }

    /// A capturer that has not been started.
    pub fn new() -> (r: Self)
        ensures
            r.is_idle(),
    {
        DxgiCapturer { handles: None, started: false, width: 0, height: 0 }
    }

    /// The first half of `start`: a capture that is already running cannot
    /// be started again.
    pub fn check_start(&self) -> (r: Result<(), CaptureError>)
        ensures
            self.spec_started() ==> r matches Err(CaptureError::AlreadyStarted),
            !self.spec_started() ==> r is Ok,
    {
        if self.started {
            Err(CaptureError::AlreadyStarted)
        } else {
            Ok(())
        }
    }

    /// Once the graphics objects were created and the desktop measured: the
    /// capture is running.
    fn complete_start(&mut self, handles: G, width: u32, height: u32)
        ensures
            final(self).spec_handles() == Some(handles),
            final(self).spec_started(),
            final(self).spec_width() == width,
            final(self).spec_height() == height,
    {
        self.handles = Some(handles);
        self.width = width;
        self.height = height;
        self.started = true;
    }

    /// Starts a capture. A running capture is refused with `AlreadyStarted`
    /// and left as it is, without calling `setup`. Otherwise `setup` creates
    /// the graphics objects and measures the desktop; if it fails, its error
    /// is returned and the capturer stays as it was (not started, so it may
    /// be started again); if it succeeds, the capture runs with what it set
    /// up.
    pub fn start<F>(&mut self, setup: F) -> (r: Result<(), CaptureError>)
        where
            F: FnOnce() -> Result<(G, u32, u32), CaptureError>,
        requires
            !old(self).spec_started() ==> setup.requires(()),
        ensures
            old(self).spec_started() ==> (r matches Err(CaptureError::AlreadyStarted)
                && *final(self) == *old(self)),
            !old(self).spec_started() ==> exists|out: Result<(G, u32, u32), CaptureError>|
                #[trigger] setup.ensures((), out) && match out {
                    Ok((g, w, h)) => r is Ok && final(self).spec_handles() == Some(g)
                        && final(self).spec_started() && final(self).spec_width() == w
                        && final(self).spec_height() == h,
                    Err(e) => r == Err::<(), CaptureError>(e) && *final(self) == *old(self),
                },
    {
        self.check_start()?;
        match setup() {
            Ok((handles, width, height)) => {
                self.complete_start(handles, width, height);
                Ok(())
            },
            Err(e) => Err(e),
        }
    }

    /// The graphics objects a frame is captured with; fails with
    /// `NotStarted` unless a capture is running.
    pub fn frame_source(&self) -> (r: Result<&G, CaptureError>)
        ensures
            match r {
                Ok(g) => self.spec_started() && self.spec_handles() == Some(*g),
                Err(e) => e is NotStarted && (!self.spec_started() || self.spec_handles() is None),
            },
    {
        if !self.started {
            return Err(CaptureError::NotStarted);
        }
        match &self.handles {
            Some(g) => Ok(g),
            None => Err(CaptureError::NotStarted),
        }
    }

    /// Width of the duplicated desktop, in pixels.
    pub fn width(&self) -> (r: u32)
        ensures
            r == self.spec_width(),
    {
        self.width
    }

    /// Height of the duplicated desktop, in pixels.
    pub fn height(&self) -> (r: u32)
        ensures
            r == self.spec_height(),
    {
        self.height
    }

    /// Releases the graphics objects; the capturer is as new. Always
    /// succeeds.
    pub fn stop(&mut self) -> (r: Result<(), CaptureError>)
        ensures
            final(self).is_idle(),
            r is Ok,
    {
        self.handles = None;
        self.started = false;
        self.width = 0;
        self.height = 0;
        Ok(())
    }
}

impl<G> Default for DxgiCapturer<G> {
    fn default() -> (r: Self)
        ensures
            r.is_idle(),
    {
        DxgiCapturer::new()
    }
}

/// The error a failed `AcquireNextFrame` turns into: a timeout and a lost
/// duplication keep their own kinds, anything else is a platform error with
/// the given description.
pub fn acquire_failure(code: i32, detail: String) -> (r: CaptureError)
    ensures
        code == DXGI_WAIT_TIMEOUT ==> r is Timeout,
        code == DXGI_ACCESS_LOST ==> r is DeviceLost,
        code != DXGI_WAIT_TIMEOUT && code != DXGI_ACCESS_LOST ==> r == CaptureError::PlatformError(
            detail,
        ),
{
    if code == DXGI_WAIT_TIMEOUT {
        CaptureError::Timeout
    } else if code == DXGI_ACCESS_LOST {
        CaptureError::DeviceLost
    } else {
        CaptureError::PlatformError(detail)
    }
}

/// One side of the desktop's extent (`right - left` or `bottom - top`),
/// as the `u32` the capturer records.
pub fn desktop_extent(low: i32, high: i32) -> (r: u32)
    requires
        i32::MIN <= high - low <= i32::MAX,
    ensures
        r == (high - low) as u32,
{
    let d: i32 = high - low;
    d as u32
}

/// The rows of a frame packed one after another: row `k` is the
/// `row_bytes` bytes that start at `k * pitch` in `src`.
pub open spec fn packed_rows(src: Seq<u8>, pitch: int, row_bytes: int, rows: nat) -> Seq<u8>
    decreases rows,
{
    if rows == 0 {
        Seq::empty()
    } else {
        packed_rows(src, pitch, row_bytes, (rows - 1) as nat) + src.subrange(
            (rows - 1) * pitch,
            (rows - 1) * pitch + row_bytes,
        )
    }
}

/// Copies the BGRA pixels of a mapped surface whose rows are `row_pitch`
/// bytes apart into a packed buffer of `width * 4` bytes per row, dropping
/// the padding at the end of each row.
pub fn pack_rows(src: &[u8], row_pitch: usize, width: usize, height: usize) -> (r: Vec<u8>)
    requires
        width * height * 4 <= usize::MAX,
        height > 0 ==> (height - 1) * row_pitch + width * 4 <= src@.len(),
    ensures
        r@ == packed_rows(src@, row_pitch as int, width * 4, height as nat),
        r@.len() == width * height * 4,
{
    if height == 0 {
        proof {
            assert(width * height * 4 == 0) by (nonlinear_arith)
                requires
                    height == 0,
            ;
        }
        return Vec::new();
    }
    proof {
        assert(width * 4 <= width * height * 4) by (nonlinear_arith)
            requires
                height >= 1,
        ;
    }
    let row_bytes: usize = width * 4;
    let src_len: usize = src.len();
    let mut out: Vec<u8> = Vec::new();
    let mut row: usize = 0;
    let mut start: usize = 0;
    while row < height
        invariant
            0 < height,
            row <= height,
            row_bytes == width * 4,
            width * height * 4 <= usize::MAX,
            (height - 1) * row_pitch + width * 4 <= src@.len(),
            src_len == src@.len(),
            row < height ==> start == row * row_pitch,
            out@ == packed_rows(src@, row_pitch as int, row_bytes as int, row as nat),
            out@.len() == row * row_bytes,
        decreases height - row,
    {
        proof {
            assert(row * row_pitch <= (height - 1) * row_pitch) by (nonlinear_arith)
                requires
                    row <= height - 1,
            ;
        }
        let ghost before = out@;
        let mut col: usize = 0;
        while col < row_bytes
            invariant
                col <= row_bytes,
                start + row_bytes <= src_len,
                src_len == src@.len(),
                out@ == before + src@.subrange(start as int, start + col),
            decreases row_bytes - col,
        {
            out.push(src[start + col]);
            col = col + 1;
            proof {
                assert(out@ =~= before + src@.subrange(start as int, start + col));
            }
        }
        proof {
            assert(out@ =~= packed_rows(src@, row_pitch as int, row_bytes as int, (row + 1) as nat));
            assert((row + 1) * row_bytes == row * row_bytes + row_bytes) by (nonlinear_arith);
        }
        row = row + 1;
        if row < height {
            proof {
                assert(row * row_pitch <= (height - 1) * row_pitch) by (nonlinear_arith)
                    requires
                        row <= height - 1,
                ;
                assert(row * row_pitch == (row - 1) * row_pitch + row_pitch) by (nonlinear_arith);
            }
            start = start + row_pitch;
        }
    }
    proof {
        assert(height * row_bytes == width * height * 4) by (nonlinear_arith)
            requires
                row_bytes == width * 4,
        ;
    }
    out
}

/// What examining display output `i` of the adapter found.
#[derive(Debug)]
pub enum OutputProbe {
    /// The adapter has no output `i` (enumeration ended).
    Missing,
    /// The output could not be examined; the error says why.
    Failed(CaptureError),
    /// The output is not attached to the desktop.
    Detached,
    /// The output is attached to the desktop.
    Attached,
}

/// What to do after examining an output.
#[derive(Debug)]
pub enum OutputSearch {
    /// Duplicate this output.
    Select(u32),
    /// Examine this output next.
    Probe(u32),
    /// Give up with this error.
    Fail(CaptureError),
}

/// The error when no output attached to the desktop was found.
pub open spec fn is_no_display_error(e: CaptureError) -> bool {
    e matches CaptureError::PlatformError(m) && m@ == "No attached display found"@
}

/// The search for the display to duplicate, one output at a time from
/// output 0: the first output attached to the desktop is taken; the search
/// fails with that output's error if one cannot be examined, and with
/// "No attached display found" when the outputs run out or none of the
/// first `MAX_OUTPUTS` is attached.
pub fn output_search_step(index: u32, probe: OutputProbe) -> (r: OutputSearch)
    requires
        index < MAX_OUTPUTS,
    ensures
        match probe {
            OutputProbe::Attached => r == OutputSearch::Select(index),
            OutputProbe::Failed(e) => r == OutputSearch::Fail(e),
            OutputProbe::Detached => if index + 1 < MAX_OUTPUTS {
                r == OutputSearch::Probe((index + 1) as u32)
            } else {
                r matches OutputSearch::Fail(e) && is_no_display_error(e)
            },
            OutputProbe::Missing => r matches OutputSearch::Fail(e) && is_no_display_error(e),
        },
{
    match probe {
        OutputProbe::Attached => OutputSearch::Select(index),
        OutputProbe::Failed(e) => OutputSearch::Fail(e),
        OutputProbe::Detached => {
            if index + 1 < MAX_OUTPUTS {
                OutputSearch::Probe(index + 1)
            } else {
                OutputSearch::Fail(
                    CaptureError::PlatformError(String::from_str("No attached display found")),
                )
            }
        },
        OutputProbe::Missing => OutputSearch::Fail(
            CaptureError::PlatformError(String::from_str("No attached display found")),
        ),
    }
}

} // verus!
