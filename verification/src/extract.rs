//! The icon-to-image extraction protocol.
//!
//! The platform work — querying the icon's metadata, creating the two
//! device contexts, the pixel readback, and releasing every handle — is
//! performed by the caller. This module holds the decisions: a state
//! machine that is fed one [`Event`] at a time (what the platform call
//! produced) and answers with the next [`Action`] to perform. The machine
//! validates the derived dimensions and the reported pixel format, reorders
//! the pixels from BGRA to RGBA, and schedules every release exactly once
//! on every path, success or failure.

use vstd::prelude::*;

use crate::reorder::bgra_to_rgba;
use crate::reorder::rgba_of_bgra;

verus! {

/// Largest hotspot value whose doubled dimension still fits in `u32`.
pub const MAX_HOTSPOT: u32 = 0x7FFF_FFFF;

/// The plain values the pipeline reads from an icon's metadata. The
/// nominal size is hotspot-encoded: width is twice `hotspot_x` and height
/// twice `hotspot_y`.
#[derive(Clone, Copy, Debug, PartialEq, Eq, Structural)]
pub struct IconInfo {
    pub hotspot_x: u32,
    pub hotspot_y: u32,
}

/// Why an extraction stopped.
#[derive(Clone, Copy, Debug, PartialEq, Eq, Structural)]
pub enum ExtractionError {
    /// The shell lookup produced no icon resource.
    ResolutionFailed,
    /// The icon's descriptive metadata could not be queried.
    ResourceInfoUnavailable,
    /// A derived dimension is zero, or the pixel area is too large to
    /// address.
    InvalidDimensions,
    /// The device-context pixel transfer reported failure.
    PixelReadbackFailed,
    /// The source bitmap is not four bytes per pixel.
    UnsupportedPixelFormat,
    /// The buffer that came back does not cover width × height pixels
    /// (defensive; unreachable when the protocol is followed).
    BufferSizeMismatch,
    /// A release of a transient handle failed. Reported beside the
    /// outcome, never in its place.
    ResourceCleanupFailed,
}

/// The final output: pixels in RGBA order, four bytes per pixel.
#[derive(Debug)]
pub struct ImageBuffer {
    pub width: u32,
    pub height: u32,
    pub pixels: Vec<u8>,
}

impl ImageBuffer {
    /// The pixel data covers exactly width × height four-byte pixels.
    pub open spec fn wf(&self) -> bool {
        self.pixels@.len() == 4 * (self.width as int) * (self.height as int)
    }
}

/// What the platform's pixel readback produced: whether the transfer
/// reported success, the bit depth it wrote back into the format
/// descriptor, and the buffer it filled.
#[derive(Debug)]
pub struct ReadbackOutcome {
    pub ok: bool,
    pub bit_count: u16,
    pub pixels: Vec<u8>,
}

/// The nominal width the icon's metadata encodes.
pub open spec fn derived_width(info: IconInfo) -> int {
    2 * (info.hotspot_x as int)
}

/// The nominal height the icon's metadata encodes.
pub open spec fn derived_height(info: IconInfo) -> int {
    2 * (info.hotspot_y as int)
}

/// The derived width as the machine word it is carried in.
pub open spec fn width_of(info: IconInfo) -> u32 {
    derived_width(info) as u32
}

/// The derived height as the machine word it is carried in.
pub open spec fn height_of(info: IconInfo) -> u32 {
    derived_height(info) as u32
}

/// A width × height area that can be read back: both dimensions nonzero
/// and the byte count addressable.
pub open spec fn valid_area(width: u32, height: u32) -> bool {
    &&& 0 < width
    &&& 0 < height
    &&& 4 * (width as int) * (height as int) <= usize::MAX as int
}

/// Whether the icon's metadata derives usable dimensions.
pub open spec fn dims_valid(info: IconInfo) -> bool {
    &&& 0 < info.hotspot_x <= MAX_HOTSPOT
    &&& 0 < info.hotspot_y <= MAX_HOTSPOT
    &&& 4 * derived_width(info) * derived_height(info) <= usize::MAX as int
}

/// Derives the icon's pixel dimensions from its metadata, rejecting a zero
/// or unaddressable area.
pub fn derive_dimensions(info: &IconInfo) -> (r: Option<(u32, u32)>)
    ensures
        dims_valid(*info) ==> r == Some((width_of(*info), height_of(*info))),
        !dims_valid(*info) ==> r is None,
{
    if info.hotspot_x == 0 || info.hotspot_y == 0 || info.hotspot_x > MAX_HOTSPOT
        || info.hotspot_y > MAX_HOTSPOT {
        return None;
    }
    let w: u32 = 2 * info.hotspot_x;
    let h: u32 = 2 * info.hotspot_y;
    proof {
        assert((w as int) * (h as int) <= 0xFFFF_FFFEint * 0xFFFF_FFFEint) by (nonlinear_arith)
            requires
                0 <= w as int <= 0xFFFF_FFFE,
                0 <= h as int <= 0xFFFF_FFFE,
        ;
    }
    let prod: u64 = (w as u64) * (h as u64);
    let quarter: u64 = (usize::MAX as u64) / 4;
    proof {
        let dw = derived_width(*info);
        let dh = derived_height(*info);
        let m = usize::MAX as int;
        vstd::arithmetic::div_mod::lemma_fundamental_div_mod(m, 4);
        assert(prod as int == dw * dh);
        assert(4 * dw * dh == 4 * (dw * dh)) by (nonlinear_arith);
        assert(quarter as int == m / 4);
        assert(prod <= quarter ==> 4 * (prod as int) <= 4 * (m / 4));
        assert(prod > quarter ==> 4 * (prod as int) >= 4 * (m / 4) + 4);
    }
    if prod <= quarter {
        Some((w, h))
    } else {
        None
    }
}

/// Allocates the zero-filled pixel buffer for a width × height readback.
pub fn allocate_pixel_buffer(width: u32, height: u32) -> (v: Vec<u8>)
    requires
        valid_area(width, height),
    ensures
        v@.len() == 4 * (width as int) * (height as int),
        forall|i: int| 0 <= i < v@.len() ==> v@[i] == 0u8,
{
    proof {
        assert(4 * (width as int) <= 4 * (width as int) * (height as int)) by (nonlinear_arith)
            requires
                0 < width,
                0 < height,
        ;
    }
    let len: usize = 4 * (width as usize) * (height as usize);
    let mut v: Vec<u8> = Vec::new();
    while v.len() < len
        invariant
            v@.len() <= len,
            forall|i: int| 0 <= i < v@.len() ==> v@[i] == 0u8,
        decreases len - v@.len(),
    {
        v.push(0u8);
    }
    v
}

/// Where the conversion stands: which platform answer it is waiting for.
#[derive(Debug)]
pub enum State {
    /// Nothing has happened yet.
    Idle,
    /// The metadata query was requested.
    AwaitingInfo,
    /// The dimensions were rejected; the icon's two bitmap handles must
    /// still be released before the error is returned.
    AwaitingBitmapRelease,
    /// The two device contexts are being acquired for a width × height
    /// readback.
    AwaitingContexts(u32, u32),
    /// The pixel readback is in flight.
    AwaitingReadback(u32, u32),
    /// The readback came back; every handle must be released before the
    /// outcome is settled.
    AwaitingCleanup(u32, u32, ReadbackOutcome),
    /// The conversion is over; no further action will be asked for.
    Finished,
}

/// What the platform produced for the last action.
#[derive(Debug)]
pub enum Event {
    /// Start a conversion.
    Begin,
    /// The metadata query failed.
    InfoUnavailable,
    /// The metadata query succeeded.
    Info(IconInfo),
    /// Both device contexts exist and the color bitmap is selected.
    ContextsReady,
    /// The pixel readback returned.
    Readback(ReadbackOutcome),
    /// The requested releases were attempted; true when all succeeded.
    CleanupDone(bool),
}

/// What the caller must do next.
#[derive(Debug)]
pub enum Action {
    /// Query the icon's metadata.
    QueryInfo,
    /// Create the reference and memory device contexts and select the
    /// color bitmap into the memory context.
    AcquireContexts,
    /// Read width × height pixels, as 32-bit top-down rows, into the given
    /// zero-filled buffer.
    ReadPixels(u32, u32, Vec<u8>),
    /// Release the icon's two bitmap handles.
    ReleaseIconBitmaps,
    /// Restore the previously selected bitmap, then release both device
    /// contexts and both bitmap handles.
    ReleaseAll,
    /// The conversion is over: hand the outcome to the caller. The flag
    /// reports a failed cleanup; it never overrides the outcome.
    Finish(Result<ImageBuffer, ExtractionError>, bool),
    /// The event does not answer the pending action; nothing to do.
    Ignore,
}

/// The dimensions carried by an in-flight state are an area that can be
/// read back.
pub open spec fn state_wf(s: State) -> bool {
    match s {
        State::AwaitingContexts(w, h) => valid_area(w, h),
        State::AwaitingReadback(w, h) => valid_area(w, h),
        State::AwaitingCleanup(w, h, _) => valid_area(w, h),
        _ => true,
    }
}

/// What the end of a conversion owes the caller when a width × height
/// readback came back as `rb`: exactly one of the four possible outcomes,
/// decided in this order — transfer failure, unsupported bit depth, the
/// defensive size check, and otherwise the reordered RGBA image.
pub open spec fn outcome_matches(
    width: u32,
    height: u32,
    rb: ReadbackOutcome,
    out: Result<ImageBuffer, ExtractionError>,
) -> bool {
    if !rb.ok {
        out == Err::<ImageBuffer, ExtractionError>(ExtractionError::PixelReadbackFailed)
    } else if rb.bit_count != 32 {
        out == Err::<ImageBuffer, ExtractionError>(ExtractionError::UnsupportedPixelFormat)
    } else if rb.pixels@.len() == 4 * (width as int) * (height as int) {
        out matches Ok(img) && img.width == width && img.height == height && img.pixels@
            == rgba_of_bgra(rb.pixels@)
    } else {
        out == Err::<ImageBuffer, ExtractionError>(ExtractionError::BufferSizeMismatch)
    }
}

/// The machine's transition relation: what the next state and action must
/// be for a given state and event. Events that do not answer the pending
/// action leave the state as it is.
pub open spec fn step_rel(pre: State, event: Event, post: State, action: Action) -> bool {
    match (pre, event) {
        (State::Idle, Event::Begin) => {
            &&& post == State::AwaitingInfo
            &&& action == Action::QueryInfo
        },
        (State::AwaitingInfo, Event::InfoUnavailable) => {
            &&& post == State::Finished
            &&& action matches Action::Finish(out, cleanup_failed) && out == Err::<
                ImageBuffer,
                ExtractionError,
            >(ExtractionError::ResourceInfoUnavailable) && !cleanup_failed
        },
        (State::AwaitingInfo, Event::Info(info)) => {
            if dims_valid(info) {
                &&& post == State::AwaitingContexts(width_of(info), height_of(info))
                &&& action == Action::AcquireContexts
            } else {
                &&& post == State::AwaitingBitmapRelease
                &&& action == Action::ReleaseIconBitmaps
            }
        },
        (State::AwaitingBitmapRelease, Event::CleanupDone(ok)) => {
            &&& post == State::Finished
            &&& action matches Action::Finish(out, cleanup_failed) && out == Err::<
                ImageBuffer,
                ExtractionError,
            >(ExtractionError::InvalidDimensions) && cleanup_failed == !ok
        },
        (State::AwaitingContexts(w, h), Event::ContextsReady) => {
            &&& post == State::AwaitingReadback(w, h)
            &&& action matches Action::ReadPixels(aw, ah, buf) && aw == w && ah == h && buf@.len()
                == 4 * (w as int) * (h as int) && (forall|i: int|
                0 <= i < buf@.len() ==> buf@[i] == 0u8)
        },
        (State::AwaitingReadback(w, h), Event::Readback(rb)) => {
            &&& post matches State::AwaitingCleanup(pw, ph, prb) && pw == w && ph == h && prb.ok
                == rb.ok && prb.bit_count == rb.bit_count && prb.pixels@ == rb.pixels@
            &&& action == Action::ReleaseAll
        },
        (State::AwaitingCleanup(w, h, rb), Event::CleanupDone(ok)) => {
            &&& post == State::Finished
            &&& action matches Action::Finish(out, cleanup_failed) && outcome_matches(
                w,
                h,
                rb,
                out,
            ) && cleanup_failed == !ok
        },
        (pre_unchanged, _) => {
            &&& post == pre_unchanged
            &&& action == Action::Ignore
        },
    }
}

/// Settles a conversion after cleanup: turns what the readback produced
/// into the final outcome — transfer failure, unsupported bit depth, the
/// defensive size check, or the reordered RGBA image.
pub fn finalize_readback(width: u32, height: u32, rb: ReadbackOutcome) -> (out: Result<
    ImageBuffer,
    ExtractionError,
>)
    requires
        valid_area(width, height),
    ensures
        outcome_matches(width, height, rb, out),
{
    if !rb.ok {
        return Err(ExtractionError::PixelReadbackFailed);
    }
    if rb.bit_count != 32 {
        return Err(ExtractionError::UnsupportedPixelFormat);
    }
    proof {
        assert(4 * (width as int) <= 4 * (width as int) * (height as int)) by (nonlinear_arith)
            requires
                0 < width,
                0 < height,
        ;
    }
    let expected: usize = 4 * (width as usize) * (height as usize);
    let mut pixels = rb.pixels;
    if pixels.len() != expected {
        return Err(ExtractionError::BufferSizeMismatch);
    }
    bgra_to_rgba(&mut pixels);
    Ok(ImageBuffer { width, height, pixels })
}

/// Advances the conversion one step: consumes the current state and the
/// event the platform produced, and returns the next state together with
/// the action the caller must perform next.
pub fn step(state: State, event: Event) -> (r: (State, Action))
    requires
        state_wf(state),
    ensures
        step_rel(state, event, r.0, r.1),
        state_wf(r.0),
{
    match (state, event) {
        (State::Idle, Event::Begin) => (State::AwaitingInfo, Action::QueryInfo),
        (State::AwaitingInfo, Event::InfoUnavailable) => (
            State::Finished,
            Action::Finish(Err(ExtractionError::ResourceInfoUnavailable), false),
        ),
        (State::AwaitingInfo, Event::Info(info)) => match derive_dimensions(&info) {
            Some((w, h)) => (State::AwaitingContexts(w, h), Action::AcquireContexts),
            None => (State::AwaitingBitmapRelease, Action::ReleaseIconBitmaps),
        },
        (State::AwaitingBitmapRelease, Event::CleanupDone(ok)) => (
            State::Finished,
            Action::Finish(Err(ExtractionError::InvalidDimensions), !ok),
        ),
        (State::AwaitingContexts(w, h), Event::ContextsReady) => {
            let buf = allocate_pixel_buffer(w, h);
            (State::AwaitingReadback(w, h), Action::ReadPixels(w, h, buf))
        },
        (State::AwaitingReadback(w, h), Event::Readback(rb)) => (
            State::AwaitingCleanup(w, h, rb),
            Action::ReleaseAll,
        ),
        (State::AwaitingCleanup(w, h, rb), Event::CleanupDone(ok)) => (
            State::Finished,
            Action::Finish(finalize_readback(w, h, rb), !ok),
        ),
        (other, _) => (other, Action::Ignore),
    }
}

/// Decides whether the shell's icon lookup succeeded: a zero return or a
/// zero icon index means no icon resource was produced.
pub fn validate_icon_lookup(lookup_result: usize, icon_index: i32) -> (r: Result<
    i32,
    ExtractionError,
>)
    ensures
        r == if lookup_result == 0 || icon_index == 0 {
            Err::<i32, ExtractionError>(ExtractionError::ResolutionFailed)
        } else {
            Ok::<i32, ExtractionError>(icon_index)
        },
{
    if lookup_result == 0 || icon_index == 0 {
        Err(ExtractionError::ResolutionFailed)
    } else {
        Ok(icon_index)
    }
}

/// Law: any successfully extracted image satisfies the dimension
/// invariant — its pixel data is exactly width × height × 4 bytes long,
/// under the dimensions the readback was asked for.
pub proof fn lemma_extracted_image_wf(
    width: u32,
    height: u32,
    rb: ReadbackOutcome,
    out: Result<ImageBuffer, ExtractionError>,
)
    requires
        outcome_matches(width, height, rb, out),
    ensures
        out matches Ok(img) ==> img.wf() && img.width == width && img.height == height,
{
}

/// Law: a conversion that reaches the readback performs exactly one
/// release of the device contexts and bitmap handles — the `ReleaseAll`
/// action, asked for once, whatever the readback produced — and then
/// finishes with the outcome owed for that readback. A failed cleanup is
/// reported beside the outcome and never overrides it.
pub proof fn lemma_conversion_trace(
    info: IconInfo,
    rb: ReadbackOutcome,
    cleanup_ok: bool,
    s1: State,
    a1: Action,
    s2: State,
    a2: Action,
    s3: State,
    a3: Action,
    s4: State,
    a4: Action,
    s5: State,
    a5: Action,
)
    requires
        dims_valid(info),
        step_rel(State::Idle, Event::Begin, s1, a1),
        step_rel(s1, Event::Info(info), s2, a2),
        step_rel(s2, Event::ContextsReady, s3, a3),
        step_rel(s3, Event::Readback(rb), s4, a4),
        step_rel(s4, Event::CleanupDone(cleanup_ok), s5, a5),
    ensures
        a1 == Action::QueryInfo,
        a2 == Action::AcquireContexts,
        a3 is ReadPixels,
        a4 == Action::ReleaseAll,
        s5 == State::Finished,
        a5 matches Action::Finish(out, cleanup_failed) && outcome_matches(
            width_of(info),
            height_of(info),
            rb,
            out,
        ) && cleanup_failed == !cleanup_ok,
{
    let w = width_of(info);
    let h = height_of(info);
    assert(s2 == State::AwaitingContexts(w, h));
    assert(s3 == State::AwaitingReadback(w, h));
    let prb = s4->AwaitingCleanup_2;
    assert(rgba_of_bgra(prb.pixels@) == rgba_of_bgra(rb.pixels@));
}

/// Law: when the pixel readback reports failure, every release still
/// happens — exactly one release action is asked for over the whole run —
/// and the conversion ends with `PixelReadbackFailed`.
pub proof fn lemma_cleanup_runs_on_readback_failure(
    info: IconInfo,
    rb: ReadbackOutcome,
    cleanup_ok: bool,
    s1: State,
    a1: Action,
    s2: State,
    a2: Action,
    s3: State,
    a3: Action,
    s4: State,
    a4: Action,
    s5: State,
    a5: Action,
)
    requires
        dims_valid(info),
        !rb.ok,
        step_rel(State::Idle, Event::Begin, s1, a1),
        step_rel(s1, Event::Info(info), s2, a2),
        step_rel(s2, Event::ContextsReady, s3, a3),
        step_rel(s3, Event::Readback(rb), s4, a4),
        step_rel(s4, Event::CleanupDone(cleanup_ok), s5, a5),
    ensures
        a4 == Action::ReleaseAll,
        !(a1 is ReleaseAll) && !(a1 is ReleaseIconBitmaps),
        !(a2 is ReleaseAll) && !(a2 is ReleaseIconBitmaps),
        !(a3 is ReleaseAll) && !(a3 is ReleaseIconBitmaps),
        !(a5 is ReleaseAll) && !(a5 is ReleaseIconBitmaps),
        s5 == State::Finished,
        a5 matches Action::Finish(out, cleanup_failed) && out == Err::<
            ImageBuffer,
            ExtractionError,
        >(ExtractionError::PixelReadbackFailed) && cleanup_failed == !cleanup_ok,
{
    lemma_conversion_trace(
        info,
        rb,
        cleanup_ok,
        s1,
        a1,
        s2,
        a2,
        s3,
        a3,
        s4,
        a4,
        s5,
        a5,
    );
}

/// Law: an icon whose derived width or height is zero is rejected with
/// `InvalidDimensions` — never turned into an empty success — and the
/// icon's bitmap handles are still released first.
pub proof fn lemma_zero_dimensions_rejected(
    info: IconInfo,
    cleanup_ok: bool,
    s1: State,
    a1: Action,
    s2: State,
    a2: Action,
)
    requires
        info.hotspot_x == 0 || info.hotspot_y == 0,
        step_rel(State::AwaitingInfo, Event::Info(info), s1, a1),
        step_rel(s1, Event::CleanupDone(cleanup_ok), s2, a2),
    ensures
        a1 == Action::ReleaseIconBitmaps,
        s2 == State::Finished,
        a2 matches Action::Finish(out, cleanup_failed) && out == Err::<
            ImageBuffer,
            ExtractionError,
        >(ExtractionError::InvalidDimensions) && cleanup_failed == !cleanup_ok,
{
}

} // verus!
