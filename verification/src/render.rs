use vstd::prelude::*;
use crate::clock::now_nanos;

verus! {

/// How pages are rendered.
#[derive(Debug, Clone, Copy, PartialEq, Eq, Structural)]
pub enum RenderMode {
    /// GPU rendering with texture sharing.
    Gpu,
    /// Software rendering.
    Cpu,
    /// Use the GPU when available.
    Auto,
}

impl Default for RenderMode {
    fn default() -> (m: Self)
        ensures
            m == RenderMode::Auto,
    {
        RenderMode::Auto
    }
}

impl RenderMode {
    /// Whether the GPU is preferred (GPU and auto modes).
    pub fn prefers_gpu(&self) -> (r: bool)
        ensures
            r == (*self == RenderMode::Gpu || *self == RenderMode::Auto),
    {
        match self {
            RenderMode::Gpu | RenderMode::Auto => true,
            RenderMode::Cpu => false,
        }
    }

    /// Whether software rendering is preferred (CPU mode only).
    pub fn prefers_cpu(&self) -> (r: bool)
        ensures
            r == (*self == RenderMode::Cpu),
    {
        match self {
            RenderMode::Cpu => true,
            _ => false,
        }
    }
}

/// Where a frame is in its life cycle.
#[derive(Debug, Clone, Copy, PartialEq, Eq, Structural)]
pub enum FrameState {
    /// Free for rendering.
    Empty,
    /// Being rendered.
    Rendering,
    /// Ready for presentation.
    Ready,
    /// Being presented.
    Presenting,
}

/// A frame's bookkeeping and, in software mode, its pixels. Times are
/// nanoseconds since the Unix epoch.
pub struct GpuFrame {
    pub index: u64,
    pub cpu_buffer: Option<Vec<u8>>,
    pub width: u32,
    pub height: u32,
    pub state: FrameState,
    pub created_at: i128,
    pub render_started_at: Option<i128>,
    pub render_completed_at: Option<i128>,
}

/// A zero-filled buffer of `n` bytes.
pub(crate) fn zeroed(n: usize) -> (v: Vec<u8>)
    ensures
        v@ == Seq::new(n as nat, |i: int| 0u8),
{
    let mut v: Vec<u8> = Vec::new();
    let mut i: usize = 0;
    while i < n
        invariant
            i <= n,
            v@ == Seq::new(i as nat, |k: int| 0u8),
        decreases n - i,
    {
        v.push(0);
        i = i + 1;
        assert(v@ =~= Seq::new(i as nat, |k: int| 0u8));
    }
    v
}

impl GpuFrame {
    /// An empty 0 x 0 frame without pixels.
    pub fn new(index: u64) -> (f: Self)
        ensures
            f.index == index,
            f.cpu_buffer is None,
            f.width == 0,
            f.height == 0,
            f.state == FrameState::Empty,
            f.render_started_at is None,
            f.render_completed_at is None,
    {
        GpuFrame {
            index,
            cpu_buffer: None,
            width: 0,
            height: 0,
            state: FrameState::Empty,
            created_at: now_nanos(),
            render_started_at: None,
            render_completed_at: None,
        }
    }

    /// An empty software frame with a zeroed RGBA buffer.
    pub fn with_cpu_buffer(index: u64, width: u32, height: u32) -> (f: Self)
        requires
            width * height * 4 <= u32::MAX,
        ensures
            f.index == index,
            f.cpu_buffer matches Some(b) && b@ == Seq::new((width * height * 4) as nat, |i: int| 0u8),
            f.width == width,
            f.height == height,
            f.state == FrameState::Empty,
            f.render_started_at is None,
            f.render_completed_at is None,
    {
        let size = (width * height * 4) as usize;
        GpuFrame {
            index,
            cpu_buffer: Some(zeroed(size)),
            width,
            height,
            state: FrameState::Empty,
            created_at: now_nanos(),
            render_started_at: None,
            render_completed_at: None,
        }
    }

    /// Change the size; a software buffer is replaced by a zeroed one of
    /// the new size. Nothing changes when the size is the same.
    pub fn resize(&mut self, width: u32, height: u32)
        requires
            width * height * 4 <= u32::MAX,
        ensures
            old(self).width == width && old(self).height == height ==> final(self).cpu_buffer == old(self).cpu_buffer,
            final(self).width == width,
            final(self).height == height,
            !(old(self).width == width && old(self).height == height) ==> match old(self).cpu_buffer {
                Some(_) => final(self).cpu_buffer matches Some(b) && b@ == Seq::new((width * height * 4) as nat, |i: int| 0u8),
                None => final(self).cpu_buffer is None,
            },
            final(self).index == old(self).index,
            final(self).state == old(self).state,
            final(self).render_started_at == old(self).render_started_at,
            final(self).render_completed_at == old(self).render_completed_at,
    {
        if self.width == width && self.height == height {
            return;
        }
        self.width = width;
        self.height = height;
        if self.cpu_buffer.is_some() {
            let size = (width * height * 4) as usize;
            self.cpu_buffer = Some(zeroed(size));
        }
    }

    /// The pixels of a software frame.
    pub fn pixels(&self) -> (r: Option<&[u8]>)
        ensures
            match self.cpu_buffer {
                Some(b) => r matches Some(p) && p@ == b@,
                None => r is None,
            },
    {
        match &self.cpu_buffer {
            Some(b) => Some(b.as_slice()),
            None => None,
        }
    }

    /// Rendering started at `now`.
    pub fn mark_rendering_at(&mut self, now: i128)
        ensures
            final(self).state == FrameState::Rendering,
            final(self).render_started_at == Some(now),
            final(self).render_completed_at == old(self).render_completed_at,
            final(self).cpu_buffer == old(self).cpu_buffer,
            final(self).index == old(self).index,
            final(self).width == old(self).width,
            final(self).height == old(self).height,
    {
        self.state = FrameState::Rendering;
        self.render_started_at = Some(now);
    }

    /// Rendering started now.
    pub fn mark_rendering(&mut self)
        ensures
            final(self).state == FrameState::Rendering,
            final(self).render_started_at is Some,
            final(self).render_completed_at == old(self).render_completed_at,
            final(self).cpu_buffer == old(self).cpu_buffer,
    {
        let now = now_nanos();
        self.mark_rendering_at(now);
    }

    /// Rendering finished at `now`; the frame is ready.
    pub fn mark_ready_at(&mut self, now: i128)
        ensures
            final(self).state == FrameState::Ready,
            final(self).render_completed_at == Some(now),
            final(self).render_started_at == old(self).render_started_at,
            final(self).cpu_buffer == old(self).cpu_buffer,
            final(self).index == old(self).index,
            final(self).width == old(self).width,
            final(self).height == old(self).height,
    {
        self.state = FrameState::Ready;
        self.render_completed_at = Some(now);
    }

    /// Rendering finished now; the frame is ready.
    pub fn mark_ready(&mut self)
        ensures
            final(self).state == FrameState::Ready,
            final(self).render_completed_at is Some,
            final(self).render_started_at == old(self).render_started_at,
            final(self).cpu_buffer == old(self).cpu_buffer,
    {
        let now = now_nanos();
        self.mark_ready_at(now);
    }

    /// The frame is being presented.
    pub fn mark_presenting(&mut self)
        ensures
            final(self).state == FrameState::Presenting,
            final(self).render_started_at == old(self).render_started_at,
            final(self).render_completed_at == old(self).render_completed_at,
            final(self).cpu_buffer == old(self).cpu_buffer,
    {
        self.state = FrameState::Presenting;
    }

    /// The frame is free again; its render times are cleared.
    pub fn mark_empty(&mut self)
        ensures
            final(self).state == FrameState::Empty,
            final(self).render_started_at is None,
            final(self).render_completed_at is None,
            final(self).cpu_buffer == old(self).cpu_buffer,
            final(self).index == old(self).index,
            final(self).width == old(self).width,
            final(self).height == old(self).height,
    {
        self.state = FrameState::Empty;
        self.render_started_at = None;
        self.render_completed_at = None;
    }

    /// How long rendering took, in nanoseconds, when both times are known
    /// (0 if the clock went backwards).
    pub fn render_time(&self) -> (r: Option<u128>)
        ensures
            match (self.render_started_at, self.render_completed_at) {
                (Some(s), Some(e)) => r == Some(if e >= s { (e - s) as u128 } else { 0u128 }),
                _ => r is None,
            },
    {
        match (self.render_started_at, self.render_completed_at) {
            (Some(start), Some(end)) => {
                if end < start {
                    Some(0)
                } else if start >= 0 || end < 0 {
                    Some((end - start) as u128)
                } else {
                    let below: u128 = (-(start + 1)) as u128;
                    Some(end as u128 + below + 1)
                }
            },
            _ => None,
        }
    }
}

/// What the GPU adapter supports.
pub struct GpuCapabilities {
    pub backend: String,
    pub supports_external_memory: bool,
    pub supports_io_surface: bool,
    pub supports_dx_interop: bool,
    pub max_texture_size: u32,
    pub supports_texture_binding_array: bool,
    pub adapter_name: String,
    pub driver_version: String,
}

/// Errors of the GPU renderer.
#[derive(Debug)]
pub enum GpuRendererError {
    InstanceCreation(String),
    AdapterRequest(String),
    DeviceRequest(String),
    Surface(String),
    TextureCreation(String),
    UnsupportedRenderMode(String),
    FrameQueueFull,
    NoFrameAvailable,
    GpuTimeout,
}

/// External memory of a shared texture (Linux).
pub struct ExternalMemoryHandle {
    pub fd: i32,
    pub size: usize,
    pub offset: u64,
}

/// IOSurface of a shared texture (macOS).
pub struct IOSurfaceHandle {
    pub surface_id: u32,
    pub width: u32,
    pub height: u32,
    pub pixel_format: u32,
}

/// DirectX interop handles of a shared texture (Windows).
pub struct DxInteropHandle {
    pub dx_device: usize,
    pub dx_texture: usize,
    pub gl_texture: u32,
}


/// How many returned frames the pool of a frame queue keeps for reuse.
pub const FRAME_QUEUE_CAPACITY: usize = 2;

/// The two ends of a bounded `crossbeam_channel` of frames, kept together so
/// that the queue is never disconnected and nobody else sends or receives.
#[verifier::external_body]
pub struct FrameChannel {
    sender: crossbeam_channel::Sender<GpuFrame>,
    receiver: crossbeam_channel::Receiver<GpuFrame>,
}

/// The frames waiting in a channel, oldest first.
pub uninterp spec fn channel_frames(c: FrameChannel) -> Seq<GpuFrame>;

/// The capacity a channel was made with.
pub uninterp spec fn channel_capacity(c: FrameChannel) -> nat;

/// Calls `crossbeam_channel::bounded(cap)`: a new channel, empty, holding
/// at most `cap` frames. The crate panics when `cap` is too large for its
/// buffer of slots; a slot for a frame takes well under 256 bytes, so
/// capacities whose 256-byte slots fit in `isize::MAX` bytes stay clear of
/// that (running out of memory still aborts, as any allocation does).
#[verifier::external_body]
fn frame_channel(cap: usize) -> (c: FrameChannel)
    requires
        cap * 256 <= isize::MAX,
    ensures
        channel_frames(c) == Seq::<GpuFrame>::empty(),
        channel_capacity(c) == cap,
{
    let (sender, receiver) = crossbeam_channel::bounded(cap);
    FrameChannel { sender, receiver }
}

/// Calls `Sender::try_send`. With fewer frames waiting than the capacity the
/// frame joins the end of the queue; otherwise the channel is full (a
/// zero-capacity channel always is, as nothing receives at the same time)
/// and the frame comes back. The receiver is held alongside, so the channel
/// is never disconnected.
#[verifier::external_body]
fn channel_try_send(c: &mut FrameChannel, frame: GpuFrame) -> (r: Result<(), GpuFrame>)
    ensures
        channel_capacity(*final(c)) == channel_capacity(*old(c)),
        channel_frames(*old(c)).len() < channel_capacity(*old(c)) ==> (r is Ok
            && channel_frames(*final(c)) == channel_frames(*old(c)).push(frame)),
        channel_frames(*old(c)).len() >= channel_capacity(*old(c)) ==> (r == Err::<(), GpuFrame>(frame)
            && channel_frames(*final(c)) == channel_frames(*old(c))),
{
    match c.sender.try_send(frame) {
        Ok(()) => Ok(()),
        Err(crossbeam_channel::TrySendError::Full(f)) => Err(f),
        Err(crossbeam_channel::TrySendError::Disconnected(f)) => Err(f),
    }
}

/// Calls `Receiver::try_recv`: the oldest waiting frame, taken off the
/// queue, or nothing when none waits.
#[verifier::external_body]
fn channel_try_recv(c: &mut FrameChannel) -> (r: Option<GpuFrame>)
    ensures
        channel_capacity(*final(c)) == channel_capacity(*old(c)),
        channel_frames(*old(c)).len() == 0 ==> (r is None && channel_frames(*final(c)) == channel_frames(*old(c))),
        channel_frames(*old(c)).len() > 0 ==> (r == Some(channel_frames(*old(c))[0])
            && channel_frames(*final(c)) == channel_frames(*old(c)).drop_first()),
{
    match c.receiver.try_recv() {
        Ok(f) => Some(f),
        Err(_) => None,
    }
}

/// Calls `Receiver::is_empty`: whether no frame waits.
#[verifier::external_body]
fn channel_is_empty(c: &FrameChannel) -> (r: bool)
    ensures
        r == (channel_frames(*c).len() == 0),
{
    c.receiver.is_empty()
}

/// Hands rendered frames from the renderer to the presenter in the order
/// they were submitted, through a bounded channel, and recycles the frames
/// that come back. Each frame handed out gets the next index.
pub struct FrameQueue {
    channel: FrameChannel,
    frame_pool: Vec<GpuFrame>,
    next_index: u64,
}

impl FrameQueue {
    /// How many submitted frames the queue holds at most.
    pub closed spec fn spec_capacity(&self) -> nat {
        channel_capacity(self.channel)
    }

    /// The submitted frames not yet taken, oldest first.
    pub closed spec fn queued(&self) -> Seq<GpuFrame> {
        channel_frames(self.channel)
    }

    /// The returned frames kept for reuse; the last is reused first.
    pub closed spec fn pool(&self) -> Seq<GpuFrame> {
        self.frame_pool@
    }

    /// The index the next acquired frame gets.
    pub closed spec fn spec_next_index(&self) -> u64 {
        self.next_index
    }

    /// An empty queue for at most `capacity` submitted frames (a capacity
    /// too large for the channel's buffer is left out).
    pub fn new(capacity: usize) -> (q: Self)
        requires
            capacity * 256 <= isize::MAX,
        ensures
            q.spec_capacity() == capacity,
            q.queued() == Seq::<GpuFrame>::empty(),
            q.pool() == Seq::<GpuFrame>::empty(),
            q.spec_next_index() == 0,
    {
        FrameQueue { channel: frame_channel(capacity), frame_pool: Vec::new(), next_index: 0 }
    }

    /// A frame to render into: the last pooled frame, emptied, or else a new
    /// one. It carries the next index, which then advances (wrapping).
    pub fn acquire_frame(&mut self) -> (r: Option<GpuFrame>)
        ensures
            r matches Some(f) && f.index == old(self).spec_next_index() && f.state == FrameState::Empty
                && f.render_started_at is None && f.render_completed_at is None,
            old(self).pool().len() > 0 ==> (r matches Some(f)
                && f.cpu_buffer == old(self).pool().last().cpu_buffer
                && f.width == old(self).pool().last().width
                && f.height == old(self).pool().last().height
                && final(self).pool() == old(self).pool().drop_last()),
            old(self).pool().len() == 0 ==> (r matches Some(f) && f.cpu_buffer is None && f.width == 0
                && f.height == 0 && final(self).pool() == old(self).pool()),
            final(self).spec_next_index() == (if old(self).spec_next_index() == u64::MAX { 0 } else {
                (old(self).spec_next_index() + 1) as u64 }),
            final(self).queued() == old(self).queued(),
            final(self).spec_capacity() == old(self).spec_capacity(),
    {
        let index = self.next_index;
        self.next_index = self.next_index.wrapping_add(1);
        match self.frame_pool.pop() {
            Some(mut frame) => {
                frame.mark_empty();
                frame.index = index;
                Some(frame)
            },
            None => Some(GpuFrame::new(index)),
        }
    }

    /// Queues a finished frame; a full queue refuses it.
    pub fn submit_frame(&mut self, frame: GpuFrame) -> (r: Result<(), GpuRendererError>)
        ensures
            old(self).queued().len() < old(self).spec_capacity() ==> (r is Ok
                && final(self).queued() == old(self).queued().push(frame)),
            old(self).queued().len() >= old(self).spec_capacity() ==> (r matches Err(GpuRendererError::FrameQueueFull)
                && final(self).queued() == old(self).queued()),
            final(self).pool() == old(self).pool(),
            final(self).spec_next_index() == old(self).spec_next_index(),
            final(self).spec_capacity() == old(self).spec_capacity(),
    {
        match channel_try_send(&mut self.channel, frame) {
            Ok(()) => Ok(()),
            Err(_) => Err(GpuRendererError::FrameQueueFull),
        }
    }

    /// The oldest submitted frame, if any, taken off the queue.
    pub fn try_get_frame(&mut self) -> (r: Option<GpuFrame>)
        ensures
            old(self).queued().len() == 0 ==> (r is None && final(self).queued() == old(self).queued()),
            old(self).queued().len() > 0 ==> (r == Some(old(self).queued()[0])
                && final(self).queued() == old(self).queued().drop_first()),
            final(self).pool() == old(self).pool(),
            final(self).spec_next_index() == old(self).spec_next_index(),
            final(self).spec_capacity() == old(self).spec_capacity(),
    {
        channel_try_recv(&mut self.channel)
    }

    /// Gives a presented frame back: it is emptied and kept for reuse while
    /// the pool has room.
    pub fn return_frame(&mut self, frame: GpuFrame)
        ensures
            old(self).pool().len() < FRAME_QUEUE_CAPACITY ==> (final(self).pool().len() == old(self).pool().len() + 1
                && final(self).pool().drop_last() == old(self).pool()
                && final(self).pool().last().index == frame.index
                && final(self).pool().last().state == FrameState::Empty
                && final(self).pool().last().render_started_at is None
                && final(self).pool().last().render_completed_at is None
                && final(self).pool().last().cpu_buffer == frame.cpu_buffer),
            old(self).pool().len() >= FRAME_QUEUE_CAPACITY ==> final(self).pool() == old(self).pool(),
            final(self).queued() == old(self).queued(),
            final(self).spec_next_index() == old(self).spec_next_index(),
            final(self).spec_capacity() == old(self).spec_capacity(),
    {
        let mut frame = frame;
        frame.mark_empty();
        if self.frame_pool.len() < FRAME_QUEUE_CAPACITY {
            self.frame_pool.push(frame);
            proof {
                assert(self.frame_pool@.drop_last() =~= old(self).frame_pool@);
            }
        }
    }

    /// Whether a submitted frame is waiting.
    pub fn has_frame(&self) -> (r: bool)
        ensures
            r == (self.queued().len() > 0),
    {
        !channel_is_empty(&self.channel)
    }
}

/// IOSurface texture sharing is not available in this renderer: the
/// request is always refused as an unsupported render mode.
pub fn create_io_surface(_width: u32, _height: u32) -> (r: Result<IOSurfaceHandle, GpuRendererError>)
    ensures
        r matches Err(GpuRendererError::UnsupportedRenderMode(m)) && m@ == "IOSurface not yet implemented"@,
{
    Err(GpuRendererError::UnsupportedRenderMode("IOSurface not yet implemented".to_string()))
}

} // verus!
