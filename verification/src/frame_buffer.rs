use vstd::prelude::*;

verus! {

/// A pixel buffer allocated once at its largest size; the current size
/// selects a prefix of it.
pub struct PixelBuffer {
    data: Vec<u8>,
    width: u32,
    height: u32,
}

impl PixelBuffer {
    /// All the allocated bytes.
    pub closed spec fn bytes(&self) -> Seq<u8> {
        self.data@
    }

    /// The current width.
    pub closed spec fn w(&self) -> u32 {
        self.width
    }

    /// The current height.
    pub closed spec fn h(&self) -> u32 {
        self.height
    }

    /// The current size fits the allocation, which a `u32` can count.
    pub closed spec fn wf(&self) -> bool {
        &&& self.width * self.height * 4 <= self.data@.len()
        &&& self.data@.len() <= u32::MAX
    }

    /// A zeroed buffer for images up to `max_width` x `max_height`, of
    /// current size 0 x 0.
    pub fn with_capacity(max_width: u32, max_height: u32) -> (b: Self)
        requires
            max_width * max_height * 4 <= u32::MAX,
        ensures
            b.wf(),
            b.bytes() == Seq::new((max_width * max_height * 4) as nat, |i: int| 0u8),
            b.w() == 0,
            b.h() == 0,
    {
        let size = (max_width * max_height * 4) as usize;
        PixelBuffer { data: vec![0u8; size], width: 0, height: 0 }
    }

    /// Change the current size; the allocation stays.
    pub fn set_size(&mut self, width: u32, height: u32)
        requires
            old(self).wf(),
            width * height * 4 <= old(self).bytes().len(),
        ensures
            final(self).wf(),
            final(self).bytes() == old(self).bytes(),
            final(self).w() == width,
            final(self).h() == height,
    {
        self.width = width;
        self.height = height;
    }

    /// The bytes of the current image.
    pub fn pixels(&self) -> (r: &[u8])
        requires
            self.wf(),
        ensures
            r@ == self.bytes().subrange(0, self.w() * self.h() * 4),
    {
        let n = (self.width * self.height * 4) as usize;
        vstd::slice::slice_subrange(self.data.as_slice(), 0, n)
    }

    /// The bytes of the current image, for writing.
    pub fn pixels_mut(&mut self) -> (r: &mut [u8])
        requires
            old(self).wf(),
        ensures
            r@ == old(self).bytes().subrange(0, old(self).w() * old(self).h() * 4),
            final(self).bytes() == final(r)@ + old(self).bytes().subrange(
                old(self).w() * old(self).h() * 4,
                old(self).bytes().len() as int,
            ),
            final(self).w() == old(self).w(),
            final(self).h() == old(self).h(),
    {
        let n = (self.width * self.height * 4) as usize;
        let s = self.data.as_mut_slice();
        let (a, _b) = s.split_at_mut(n);
        a
    }

    /// The current width.
    pub fn width(&self) -> (r: u32)
        ensures
            r == self.w(),
    {
        self.width
    }

    /// The current height.
    pub fn height(&self) -> (r: u32)
        ensures
            r == self.h(),
    {
        self.height
    }
}

/// A front buffer on display and a back buffer being drawn, swapped when a
/// frame is done.
pub struct DoubleBuffer {
    front: PixelBuffer,
    back: PixelBuffer,
    max_width: u32,
    max_height: u32,
}

impl DoubleBuffer {
    /// The buffer on display.
    pub closed spec fn front_buf(&self) -> PixelBuffer {
        self.front
    }

    /// The buffer being drawn.
    pub closed spec fn back_buf(&self) -> PixelBuffer {
        self.back
    }

    /// The largest width.
    pub closed spec fn max_w(&self) -> u32 {
        self.max_width
    }

    /// The largest height.
    pub closed spec fn max_h(&self) -> u32 {
        self.max_height
    }

    /// Both buffers are well formed and hold an image of the largest size.
    pub closed spec fn wf(&self) -> bool {
        &&& self.front.wf()
        &&& self.back.wf()
        &&& self.front.bytes().len() == self.max_width * self.max_height * 4
        &&& self.back.bytes().len() == self.max_width * self.max_height * 4
    }

    /// Two zeroed buffers for images up to `max_width` x `max_height`.
    pub fn new(max_width: u32, max_height: u32) -> (d: Self)
        requires
            max_width * max_height * 4 <= u32::MAX,
        ensures
            d.wf(),
            d.max_w() == max_width,
            d.max_h() == max_height,
            d.front_buf().w() == 0 && d.front_buf().h() == 0,
            d.back_buf().w() == 0 && d.back_buf().h() == 0,
    {
        DoubleBuffer {
            front: PixelBuffer::with_capacity(max_width, max_height),
            back: PixelBuffer::with_capacity(max_width, max_height),
            max_width,
            max_height,
        }
    }

    /// The buffer being drawn, for writing.
    pub fn back_mut(&mut self) -> (r: &mut PixelBuffer)
        ensures
            *r == old(self).back_buf(),
            final(self).back_buf() == *final(r),
            final(self).front_buf() == old(self).front_buf(),
            final(self).max_w() == old(self).max_w(),
            final(self).max_h() == old(self).max_h(),
    {
        &mut self.back
    }

    /// The buffer on display.
    pub fn front(&self) -> (r: &PixelBuffer)
        ensures
            *r == self.front_buf(),
    {
        &self.front
    }

    /// Exchange the two buffers.
    pub fn swap(&mut self)
        ensures
            final(self).front_buf() == old(self).back_buf(),
            final(self).back_buf() == old(self).front_buf(),
            final(self).max_w() == old(self).max_w(),
            final(self).max_h() == old(self).max_h(),
            final(self).wf() == old(self).wf(),
    {
        std::mem::swap(&mut self.front, &mut self.back);
    }

    /// Give both buffers the current size `width` x `height`.
    pub fn set_size(&mut self, width: u32, height: u32)
        requires
            old(self).wf(),
            width <= old(self).max_w(),
            height <= old(self).max_h(),
        ensures
            final(self).wf(),
            final(self).front_buf().w() == width && final(self).front_buf().h() == height,
            final(self).back_buf().w() == width && final(self).back_buf().h() == height,
            final(self).front_buf().bytes() == old(self).front_buf().bytes(),
            final(self).back_buf().bytes() == old(self).back_buf().bytes(),
            final(self).max_w() == old(self).max_w(),
            final(self).max_h() == old(self).max_h(),
    {
        assert(width * height * 4 <= self.max_width * self.max_height * 4) by (nonlinear_arith)
            requires
                width <= self.max_width,
                height <= self.max_height,
        ;
        self.front.set_size(width, height);
        self.back.set_size(width, height);
    }
}

/// State of the frame in the back buffer.
#[derive(Debug, Clone, Copy, PartialEq, Eq, Structural)]
pub enum FrameState {
    Empty,
    Rendering,
    Ready,
}

impl FrameState {
    /// The state stored as a byte: 1 rendering, 2 ready, anything else
    /// empty.
    pub fn from_u8(v: u8) -> (s: Self)
        ensures
            s == if v == 1 { FrameState::Rendering } else if v == 2 { FrameState::Ready } else { FrameState::Empty },
    {
        match v {
            1 => FrameState::Rendering,
            2 => FrameState::Ready,
            _ => FrameState::Empty,
        }
    }

    /// The byte that stores the state.
    pub fn to_u8(&self) -> (v: u8)
        ensures
            v == match *self {
                FrameState::Empty => 0u8,
                FrameState::Rendering => 1u8,
                FrameState::Ready => 2u8,
            },
    {
        match self {
            FrameState::Empty => 0,
            FrameState::Rendering => 1,
            FrameState::Ready => 2,
        }
    }
}

/// Largest width the renderer allocates for (4K).
pub const RENDERER_MAX_WIDTH: u32 = 3840;

/// Largest height the renderer allocates for (4K).
pub const RENDERER_MAX_HEIGHT: u32 = 2160;

/// Double-buffered software renderer: the page is drawn into the back
/// buffer and presented by swapping.
pub struct ServoRenderer {
    buffers: DoubleBuffer,
    state: FrameState,
    size: (u32, u32),
    scale_factor_bits: u64,
}

impl ServoRenderer {
    /// The buffers.
    pub closed spec fn bufs(&self) -> DoubleBuffer {
        self.buffers
    }

    /// The frame state.
    pub closed spec fn frame(&self) -> FrameState {
        self.state
    }

    /// The viewport size.
    pub closed spec fn viewport(&self) -> (u32, u32) {
        self.size
    }

    /// The scale factor, as the bit pattern of a 64-bit float.
    pub closed spec fn scale_bits(&self) -> u64 {
        self.scale_factor_bits
    }

    /// The invariant: buffers for 4K images.
    pub closed spec fn wf(&self) -> bool {
        &&& self.buffers.wf()
        &&& self.buffers.max_w() == RENDERER_MAX_WIDTH
        &&& self.buffers.max_h() == RENDERER_MAX_HEIGHT
    }

    /// Buffers for 4K images, no frame, an 800 x 600 viewport at scale 1.
    pub fn new() -> (r: Self)
        ensures
            r.wf(),
            r.frame() == FrameState::Empty,
            r.viewport() == (800u32, 600u32),
            r.scale_bits() == 0x3ff0000000000000u64,
    {
        ServoRenderer {
            buffers: DoubleBuffer::new(RENDERER_MAX_WIDTH, RENDERER_MAX_HEIGHT),
            state: FrameState::Empty,
            size: (800, 600),
            scale_factor_bits: 0x3ff0000000000000,
        }
    }

    /// Set the viewport size and size both buffers to it.
    pub fn set_size(&mut self, width: u32, height: u32)
        requires
            old(self).wf(),
            width <= RENDERER_MAX_WIDTH,
            height <= RENDERER_MAX_HEIGHT,
        ensures
            final(self).wf(),
            final(self).viewport() == (width, height),
            final(self).bufs().front_buf().w() == width && final(self).bufs().front_buf().h() == height,
            final(self).bufs().back_buf().w() == width && final(self).bufs().back_buf().h() == height,
            final(self).frame() == old(self).frame(),
            final(self).scale_bits() == old(self).scale_bits(),
    {
        self.size = (width, height);
        self.buffers.set_size(width, height);
    }

    /// The viewport size.
    pub fn get_size(&self) -> (r: (u32, u32))
        ensures
            r == self.viewport(),
    {
        self.size
    }

    /// Set the scale factor, given as the bit pattern of a 64-bit float.
    pub fn set_scale_factor(&mut self, bits: u64)
        ensures
            final(self).scale_bits() == bits,
            final(self).bufs() == old(self).bufs(),
            final(self).frame() == old(self).frame(),
            final(self).viewport() == old(self).viewport(),
            final(self).wf() == old(self).wf(),
    {
        self.scale_factor_bits = bits;
    }

    /// Start drawing a frame: the state becomes rendering and the back
    /// buffer is handed out.
    pub fn back_buffer(&mut self) -> (r: &mut PixelBuffer)
        ensures
            *r == old(self).bufs().back_buf(),
            final(self).bufs().back_buf() == *final(r),
            final(self).bufs().front_buf() == old(self).bufs().front_buf(),
            final(self).frame() == FrameState::Rendering,
            final(self).viewport() == old(self).viewport(),
            final(self).scale_bits() == old(self).scale_bits(),
    {
        self.state = FrameState::Rendering;
        self.buffers.back_mut()
    }

    /// Present the drawn frame: the buffers swap and the frame is ready.
    pub fn present(&mut self)
        ensures
            final(self).bufs().front_buf() == old(self).bufs().back_buf(),
            final(self).bufs().back_buf() == old(self).bufs().front_buf(),
            final(self).frame() == FrameState::Ready,
            final(self).viewport() == old(self).viewport(),
            final(self).scale_bits() == old(self).scale_bits(),
            final(self).wf() == old(self).wf(),
    {
        self.buffers.swap();
        self.state = FrameState::Ready;
    }

    /// The buffer on display.
    pub fn front_buffer(&self) -> (r: &PixelBuffer)
        ensures
            *r == self.bufs().front_buf(),
    {
        self.buffers.front()
    }

    /// Whether a presented frame waits to be shown.
    pub fn has_new_frame(&self) -> (r: bool)
        ensures
            r == (self.frame() == FrameState::Ready),
    {
        self.state == FrameState::Ready
    }

    /// The shown frame was consumed.
    pub fn mark_consumed(&mut self)
        ensures
            final(self).frame() == FrameState::Empty,
            final(self).bufs() == old(self).bufs(),
            final(self).viewport() == old(self).viewport(),
            final(self).scale_bits() == old(self).scale_bits(),
            final(self).wf() == old(self).wf(),
    {
        self.state = FrameState::Empty;
    }

    /// The frame state.
    pub fn frame_state(&self) -> (r: FrameState)
        ensures
            r == self.frame(),
    {
        self.state
    }
}

} // verus!
