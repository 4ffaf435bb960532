//! Frames of the image stack: where a frame lies, how it is assembled from
//! stored pixels, and how it is sent.

use vstd::prelude::*;
use crate::error::{LayoutFault, ReaderError};
use crate::pixel::{ElementType, PixelType, RawPixels};

verus! {

/// What the image stack declares about itself: its dimensions, outermost
/// first, and its element type.
#[derive(Debug, Clone, PartialEq, Eq)]
pub struct StackHeader {
    pub dims: Vec<usize>,
    pub element: ElementType,
}

/// The shape of a well-formed image stack: frames x height x width.
#[derive(Debug, Clone, Copy, PartialEq, Eq, Structural)]
pub struct StackShape {
    pub frames: usize,
    pub height: usize,
    pub width: usize,
}

/// A frame that may be read: its index and what to expect of its pixels.
#[derive(Debug, Clone, Copy, PartialEq, Eq, Structural)]
pub struct FramePlan {
    pub index: usize,
    pub height: usize,
    pub width: usize,
    pub pixel_type: PixelType,
}

/// One detector image in canonical form: `width * height` pixels, row-major,
/// origin top-left.
#[derive(Debug, Clone, PartialEq, Eq)]
pub struct Frame {
    pub pixels: Vec<u16>,
    pub width: usize,
    pub height: usize,
}

/// The shape that a list of dimensions declares: it must have exactly three
/// entries.
pub open spec fn shape_of(dims: Seq<usize>) -> Result<StackShape, ReaderError> {
    if dims.len() == 3 {
        Ok(StackShape { frames: dims[0], height: dims[1], width: dims[2] })
    } else {
        Err(ReaderError::InvalidLayout(LayoutFault::WrongRank(dims.len() as usize)))
    }
}

/// The shape of the image stack of a file, given the dimensions the stack
/// declares; `None` stands for a file without the stack.
pub open spec fn stack_shape(dims: Option<Vec<usize>>) -> Result<StackShape, ReaderError> {
    match dims {
        None => Err(ReaderError::InvalidLayout(LayoutFault::MissingDataset)),
        Some(d) => shape_of(d@),
    }
}

/// The number of frames of the image stack of a file.
pub open spec fn frame_count_of(dims: Option<Vec<usize>>) -> Result<usize, ReaderError> {
    match stack_shape(dims) {
        Ok(shape) => Ok(shape.frames),
        Err(e) => Err(e),
    }
}

/// The dimensions that the header of a stack declares.
pub open spec fn dims_of(header: Option<StackHeader>) -> Option<Vec<usize>> {
    match header {
        Some(h) => Some(h.dims),
        None => None,
    }
}

/// The plan for reading frame `index`, or the reason why it cannot be read.
/// The checks come in a fixed order: the stack exists, it has rank three, the
/// index is below the frame count, the element type is supported.
pub open spec fn frame_plan(header: Option<StackHeader>, index: usize) -> Result<
    FramePlan,
    ReaderError,
> {
    match stack_shape(dims_of(header)) {
        Err(e) => Err(e),
        Ok(shape) => if index >= shape.frames {
            Err(ReaderError::OutOfRange { index, frame_count: shape.frames })
        } else {
            match header->0.element {
                ElementType::Other(descriptor) => Err(ReaderError::UnsupportedDtype(descriptor)),
                element => Ok(
                    FramePlan {
                        index,
                        height: shape.height,
                        width: shape.width,
                        pixel_type: element.supported()->0,
                    },
                ),
            }
        },
    }
}

/// A frame as a mathematical value.
pub struct FrameView {
    pub pixels: Seq<u16>,
    pub width: usize,
    pub height: usize,
}

impl View for Frame {
    type V = FrameView;

    open spec fn view(&self) -> FrameView {
        FrameView { pixels: self.pixels@, width: self.width, height: self.height }
    }
}

impl FrameView {
    /// A frame holds exactly `width * height` pixels.
    pub open spec fn well_formed(self) -> bool {
        self.pixels.len() == self.width * self.height
    }
}

/// The frame assembled from the pixels stored for `plan`: the canonical
/// pixels with the planned size, unless the pixel count is not
/// `width * height`.
pub open spec fn assembled(plan: FramePlan, raw: RawPixels) -> Result<FrameView, ReaderError> {
    if raw.values().len() == plan.width * plan.height {
        Ok(FrameView { pixels: raw.canonical(), width: plan.width, height: plan.height })
    } else {
        Err(
            ReaderError::InvalidLayout(
                LayoutFault::WrongPixelCount {
                    width: plan.width,
                    height: plan.height,
                    found: raw.values().len() as usize,
                },
            ),
        )
    }
}

/// The frame that reading the pixels of `plan` ends in, when the read went
/// as `slab`: the failure of the read, or the frame assembled from what was
/// read.
pub open spec fn frame_from(plan: FramePlan, slab: Result<RawPixels, ReaderError>) -> Result<
    FrameView,
    ReaderError,
> {
    match slab {
        Ok(raw) => assembled(plan, raw),
        Err(e) => Err(e),
    }
}

/// Whether `r` is the frame `expected`, or the failure `expected`.
pub open spec fn is_frame(expected: Result<FrameView, ReaderError>, r: Result<Frame, ReaderError>)
    -> bool {
    match r {
        Ok(frame) => expected == Ok::<FrameView, ReaderError>(frame@),
        Err(e) => expected == Err::<FrameView, ReaderError>(e),
    }
}

/// The bytes of a pixel buffer as sent: two bytes per pixel, least
/// significant first, in pixel order.
pub open spec fn le_bytes(pixels: Seq<u16>) -> Seq<u8> {
    Seq::new(
        2 * pixels.len(),
        |i: int|
            if i % 2 == 0 {
                (pixels[i / 2] % 256) as u8
            } else {
                (pixels[i / 2] / 256) as u8
            },
    )
}

impl StackShape {
    /// Reads the shape off a list of dimensions; fails unless there are
    /// exactly three.
    pub fn parse(dims: &Vec<usize>) -> (r: Result<StackShape, ReaderError>)
        ensures
            r == shape_of(dims@),
    {
        if dims.len() == 3 {
            Ok(StackShape { frames: dims[0], height: dims[1], width: dims[2] })
        } else {
            Err(ReaderError::InvalidLayout(LayoutFault::WrongRank(dims.len())))
        }
    }

    /// The shape of the image stack of a file.
    pub fn of_stack(dims: &Option<Vec<usize>>) -> (r: Result<StackShape, ReaderError>)
        ensures
            r == stack_shape(*dims),
    {
        match dims {
            None => Err(ReaderError::InvalidLayout(LayoutFault::MissingDataset)),
            Some(d) => StackShape::parse(d),
        }
    }
}

/// The number of frames in the image stack: its outermost dimension.
pub fn frame_count(dims: &Option<Vec<usize>>) -> (r: Result<usize, ReaderError>)
    ensures
        r == frame_count_of(*dims),
{
    match StackShape::of_stack(dims) {
        Ok(shape) => Ok(shape.frames),
        Err(e) => Err(e),
    }
}

/// Decides whether frame `index` can be read and, if so, with which size and
/// element type.
pub fn plan_frame(header: &Option<StackHeader>, index: usize) -> (r: Result<FramePlan, ReaderError>)
    ensures
        r == frame_plan(*header, index),
{
    let h = match header {
        Some(h) => h,
        None => { return Err(ReaderError::InvalidLayout(LayoutFault::MissingDataset)); },
    };
    let shape = match StackShape::parse(&h.dims) {
        Ok(shape) => shape,
        Err(e) => { return Err(e); },
    };
    if index >= shape.frames {
        return Err(ReaderError::OutOfRange { index, frame_count: shape.frames });
    }
    let pixel_type = match &h.element {
        ElementType::U16 => PixelType::U16,
        ElementType::I16 => PixelType::I16,
        ElementType::I32 => PixelType::I32,
        ElementType::U32 => PixelType::U32,
        ElementType::Other(descriptor) => {
            return Err(ReaderError::UnsupportedDtype(descriptor.clone()));
        },
    };
    Ok(FramePlan { index, height: shape.height, width: shape.width, pixel_type })
}

/// Assembles the frame of `plan` from its stored pixels.
pub fn assemble_frame(plan: &FramePlan, raw: RawPixels) -> (r: Result<Frame, ReaderError>)
    ensures
        is_frame(assembled(*plan, raw), r),
        r matches Ok(frame) ==> frame@.well_formed(),
{
    let found = raw.len();
    let fits = match plan.width.checked_mul(plan.height) {
        Some(expected) => expected == found,
        None => false,
    };
    if fits {
        Ok(Frame { pixels: raw.into_canonical(), width: plan.width, height: plan.height })
    } else {
        Err(
            ReaderError::InvalidLayout(
                LayoutFault::WrongPixelCount { width: plan.width, height: plan.height, found },
            ),
        )
    }
}

/// Reads frame `index` of an image stack. The header decides first whether
/// the frame can be read at all; only then is `read` asked for the stored
/// pixels of the planned frame, and what it hands back is assembled into the
/// frame. An index that is not below the frame count fails as out of range
/// whatever `read` would do; a frame comes back only for an index below the
/// frame count, and it holds `width * height` pixels.
pub fn read_nxs_frame<F: FnOnce(&FramePlan) -> Result<RawPixels, ReaderError>>(
    header: &Option<StackHeader>,
    index: usize,
    read: F,
) -> (r: Result<Frame, ReaderError>)
    requires
        frame_plan(*header, index) matches Ok(plan) ==> read.requires((&plan,)),
    ensures
        match frame_plan(*header, index) {
            Err(e) => r == Err::<Frame, ReaderError>(e),
            Ok(plan) => exists|slab: Result<RawPixels, ReaderError>|
                #![trigger read.ensures((&plan,), slab)]
                read.ensures((&plan,), slab) && is_frame(frame_from(plan, slab), r),
        },
        frame_count_of(dims_of(*header)) matches Ok(count) ==> (index >= count ==> r == Err::<
            Frame,
            ReaderError,
        >(ReaderError::OutOfRange { index, frame_count: count })),
        r matches Ok(frame) ==> frame@.well_formed(),
        r is Ok ==> frame_count_of(dims_of(*header)) is Ok && index < frame_count_of(
            dims_of(*header),
        )->Ok_0,
{
    let plan = match plan_frame(header, index) {
        Ok(plan) => plan,
        Err(e) => { return Err(e); },
    };
    let slab = read(&plan);
    let ghost seen = slab;
    let r = match slab {
        Ok(raw) => assemble_frame(&plan, raw),
        Err(e) => Err(e),
    };
    assert(read.ensures((&plan,), seen) && is_frame(frame_from(plan, seen), r));
    r
}

impl Frame {
    /// Whether the frame holds exactly `width * height` pixels.
    pub fn is_well_formed(&self) -> (ok: bool)
        ensures
            ok == self@.well_formed(),
    {
        let found = self.pixels.len();
        match self.width.checked_mul(self.height) {
            Some(expected) => expected == found,
            None => false,
        }
    }

    /// The frame as sent to a client: little-endian unsigned 16-bit pixels,
    /// row-major.
    pub fn to_le_bytes(&self) -> (bytes: Vec<u8>)
        ensures
            bytes@ == le_bytes(self.pixels@),
    {
        let mut bytes: Vec<u8> = Vec::new();
        let mut i: usize = 0;
        while i < self.pixels.len()
            invariant
                i <= self.pixels.len(),
                bytes@.len() == 2 * i,
                forall|k: int| 0 <= k < 2 * i ==> bytes@[k] == le_bytes(self.pixels@)[k],
            decreases self.pixels.len() - i,
        {
            let p: u16 = self.pixels[i];
            let low: u8 = (p % 256) as u8;
            let high: u8 = (p / 256) as u8;
            bytes.push(low);
            bytes.push(high);
            i = i + 1;
        }
        bytes
    }
}

/// A stored pixel goes out as its two low bytes, least significant first,
/// whatever its element type: narrowing truncates and never clamps. So a
/// stored `0x1_FFFF` is sent as `FF FF`, not as the bytes of `32767`.
pub proof fn lemma_stored_pixel_on_the_wire(raw: RawPixels, i: int)
    requires
        0 <= i < raw.values().len(),
    ensures
        raw.canonical().len() == raw.values().len(),
        raw.canonical()[i] == raw.values()[i] % 0x1_0000,
        le_bytes(raw.canonical()).len() == 2 * raw.values().len(),
        le_bytes(raw.canonical())[2 * i] == raw.values()[i] % 256,
        le_bytes(raw.canonical())[2 * i + 1] == (raw.values()[i] / 256) % 256,
{
    let v = raw.values()[i];
    let p = raw.canonical()[i];
    assert(p == v % 0x1_0000);
    assert((v % 0x1_0000) % 256 == v % 256);
    assert((v % 0x1_0000) / 256 == (v / 256) % 256);
}

/// Reading frame `index` fails as out of range exactly when `index` is not
/// below the frame count. Below the frame count, a stack of a supported
/// element type gives a plan for the frame, and the frame is assembled from
/// any buffer that holds `width * height` pixels.
pub proof fn lemma_frame_index_in_range(header: StackHeader, index: usize, raw: RawPixels)
    requires
        frame_count_of(Some(header.dims)) is Ok,
    ensures
        index >= frame_count_of(Some(header.dims))->Ok_0 <==> frame_plan(Some(header), index)
            == Err::<FramePlan, ReaderError>(
            ReaderError::OutOfRange {
                index,
                frame_count: frame_count_of(Some(header.dims))->Ok_0,
            },
        ),
        index < frame_count_of(Some(header.dims))->Ok_0 && header.element.supported() is Some ==> {
            &&& frame_plan(Some(header), index) matches Ok(plan)
            &&& plan.index == index
            &&& plan.height == header.dims@[1]
            &&& plan.width == header.dims@[2]
            &&& Some(plan.pixel_type) == header.element.supported()
            &&& raw.values().len() == plan.width * plan.height ==> assembled(plan, raw) is Ok
                && assembled(plan, raw)->Ok_0.well_formed()
        },
{
}

/// A file whose image stack does not have exactly three dimensions has no
/// frame count, no frame and no metadata shape: each fails with the same
/// layout error.
pub proof fn lemma_rank_must_be_three(header: StackHeader, index: usize)
    requires
        header.dims@.len() != 3,
    ensures
        stack_shape(Some(header.dims)) == Err::<StackShape, ReaderError>(
            ReaderError::InvalidLayout(LayoutFault::WrongRank(header.dims@.len() as usize)),
        ),
        frame_count_of(Some(header.dims)) == Err::<usize, ReaderError>(
            ReaderError::InvalidLayout(LayoutFault::WrongRank(header.dims@.len() as usize)),
        ),
        frame_plan(Some(header), index) == Err::<FramePlan, ReaderError>(
            ReaderError::InvalidLayout(LayoutFault::WrongRank(header.dims@.len() as usize)),
        ),
{
}

/// A frame goes out as two bytes per pixel: `2 * width * height` bytes.
pub proof fn lemma_frame_bytes_length(frame: FrameView)
    requires
        frame.well_formed(),
    ensures
        le_bytes(frame.pixels).len() == 2 * frame.width * frame.height,
{
    assert(2 * (frame.width * frame.height) == 2 * frame.width * frame.height) by (nonlinear_arith);
}

} // verus!
