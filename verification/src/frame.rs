//! Frames: their lifecycle (open until closed, read-only or writable), the
//! checks made before handing out plane data, and the element layout of the
//! zero-copy views over planes and channels.

use vstd::prelude::*;
use crate::format::SampleType;

verus! {

/// What went wrong with a frame operation.
#[derive(PartialEq, Eq, Structural, Clone, Copy, Debug)]
pub enum FrameError {
    /// The frame was closed.
    Released,
    /// A write pointer asked of a read-only frame.
    ReadOnly,
    /// A plane or channel number outside the frame.
    PlaneOutOfRange,
    /// An index outside the frame's planes or channels.
    IndexOutOfRange,
    /// A sample type and size with no buffer element format.
    UnsupportedLayout,
}

/// A frame handle: holds the frame until it is closed.
pub struct FrameSlot<T> {
    frame: Option<T>,
    readonly: bool,
}

impl<T> FrameSlot<T> {
    /// The frame, while the handle is open.
    pub closed spec fn spec_frame(&self) -> Option<T> {
        self.frame
    }

    /// Whether the frame may not be modified.
    pub closed spec fn spec_readonly(&self) -> bool {
        self.readonly
    }

    /// An open handle on `frame`.
    pub fn new(frame: T, readonly: bool) -> (s: Self)
        ensures
            s.spec_frame() == Some(frame),
            s.spec_readonly() == readonly,
    {
        FrameSlot { frame: Some(frame), readonly }
    }

    /// Whether the handle was closed.
    pub fn closed(&self) -> (b: bool)
        ensures
            b == self.spec_frame() is None,
    {
        self.frame.is_none()
    }

    /// Whether the frame may not be modified.
    pub fn readonly(&self) -> (b: bool)
        ensures
            b == self.spec_readonly(),
    {
        self.readonly
    }

    /// Releases the frame; closing a closed handle does nothing.
    pub fn close(&mut self) -> (released: Option<T>)
        ensures
            final(self).spec_frame() is None,
            final(self).spec_readonly() == old(self).spec_readonly(),
            released == old(self).spec_frame(),
    {
        self.frame.take()
    }

    /// The frame, or the error that it was released.
    pub fn frame(&self) -> (r: Result<&T, FrameError>)
        ensures
            match r {
                Ok(f) => self.spec_frame() == Some(*f),
                Err(e) => e == FrameError::Released && self.spec_frame() is None,
            },
    {
        match &self.frame {
            Some(f) => Ok(f),
            None => Err(FrameError::Released),
        }
    }
}

/// Checks a plane (or channel) number against the number the frame has.
pub fn check_plane(plane: i32, count: i32) -> (r: Result<(), FrameError>)
    ensures
        r == if 0 <= plane < count {
            Ok::<(), FrameError>(())
        } else {
            Err(FrameError::PlaneOutOfRange)
        },
{
    if plane < 0 || plane >= count {
        Err(FrameError::PlaneOutOfRange)
    } else {
        Ok(())
    }
}

/// A write pointer is only handed out for a writable frame.
pub fn check_writable(readonly: bool) -> (r: Result<(), FrameError>)
    ensures
        r == if readonly {
            Err(FrameError::ReadOnly)
        } else {
            Ok::<(), FrameError>(())
        },
{
    if readonly {
        Err(FrameError::ReadOnly)
    } else {
        Ok(())
    }
}

/// The plane (or channel) `frame[index]` selects: negative indices count
/// from the end.
pub fn resolve_index(index: i32, count: i32) -> (r: Result<i32, FrameError>)
    requires
        index < 0 ==> index + count >= i32::MIN,
    ensures
        ({
            let i = if index < 0 {
                index + count
            } else {
                index as int
            };
            if 0 <= i < count {
                r == Ok::<i32, FrameError>(i as i32)
            } else {
                r == Err::<i32, FrameError>(FrameError::IndexOutOfRange)
            }
        }),
{
    let i = if index < 0 {
        index + count
    } else {
        index
    };
    if i < 0 || i >= count {
        Err(FrameError::IndexOutOfRange)
    } else {
        Ok(i)
    }
}

/// The element format of a buffer view: a `struct` format character and the
/// element size in bytes.
#[derive(PartialEq, Eq, Structural, Clone, Copy, Debug)]
pub struct ElementFormat {
    pub code: char,
    pub itemsize: isize,
}

/// The element format of a video plane: unsigned integers of 1, 2 or 4
/// bytes, or half and single precision floats.
pub open spec fn spec_video_element(st: SampleType, bytes: i32) -> Option<ElementFormat> {
    match (st, bytes) {
        (SampleType::Integer, 1) => Some(ElementFormat { code: 'B', itemsize: 1 }),
        (SampleType::Integer, 2) => Some(ElementFormat { code: 'H', itemsize: 2 }),
        (SampleType::Integer, 4) => Some(ElementFormat { code: 'I', itemsize: 4 }),
        (SampleType::Float, 2) => Some(ElementFormat { code: 'e', itemsize: 2 }),
        (SampleType::Float, 4) => Some(ElementFormat { code: 'f', itemsize: 4 }),
        _ => None,
    }
}

/// The element format of an audio channel: signed integers of 2 or 4 bytes,
/// or half and single precision floats.
pub open spec fn spec_audio_element(st: SampleType, bytes: i32) -> Option<ElementFormat> {
    match (st, bytes) {
        (SampleType::Integer, 2) => Some(ElementFormat { code: 'h', itemsize: 2 }),
        (SampleType::Integer, 4) => Some(ElementFormat { code: 'i', itemsize: 4 }),
        (SampleType::Float, 2) => Some(ElementFormat { code: 'e', itemsize: 2 }),
        (SampleType::Float, 4) => Some(ElementFormat { code: 'f', itemsize: 4 }),
        _ => None,
    }
}

/// Element format of a video plane's samples.
pub fn video_element(st: SampleType, bytes: i32) -> (r: Result<ElementFormat, FrameError>)
    ensures
        match spec_video_element(st, bytes) {
            Some(f) => r == Ok::<ElementFormat, FrameError>(f),
            None => r == Err::<ElementFormat, FrameError>(FrameError::UnsupportedLayout),
        },
{
    match (st, bytes) {
        (SampleType::Integer, 1) => Ok(ElementFormat { code: 'B', itemsize: 1 }),
        (SampleType::Integer, 2) => Ok(ElementFormat { code: 'H', itemsize: 2 }),
        (SampleType::Integer, 4) => Ok(ElementFormat { code: 'I', itemsize: 4 }),
        (SampleType::Float, 2) => Ok(ElementFormat { code: 'e', itemsize: 2 }),
        (SampleType::Float, 4) => Ok(ElementFormat { code: 'f', itemsize: 4 }),
        _ => Err(FrameError::UnsupportedLayout),
    }
}

/// Element format of an audio channel's samples.
pub fn audio_element(st: SampleType, bytes: i32) -> (r: Result<ElementFormat, FrameError>)
    ensures
        match spec_audio_element(st, bytes) {
            Some(f) => r == Ok::<ElementFormat, FrameError>(f),
            None => r == Err::<ElementFormat, FrameError>(FrameError::UnsupportedLayout),
        },
{
    match (st, bytes) {
        (SampleType::Integer, 2) => Ok(ElementFormat { code: 'h', itemsize: 2 }),
        (SampleType::Integer, 4) => Ok(ElementFormat { code: 'i', itemsize: 4 }),
        (SampleType::Float, 2) => Ok(ElementFormat { code: 'e', itemsize: 2 }),
        (SampleType::Float, 4) => Ok(ElementFormat { code: 'f', itemsize: 4 }),
        _ => Err(FrameError::UnsupportedLayout),
    }
}

/// The shape of a read-only, strided buffer view over one plane or channel.
#[derive(Clone, Copy, Debug)]
pub struct PlaneLayout {
    pub shape: (isize, isize),
    pub strides: (isize, isize),
    pub ndim: i32,
    pub element: ElementFormat,
}

/// A video plane: `height` rows of `width` elements, rows `stride` bytes apart.
pub fn video_plane_layout(height: i32, width: i32, stride: isize, element: ElementFormat) -> (l:
    PlaneLayout)
    ensures
        l.shape == (height as isize, width as isize),
        l.strides == (stride, element.itemsize),
        l.ndim == 2,
        l.element == element,
{
    PlaneLayout {
        shape: (height as isize, width as isize),
        strides: (stride, element.itemsize),
        ndim: 2,
        element,
    }
}

/// An audio channel: one row of `frame_length` contiguous samples.
pub fn audio_channel_layout(frame_length: i32, element: ElementFormat) -> (l: PlaneLayout)
    ensures
        l.shape == (frame_length as isize, 0isize),
        l.strides == (element.itemsize, 0isize),
        l.ndim == 1,
        l.element == element,
{
    PlaneLayout {
        shape: (frame_length as isize, 0),
        strides: (element.itemsize, 0),
        ndim: 1,
        element,
    }
}

/// Product of the first `ndim` extents of a layout's shape.
pub open spec fn shape_product(l: PlaneLayout) -> int {
    if l.ndim == 1 {
        l.shape.0 as int
    } else {
        l.shape.0 * l.shape.1
    }
}

/// Size in bytes of the memory a view spans: the element size times the
/// number of elements.
pub fn buffer_len(l: &PlaneLayout) -> (n: isize)
    requires
        l.ndim == 1 || l.ndim == 2,
        isize::MIN <= shape_product(*l) <= isize::MAX,
        isize::MIN <= l.element.itemsize * shape_product(*l) <= isize::MAX,
    ensures
        n == l.element.itemsize * shape_product(*l),
{
    let count: isize = if l.ndim == 1 {
        l.shape.0
    } else {
        l.shape.0 * l.shape.1
    };
    l.element.itemsize * count
}

/// `PyBUF_WRITABLE`: the consumer wants to write.
pub const BUF_WRITABLE: i32 = 0x0001;

/// `PyBUF_FORMAT`: the consumer wants the element format.
pub const BUF_FORMAT: i32 = 0x0004;

/// `PyBUF_STRIDES`: the consumer accepts strided memory (implies `PyBUF_ND`).
pub const BUF_STRIDES: i32 = 0x0018;

/// What went wrong answering a buffer request.
#[derive(PartialEq, Eq, Structural, Clone, Copy, Debug)]
pub enum BufferError {
    /// Planes are read-only.
    WritableRequested,
    /// Planes are strided, not C-contiguous.
    StridesRequired,
}

/// Answers the flags of a buffer request: refused when it asks for write
/// access or does not accept strides; otherwise whether to fill in the
/// element format.
pub fn buffer_request(flags: i32) -> (r: Result<bool, BufferError>)
    ensures
        r == if flags & 0x0001 != 0 {
            Err(BufferError::WritableRequested)
        } else if flags & 0x0018 != 0x0018 {
            Err(BufferError::StridesRequired)
        } else {
            Ok::<bool, BufferError>(flags & 0x0004 == 0x0004)
        },
{
    if flags & BUF_WRITABLE != 0 {
        return Err(BufferError::WritableRequested);
    }
    if flags & BUF_STRIDES != BUF_STRIDES {
        return Err(BufferError::StridesRequired);
    }
    Ok(flags & BUF_FORMAT == BUF_FORMAT)
}

/// Whether a frame reports its dimensions: both width and height non-zero
/// (a zero means they vary between frames).
pub fn dimensions_known(width: i32, height: i32) -> (b: bool)
    ensures
        b == (width != 0 && height != 0),
{
    width != 0 && height != 0
}

} // verus!
