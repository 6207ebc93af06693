use rynth::format::SampleType;
use rynth::frame::{
    audio_channel_layout, audio_element, buffer_len, buffer_request, check_plane,
    check_writable, dimensions_known, resolve_index, video_element, video_plane_layout,
    BufferError, ElementFormat, FrameError, FrameSlot,
};

#[test]
fn frame_slot_close_releases() {
    let mut f = FrameSlot::new(5u8, true);
    assert!(!f.closed());
    assert!(f.readonly());
    assert_eq!(f.frame(), Ok(&5));
    assert_eq!(f.close(), Some(5));
    assert!(f.closed());
    assert_eq!(f.frame(), Err(FrameError::Released));
    assert_eq!(f.close(), None);
}

#[test]
fn plane_checks() {
    assert_eq!(check_plane(0, 3), Ok(()));
    assert_eq!(check_plane(2, 3), Ok(()));
    assert_eq!(check_plane(3, 3), Err(FrameError::PlaneOutOfRange));
    assert_eq!(check_plane(-1, 3), Err(FrameError::PlaneOutOfRange));
    assert_eq!(check_writable(true), Err(FrameError::ReadOnly));
    assert_eq!(check_writable(false), Ok(()));
    assert_eq!(resolve_index(-1, 3), Ok(2));
    assert_eq!(resolve_index(1, 3), Ok(1));
    assert_eq!(resolve_index(-4, 3), Err(FrameError::IndexOutOfRange));
    assert_eq!(resolve_index(3, 3), Err(FrameError::IndexOutOfRange));
}

#[test]
fn element_formats() {
    assert_eq!(video_element(SampleType::Integer, 1), Ok(ElementFormat { code: 'B', itemsize: 1 }));
    assert_eq!(video_element(SampleType::Integer, 2), Ok(ElementFormat { code: 'H', itemsize: 2 }));
    assert_eq!(video_element(SampleType::Integer, 4), Ok(ElementFormat { code: 'I', itemsize: 4 }));
    assert_eq!(video_element(SampleType::Float, 2), Ok(ElementFormat { code: 'e', itemsize: 2 }));
    assert_eq!(video_element(SampleType::Float, 4), Ok(ElementFormat { code: 'f', itemsize: 4 }));
    assert_eq!(video_element(SampleType::Float, 1), Err(FrameError::UnsupportedLayout));
    assert_eq!(audio_element(SampleType::Integer, 2), Ok(ElementFormat { code: 'h', itemsize: 2 }));
    assert_eq!(audio_element(SampleType::Integer, 4), Ok(ElementFormat { code: 'i', itemsize: 4 }));
    assert_eq!(audio_element(SampleType::Integer, 1), Err(FrameError::UnsupportedLayout));
    assert_eq!(audio_element(SampleType::Float, 4), Ok(ElementFormat { code: 'f', itemsize: 4 }));
}

#[test]
fn plane_layouts_and_lengths() {
    let e = ElementFormat { code: 'H', itemsize: 2 };
    let v = video_plane_layout(1080, 1920, 3904, e);
    assert_eq!(v.shape, (1080, 1920));
    assert_eq!(v.strides, (3904, 2));
    assert_eq!(v.ndim, 2);
    assert_eq!(buffer_len(&v), 2 * 1080 * 1920);
    let a = audio_channel_layout(3072, ElementFormat { code: 'f', itemsize: 4 });
    assert_eq!(a.shape, (3072, 0));
    assert_eq!(a.strides, (4, 0));
    assert_eq!(a.ndim, 1);
    assert_eq!(buffer_len(&a), 4 * 3072);
}

#[test]
fn buffer_requests() {
    const STRIDES: i32 = 0x18;
    const FORMAT: i32 = 0x4;
    assert_eq!(buffer_request(STRIDES), Ok(false));
    assert_eq!(buffer_request(STRIDES | FORMAT), Ok(true));
    assert_eq!(buffer_request(STRIDES | 1), Err(BufferError::WritableRequested));
    assert_eq!(buffer_request(0), Err(BufferError::StridesRequired));
    assert_eq!(buffer_request(0x8 | FORMAT), Err(BufferError::StridesRequired));
}

#[test]
fn dynamic_dimensions() {
    assert!(dimensions_known(640, 480));
    assert!(!dimensions_known(0, 480));
    assert!(!dimensions_known(640, 0));
}

#[test]
fn buffer_flags_match_python() {
    assert_eq!(rynth::frame::BUF_WRITABLE, pyo3::ffi::PyBUF_WRITABLE);
    assert_eq!(rynth::frame::BUF_FORMAT, pyo3::ffi::PyBUF_FORMAT);
    assert_eq!(rynth::frame::BUF_STRIDES, pyo3::ffi::PyBUF_STRIDES);
}
