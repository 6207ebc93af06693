//! Video format vocabulary: color families, sample types, the preset formats
//! and their numeric ids, format names, and the element layout of frame
//! planes and audio channels.

use vstd::prelude::*;

verus! {

/// The color family of a video format.
#[derive(PartialEq, Eq, Structural, Clone, Copy, Debug, Hash)]
pub enum ColorFamily {
    Undefined,
    Gray,
    Rgb,
    Yuv,
}

/// The numeric value VapourSynth uses for a color family.
pub open spec fn spec_color_family_code(c: ColorFamily) -> u32 {
    match c {
        ColorFamily::Undefined => 0,
        ColorFamily::Gray => 1,
        ColorFamily::Rgb => 2,
        ColorFamily::Yuv => 3,
    }
}

impl ColorFamily {
    /// The color family VapourSynth numbers `code`; `None` for an unknown number.
    pub fn from_code(code: i32) -> (r: Option<ColorFamily>)
        ensures
            match r {
                Some(c) => spec_color_family_code(c) == code,
                None => !(0 <= code <= 3),
            },
    {
        match code {
            0 => Some(ColorFamily::Undefined),
            1 => Some(ColorFamily::Gray),
            2 => Some(ColorFamily::Rgb),
            3 => Some(ColorFamily::Yuv),
            _ => None,
        }
    }

    /// VapourSynth's number for this color family.
    pub fn code(&self) -> (code: u32)
        ensures
            code == spec_color_family_code(*self),
    {
        match self {
            ColorFamily::Undefined => 0,
            ColorFamily::Gray => 1,
            ColorFamily::Rgb => 2,
            ColorFamily::Yuv => 3,
        }
    }
}

/// Whether samples are integers or floating point numbers.
#[derive(PartialEq, Eq, Structural, Clone, Copy, Debug, Hash)]
pub enum SampleType {
    Integer,
    Float,
}

/// The numeric value VapourSynth uses for a sample type.
pub open spec fn spec_sample_type_code(s: SampleType) -> u32 {
    match s {
        SampleType::Integer => 0,
        SampleType::Float => 1,
    }
}

impl SampleType {
    /// The sample type VapourSynth numbers `code`; `None` for an unknown number.
    pub fn from_code(code: i32) -> (r: Option<SampleType>)
        ensures
            match r {
                Some(s) => spec_sample_type_code(s) == code,
                None => !(0 <= code <= 1),
            },
    {
        match code {
            0 => Some(SampleType::Integer),
            1 => Some(SampleType::Float),
            _ => None,
        }
    }

    /// VapourSynth's number for this sample type.
    pub fn code(&self) -> (code: u32)
        ensures
            code == spec_sample_type_code(*self),
    {
        match self {
            SampleType::Integer => 0,
            SampleType::Float => 1,
        }
    }
}

/// VapourSynth's format id: color family, sample type, bit depth and the two
/// subsampling shifts packed into one number.
pub open spec fn spec_video_id(cf: u32, st: u32, bits: u32, ssw: u32, ssh: u32) -> int {
    cf * 0x1000_0000 + st * 0x100_0000 + bits * 0x1_0000 + ssw * 0x100 + ssh
}

/// Packs a format description into VapourSynth's format id.
pub fn video_id(cf: u32, st: u32, bits: u32, ssw: u32, ssh: u32) -> (id: u32)
    requires
        cf < 16,
        st < 16,
        bits < 256,
        ssw < 256,
        ssh < 256,
    ensures
        id == spec_video_id(cf, st, bits, ssw, ssh),
{
    let id = (cf << 28u32) | (st << 24u32) | (bits << 16u32) | (ssw << 8u32) | ssh;
    assert(id == cf * 0x1000_0000 + st * 0x100_0000 + bits * 0x1_0000 + ssw * 0x100 + ssh)
        by (bit_vector)
        requires
            cf < 16,
            st < 16,
            bits < 256,
            ssw < 256,
            ssh < 256,
            id == (cf << 28u32) | (st << 24u32) | (bits << 16u32) | (ssw << 8u32) | ssh,
    ;
    id
}

/// The defining parts of a preset format.
#[derive(PartialEq, Eq, Structural, Clone, Copy, Debug)]
pub struct FormatParts {
    pub color_family: ColorFamily,
    pub sample_type: SampleType,
    pub bits_per_sample: u32,
    pub sub_sampling_w: u32,
    pub sub_sampling_h: u32,
}

/// VapourSynth's preset video formats. The presets suffixed with H and S have
/// floating point samples of half and single precision.
#[derive(PartialEq, Eq, Structural, Clone, Copy, Debug, Hash)]
pub enum PresetVideoFormat {
    /// `NONE`: no format.
    NoFormat,
    Gray8,
    Gray9,
    Gray10,
    Gray12,
    Gray14,
    Gray16,
    Gray32,
    GrayH,
    GrayS,
    YUV410P8,
    YUV411P8,
    YUV440P8,
    YUV420P8,
    YUV422P8,
    YUV444P8,
    YUV420P9,
    YUV422P9,
    YUV444P9,
    YUV420P10,
    YUV422P10,
    YUV444P10,
    YUV420P12,
    YUV422P12,
    YUV444P12,
    YUV420P14,
    YUV422P14,
    YUV444P14,
    YUV410P16,
    YUV411P16,
    YUV440P16,
    YUV420P16,
    YUV422P16,
    YUV444P16,
    YUV410PH,
    YUV410PS,
    YUV411PH,
    YUV411PS,
    YUV440PH,
    YUV440PS,
    YUV420PH,
    YUV420PS,
    YUV422PH,
    YUV422PS,
    YUV444PH,
    YUV444PS,
    RGB24,
    RGB27,
    RGB30,
    RGB36,
    RGB42,
    RGB48,
    RgbH,
    RgbS,
}

/// What a preset stands for; `NONE` stands for no format.
pub open spec fn spec_preset_parts(p: PresetVideoFormat) -> Option<FormatParts> {
    match p {
            PresetVideoFormat::NoFormat => None,
            PresetVideoFormat::Gray8 => Some(FormatParts { color_family: ColorFamily::Gray, sample_type: SampleType::Integer, bits_per_sample: 8, sub_sampling_w: 0, sub_sampling_h: 0 }),
            PresetVideoFormat::Gray9 => Some(FormatParts { color_family: ColorFamily::Gray, sample_type: SampleType::Integer, bits_per_sample: 9, sub_sampling_w: 0, sub_sampling_h: 0 }),
            PresetVideoFormat::Gray10 => Some(FormatParts { color_family: ColorFamily::Gray, sample_type: SampleType::Integer, bits_per_sample: 10, sub_sampling_w: 0, sub_sampling_h: 0 }),
            PresetVideoFormat::Gray12 => Some(FormatParts { color_family: ColorFamily::Gray, sample_type: SampleType::Integer, bits_per_sample: 12, sub_sampling_w: 0, sub_sampling_h: 0 }),
            PresetVideoFormat::Gray14 => Some(FormatParts { color_family: ColorFamily::Gray, sample_type: SampleType::Integer, bits_per_sample: 14, sub_sampling_w: 0, sub_sampling_h: 0 }),
            PresetVideoFormat::Gray16 => Some(FormatParts { color_family: ColorFamily::Gray, sample_type: SampleType::Integer, bits_per_sample: 16, sub_sampling_w: 0, sub_sampling_h: 0 }),
            PresetVideoFormat::Gray32 => Some(FormatParts { color_family: ColorFamily::Gray, sample_type: SampleType::Integer, bits_per_sample: 32, sub_sampling_w: 0, sub_sampling_h: 0 }),
            PresetVideoFormat::GrayH => Some(FormatParts { color_family: ColorFamily::Gray, sample_type: SampleType::Float, bits_per_sample: 16, sub_sampling_w: 0, sub_sampling_h: 0 }),
            PresetVideoFormat::GrayS => Some(FormatParts { color_family: ColorFamily::Gray, sample_type: SampleType::Float, bits_per_sample: 32, sub_sampling_w: 0, sub_sampling_h: 0 }),
            PresetVideoFormat::YUV410P8 => Some(FormatParts { color_family: ColorFamily::Yuv, sample_type: SampleType::Integer, bits_per_sample: 8, sub_sampling_w: 2, sub_sampling_h: 2 }),
            PresetVideoFormat::YUV411P8 => Some(FormatParts { color_family: ColorFamily::Yuv, sample_type: SampleType::Integer, bits_per_sample: 8, sub_sampling_w: 2, sub_sampling_h: 0 }),
            PresetVideoFormat::YUV440P8 => Some(FormatParts { color_family: ColorFamily::Yuv, sample_type: SampleType::Integer, bits_per_sample: 8, sub_sampling_w: 0, sub_sampling_h: 1 }),
            PresetVideoFormat::YUV420P8 => Some(FormatParts { color_family: ColorFamily::Yuv, sample_type: SampleType::Integer, bits_per_sample: 8, sub_sampling_w: 1, sub_sampling_h: 1 }),
            PresetVideoFormat::YUV422P8 => Some(FormatParts { color_family: ColorFamily::Yuv, sample_type: SampleType::Integer, bits_per_sample: 8, sub_sampling_w: 1, sub_sampling_h: 0 }),
            PresetVideoFormat::YUV444P8 => Some(FormatParts { color_family: ColorFamily::Yuv, sample_type: SampleType::Integer, bits_per_sample: 8, sub_sampling_w: 0, sub_sampling_h: 0 }),
            PresetVideoFormat::YUV420P9 => Some(FormatParts { color_family: ColorFamily::Yuv, sample_type: SampleType::Integer, bits_per_sample: 9, sub_sampling_w: 1, sub_sampling_h: 1 }),
            PresetVideoFormat::YUV422P9 => Some(FormatParts { color_family: ColorFamily::Yuv, sample_type: SampleType::Integer, bits_per_sample: 9, sub_sampling_w: 1, sub_sampling_h: 0 }),
            PresetVideoFormat::YUV444P9 => Some(FormatParts { color_family: ColorFamily::Yuv, sample_type: SampleType::Integer, bits_per_sample: 9, sub_sampling_w: 0, sub_sampling_h: 0 }),
            PresetVideoFormat::YUV420P10 => Some(FormatParts { color_family: ColorFamily::Yuv, sample_type: SampleType::Integer, bits_per_sample: 10, sub_sampling_w: 1, sub_sampling_h: 1 }),
            PresetVideoFormat::YUV422P10 => Some(FormatParts { color_family: ColorFamily::Yuv, sample_type: SampleType::Integer, bits_per_sample: 10, sub_sampling_w: 1, sub_sampling_h: 0 }),
            PresetVideoFormat::YUV444P10 => Some(FormatParts { color_family: ColorFamily::Yuv, sample_type: SampleType::Integer, bits_per_sample: 10, sub_sampling_w: 0, sub_sampling_h: 0 }),
            PresetVideoFormat::YUV420P12 => Some(FormatParts { color_family: ColorFamily::Yuv, sample_type: SampleType::Integer, bits_per_sample: 12, sub_sampling_w: 1, sub_sampling_h: 1 }),
            PresetVideoFormat::YUV422P12 => Some(FormatParts { color_family: ColorFamily::Yuv, sample_type: SampleType::Integer, bits_per_sample: 12, sub_sampling_w: 1, sub_sampling_h: 0 }),
            PresetVideoFormat::YUV444P12 => Some(FormatParts { color_family: ColorFamily::Yuv, sample_type: SampleType::Integer, bits_per_sample: 12, sub_sampling_w: 0, sub_sampling_h: 0 }),
            PresetVideoFormat::YUV420P14 => Some(FormatParts { color_family: ColorFamily::Yuv, sample_type: SampleType::Integer, bits_per_sample: 14, sub_sampling_w: 1, sub_sampling_h: 1 }),
            PresetVideoFormat::YUV422P14 => Some(FormatParts { color_family: ColorFamily::Yuv, sample_type: SampleType::Integer, bits_per_sample: 14, sub_sampling_w: 1, sub_sampling_h: 0 }),
            PresetVideoFormat::YUV444P14 => Some(FormatParts { color_family: ColorFamily::Yuv, sample_type: SampleType::Integer, bits_per_sample: 14, sub_sampling_w: 0, sub_sampling_h: 0 }),
            PresetVideoFormat::YUV410P16 => Some(FormatParts { color_family: ColorFamily::Yuv, sample_type: SampleType::Integer, bits_per_sample: 16, sub_sampling_w: 2, sub_sampling_h: 2 }),
            PresetVideoFormat::YUV411P16 => Some(FormatParts { color_family: ColorFamily::Yuv, sample_type: SampleType::Integer, bits_per_sample: 16, sub_sampling_w: 2, sub_sampling_h: 0 }),
            PresetVideoFormat::YUV440P16 => Some(FormatParts { color_family: ColorFamily::Yuv, sample_type: SampleType::Integer, bits_per_sample: 16, sub_sampling_w: 0, sub_sampling_h: 1 }),
            PresetVideoFormat::YUV420P16 => Some(FormatParts { color_family: ColorFamily::Yuv, sample_type: SampleType::Integer, bits_per_sample: 16, sub_sampling_w: 1, sub_sampling_h: 1 }),
            PresetVideoFormat::YUV422P16 => Some(FormatParts { color_family: ColorFamily::Yuv, sample_type: SampleType::Integer, bits_per_sample: 16, sub_sampling_w: 1, sub_sampling_h: 0 }),
            PresetVideoFormat::YUV444P16 => Some(FormatParts { color_family: ColorFamily::Yuv, sample_type: SampleType::Integer, bits_per_sample: 16, sub_sampling_w: 0, sub_sampling_h: 0 }),
            PresetVideoFormat::YUV410PH => Some(FormatParts { color_family: ColorFamily::Yuv, sample_type: SampleType::Float, bits_per_sample: 16, sub_sampling_w: 2, sub_sampling_h: 2 }),
            PresetVideoFormat::YUV410PS => Some(FormatParts { color_family: ColorFamily::Yuv, sample_type: SampleType::Float, bits_per_sample: 32, sub_sampling_w: 2, sub_sampling_h: 2 }),
            PresetVideoFormat::YUV411PH => Some(FormatParts { color_family: ColorFamily::Yuv, sample_type: SampleType::Float, bits_per_sample: 16, sub_sampling_w: 2, sub_sampling_h: 0 }),
            PresetVideoFormat::YUV411PS => Some(FormatParts { color_family: ColorFamily::Yuv, sample_type: SampleType::Float, bits_per_sample: 32, sub_sampling_w: 2, sub_sampling_h: 0 }),
            PresetVideoFormat::YUV440PH => Some(FormatParts { color_family: ColorFamily::Yuv, sample_type: SampleType::Float, bits_per_sample: 16, sub_sampling_w: 0, sub_sampling_h: 1 }),
            PresetVideoFormat::YUV440PS => Some(FormatParts { color_family: ColorFamily::Yuv, sample_type: SampleType::Float, bits_per_sample: 32, sub_sampling_w: 0, sub_sampling_h: 1 }),
            PresetVideoFormat::YUV420PH => Some(FormatParts { color_family: ColorFamily::Yuv, sample_type: SampleType::Float, bits_per_sample: 16, sub_sampling_w: 1, sub_sampling_h: 1 }),
            PresetVideoFormat::YUV420PS => Some(FormatParts { color_family: ColorFamily::Yuv, sample_type: SampleType::Float, bits_per_sample: 32, sub_sampling_w: 1, sub_sampling_h: 1 }),
            PresetVideoFormat::YUV422PH => Some(FormatParts { color_family: ColorFamily::Yuv, sample_type: SampleType::Float, bits_per_sample: 16, sub_sampling_w: 1, sub_sampling_h: 0 }),
            PresetVideoFormat::YUV422PS => Some(FormatParts { color_family: ColorFamily::Yuv, sample_type: SampleType::Float, bits_per_sample: 32, sub_sampling_w: 1, sub_sampling_h: 0 }),
            PresetVideoFormat::YUV444PH => Some(FormatParts { color_family: ColorFamily::Yuv, sample_type: SampleType::Float, bits_per_sample: 16, sub_sampling_w: 0, sub_sampling_h: 0 }),
            PresetVideoFormat::YUV444PS => Some(FormatParts { color_family: ColorFamily::Yuv, sample_type: SampleType::Float, bits_per_sample: 32, sub_sampling_w: 0, sub_sampling_h: 0 }),
            PresetVideoFormat::RGB24 => Some(FormatParts { color_family: ColorFamily::Rgb, sample_type: SampleType::Integer, bits_per_sample: 8, sub_sampling_w: 0, sub_sampling_h: 0 }),
            PresetVideoFormat::RGB27 => Some(FormatParts { color_family: ColorFamily::Rgb, sample_type: SampleType::Integer, bits_per_sample: 9, sub_sampling_w: 0, sub_sampling_h: 0 }),
            PresetVideoFormat::RGB30 => Some(FormatParts { color_family: ColorFamily::Rgb, sample_type: SampleType::Integer, bits_per_sample: 10, sub_sampling_w: 0, sub_sampling_h: 0 }),
            PresetVideoFormat::RGB36 => Some(FormatParts { color_family: ColorFamily::Rgb, sample_type: SampleType::Integer, bits_per_sample: 12, sub_sampling_w: 0, sub_sampling_h: 0 }),
            PresetVideoFormat::RGB42 => Some(FormatParts { color_family: ColorFamily::Rgb, sample_type: SampleType::Integer, bits_per_sample: 14, sub_sampling_w: 0, sub_sampling_h: 0 }),
            PresetVideoFormat::RGB48 => Some(FormatParts { color_family: ColorFamily::Rgb, sample_type: SampleType::Integer, bits_per_sample: 16, sub_sampling_w: 0, sub_sampling_h: 0 }),
            PresetVideoFormat::RgbH => Some(FormatParts { color_family: ColorFamily::Rgb, sample_type: SampleType::Float, bits_per_sample: 16, sub_sampling_w: 0, sub_sampling_h: 0 }),
            PresetVideoFormat::RgbS => Some(FormatParts { color_family: ColorFamily::Rgb, sample_type: SampleType::Float, bits_per_sample: 32, sub_sampling_w: 0, sub_sampling_h: 0 }),
    }
}

/// The id of a preset: `NONE` is 0, the others pack their parts.
pub open spec fn spec_preset_id(p: PresetVideoFormat) -> int {
    match spec_preset_parts(p) {
        None => 0,
        Some(f) => spec_video_id(
            spec_color_family_code(f.color_family),
            spec_sample_type_code(f.sample_type),
            f.bits_per_sample,
            f.sub_sampling_w,
            f.sub_sampling_h,
        ),
    }
}

/// Every preset, in VapourSynth's order.
pub open spec fn spec_all_presets() -> Seq<PresetVideoFormat> {
    seq![
            PresetVideoFormat::NoFormat,
            PresetVideoFormat::Gray8,
            PresetVideoFormat::Gray9,
            PresetVideoFormat::Gray10,
            PresetVideoFormat::Gray12,
            PresetVideoFormat::Gray14,
            PresetVideoFormat::Gray16,
            PresetVideoFormat::Gray32,
            PresetVideoFormat::GrayH,
            PresetVideoFormat::GrayS,
            PresetVideoFormat::YUV410P8,
            PresetVideoFormat::YUV411P8,
            PresetVideoFormat::YUV440P8,
            PresetVideoFormat::YUV420P8,
            PresetVideoFormat::YUV422P8,
            PresetVideoFormat::YUV444P8,
            PresetVideoFormat::YUV420P9,
            PresetVideoFormat::YUV422P9,
            PresetVideoFormat::YUV444P9,
            PresetVideoFormat::YUV420P10,
            PresetVideoFormat::YUV422P10,
            PresetVideoFormat::YUV444P10,
            PresetVideoFormat::YUV420P12,
            PresetVideoFormat::YUV422P12,
            PresetVideoFormat::YUV444P12,
            PresetVideoFormat::YUV420P14,
            PresetVideoFormat::YUV422P14,
            PresetVideoFormat::YUV444P14,
            PresetVideoFormat::YUV410P16,
            PresetVideoFormat::YUV411P16,
            PresetVideoFormat::YUV440P16,
            PresetVideoFormat::YUV420P16,
            PresetVideoFormat::YUV422P16,
            PresetVideoFormat::YUV444P16,
            PresetVideoFormat::YUV410PH,
            PresetVideoFormat::YUV410PS,
            PresetVideoFormat::YUV411PH,
            PresetVideoFormat::YUV411PS,
            PresetVideoFormat::YUV440PH,
            PresetVideoFormat::YUV440PS,
            PresetVideoFormat::YUV420PH,
            PresetVideoFormat::YUV420PS,
            PresetVideoFormat::YUV422PH,
            PresetVideoFormat::YUV422PS,
            PresetVideoFormat::YUV444PH,
            PresetVideoFormat::YUV444PS,
            PresetVideoFormat::RGB24,
            PresetVideoFormat::RGB27,
            PresetVideoFormat::RGB30,
            PresetVideoFormat::RGB36,
            PresetVideoFormat::RGB42,
            PresetVideoFormat::RGB48,
            PresetVideoFormat::RgbH,
            PresetVideoFormat::RgbS
    ]
}

impl PresetVideoFormat {
    /// What this preset stands for.
    pub fn parts(&self) -> (r: Option<FormatParts>)
        ensures
            r == spec_preset_parts(*self),
    {
        match self {
                PresetVideoFormat::NoFormat => None,
                PresetVideoFormat::Gray8 => Some(FormatParts { color_family: ColorFamily::Gray, sample_type: SampleType::Integer, bits_per_sample: 8, sub_sampling_w: 0, sub_sampling_h: 0 }),
                PresetVideoFormat::Gray9 => Some(FormatParts { color_family: ColorFamily::Gray, sample_type: SampleType::Integer, bits_per_sample: 9, sub_sampling_w: 0, sub_sampling_h: 0 }),
                PresetVideoFormat::Gray10 => Some(FormatParts { color_family: ColorFamily::Gray, sample_type: SampleType::Integer, bits_per_sample: 10, sub_sampling_w: 0, sub_sampling_h: 0 }),
                PresetVideoFormat::Gray12 => Some(FormatParts { color_family: ColorFamily::Gray, sample_type: SampleType::Integer, bits_per_sample: 12, sub_sampling_w: 0, sub_sampling_h: 0 }),
                PresetVideoFormat::Gray14 => Some(FormatParts { color_family: ColorFamily::Gray, sample_type: SampleType::Integer, bits_per_sample: 14, sub_sampling_w: 0, sub_sampling_h: 0 }),
                PresetVideoFormat::Gray16 => Some(FormatParts { color_family: ColorFamily::Gray, sample_type: SampleType::Integer, bits_per_sample: 16, sub_sampling_w: 0, sub_sampling_h: 0 }),
                PresetVideoFormat::Gray32 => Some(FormatParts { color_family: ColorFamily::Gray, sample_type: SampleType::Integer, bits_per_sample: 32, sub_sampling_w: 0, sub_sampling_h: 0 }),
                PresetVideoFormat::GrayH => Some(FormatParts { color_family: ColorFamily::Gray, sample_type: SampleType::Float, bits_per_sample: 16, sub_sampling_w: 0, sub_sampling_h: 0 }),
                PresetVideoFormat::GrayS => Some(FormatParts { color_family: ColorFamily::Gray, sample_type: SampleType::Float, bits_per_sample: 32, sub_sampling_w: 0, sub_sampling_h: 0 }),
                PresetVideoFormat::YUV410P8 => Some(FormatParts { color_family: ColorFamily::Yuv, sample_type: SampleType::Integer, bits_per_sample: 8, sub_sampling_w: 2, sub_sampling_h: 2 }),
                PresetVideoFormat::YUV411P8 => Some(FormatParts { color_family: ColorFamily::Yuv, sample_type: SampleType::Integer, bits_per_sample: 8, sub_sampling_w: 2, sub_sampling_h: 0 }),
                PresetVideoFormat::YUV440P8 => Some(FormatParts { color_family: ColorFamily::Yuv, sample_type: SampleType::Integer, bits_per_sample: 8, sub_sampling_w: 0, sub_sampling_h: 1 }),
                PresetVideoFormat::YUV420P8 => Some(FormatParts { color_family: ColorFamily::Yuv, sample_type: SampleType::Integer, bits_per_sample: 8, sub_sampling_w: 1, sub_sampling_h: 1 }),
                PresetVideoFormat::YUV422P8 => Some(FormatParts { color_family: ColorFamily::Yuv, sample_type: SampleType::Integer, bits_per_sample: 8, sub_sampling_w: 1, sub_sampling_h: 0 }),
                PresetVideoFormat::YUV444P8 => Some(FormatParts { color_family: ColorFamily::Yuv, sample_type: SampleType::Integer, bits_per_sample: 8, sub_sampling_w: 0, sub_sampling_h: 0 }),
                PresetVideoFormat::YUV420P9 => Some(FormatParts { color_family: ColorFamily::Yuv, sample_type: SampleType::Integer, bits_per_sample: 9, sub_sampling_w: 1, sub_sampling_h: 1 }),
                PresetVideoFormat::YUV422P9 => Some(FormatParts { color_family: ColorFamily::Yuv, sample_type: SampleType::Integer, bits_per_sample: 9, sub_sampling_w: 1, sub_sampling_h: 0 }),
                PresetVideoFormat::YUV444P9 => Some(FormatParts { color_family: ColorFamily::Yuv, sample_type: SampleType::Integer, bits_per_sample: 9, sub_sampling_w: 0, sub_sampling_h: 0 }),
                PresetVideoFormat::YUV420P10 => Some(FormatParts { color_family: ColorFamily::Yuv, sample_type: SampleType::Integer, bits_per_sample: 10, sub_sampling_w: 1, sub_sampling_h: 1 }),
                PresetVideoFormat::YUV422P10 => Some(FormatParts { color_family: ColorFamily::Yuv, sample_type: SampleType::Integer, bits_per_sample: 10, sub_sampling_w: 1, sub_sampling_h: 0 }),
                PresetVideoFormat::YUV444P10 => Some(FormatParts { color_family: ColorFamily::Yuv, sample_type: SampleType::Integer, bits_per_sample: 10, sub_sampling_w: 0, sub_sampling_h: 0 }),
                PresetVideoFormat::YUV420P12 => Some(FormatParts { color_family: ColorFamily::Yuv, sample_type: SampleType::Integer, bits_per_sample: 12, sub_sampling_w: 1, sub_sampling_h: 1 }),
                PresetVideoFormat::YUV422P12 => Some(FormatParts { color_family: ColorFamily::Yuv, sample_type: SampleType::Integer, bits_per_sample: 12, sub_sampling_w: 1, sub_sampling_h: 0 }),
                PresetVideoFormat::YUV444P12 => Some(FormatParts { color_family: ColorFamily::Yuv, sample_type: SampleType::Integer, bits_per_sample: 12, sub_sampling_w: 0, sub_sampling_h: 0 }),
                PresetVideoFormat::YUV420P14 => Some(FormatParts { color_family: ColorFamily::Yuv, sample_type: SampleType::Integer, bits_per_sample: 14, sub_sampling_w: 1, sub_sampling_h: 1 }),
                PresetVideoFormat::YUV422P14 => Some(FormatParts { color_family: ColorFamily::Yuv, sample_type: SampleType::Integer, bits_per_sample: 14, sub_sampling_w: 1, sub_sampling_h: 0 }),
                PresetVideoFormat::YUV444P14 => Some(FormatParts { color_family: ColorFamily::Yuv, sample_type: SampleType::Integer, bits_per_sample: 14, sub_sampling_w: 0, sub_sampling_h: 0 }),
                PresetVideoFormat::YUV410P16 => Some(FormatParts { color_family: ColorFamily::Yuv, sample_type: SampleType::Integer, bits_per_sample: 16, sub_sampling_w: 2, sub_sampling_h: 2 }),
                PresetVideoFormat::YUV411P16 => Some(FormatParts { color_family: ColorFamily::Yuv, sample_type: SampleType::Integer, bits_per_sample: 16, sub_sampling_w: 2, sub_sampling_h: 0 }),
                PresetVideoFormat::YUV440P16 => Some(FormatParts { color_family: ColorFamily::Yuv, sample_type: SampleType::Integer, bits_per_sample: 16, sub_sampling_w: 0, sub_sampling_h: 1 }),
                PresetVideoFormat::YUV420P16 => Some(FormatParts { color_family: ColorFamily::Yuv, sample_type: SampleType::Integer, bits_per_sample: 16, sub_sampling_w: 1, sub_sampling_h: 1 }),
                PresetVideoFormat::YUV422P16 => Some(FormatParts { color_family: ColorFamily::Yuv, sample_type: SampleType::Integer, bits_per_sample: 16, sub_sampling_w: 1, sub_sampling_h: 0 }),
                PresetVideoFormat::YUV444P16 => Some(FormatParts { color_family: ColorFamily::Yuv, sample_type: SampleType::Integer, bits_per_sample: 16, sub_sampling_w: 0, sub_sampling_h: 0 }),
                PresetVideoFormat::YUV410PH => Some(FormatParts { color_family: ColorFamily::Yuv, sample_type: SampleType::Float, bits_per_sample: 16, sub_sampling_w: 2, sub_sampling_h: 2 }),
                PresetVideoFormat::YUV410PS => Some(FormatParts { color_family: ColorFamily::Yuv, sample_type: SampleType::Float, bits_per_sample: 32, sub_sampling_w: 2, sub_sampling_h: 2 }),
                PresetVideoFormat::YUV411PH => Some(FormatParts { color_family: ColorFamily::Yuv, sample_type: SampleType::Float, bits_per_sample: 16, sub_sampling_w: 2, sub_sampling_h: 0 }),
                PresetVideoFormat::YUV411PS => Some(FormatParts { color_family: ColorFamily::Yuv, sample_type: SampleType::Float, bits_per_sample: 32, sub_sampling_w: 2, sub_sampling_h: 0 }),
                PresetVideoFormat::YUV440PH => Some(FormatParts { color_family: ColorFamily::Yuv, sample_type: SampleType::Float, bits_per_sample: 16, sub_sampling_w: 0, sub_sampling_h: 1 }),
                PresetVideoFormat::YUV440PS => Some(FormatParts { color_family: ColorFamily::Yuv, sample_type: SampleType::Float, bits_per_sample: 32, sub_sampling_w: 0, sub_sampling_h: 1 }),
                PresetVideoFormat::YUV420PH => Some(FormatParts { color_family: ColorFamily::Yuv, sample_type: SampleType::Float, bits_per_sample: 16, sub_sampling_w: 1, sub_sampling_h: 1 }),
                PresetVideoFormat::YUV420PS => Some(FormatParts { color_family: ColorFamily::Yuv, sample_type: SampleType::Float, bits_per_sample: 32, sub_sampling_w: 1, sub_sampling_h: 1 }),
                PresetVideoFormat::YUV422PH => Some(FormatParts { color_family: ColorFamily::Yuv, sample_type: SampleType::Float, bits_per_sample: 16, sub_sampling_w: 1, sub_sampling_h: 0 }),
                PresetVideoFormat::YUV422PS => Some(FormatParts { color_family: ColorFamily::Yuv, sample_type: SampleType::Float, bits_per_sample: 32, sub_sampling_w: 1, sub_sampling_h: 0 }),
                PresetVideoFormat::YUV444PH => Some(FormatParts { color_family: ColorFamily::Yuv, sample_type: SampleType::Float, bits_per_sample: 16, sub_sampling_w: 0, sub_sampling_h: 0 }),
                PresetVideoFormat::YUV444PS => Some(FormatParts { color_family: ColorFamily::Yuv, sample_type: SampleType::Float, bits_per_sample: 32, sub_sampling_w: 0, sub_sampling_h: 0 }),
                PresetVideoFormat::RGB24 => Some(FormatParts { color_family: ColorFamily::Rgb, sample_type: SampleType::Integer, bits_per_sample: 8, sub_sampling_w: 0, sub_sampling_h: 0 }),
                PresetVideoFormat::RGB27 => Some(FormatParts { color_family: ColorFamily::Rgb, sample_type: SampleType::Integer, bits_per_sample: 9, sub_sampling_w: 0, sub_sampling_h: 0 }),
                PresetVideoFormat::RGB30 => Some(FormatParts { color_family: ColorFamily::Rgb, sample_type: SampleType::Integer, bits_per_sample: 10, sub_sampling_w: 0, sub_sampling_h: 0 }),
                PresetVideoFormat::RGB36 => Some(FormatParts { color_family: ColorFamily::Rgb, sample_type: SampleType::Integer, bits_per_sample: 12, sub_sampling_w: 0, sub_sampling_h: 0 }),
                PresetVideoFormat::RGB42 => Some(FormatParts { color_family: ColorFamily::Rgb, sample_type: SampleType::Integer, bits_per_sample: 14, sub_sampling_w: 0, sub_sampling_h: 0 }),
                PresetVideoFormat::RGB48 => Some(FormatParts { color_family: ColorFamily::Rgb, sample_type: SampleType::Integer, bits_per_sample: 16, sub_sampling_w: 0, sub_sampling_h: 0 }),
                PresetVideoFormat::RgbH => Some(FormatParts { color_family: ColorFamily::Rgb, sample_type: SampleType::Float, bits_per_sample: 16, sub_sampling_w: 0, sub_sampling_h: 0 }),
                PresetVideoFormat::RgbS => Some(FormatParts { color_family: ColorFamily::Rgb, sample_type: SampleType::Float, bits_per_sample: 32, sub_sampling_w: 0, sub_sampling_h: 0 }),
        }
    }

    /// The preset's numeric id, as VapourSynth numbers it.
    pub fn id(&self) -> (id: u32)
        ensures
            id == spec_preset_id(*self),
    {
        match self.parts() {
            None => 0,
            Some(f) => video_id(
                f.color_family.code(),
                f.sample_type.code(),
                f.bits_per_sample,
                f.sub_sampling_w,
                f.sub_sampling_h,
            ),
        }
    }

    /// Every preset, in VapourSynth's order.
    pub fn all() -> (v: Vec<PresetVideoFormat>)
        ensures
            v@ == spec_all_presets(),
            v.len() == 54,
    {
        let v = vec![
            PresetVideoFormat::NoFormat,
            PresetVideoFormat::Gray8,
            PresetVideoFormat::Gray9,
            PresetVideoFormat::Gray10,
            PresetVideoFormat::Gray12,
            PresetVideoFormat::Gray14,
            PresetVideoFormat::Gray16,
            PresetVideoFormat::Gray32,
            PresetVideoFormat::GrayH,
            PresetVideoFormat::GrayS,
            PresetVideoFormat::YUV410P8,
            PresetVideoFormat::YUV411P8,
            PresetVideoFormat::YUV440P8,
            PresetVideoFormat::YUV420P8,
            PresetVideoFormat::YUV422P8,
            PresetVideoFormat::YUV444P8,
            PresetVideoFormat::YUV420P9,
            PresetVideoFormat::YUV422P9,
            PresetVideoFormat::YUV444P9,
            PresetVideoFormat::YUV420P10,
            PresetVideoFormat::YUV422P10,
            PresetVideoFormat::YUV444P10,
            PresetVideoFormat::YUV420P12,
            PresetVideoFormat::YUV422P12,
            PresetVideoFormat::YUV444P12,
            PresetVideoFormat::YUV420P14,
            PresetVideoFormat::YUV422P14,
            PresetVideoFormat::YUV444P14,
            PresetVideoFormat::YUV410P16,
            PresetVideoFormat::YUV411P16,
            PresetVideoFormat::YUV440P16,
            PresetVideoFormat::YUV420P16,
            PresetVideoFormat::YUV422P16,
            PresetVideoFormat::YUV444P16,
            PresetVideoFormat::YUV410PH,
            PresetVideoFormat::YUV410PS,
            PresetVideoFormat::YUV411PH,
            PresetVideoFormat::YUV411PS,
            PresetVideoFormat::YUV440PH,
            PresetVideoFormat::YUV440PS,
            PresetVideoFormat::YUV420PH,
            PresetVideoFormat::YUV420PS,
            PresetVideoFormat::YUV422PH,
            PresetVideoFormat::YUV422PS,
            PresetVideoFormat::YUV444PH,
            PresetVideoFormat::YUV444PS,
            PresetVideoFormat::RGB24,
            PresetVideoFormat::RGB27,
            PresetVideoFormat::RGB30,
            PresetVideoFormat::RGB36,
            PresetVideoFormat::RGB42,
            PresetVideoFormat::RGB48,
            PresetVideoFormat::RgbH,
            PresetVideoFormat::RgbS
        ];
        assert(v@ =~= spec_all_presets());
        v
    }
}

/// The part of `name` before its first NUL character.
pub open spec fn is_nul_trimmed(name: Seq<char>, r: Seq<char>) -> bool {
    &&& r.len() <= name.len()
    &&& r == name.take(r.len() as int)
    &&& !r.contains('\0')
    &&& r.len() < name.len() ==> name[r.len() as int] == '\0'
}

/// Cuts a format name at its first NUL character, as C strings end there.
pub fn trim_format_name(name: String) -> (r: String)
    ensures
        is_nul_trimmed(name@, r@),
{
    let chars = crate::text::chars_of(name.as_str());
    let mut i: usize = 0;
    while i < chars.len() && chars[i] != '\0'
        invariant
            chars@ == name@,
            i <= chars@.len(),
            forall|j: int| 0 <= j < i ==> chars@[j] != '\0',
        decreases chars@.len() - i,
    {
        i = i + 1;
    }
    crate::text::substring(name.as_str(), 0, i)
}

/// A video format as VapourSynth describes it.
#[derive(PartialEq, Eq, Structural, Clone, Copy, Debug)]
pub struct VideoFormatInfo {
    pub color_family: ColorFamily,
    pub sample_type: SampleType,
    pub bits_per_sample: i32,
    pub bytes_per_sample: i32,
    pub sub_sampling_w: i32,
    pub sub_sampling_h: i32,
    pub num_planes: i32,
}

/// An audio format as VapourSynth describes it.
#[derive(PartialEq, Eq, Structural, Clone, Copy, Debug)]
pub struct AudioFormatInfo {
    pub sample_type: SampleType,
    pub bits_per_sample: i32,
    pub bytes_per_sample: i32,
    pub channel_layout: u64,
    pub num_channels: i32,
}

/// Everything a Python `VideoFormat` object tells: the format's id and name
/// as the core reports them, and its parts.
pub struct VideoFormat {
    pub id: u32,
    pub name: String,
    pub color_family: ColorFamily,
    pub sample_type: SampleType,
    pub bits_per_sample: i32,
    pub bytes_per_sample: i32,
    pub subsampling_w: i32,
    pub subsampling_h: i32,
    pub num_planes: i32,
}

impl VideoFormat {
    /// Describes `info`, given the name the core printed for it (`"None"`
    /// when it printed none; cut at the first NUL) and the id the core
    /// assigned to it.
    pub fn describe(info: &VideoFormatInfo, core_name: Option<String>, id: u32) -> (f: VideoFormat)
        ensures
            f.id == id,
            match core_name {
                Some(n) => is_nul_trimmed(n@, f.name@),
                None => f.name@ == "None"@,
            },
            f.color_family == info.color_family,
            f.sample_type == info.sample_type,
            f.bits_per_sample == info.bits_per_sample,
            f.bytes_per_sample == info.bytes_per_sample,
            f.subsampling_w == info.sub_sampling_w,
            f.subsampling_h == info.sub_sampling_h,
            f.num_planes == info.num_planes,
    {
        let name = match core_name {
            Some(n) => trim_format_name(n),
            None => "None".to_string(),
        };
        VideoFormat {
            id,
            name,
            color_family: info.color_family,
            sample_type: info.sample_type,
            bits_per_sample: info.bits_per_sample,
            bytes_per_sample: info.bytes_per_sample,
            subsampling_w: info.sub_sampling_w,
            subsampling_h: info.sub_sampling_h,
            num_planes: info.num_planes,
        }
    }
}

} // verus!
