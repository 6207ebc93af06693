use rynth::format::{
    trim_format_name, video_id, ColorFamily, PresetVideoFormat, SampleType, VideoFormat,
    VideoFormatInfo,
};
use vapoursynth4_rs::ffi::VSPresetVideoFormat;

#[test]
fn color_family_codes_round_trip() {
    for code in 0..4 {
        let cf = ColorFamily::from_code(code).unwrap();
        assert_eq!(cf.code() as i32, code);
    }
    assert_eq!(ColorFamily::from_code(4), None);
    assert_eq!(ColorFamily::from_code(-1), None);
    assert_eq!(ColorFamily::from_code(2), Some(ColorFamily::Rgb));
}

#[test]
fn sample_type_codes_round_trip() {
    assert_eq!(SampleType::from_code(0), Some(SampleType::Integer));
    assert_eq!(SampleType::from_code(1), Some(SampleType::Float));
    assert_eq!(SampleType::from_code(2), None);
    assert_eq!(SampleType::Float.code(), 1);
}

#[test]
fn video_id_packs_fields() {
    // YUV420P8: YUV, Integer, 8 bits, subsampling 1/1
    assert_eq!(video_id(3, 0, 8, 1, 1), 0x3008_0101);
    assert_eq!(video_id(1, 1, 32, 0, 0), 0x1120_0000);
}

#[test]
fn preset_ids_match_vapoursynth() {
    let ours = PresetVideoFormat::all();
    let theirs = [
        VSPresetVideoFormat::None, VSPresetVideoFormat::Gray8, VSPresetVideoFormat::Gray9,
        VSPresetVideoFormat::Gray10, VSPresetVideoFormat::Gray12, VSPresetVideoFormat::Gray14,
        VSPresetVideoFormat::Gray16, VSPresetVideoFormat::Gray32, VSPresetVideoFormat::GrayH,
        VSPresetVideoFormat::GrayS, VSPresetVideoFormat::YUV410P8, VSPresetVideoFormat::YUV411P8,
        VSPresetVideoFormat::YUV440P8, VSPresetVideoFormat::YUV420P8, VSPresetVideoFormat::YUV422P8,
        VSPresetVideoFormat::YUV444P8, VSPresetVideoFormat::YUV420P9, VSPresetVideoFormat::YUV422P9,
        VSPresetVideoFormat::YUV444P9, VSPresetVideoFormat::YUV420P10, VSPresetVideoFormat::YUV422P10,
        VSPresetVideoFormat::YUV444P10, VSPresetVideoFormat::YUV420P12, VSPresetVideoFormat::YUV422P12,
        VSPresetVideoFormat::YUV444P12, VSPresetVideoFormat::YUV420P14, VSPresetVideoFormat::YUV422P14,
        VSPresetVideoFormat::YUV444P14, VSPresetVideoFormat::YUV410P16, VSPresetVideoFormat::YUV411P16,
        VSPresetVideoFormat::YUV440P16, VSPresetVideoFormat::YUV420P16, VSPresetVideoFormat::YUV422P16,
        VSPresetVideoFormat::YUV444P16, VSPresetVideoFormat::YUV410PH, VSPresetVideoFormat::YUV410PS,
        VSPresetVideoFormat::YUV411PH, VSPresetVideoFormat::YUV411PS, VSPresetVideoFormat::YUV440PH,
        VSPresetVideoFormat::YUV440PS, VSPresetVideoFormat::YUV420PH, VSPresetVideoFormat::YUV420PS,
        VSPresetVideoFormat::YUV422PH, VSPresetVideoFormat::YUV422PS, VSPresetVideoFormat::YUV444PH,
        VSPresetVideoFormat::YUV444PS, VSPresetVideoFormat::RGB24, VSPresetVideoFormat::RGB27,
        VSPresetVideoFormat::RGB30, VSPresetVideoFormat::RGB36, VSPresetVideoFormat::RGB42,
        VSPresetVideoFormat::RGB48, VSPresetVideoFormat::RGBH, VSPresetVideoFormat::RGBS,
    ];
    assert_eq!(ours.len(), theirs.len());
    for (p, t) in ours.iter().zip(theirs.iter()) {
        assert_eq!(p.id() as i64, *t as i64, "{p:?}");
    }
    assert_eq!(PresetVideoFormat::NoFormat.id(), 0);
    assert_eq!(PresetVideoFormat::NoFormat.parts(), None);
}

#[test]
fn trim_format_name_cuts_at_nul() {
    assert_eq!(trim_format_name("YUV420P8\0\0\0".to_string()), "YUV420P8");
    assert_eq!(trim_format_name("Gray8".to_string()), "Gray8");
    assert_eq!(trim_format_name("\0abc".to_string()), "");
    assert_eq!(trim_format_name(String::new()), "");
}

#[test]
fn describe_format_uses_core_name_and_id() {
    let info = VideoFormatInfo {
        color_family: ColorFamily::Yuv,
        sample_type: SampleType::Integer,
        bits_per_sample: 10,
        bytes_per_sample: 2,
        sub_sampling_w: 1,
        sub_sampling_h: 1,
        num_planes: 3,
    };
    let f = VideoFormat::describe(&info, Some("YUV420P10\0junk".to_string()), 0x300a0101);
    assert_eq!(f.name, "YUV420P10");
    assert_eq!(f.id, 0x300a0101);
    assert_eq!(f.subsampling_w, 1);
    assert_eq!(f.num_planes, 3);
    let g = VideoFormat::describe(&info, None, 0);
    assert_eq!(g.name, "None");
}
