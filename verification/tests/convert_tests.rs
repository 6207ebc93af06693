use rynth::signature::SignatureTypes;
use rynth::convert::{
    argument_plan,
    append_mode, check_value_kind, collapse_values, element_count, map_key, result_shape,
    scalar_plan, AppendMode, ConvertError, KeyValues, ResultShape, ScalarKind, ScalarPlan,
    ValueKind,
};

#[test]
fn map_key_accepts_identifiers() {
    assert_eq!(map_key("width").unwrap(), b"width".to_vec());
    assert_eq!(map_key("_a1_Z").unwrap(), b"_a1_Z".to_vec());
}

#[test]
fn map_key_rejects_invalid_names() {
    assert_eq!(map_key(""), Err(ConvertError::InvalidArgumentName));
    assert_eq!(map_key("a-b"), Err(ConvertError::InvalidArgumentName));
    assert_eq!(map_key("a b"), Err(ConvertError::InvalidArgumentName));
    assert_eq!(map_key("é"), Err(ConvertError::InvalidArgumentName));
    assert_eq!(map_key("a\0"), Err(ConvertError::InvalidArgumentName));
}

#[test]
fn append_mode_replaces_then_appends() {
    assert_eq!(append_mode(0), AppendMode::Replace);
    assert_eq!(append_mode(1), AppendMode::Append);
    assert_eq!(append_mode(7), AppendMode::Append);
}

#[test]
fn scalar_plan_converts_for_float_parameters() {
    assert_eq!(scalar_plan(ScalarKind::Bool(true), false), Ok(ScalarPlan::Int(1)));
    assert_eq!(scalar_plan(ScalarKind::Bool(false), true), Ok(ScalarPlan::IntAsFloat(0)));
    assert_eq!(scalar_plan(ScalarKind::Int(42), false), Ok(ScalarPlan::Int(42)));
    assert_eq!(scalar_plan(ScalarKind::Int(42), true), Ok(ScalarPlan::IntAsFloat(42)));
    assert_eq!(scalar_plan(ScalarKind::Float, false), Ok(ScalarPlan::Float));
    assert_eq!(scalar_plan(ScalarKind::Str, true), Ok(ScalarPlan::Utf8));
    assert_eq!(scalar_plan(ScalarKind::Bytes, false), Ok(ScalarPlan::Data));
    assert_eq!(scalar_plan(ScalarKind::VideoNode, false), Ok(ScalarPlan::VideoNode));
    assert_eq!(scalar_plan(ScalarKind::Other, false), Err(ConvertError::UnsupportedArgumentType));
}

#[test]
fn value_kinds_audio_and_functions_unsupported() {
    assert_eq!(check_value_kind(ValueKind::Int), Ok(()));
    assert_eq!(check_value_kind(ValueKind::VideoFrame), Ok(()));
    assert_eq!(check_value_kind(ValueKind::AudioNode), Err(ConvertError::AudioUnsupported));
    assert_eq!(check_value_kind(ValueKind::AudioFrame), Err(ConvertError::AudioUnsupported));
    assert_eq!(check_value_kind(ValueKind::Function), Err(ConvertError::FunctionUnsupported));
}

#[test]
fn key_values_collapse_single() {
    assert_eq!(collapse_values(vec![5]), KeyValues::Single(5));
    assert_eq!(collapse_values(vec![1, 2]), KeyValues::List(vec![1, 2]));
    assert_eq!(collapse_values(Vec::<i32>::new()), KeyValues::List(vec![]));
    assert_eq!(element_count(Some(3)), 3);
    assert_eq!(element_count(None), 0);
}

#[test]
fn result_shape_unwraps_single_key() {
    assert_eq!(result_shape(1), ResultShape::SingleKey);
    assert_eq!(result_shape(0), ResultShape::Dict);
    assert_eq!(result_shape(2), ResultShape::Dict);
}

#[test]
fn argument_plans() {
    let types = SignatureTypes::parse("clip:vnode;sigma:float[]:opt;radius:int:opt;");
    let p = argument_plan("sigma", &vec![ScalarKind::Int(1), ScalarKind::Float, ScalarKind::Bool(true)], true, &types).unwrap();
    assert_eq!(p.key, b"sigma".to_vec());
    assert_eq!(
        p.entries,
        vec![
            (ScalarPlan::IntAsFloat(1), AppendMode::Replace),
            (ScalarPlan::Float, AppendMode::Append),
            (ScalarPlan::IntAsFloat(1), AppendMode::Append),
        ]
    );
    let q = argument_plan("radius", &vec![ScalarKind::Int(3)], false, &types).unwrap();
    assert_eq!(q.entries, vec![(ScalarPlan::Int(3), AppendMode::Replace)]);
    let empty = argument_plan("radius", &vec![], true, &types).unwrap();
    assert!(empty.entries.is_empty());
    let bad = argument_plan("bad name", &vec![ScalarKind::Int(3)], false, &types).err().unwrap();
    assert_eq!(bad.error, ConvertError::InvalidArgumentName);
    assert!(bad.written.key.is_empty());
    assert!(bad.written.entries.is_empty());
    let partial = argument_plan(
        "radius",
        &vec![ScalarKind::Int(3), ScalarKind::Other, ScalarKind::Int(4)],
        true,
        &types,
    )
    .err()
    .unwrap();
    assert_eq!(partial.error, ConvertError::UnsupportedArgumentType);
    assert_eq!(partial.written.key, b"radius".to_vec());
    assert_eq!(partial.written.entries, vec![(ScalarPlan::Int(3), AppendMode::Replace)]);
    let first = argument_plan("radius", &vec![ScalarKind::Other], false, &types).err().unwrap();
    assert_eq!(first.error, ConvertError::UnsupportedArgumentType);
    assert!(first.written.entries.is_empty());
}
