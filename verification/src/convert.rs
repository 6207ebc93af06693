//! Decisions taken when Python values become VapourSynth map entries and
//! back: which keys are valid, how a scalar is stored, how list arguments are
//! appended, and how a key's values come back to Python.

use vstd::prelude::*;
use vstd::string::StringSliceAdditionalSpecFns;

verus! {

/// What went wrong converting between Python values and map entries.
#[derive(PartialEq, Eq, Structural, Clone, Copy, Debug)]
pub enum ConvertError {
    /// An argument name that is empty or holds a character other than an
    /// ASCII letter, digit or `_`.
    InvalidArgumentName,
    /// A Python value of a type that cannot be stored in a map.
    UnsupportedArgumentType,
    /// An audio node or frame read back from a map.
    AudioUnsupported,
    /// A function read back from a map.
    FunctionUnsupported,
}

/// Whether byte `b` may appear in a map key: an ASCII letter, digit or `_`.
pub open spec fn is_key_byte(b: u8) -> bool {
    (0x30 <= b <= 0x39) || (0x41 <= b <= 0x5a) || (0x61 <= b <= 0x7a) || b == 0x5f
}

/// Whether `bytes` is a valid map key: non-empty, of key bytes only.
pub open spec fn is_valid_key(bytes: Seq<u8>) -> bool {
    bytes.len() > 0 && forall|i: int| 0 <= i < bytes.len() ==> is_key_byte(#[trigger] bytes[i])
}

/// Checks an argument name and returns its bytes for use as a map key.
pub fn map_key(name: &str) -> (r: Result<Vec<u8>, ConvertError>)
    ensures
        match r {
            Ok(bytes) => bytes@ == name.spec_bytes() && is_valid_key(bytes@),
            Err(e) => e == ConvertError::InvalidArgumentName && !is_valid_key(name.spec_bytes()),
        },
{
    let bytes = name.as_bytes_vec();
    if bytes.len() == 0 {
        return Err(ConvertError::InvalidArgumentName);
    }
    let mut i: usize = 0;
    while i < bytes.len()
        invariant
            i <= bytes@.len(),
            bytes@ == name.spec_bytes(),
            forall|j: int| 0 <= j < i ==> is_key_byte(#[trigger] bytes@[j]),
        decreases bytes@.len() - i,
    {
        let b = bytes[i];
        if !((0x30 <= b && b <= 0x39) || (0x41 <= b && b <= 0x5a) || (0x61 <= b && b <= 0x7a)
            || b == 0x5f) {
            assert(!is_key_byte(bytes@[i as int]));
            return Err(ConvertError::InvalidArgumentName);
        }
        i = i + 1;
    }
    Ok(bytes)
}

/// How an element is written under a key.
#[derive(PartialEq, Eq, Structural, Clone, Copy, Debug)]
pub enum AppendMode {
    /// Replace whatever the key held.
    Replace,
    /// Append to the key's array.
    Append,
}

/// The mode for element `position` of a list argument: the first element
/// replaces the key, the later ones append to it.
pub fn append_mode(position: usize) -> (m: AppendMode)
    ensures
        m == if position == 0 {
            AppendMode::Replace
        } else {
            AppendMode::Append
        },
{
    if position == 0 {
        AppendMode::Replace
    } else {
        AppendMode::Append
    }
}

/// The kind of a Python argument value, in the order in which kinds are
/// tried: a `bool` is tried before an integer, an integer before a float.
#[derive(PartialEq, Eq, Structural, Clone, Copy, Debug)]
pub enum ScalarKind {
    Bool(bool),
    Int(i64),
    /// A float (its value is passed through unchanged).
    Float,
    /// A `str`.
    Str,
    /// A bytes-like value.
    Bytes,
    /// A video node.
    VideoNode,
    /// Anything else.
    Other,
}

/// What gets stored for one argument value.
#[derive(PartialEq, Eq, Structural, Clone, Copy, Debug)]
pub enum ScalarPlan {
    /// Store this integer.
    Int(i64),
    /// Store this integer converted to a float.
    IntAsFloat(i64),
    /// Store the float value as it is.
    Float,
    /// Store the string as UTF-8 data.
    Utf8,
    /// Store the bytes as binary data.
    Data,
    /// Store the video node.
    VideoNode,
}

/// How one argument value is stored: `bool`s are integers 0 and 1, integers
/// become floats where the parameter is declared `float`.
pub open spec fn spec_scalar_plan(kind: ScalarKind, want_float: bool) -> Result<
    ScalarPlan,
    ConvertError,
> {
    match kind {
        ScalarKind::Bool(b) => {
            let i: i64 = if b {
                1
            } else {
                0
            };
            if want_float {
                Ok(ScalarPlan::IntAsFloat(i))
            } else {
                Ok(ScalarPlan::Int(i))
            }
        },
        ScalarKind::Int(i) => if want_float {
            Ok(ScalarPlan::IntAsFloat(i))
        } else {
            Ok(ScalarPlan::Int(i))
        },
        ScalarKind::Float => Ok(ScalarPlan::Float),
        ScalarKind::Str => Ok(ScalarPlan::Utf8),
        ScalarKind::Bytes => Ok(ScalarPlan::Data),
        ScalarKind::VideoNode => Ok(ScalarPlan::VideoNode),
        ScalarKind::Other => Err(ConvertError::UnsupportedArgumentType),
    }
}

/// Decides how one argument value is stored.
pub fn scalar_plan(kind: ScalarKind, want_float: bool) -> (r: Result<ScalarPlan, ConvertError>)
    ensures
        r == spec_scalar_plan(kind, want_float),
{
    match kind {
        ScalarKind::Bool(b) => {
            let i: i64 = if b {
                1
            } else {
                0
            };
            if want_float {
                Ok(ScalarPlan::IntAsFloat(i))
            } else {
                Ok(ScalarPlan::Int(i))
            }
        },
        ScalarKind::Int(i) => if want_float {
            Ok(ScalarPlan::IntAsFloat(i))
        } else {
            Ok(ScalarPlan::Int(i))
        },
        ScalarKind::Float => Ok(ScalarPlan::Float),
        ScalarKind::Str => Ok(ScalarPlan::Utf8),
        ScalarKind::Bytes => Ok(ScalarPlan::Data),
        ScalarKind::VideoNode => Ok(ScalarPlan::VideoNode),
        ScalarKind::Other => Err(ConvertError::UnsupportedArgumentType),
    }
}

/// The kind of a value read from a map.
#[derive(PartialEq, Eq, Structural, Clone, Copy, Debug)]
pub enum ValueKind {
    Int,
    Float,
    Utf8,
    Data,
    VideoNode,
    VideoFrame,
    AudioNode,
    AudioFrame,
    Function,
}

/// Whether a value read from a map can be handed to Python: audio values
/// and functions cannot (yet).
pub fn check_value_kind(kind: ValueKind) -> (r: Result<(), ConvertError>)
    ensures
        r == match kind {
            ValueKind::AudioNode | ValueKind::AudioFrame => Err(ConvertError::AudioUnsupported),
            ValueKind::Function => Err(ConvertError::FunctionUnsupported),
            _ => Ok::<(), ConvertError>(()),
        },
{
    match kind {
        ValueKind::AudioNode | ValueKind::AudioFrame => Err(ConvertError::AudioUnsupported),
        ValueKind::Function => Err(ConvertError::FunctionUnsupported),
        _ => Ok(()),
    }
}

/// Number of values to read under a key: a missing key reads as none.
pub fn element_count(num_elements: Option<i32>) -> (n: i32)
    ensures
        n == match num_elements {
            Some(k) => k,
            None => 0,
        },
{
    match num_elements {
        Some(k) => k,
        None => 0,
    }
}

/// The values of one key as Python sees them: one value on its own, any
/// other number as a list.
#[derive(PartialEq, Eq, Debug)]
pub enum KeyValues<T> {
    Single(T),
    List(Vec<T>),
}

/// Collapses the values read under a key: exactly one value stands alone.
pub fn collapse_values<T>(values: Vec<T>) -> (r: KeyValues<T>)
    ensures
        values@.len() == 1 ==> r == KeyValues::Single(values@[0]),
        values@.len() != 1 ==> (r matches KeyValues::List(l) && l@ == values@),
{
    if values.len() == 1 {
        let mut values = values;
        let v = values.pop();
        match v {
            Some(v) => KeyValues::Single(v),
            None => KeyValues::List(values),
        }
    } else {
        KeyValues::List(values)
    }
}

/// How a function's result map reaches Python: a map of one key becomes that
/// key's value, any other map a dict.
#[derive(PartialEq, Eq, Structural, Clone, Copy, Debug)]
pub enum ResultShape {
    SingleKey,
    Dict,
}

/// Chooses how a result map of `num_keys` keys reaches Python.
pub fn result_shape(num_keys: i32) -> (s: ResultShape)
    ensures
        s == if num_keys == 1 {
            ResultShape::SingleKey
        } else {
            ResultShape::Dict
        },
{
    if num_keys == 1 {
        ResultShape::SingleKey
    } else {
        ResultShape::Dict
    }
}

/// How one keyword argument is written: its key, then one entry per value.
#[derive(Debug)]
pub struct ArgumentPlan {
    pub key: Vec<u8>,
    pub entries: Vec<(ScalarPlan, AppendMode)>,
}

/// The mode of value `i` of an argument: a list's first value replaces the
/// key and the others append; a single value replaces.
pub open spec fn spec_entry_mode(is_list: bool, i: int) -> AppendMode {
    if is_list && i > 0 {
        AppendMode::Append
    } else {
        AppendMode::Replace
    }
}

/// Why an argument could not be written in full, with what is written of it
/// before the failure: the values ahead of the first unsupported one.
#[derive(Debug)]
pub struct ArgumentFailure {
    pub error: ConvertError,
    pub written: ArgumentPlan,
}

/// Plans writing keyword argument `name` with the values `kinds` (the items
/// of a list when `is_list`, else one value): the name must be a valid key,
/// and every value of a storable kind; integers become floats when the
/// parameter is declared `float`. Values are written in order, so when one
/// is unsupported, the values before it are still written.
pub fn argument_plan(
    name: &str,
    kinds: &Vec<ScalarKind>,
    is_list: bool,
    types: &crate::signature::SignatureTypes,
) -> (r: Result<ArgumentPlan, ArgumentFailure>)
    ensures
        ({
            let want_float = types.spec_map().contains_key(name@) && types.spec_map()[name@]
                == "float"@;
            match r {
                Ok(plan) => {
                    &&& is_valid_key(name.spec_bytes())
                    &&& plan.key@ == name.spec_bytes()
                    &&& plan.entries@.len() == kinds@.len()
                    &&& forall|i: int|
                        0 <= i < kinds@.len() ==> spec_scalar_plan(#[trigger] kinds@[i], want_float)
                            == Ok::<ScalarPlan, ConvertError>(plan.entries@[i].0)
                            && plan.entries@[i].1 == spec_entry_mode(is_list, i)
                },
                Err(f) => if !is_valid_key(name.spec_bytes()) {
                    &&& f.error == ConvertError::InvalidArgumentName
                    &&& f.written.key@.len() == 0
                    &&& f.written.entries@.len() == 0
                } else {
                    let k = f.written.entries@.len() as int;
                    &&& f.error == ConvertError::UnsupportedArgumentType
                    &&& f.written.key@ == name.spec_bytes()
                    &&& k < kinds@.len()
                    &&& kinds@[k] == ScalarKind::Other
                    &&& forall|i: int|
                        0 <= i < k ==> spec_scalar_plan(#[trigger] kinds@[i], want_float)
                            == Ok::<ScalarPlan, ConvertError>(f.written.entries@[i].0)
                            && f.written.entries@[i].1 == spec_entry_mode(is_list, i)
                },
            }
        }),
{
    let key = match map_key(name) {
        Ok(key) => key,
        Err(e) => {
            return Err(
                ArgumentFailure {
                    error: e,
                    written: ArgumentPlan { key: Vec::new(), entries: Vec::new() },
                },
            );
        },
    };
    let want_float = types.wants_float(name);
    let mut entries: Vec<(ScalarPlan, AppendMode)> = Vec::new();
    let mut i: usize = 0;
    while i < kinds.len()
        invariant
            i <= kinds@.len(),
            entries@.len() == i,
            is_valid_key(name.spec_bytes()),
            key@ == name.spec_bytes(),
            want_float == (types.spec_map().contains_key(name@) && types.spec_map()[name@]
                == "float"@),
            forall|j: int|
                0 <= j < i ==> spec_scalar_plan(#[trigger] kinds@[j], want_float) == Ok::<
                    ScalarPlan,
                    ConvertError,
                >(entries@[j].0) && entries@[j].1 == spec_entry_mode(is_list, j),
        decreases kinds@.len() - i,
    {
        let plan = match scalar_plan(kinds[i], want_float) {
            Ok(p) => p,
            Err(e) => {
                assert(kinds@[i as int] == ScalarKind::Other);
                return Err(ArgumentFailure { error: e, written: ArgumentPlan { key, entries } });
            },
        };
        let mode = if is_list {
            append_mode(i)
        } else {
            AppendMode::Replace
        };
        entries.push((plan, mode));
        i = i + 1;
    }
    Ok(ArgumentPlan { key, entries })
}

/// The values a map holds under a key after writing `values` in order, each
/// with its mode in `modes`, to a key that held `stored` (`None`: absent).
/// Replacing leaves the key with that one value; appending adds the value
/// at the end, creating the key when it is absent.
pub open spec fn spec_write_values<T>(stored: Option<Seq<T>>, modes: Seq<AppendMode>, values: Seq<T>) -> Option<Seq<T>>
    decreases modes.len(),
{
    if modes.len() == 0 || values.len() == 0 {
        stored
    } else {
        let next = match modes[0] {
            AppendMode::Replace => seq![values[0]],
            AppendMode::Append => match stored {
                Some(s) => s.push(values[0]),
                None => seq![values[0]],
            },
        };
        spec_write_values(Some(next), modes.drop_first(), values.drop_first())
    }
}

/// The values read back under a key: an absent key reads as no values.
pub open spec fn spec_read_values<T>(stored: Option<Seq<T>>) -> Seq<T> {
    match stored {
        Some(s) => s,
        None => Seq::empty(),
    }
}

/// Appending every value to a key that holds `prefix` leaves the key with
/// `prefix` followed by the values.
proof fn lemma_append_all<T>(prefix: Seq<T>, values: Seq<T>)
    ensures
        spec_write_values(Some(prefix), Seq::new(values.len(), |i: int| AppendMode::Append), values)
            == Some(prefix + values),
    decreases values.len(),
{
    let modes = Seq::new(values.len(), |i: int| AppendMode::Append);
    if values.len() == 0 {
        assert(prefix + values =~= prefix);
    } else {
        assert(modes.drop_first() =~= Seq::new(values.drop_first().len(), |i: int| AppendMode::Append));
        lemma_append_all(prefix.push(values[0]), values.drop_first());
        assert(prefix.push(values[0]) + values.drop_first() =~= prefix + values);
    }
}

/// A keyword argument read back is what was written: writing its values with
/// the modes of its plan, to a key absent from a fresh map, leaves the key
/// holding exactly those values, in order; an empty list leaves the key
/// absent, which reads back as no values.
pub proof fn written_arguments_read_back<T>(values: Seq<T>, is_list: bool)
    requires
        is_list || values.len() == 1,
    ensures
        ({
            let modes = Seq::new(values.len(), |i: int| spec_entry_mode(is_list, i));
            let stored = spec_write_values(None, modes, values);
            &&& spec_read_values(stored) == values
            &&& (stored is None <==> values.len() == 0)
        }),
{
    let modes = Seq::new(values.len(), |i: int| spec_entry_mode(is_list, i));
    if values.len() > 0 {
        let rest = values.drop_first();
        assert(modes.drop_first() =~= Seq::new(rest.len(), |i: int| AppendMode::Append));
        lemma_append_all(seq![values[0]], rest);
        assert(seq![values[0]] + rest =~= values);
    }
}

/// The key bytes are exactly the ASCII word characters: a byte that encodes
/// an ASCII character may appear in a map key if and only if that character
/// is a decimal digit, a Latin letter of either case, or the underscore.
pub proof fn key_bytes_are_ascii_word_characters(c: char)
    requires
        (c as u32) < 128,
    ensures
        is_key_byte(c as u8) <==> (('0' <= c && c <= '9') || ('a' <= c && c <= 'z') || ('A' <= c
            && c <= 'Z') || c == '_'),
{
}

/// A `bool` argument is stored as the integer Python's `int()` gives it,
/// 1 for `True` and 0 for `False`, exactly as that integer would be; an
/// integer is stored as itself, or as a float of the same value where the
/// parameter is declared `float`.
pub proof fn bools_are_stored_as_their_integers(b: bool, i: i64, want_float: bool)
    ensures
        spec_scalar_plan(ScalarKind::Bool(b), want_float) == spec_scalar_plan(
            ScalarKind::Int(if b { 1i64 } else { 0i64 }),
            want_float,
        ),
        spec_scalar_plan(ScalarKind::Int(i), false) == Ok::<ScalarPlan, ConvertError>(ScalarPlan::Int(i)),
        spec_scalar_plan(ScalarKind::Int(i), true) == Ok::<ScalarPlan, ConvertError>(ScalarPlan::IntAsFloat(i)),
        spec_scalar_plan(ScalarKind::Bool(true), false) == Ok::<ScalarPlan, ConvertError>(ScalarPlan::Int(1)),
        spec_scalar_plan(ScalarKind::Bool(false), false) == Ok::<ScalarPlan, ConvertError>(ScalarPlan::Int(0)),
{
}

} // verus!
