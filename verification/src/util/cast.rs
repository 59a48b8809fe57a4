//! Conversions between native values and boxed values.
//!
//! The conversions of primitives are total functions of the boxed value and
//! are specified exactly. The conversions of objects ask the runtime for the
//! content of the object; of those, the contract says what is decided here.

use vstd::prelude::*;
use std::sync::Arc;
use bigdecimal::BigDecimal;
use jni::objects::JObject;
use jni::{JNIEnv, JavaVM};
use crate::decimal::decimal_or_zero;
use crate::errors::JdbcError;
use crate::method::{call_by_name, Arguments};
use crate::runtime::{
    byte_array_from_slice, convert_byte_array, delete_local_ref, get_string, new_global_ref,
};
use crate::value::{BoxedValue, ValueKind, JNI_FALSE, JNI_TRUE};
use crate::wrapper::io::InputStream;

verus! {

/// The signed byte with the bit pattern of `value`.
pub open spec fn signed_byte(value: u8) -> i8 {
    if value < 128 {
        value as i8
    } else {
        (value - 256) as i8
    }
}

/// The unsigned byte with the bit pattern of `value`.
pub open spec fn unsigned_byte(value: i8) -> u8 {
    if value >= 0 {
        value as u8
    } else {
        (value + 256) as u8
    }
}

/// The boxed form of a native `bool`: the one-byte sentinel.
pub open spec fn boxed_bool<O>(value: bool) -> BoxedValue<O> {
    if value {
        BoxedValue::Bool(JNI_TRUE)
    } else {
        BoxedValue::Bool(JNI_FALSE)
    }
}

/// The boxed form of a native unsigned byte: the signed byte of the same bit
/// pattern.
pub open spec fn boxed_u8<O>(value: u8) -> BoxedValue<O> {
    BoxedValue::Byte(signed_byte(value))
}

/// The failure of a conversion that found another tag than it asked for.
pub open spec fn mismatch<O, T>(expected: ValueKind, value: BoxedValue<O>) -> Result<T, JdbcError> {
    Err(JdbcError::WrongType { expected, found: value.tag() })
}

pub open spec fn cast_u8<O>(value: BoxedValue<O>) -> Result<u8, JdbcError> {
    match value {
        BoxedValue::Byte(v) => Ok(unsigned_byte(v)),
        _ => mismatch(ValueKind::Byte, value),
    }
}

pub open spec fn cast_char<O>(value: BoxedValue<O>) -> Result<u16, JdbcError> {
    match value {
        BoxedValue::Char(v) => Ok(v),
        _ => mismatch(ValueKind::Char, value),
    }
}

pub open spec fn cast_bool<O>(value: BoxedValue<O>) -> Result<bool, JdbcError> {
    match value {
        BoxedValue::Bool(v) => Ok(v == JNI_TRUE),
        _ => mismatch(ValueKind::Bool, value),
    }
}

pub open spec fn cast_i16<O>(value: BoxedValue<O>) -> Result<i16, JdbcError> {
    match value {
        BoxedValue::Short(v) => Ok(v),
        _ => mismatch(ValueKind::Short, value),
    }
}

pub open spec fn cast_i32<O>(value: BoxedValue<O>) -> Result<i32, JdbcError> {
    match value {
        BoxedValue::Int(v) => Ok(v),
        _ => mismatch(ValueKind::Int, value),
    }
}

pub open spec fn cast_i64<O>(value: BoxedValue<O>) -> Result<i64, JdbcError> {
    match value {
        BoxedValue::Long(v) => Ok(v),
        _ => mismatch(ValueKind::Long, value),
    }
}

pub open spec fn cast_f32<O>(value: BoxedValue<O>) -> Result<u32, JdbcError> {
    match value {
        BoxedValue::Float(bits) => Ok(bits),
        _ => mismatch(ValueKind::Float, value),
    }
}

pub open spec fn cast_f64<O>(value: BoxedValue<O>) -> Result<u64, JdbcError> {
    match value {
        BoxedValue::Double(bits) => Ok(bits),
        _ => mismatch(ValueKind::Double, value),
    }
}

/// Boxes a native `bool` as the runtime's one-byte sentinel.
pub fn bool_to_jvalue<O>(value: bool) -> (r: BoxedValue<O>)
    ensures
        r == boxed_bool::<O>(value),
{
    match value {
        true => BoxedValue::Bool(JNI_TRUE),
        false => BoxedValue::Bool(JNI_FALSE),
    }
}

/// Boxes a native unsigned byte as the signed byte of the same bit pattern.
pub fn u8_to_jvalue<O>(value: u8) -> (r: BoxedValue<O>)
    ensures
        r == boxed_u8::<O>(value),
{
    if value < 128 {
        BoxedValue::Byte(value as i8)
    } else {
        let wide: i16 = value as i16;
        BoxedValue::Byte((wide - 256) as i8)
    }
}

/// Whether a boxed value is the true sentinel.
pub fn jvalue_to_bool<O>(value: BoxedValue<O>) -> (r: bool)
    ensures
        r == (value == BoxedValue::<O>::Bool(JNI_TRUE)),
{
    match value {
        BoxedValue::Bool(z) => z == JNI_TRUE,
        _ => false,
    }
}

/// The unsigned byte of a boxed `byte`.
pub fn value_cast_u8<O>(obj: BoxedValue<O>) -> (r: Result<u8, JdbcError>)
    ensures
        r == cast_u8(obj),
{
    match obj {
        BoxedValue::Byte(val) => {
            if val >= 0 {
                Ok(val as u8)
            } else {
                let wide: i16 = val as i16;
                Ok((wide + 256) as u8)
            }
        },
        other => Err(JdbcError::WrongType { expected: ValueKind::Byte, found: other.kind() }),
    }
}

/// The code unit of a boxed `char`.
pub fn value_cast_char<O>(obj: BoxedValue<O>) -> (r: Result<u16, JdbcError>)
    ensures
        r == cast_char(obj),
{
    match obj {
        BoxedValue::Char(val) => Ok(val),
        other => Err(JdbcError::WrongType { expected: ValueKind::Char, found: other.kind() }),
    }
}

/// The truth of a boxed `boolean`: true for the true sentinel alone.
pub fn value_cast_bool<O>(obj: BoxedValue<O>) -> (r: Result<bool, JdbcError>)
    ensures
        r == cast_bool(obj),
{
    match obj {
        BoxedValue::Bool(val) => Ok(val == JNI_TRUE),
        other => Err(JdbcError::WrongType { expected: ValueKind::Bool, found: other.kind() }),
    }
}

/// The number of a boxed `short`.
pub fn value_cast_i16<O>(obj: BoxedValue<O>) -> (r: Result<i16, JdbcError>)
    ensures
        r == cast_i16(obj),
{
    match obj {
        BoxedValue::Short(val) => Ok(val),
        other => Err(JdbcError::WrongType { expected: ValueKind::Short, found: other.kind() }),
    }
}

/// The number of a boxed `int`.
pub fn value_cast_i32<O>(obj: BoxedValue<O>) -> (r: Result<i32, JdbcError>)
    ensures
        r == cast_i32(obj),
{
    match obj {
        BoxedValue::Int(val) => Ok(val),
        other => Err(JdbcError::WrongType { expected: ValueKind::Int, found: other.kind() }),
    }
}

/// The number of a boxed `long`.
pub fn value_cast_i64<O>(obj: BoxedValue<O>) -> (r: Result<i64, JdbcError>)
    ensures
        r == cast_i64(obj),
{
    match obj {
        BoxedValue::Long(val) => Ok(val),
        other => Err(JdbcError::WrongType { expected: ValueKind::Long, found: other.kind() }),
    }
}

/// The bit pattern of a boxed `float`.
pub fn value_cast_f32<O>(obj: BoxedValue<O>) -> (r: Result<u32, JdbcError>)
    ensures
        r == cast_f32(obj),
{
    match obj {
        BoxedValue::Float(bits) => Ok(bits),
        other => Err(JdbcError::WrongType { expected: ValueKind::Float, found: other.kind() }),
    }
}

/// The bit pattern of a boxed `double`.
pub fn value_cast_f64<O>(obj: BoxedValue<O>) -> (r: Result<u64, JdbcError>)
    ensures
        r == cast_f64(obj),
{
    match obj {
        BoxedValue::Double(bits) => Ok(bits),
        other => Err(JdbcError::WrongType { expected: ValueKind::Double, found: other.kind() }),
    }
}

/// Law: every scalar that is boxed for binding and read back through the
/// conversion of its own type comes back unchanged.
pub proof fn lemma_scalar_round_trip<O>(
    flag: bool,
    byte: u8,
    unit: u16,
    short: i16,
    word: i32,
    long: i64,
    float_bits: u32,
    double_bits: u64,
)
    ensures
        cast_bool(boxed_bool::<O>(flag)) == Ok::<bool, JdbcError>(flag),
        cast_u8(boxed_u8::<O>(byte)) == Ok::<u8, JdbcError>(byte),
        cast_char(BoxedValue::<O>::Char(unit)) == Ok::<u16, JdbcError>(unit),
        cast_i16(BoxedValue::<O>::Short(short)) == Ok::<i16, JdbcError>(short),
        cast_i32(BoxedValue::<O>::Int(word)) == Ok::<i32, JdbcError>(word),
        cast_i64(BoxedValue::<O>::Long(long)) == Ok::<i64, JdbcError>(long),
        cast_f32(BoxedValue::<O>::Float(float_bits)) == Ok::<u32, JdbcError>(float_bits),
        cast_f64(BoxedValue::<O>::Double(double_bits)) == Ok::<u64, JdbcError>(double_bits),
{
}

/// The outcome of a step that produced `value` and then released a
/// reference: the first failure, and the value where there is none.
pub open spec fn settled<T, E>(value: Result<T, E>, released: Result<(), E>) -> Result<T, E> {
    match value {
        Err(e) => Err(e),
        Ok(v) => match released {
            Err(e) => Err(e),
            Ok(_) => Ok(v),
        },
    }
}

/// Joins the outcome of a step with that of the release that follows it.
pub fn settle<T, E>(value: Result<T, E>, released: Result<(), E>) -> (r: Result<T, E>)
    ensures
        r == settled(value, released),
{
    match value {
        Err(e) => Err(e),
        Ok(v) => match released {
            Err(e) => Err(e),
            Ok(_) => Ok(v),
        },
    }
}

/// The outcome of an invocation that was followed by the release of a
/// reference: the failure of the invocation, else that of the release, else
/// the value.
pub open spec fn released_outcome<T>(
    value: Result<T, JdbcError>,
    released: Result<(), jni::errors::Error>,
) -> Result<T, JdbcError> {
    match value {
        Err(e) => Err(e),
        Ok(v) => match released {
            Err(e) => Err(JdbcError::JniError(e)),
            Ok(_) => Ok(v),
        },
    }
}

/// Joins the outcome of an invocation with that of the release that follows
/// it.
pub fn after_release<T>(
    value: Result<T, JdbcError>,
    released: Result<(), jni::errors::Error>,
) -> (r: Result<T, JdbcError>)
    ensures
        r == released_outcome(value, released),
{
    match value {
        Err(e) => Err(e),
        Ok(v) => match released {
            Err(e) => Err(JdbcError::JniError(e)),
            Ok(_) => Ok(v),
        },
    }
}

/// Copies a managed string into a native one and releases the reference.
/// The reference is released whether or not the copy succeeds.
pub fn obj_cast_string<'a, 'o>(env: &mut JNIEnv<'a>, obj: JObject<'o>) -> (r: Result<
    String,
    jni::errors::Error,
>) {
    let text = get_string(env, &obj);
    let released = delete_local_ref(env, obj);
    settle(text, released)
}

/// The native string of a boxed string object. A value that is no object is
/// of the wrong type.
pub fn value_cast_string<'a, 'o>(env: &mut JNIEnv<'a>, obj: BoxedValue<JObject<'o>>) -> (r: Result<
    String,
    JdbcError,
>)
    ensures
        obj is Object ==> (r matches Err(e) ==> e is JniError),
        !(obj is Object) ==> r == mismatch::<JObject<'o>, String>(ValueKind::Object, obj),
{
    match obj {
        BoxedValue::Object(o) => match obj_cast_string(env, o) {
            Ok(text) => Ok(text),
            Err(e) => Err(JdbcError::JniError(e)),
        },
        other => Err(JdbcError::WrongType { expected: ValueKind::Object, found: other.kind() }),
    }
}

/// The milliseconds since the epoch of a boxed date object, read through its
/// `getTime` method. The reference is released. A value that is no object is
/// of the wrong type.
pub fn value_cast_timestamp_millis<'a, 'o>(
    env: &mut JNIEnv<'a>,
    obj: BoxedValue<JObject<'o>>,
) -> (r: Result<i64, JdbcError>)
    ensures
        obj is Object ==> (r matches Err(e) ==> e.is_invocation_failure()),
        !(obj is Object) ==> r == mismatch::<JObject<'o>, i64>(ValueKind::Object, obj),
{
    match obj {
        BoxedValue::Object(o) => {
            proof {
                reveal_strlit("()J");
            }
            let time = call_by_name(env, &o, "getTime", "()J", ValueKind::Long, Arguments::Zero);
            let released = delete_local_ref(env, o);
            match (time, released) {
                (Ok(value), Ok(_)) => value_cast_i64(value),
                (Ok(_), Err(e)) => Err(JdbcError::JniError(e)),
                (Err(e), _) => Err(e),
            }
        },
        other => Err(JdbcError::WrongType { expected: ValueKind::Object, found: other.kind() }),
    }
}

/// Copies the elements of a managed byte array into a native buffer and
/// releases the reference, whether or not the copy succeeds.
pub fn array_cast_bytes<'a, 'o>(env: &mut JNIEnv<'a>, obj: JObject<'o>) -> (r: Result<
    Vec<u8>,
    jni::errors::Error,
>) {
    let bytes = convert_byte_array(env, &obj);
    let released = delete_local_ref(env, obj);
    settle(bytes, released)
}

/// The bytes of a boxed byte array. A value that is no object is of the
/// wrong type.
pub fn value_cast_bytes<'a, 'o>(env: &mut JNIEnv<'a>, obj: BoxedValue<JObject<'o>>) -> (r: Result<
    Vec<u8>,
    JdbcError,
>)
    ensures
        obj is Object ==> (r matches Err(e) ==> e is JniError),
        !(obj is Object) ==> r == mismatch::<JObject<'o>, Vec<u8>>(ValueKind::Object, obj),
{
    match obj {
        BoxedValue::Object(o) => match array_cast_bytes(env, o) {
            Ok(bytes) => Ok(bytes),
            Err(e) => Err(JdbcError::JniError(e)),
        },
        other => Err(JdbcError::WrongType { expected: ValueKind::Object, found: other.kind() }),
    }
}

/// The decimal of a boxed decimal object: its text is read through
/// `toString` and parsed leniently, so a text that denotes no decimal reads
/// as zero. The reference is released. A value that is no object is of the
/// wrong type.
pub fn value_cast_big_decimal<'a, 'o>(
    env: &mut JNIEnv<'a>,
    obj: BoxedValue<JObject<'o>>,
) -> (r: Result<BigDecimal, JdbcError>)
    ensures
        obj is Object ==> (r matches Err(e) ==> e.is_invocation_failure()),
        !(obj is Object) ==> r == mismatch::<JObject<'o>, BigDecimal>(ValueKind::Object, obj),
{
    match obj {
        BoxedValue::Object(o) => {
            let text = crate::util::to_string(env, &o);
            let released = delete_local_ref(env, o);
            match (text, released) {
                (Ok(text), Ok(_)) => Ok(decimal_or_zero(text.as_str())),
                (Ok(_), Err(e)) => Err(JdbcError::JniError(e)),
                (Err(e), _) => Err(e),
            }
        },
        other => Err(JdbcError::WrongType { expected: ValueKind::Object, found: other.kind() }),
    }
}

/// The stream adapter of a boxed stream object. The object is promoted to a
/// shared reference and nothing is read yet. A value that is no object is of
/// the wrong type.
pub fn value_cast_input_stream<'a, 'o>(
    env: &mut JNIEnv<'a>,
    obj: BoxedValue<JObject<'o>>,
    vm: Arc<JavaVM>,
) -> (r: Result<InputStream, JdbcError>)
    ensures
        r matches Ok(stream) ==> obj is Object && stream.runtime() == vm,
        obj is Object ==> (r matches Err(e) ==> e is JniError),
        !(obj is Object) ==> r == mismatch::<JObject<'o>, InputStream>(ValueKind::Object, obj),
{
    match obj {
        BoxedValue::Object(o) => {
            let shared = new_global_ref(env, &o);
            let released = delete_local_ref(env, o);
            match settle(shared, released) {
                Ok(inner) => Ok(InputStream::new(inner, vm)),
                Err(e) => Err(JdbcError::JniError(e)),
            }
        },
        other => Err(JdbcError::WrongType { expected: ValueKind::Object, found: other.kind() }),
    }
}

/// A managed byte array that holds a copy of `bytes`.
pub fn vec_to_bytes_array<'a>(env: &mut JNIEnv<'a>, bytes: &[u8]) -> (r: Result<
    JObject<'a>,
    jni::errors::Error,
>)
    requires
        bytes@.len() <= i32::MAX,
{
    byte_array_from_slice(env, bytes)
}

} // verus!
