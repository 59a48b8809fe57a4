//! Calls of managed methods, and what their results amount to.

use vstd::prelude::*;
use jni::objects::{GlobalRef, JObject};
use jni::JNIEnv;
use crate::errors::JdbcError;
use crate::method::{Arguments, MethodIdentity};
use crate::runtime::{delete_local_ref, new_global_ref};
use crate::util::cast::settle;
use crate::value::{BoxedValue, ValueKind};

verus! {

/// What a call that should return an `int` amounts to.
pub open spec fn int_of<O>(value: BoxedValue<O>) -> Result<i32, JdbcError> {
    match value {
        BoxedValue::Int(count) => Ok(count),
        _ => Err(JdbcError::ImpossibleError),
    }
}

/// What a call that should return a `boolean` amounts to: any byte but zero
/// is true.
pub open spec fn truth_of<O>(value: BoxedValue<O>) -> Result<bool, JdbcError> {
    match value {
        BoxedValue::Bool(flag) => Ok(flag > 0),
        _ => Err(JdbcError::ImpossibleError),
    }
}

/// Unboxes the result of a call that should return an `int`. Any other shape
/// is an impossible state.
pub fn int_result<O>(value: BoxedValue<O>) -> (r: Result<i32, JdbcError>)
    ensures
        r == int_of(value),
    opens_invariants none
    no_unwind
{
    match value {
        BoxedValue::Int(count) => Ok(count),
        _ => Err(JdbcError::ImpossibleError),
    }
}

/// Unboxes the result of a call that should return a `boolean`. Any other
/// shape is an impossible state.
pub fn bool_result<O>(value: BoxedValue<O>) -> (r: Result<bool, JdbcError>)
    ensures
        r == truth_of(value),
    opens_invariants none
    no_unwind
{
    match value {
        BoxedValue::Bool(flag) => Ok(flag > 0),
        _ => Err(JdbcError::ImpossibleError),
    }
}

/// Calls a method without arguments that returns an `int`. A method that
/// is declared to return anything else cannot succeed.
pub fn get_int<'a, 'o>(env: &mut JNIEnv<'a>, obj: &JObject<'o>, method: &MethodIdentity) -> (r:
    Result<i32, JdbcError>)
    ensures
        r matches Err(e) ==> e.is_invocation_failure(),
        method.result_kind() != ValueKind::Int ==> r is Err,
{
    match method.invoke(env, obj, Arguments::Zero) {
        Ok(value) => int_result(value),
        Err(e) => Err(e),
    }
}

/// Calls a method without arguments that returns a `boolean`. A method that
/// is declared to return anything else cannot succeed.
pub fn get_bool<'a, 'o>(env: &mut JNIEnv<'a>, obj: &JObject<'o>, method: &MethodIdentity) -> (r:
    Result<bool, JdbcError>)
    ensures
        r matches Err(e) ==> e.is_invocation_failure(),
        method.result_kind() != ValueKind::Bool ==> r is Err,
    opens_invariants none
    no_unwind
{
    match method.invoke(env, obj, Arguments::Zero) {
        Ok(value) => bool_result(value),
        Err(e) => Err(e),
    }
}

/// Promotes the object that a call returned to a shared reference and
/// releases the local one. A value that is no object is an impossible state.
pub fn share_object<'a, 'o>(env: &mut JNIEnv<'a>, value: BoxedValue<JObject<'o>>) -> (r: Result<
    GlobalRef,
    JdbcError,
>)
    ensures
        value is Object ==> (r matches Err(e) ==> e is JniError),
        !(value is Object) ==> r == Err::<GlobalRef, JdbcError>(JdbcError::ImpossibleError),
{
    match value {
        BoxedValue::Object(local) => {
            let shared = new_global_ref(env, &local);
            let released = delete_local_ref(env, local);
            match settle(shared, released) {
                Ok(shared) => Ok(shared),
                Err(e) => Err(JdbcError::JniError(e)),
            }
        },
        _ => Err(JdbcError::ImpossibleError),
    }
}

/// A value that may be absent, out of the outcome of a conversion.
pub open spec fn presence<T, E>(value: Result<T, E>) -> Result<Option<T>, E> {
    match value {
        Ok(v) => Ok(Some(v)),
        Err(e) => Err(e),
    }
}

/// Wraps a converted value as one that is present.
pub fn present<T, E>(value: Result<T, E>) -> (r: Result<Option<T>, E>)
    ensures
        r == presence(value),
{
    match value {
        Ok(v) => Ok(Some(v)),
        Err(e) => Err(e),
    }
}

/// What a column read amounts to: nothing where the driver says the value
/// was SQL NULL, the fetched value otherwise.
pub open spec fn non_null<T>(fetched: T, was_null: bool) -> Option<T> {
    if was_null {
        None
    } else {
        Some(fetched)
    }
}

/// Decides a column read once the fetched value and the driver's null flag
/// are known: SQL NULL reads as nothing, whatever was fetched.
pub fn absent_if_null<T>(fetched: T, was_null: bool) -> (r: Option<T>)
    ensures
        r == non_null(fetched, was_null),
        was_null ==> r is None,
{
    if was_null {
        None
    } else {
        Some(fetched)
    }
}

/// What a timestamp column amounts to as a calendar value. `millis` is what
/// was read, nothing for SQL NULL; `made` is the calendar value that a time
/// zone made of it. SQL NULL reads as nothing; an instant that the zone
/// cannot place is an impossible state.
pub open spec fn calendar_of<T>(millis: Option<i64>, made: Option<T>) -> Result<
    Option<T>,
    JdbcError,
> {
    match millis {
        None => Ok(None),
        Some(_) => match made {
            Some(t) => Ok(Some(t)),
            None => Err(JdbcError::ImpossibleError),
        },
    }
}

/// Decides a timestamp column once its milliseconds and the calendar value
/// made of them are known.
pub fn calendar_value<T>(millis: Option<i64>, made: Option<T>) -> (r: Result<Option<T>, JdbcError>)
    ensures
        r == calendar_of(millis, made),
{
    match millis {
        None => Ok(None),
        Some(_) => match made {
            Some(t) => Ok(Some(t)),
            None => Err(JdbcError::ImpossibleError),
        },
    }
}

} // verus!
