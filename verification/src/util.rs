//! Helpers over the managed runtime: releasing references, closing
//! resources, reading names.

use vstd::prelude::*;
use jni::objects::JObject;
use jni::JNIEnv;
use crate::errors::JdbcError;
use crate::method::{call_by_name, call_raw, Arguments};
use crate::runtime::{
    delete_local_ref, exception_describe, find_class, get_object_class, is_instance_of,
};
use crate::value::{BoxedValue, ValueKind};

pub mod call;
pub mod cast;

verus! {

/// Releases the reference that a boxed value carries. A primitive carries
/// none, and releasing it succeeds without asking the runtime.
pub fn delete_value<'a, 'o>(env: &mut JNIEnv<'a>, val: BoxedValue<JObject<'o>>) -> (r: Result<
    (),
    jni::errors::Error,
>)
    ensures
        !(val is Object) ==> r is Ok,
{
    match val {
        BoxedValue::Object(obj) => delete_local_ref(env, obj),
        _ => Ok(()),
    }
}

/// The text that the object's `toString` method returns.
pub fn to_string<'a, 'o>(env: &mut JNIEnv<'a>, obj: &JObject<'o>) -> (r: Result<String, JdbcError>)
    ensures
        r matches Err(e) ==> e.is_invocation_failure(),
{
    proof {
        reveal_strlit("()Ljava/lang/String;");
    }
    let text = call_by_name(
        env,
        obj,
        "toString",
        "()Ljava/lang/String;",
        ValueKind::Object,
        Arguments::Zero,
    )?;
    cast::value_cast_string(env, text)
}

/// Puts a failure that is not going to be surfaced on record: the runtime
/// prints the exception that is pending on this thread, if there is one, and
/// forgets it, so that the thread can go on calling.
pub fn note_failure<'a>(env: &mut JNIEnv<'a>)
    opens_invariants none
    no_unwind
{
    let _ = exception_describe(env);
}

/// What is to be done with an object whose wrapper is going away.
#[derive(Clone, Copy, Debug, PartialEq, Eq, Structural)]
pub enum Closing {
    /// The object is not closeable: it is left alone.
    Skip,
    /// The object is closeable: its `close` method is called.
    Close,
}

/// What the answer to "is this object closeable?" asks for: a failed probe
/// is the failure, an object that is not closeable is left alone, one that
/// is closeable is closed.
pub open spec fn closing_of<E>(probe: Result<bool, E>) -> Result<Closing, E> {
    match probe {
        Err(e) => Err(e),
        Ok(false) => Ok(Closing::Skip),
        Ok(true) => Ok(Closing::Close),
    }
}

/// Decides from the probe's answer whether an object is to be closed.
pub fn closing<E>(probe: Result<bool, E>) -> (r: Result<Closing, E>)
    ensures
        r == closing_of(probe),
    opens_invariants none
    no_unwind
{
    match probe {
        Err(e) => Err(e),
        Ok(false) => Ok(Closing::Skip),
        Ok(true) => Ok(Closing::Close),
    }
}

/// What a finalizer reports. `decision` is what the probe asked for, and
/// `closed` the outcome of `close`, where it was called. A failed probe is
/// the failure; otherwise the finalizer succeeds, whatever became of `close`.
pub open spec fn finalized<T, E, F>(
    decision: Result<Closing, E>,
    closed: Option<Result<T, F>>,
) -> Result<(), E> {
    match decision {
        Err(e) => Err(e),
        Ok(_) => Ok(()),
    }
}

/// Whether a finalizer has a failure to put on record: `close` was called
/// and failed.
pub open spec fn close_failed<T, F>(closed: Option<Result<T, F>>) -> bool {
    closed matches Some(Err(_))
}

/// Concludes a finalizer: what it reports, and whether a failure of `close`
/// is to be put on record. The failure itself goes no further.
pub fn conclude<T, E, F>(decision: Result<Closing, E>, closed: Option<Result<T, F>>) -> (r: (
    Result<(), E>,
    bool,
))
    ensures
        r.0 == finalized(decision, closed),
        r.1 == close_failed(closed),
    opens_invariants none
    no_unwind
{
    let noted = match closed {
        Some(Err(_)) => true,
        _ => false,
    };
    match decision {
        Err(e) => (Err(e), noted),
        Ok(_) => (Ok(()), noted),
    }
}

/// Closes the object if it is closeable, and does nothing if it is not:
/// `closing` decides from the probe's answer, and `conclude` says what
/// becomes of the outcome.
///
/// A failure of `close` itself is put on record and swallowed: this is the
/// finalizer of wrappers that are being dropped, and dropping does not fail.
/// What can fail is finding out whether the object is closeable.
pub fn auto_close<'a, 'o>(env: &mut JNIEnv<'a>, obj: &JObject<'o>) -> (r: Result<
    (),
    jni::errors::Error,
>)
    opens_invariants none
    no_unwind
{
    let class = match find_class(env, "java/lang/AutoCloseable") {
        Ok(class) => class,
        Err(e) => return Err(e),
    };
    let closeable = is_instance_of(env, obj, &class);
    let _ = delete_local_ref(env, class);
    let decision = closing(closeable);
    let closed = match decision {
        Ok(Closing::Close) => {
            proof {
                reveal_strlit("()V");
            }
            Some(call_raw(env, obj, "close", "()V", Arguments::Zero))
        },
        _ => None,
    };
    let (result, noted) = conclude(decision, closed);
    if noted {
        note_failure(env);
    }
    result
}

/// The name of the object's class, as `Class.getName` gives it.
pub fn get_class_name<'a, 'o>(env: &mut JNIEnv<'a>, obj: &JObject<'o>) -> (r: Result<
    String,
    JdbcError,
>)
    ensures
        r matches Err(e) ==> e.is_invocation_failure(),
{
    let class = match get_object_class(env, obj) {
        Ok(class) => class,
        Err(e) => return Err(JdbcError::JniError(e)),
    };
    proof {
        reveal_strlit("()Ljava/lang/String;");
    }
    let name = call_by_name(
        env,
        &class,
        "getName",
        "()Ljava/lang/String;",
        ValueKind::Object,
        Arguments::Zero,
    );
    let released = delete_local_ref(env, class);
    match (name, released) {
        (Ok(name), Ok(_)) => cast::value_cast_string(env, name),
        (Ok(name), Err(e)) => {
            let _ = delete_value(env, name);
            Err(JdbcError::JniError(e))
        },
        (Err(e), _) => Err(e),
    }
}

} // verus!
