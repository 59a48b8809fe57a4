//! The boundary to the embedded managed runtime.
//!
//! Everything the library asks of the runtime goes through the functions of
//! this module. Each one makes exactly one call into the `jni` crate, or
//! turns one value of the library into the value of that crate which stands
//! for the same; Verus takes its contract on trust. What comes back from a
//! call depends on the state of the runtime, so none of them promises
//! anything about its result: the logic that decides on a result lives in
//! verified functions that take the result as an argument.
//!
//! Failure comes back as a value. The functions that serve while a wrapper
//! is dropped are therefore declared not to unwind.

use vstd::prelude::*;
use crate::value::BoxedValue;
use crate::builder::JNIVersion;
use jni::objects::{GlobalRef, JByteArray, JClass, JMethodID, JObject, JString, JValueGen};
use jni::sys::{jdouble, jfloat};
use jni::errors::StartJvmError;
use jni::{AttachGuard, InitArgs, InitArgsBuilder, JNIEnv, JavaVM, JvmError};

verus! {

#[verifier::external_type_specification]
#[verifier::external_body]
pub struct ExJavaVM(jni::JavaVM);

#[verifier::external_type_specification]
#[verifier::external_body]
pub struct ExAttachGuard<'a>(jni::AttachGuard<'a>);

#[verifier::external_type_specification]
#[verifier::external_body]
pub struct ExJNIEnv<'a>(jni::JNIEnv<'a>);

#[verifier::external_type_specification]
#[verifier::external_body]
pub struct ExJObject<'a>(jni::objects::JObject<'a>);

#[verifier::external_type_specification]
#[verifier::external_body]
pub struct ExRawObject(jni::sys::_jobject);

#[verifier::external_type_specification]
#[verifier::external_body]
pub struct ExGlobalRef(jni::objects::GlobalRef);

#[verifier::external_type_specification]
#[verifier::external_body]
pub struct ExJMethodID(jni::objects::JMethodID);

#[verifier::external_type_specification]
#[verifier::external_body]
#[verifier::reject_recursive_types(O)]
pub struct ExJValueGen<O>(jni::objects::JValueGen<O>);

#[verifier::external_type_specification]
#[verifier::external_body]
pub struct ExJniError(jni::errors::Error);

#[verifier::external_type_specification]
#[verifier::external_body]
pub struct ExStartJvmError(jni::errors::StartJvmError);

#[verifier::external_type_specification]
#[verifier::external_body]
pub struct ExJvmError(jni::JvmError);

#[verifier::external_type_specification]
#[verifier::external_body]
pub struct ExInitArgs<'a>(jni::InitArgs<'a>);

#[verifier::external_type_specification]
#[verifier::external_body]
pub struct ExInitArgsBuilder<'a>(jni::InitArgsBuilder<'a>);

/// `JavaVM::attach_current_thread`: attaches the calling thread, or finds it
/// attached already. Nothing is claimed of the outcome.
#[verifier::external_body]
pub(crate) fn attach<'v>(vm: &'v JavaVM) -> (r: Result<AttachGuard<'v>, jni::errors::Error>)
    opens_invariants none
    no_unwind
{
    vm.attach_current_thread()
}

/// `DerefMut::deref_mut` of `AttachGuard`: the environment that the guard
/// keeps attached.
#[verifier::external_body]
pub(crate) fn env_of<'g, 'a>(guard: &'g mut AttachGuard<'a>) -> (r: &'g mut JNIEnv<'a>)
    opens_invariants none
    no_unwind
{
    &mut *guard
}

/// `JNIEnv::find_class`: a local reference to the class of that name.
/// Nothing is claimed of the outcome.
#[verifier::external_body]
pub(crate) fn find_class<'a>(env: &mut JNIEnv<'a>, name: &str) -> (r: Result<
    JObject<'a>,
    jni::errors::Error,
>)
    opens_invariants none
    no_unwind
{
    env.find_class(name).map(JObject::from)
}

/// `JNIEnv::get_method_id`: the identity of the instance method of `class`
/// with that name and signature. Nothing is claimed of the outcome.
#[verifier::external_body]
pub(crate) fn get_method_id<'a, 'c>(
    env: &mut JNIEnv<'a>,
    class: &JObject<'c>,
    name: &str,
    signature: &str,
) -> (r: Result<JMethodID, jni::errors::Error>) {
    env.get_method_id(<&JClass>::from(class), name, signature)
}

/// The `jni` value that a boxed argument stands for, variant by variant.
#[verifier::external_body]
pub(crate) fn raw_value<'r, 'p>(value: &BoxedValue<&'r JObject<'p>>) -> (r: JValueGen<
    &'r JObject<'p>,
>)
    opens_invariants none
    no_unwind
{
    match value {
        BoxedValue::Object(o) => JValueGen::Object(*o),
        BoxedValue::Byte(v) => JValueGen::Byte(*v),
        BoxedValue::Char(v) => JValueGen::Char(*v),
        BoxedValue::Short(v) => JValueGen::Short(*v),
        BoxedValue::Int(v) => JValueGen::Int(*v),
        BoxedValue::Long(v) => JValueGen::Long(*v),
        BoxedValue::Bool(v) => JValueGen::Bool(*v),
        BoxedValue::Float(v) => JValueGen::Float(jfloat::from_bits(*v)),
        BoxedValue::Double(v) => JValueGen::Double(jdouble::from_bits(*v)),
        BoxedValue::Void => JValueGen::Void,
    }
}

/// The boxed value that a `jni` value stands for, variant by variant.
#[verifier::external_body]
pub(crate) fn boxed_value<'a>(value: JValueGen<JObject<'a>>) -> (r: BoxedValue<JObject<'a>>)
    opens_invariants none
    no_unwind
{
    match value {
        JValueGen::Object(o) => BoxedValue::Object(o),
        JValueGen::Byte(v) => BoxedValue::Byte(v),
        JValueGen::Char(v) => BoxedValue::Char(v),
        JValueGen::Short(v) => BoxedValue::Short(v),
        JValueGen::Int(v) => BoxedValue::Int(v),
        JValueGen::Long(v) => BoxedValue::Long(v),
        JValueGen::Bool(v) => BoxedValue::Bool(v),
        JValueGen::Float(v) => BoxedValue::Float(v.to_bits()),
        JValueGen::Double(v) => BoxedValue::Double(v.to_bits()),
        JValueGen::Void => BoxedValue::Void,
    }
}

/// Whether a method signature opens a parenthesis only once, at its start.
/// Such a signature nests no method signature among its parameters.
pub open spec fn plain_signature(signature: Seq<char>) -> bool {
    forall|i: int| 0 < i < signature.len() ==> signature[i] != '('
}

/// `JNIEnv::call_method`: calls the instance method of `obj` with that name
/// and signature. The crate takes a parameter that is itself a method
/// signature for unreachable and panics on it; a plain signature has none.
/// Nothing is claimed of the outcome.
#[verifier::external_body]
pub(crate) fn call_method<'a, 'o, 'r, 'p, const N: usize>(
    env: &mut JNIEnv<'a>,
    obj: &JObject<'o>,
    name: &str,
    signature: &str,
    args: &[JValueGen<&'r JObject<'p>>; N],
) -> (r: Result<JValueGen<JObject<'a>>, jni::errors::Error>)
    requires
        plain_signature(signature@),
    opens_invariants none
    no_unwind
{
    env.call_method(obj, name, signature, args)
}

/// `JNIEnv::new_object`: constructs an object of the named class with the
/// constructor of that signature. As for a call, the signature must be
/// plain. Nothing is claimed of the outcome.
#[verifier::external_body]
pub(crate) fn new_object<'a, 'r, 'p, const N: usize>(
    env: &mut JNIEnv<'a>,
    class: &str,
    signature: &str,
    args: &[JValueGen<&'r JObject<'p>>; N],
) -> (r: Result<JObject<'a>, jni::errors::Error>)
    requires
        plain_signature(signature@),
{
    env.new_object(class, signature, args)
}

/// `JNIEnv::new_string`: a managed string with the content of `text`.
/// Nothing is claimed of the outcome.
#[verifier::external_body]
pub(crate) fn new_string<'a>(env: &mut JNIEnv<'a>, text: &str) -> (r: Result<
    JObject<'a>,
    jni::errors::Error,
>) {
    env.new_string(text).map(JObject::from)
}

/// `JNIEnv::get_string`: the content of a managed string, decoded. Fails when
/// `obj` is null or no string. Nothing is claimed of the outcome.
#[verifier::external_body]
pub(crate) fn get_string<'a, 'o>(env: &mut JNIEnv<'a>, obj: &JObject<'o>) -> (r:
    Result<String, jni::errors::Error>) {
    env.get_string(<&JString>::from(obj)).map(String::from)
}

/// `JNIEnv::delete_local_ref`: releases a local reference.
#[verifier::external_body]
pub(crate) fn delete_local_ref<'a, 'o>(env: &mut JNIEnv<'a>, obj: JObject<'o>) -> (r:
    Result<(), jni::errors::Error>)
    opens_invariants none
    no_unwind
{
    env.delete_local_ref(obj)
}

/// `JNIEnv::new_global_ref`: a reference to the same object that outlives the
/// calling scope. Nothing is claimed of the outcome.
#[verifier::external_body]
pub(crate) fn new_global_ref<'a, 'o>(env: &mut JNIEnv<'a>, obj: &JObject<'o>) -> (r:
    Result<GlobalRef, jni::errors::Error>) {
    env.new_global_ref(obj)
}

/// `JNIEnv::is_instance_of`: whether `obj` can be cast to `class`. Nothing is
/// claimed of the outcome.
#[verifier::external_body]
pub(crate) fn is_instance_of<'a, 'o, 'c>(
    env: &mut JNIEnv<'a>,
    obj: &JObject<'o>,
    class: &JObject<'c>,
) -> (r: Result<bool, jni::errors::Error>)
    opens_invariants none
    no_unwind
{
    env.is_instance_of(obj, <&JClass>::from(class))
}

/// `JNIEnv::get_object_class`: a local reference to the class of `obj`.
/// Nothing is claimed of the outcome.
#[verifier::external_body]
pub(crate) fn get_object_class<'a, 'o>(env: &mut JNIEnv<'a>, obj: &JObject<'o>) -> (r:
    Result<JObject<'a>, jni::errors::Error>) {
    env.get_object_class(obj).map(JObject::from)
}

/// `JNIEnv::exception_describe`: has the runtime print the exception that is
/// pending on this thread, if there is one, and forget it.
#[verifier::external_body]
pub(crate) fn exception_describe<'a>(env: &mut JNIEnv<'a>) -> (r: Result<(), jni::errors::Error>)
    opens_invariants none
    no_unwind
{
    env.exception_describe()
}

/// `JNIEnv::byte_array_from_slice`: a managed byte array holding a copy of
/// `bytes`. The crate narrows the length to 32 bits, so longer input is left
/// out. Nothing is claimed of the outcome.
#[verifier::external_body]
pub(crate) fn byte_array_from_slice<'a>(env: &mut JNIEnv<'a>, bytes: &[u8]) -> (r: Result<
    JObject<'a>,
    jni::errors::Error,
>)
    requires
        bytes@.len() <= i32::MAX,
{
    env.byte_array_from_slice(bytes).map(JObject::from)
}

/// `JNIEnv::convert_byte_array`: a copy of the elements of a managed byte
/// array. Nothing is claimed of the outcome.
#[verifier::external_body]
pub(crate) fn convert_byte_array<'a, 'o>(env: &mut JNIEnv<'a>, array: &JObject<'o>) -> (r:
    Result<Vec<u8>, jni::errors::Error>) {
    env.convert_byte_array(<&JByteArray>::from(array))
}

/// The object that a shared reference points to: what `GlobalRef::as_obj`
/// hands out for it. It is part of the reference and so a function of the
/// reference alone.
pub uninterp spec fn referent(global: GlobalRef) -> JObject<'static>;

/// `GlobalRef::as_obj`: the object that a shared reference points to.
#[verifier::external_body]
pub(crate) fn global_obj<'g>(global: &'g GlobalRef) -> (r: &'g JObject<'static>)
    ensures
        *r == referent(*global),
    opens_invariants none
    no_unwind
{
    global.as_obj()
}

/// `Clone::clone` of `GlobalRef`: one more owner of the same shared reference.
#[verifier::external_body]
pub(crate) fn share_global(global: &GlobalRef) -> (r: GlobalRef) {
    global.clone()
}

/// Whether startup arguments that are being built hold a deferred error: an
/// option was refused, and building them will report it.
pub uninterp spec fn refused(builder: InitArgsBuilder<'_>) -> bool;

/// Whether an option holds a NUL character before its end. Such an option
/// cannot be handed to the runtime.
pub open spec fn interior_nul(option: Seq<char>) -> bool {
    exists|i: int| 0 <= i < option.len() - 1 && #[trigger] option[i] == '\0'
}

/// `InitArgsBuilder::new`: startup arguments with no option set and no error
/// deferred.
#[verifier::external_body]
pub(crate) fn args_builder<'a>() -> (r: InitArgsBuilder<'a>)
    ensures
        !refused(r),
{
    InitArgsBuilder::new()
}

/// `InitArgsBuilder::version`: the same arguments, asking for that version of
/// the native interface. A deferred error stays deferred.
#[verifier::external_body]
pub(crate) fn with_version<'a>(builder: InitArgsBuilder<'a>, version: JNIVersion) -> (r:
    InitArgsBuilder<'a>)
    ensures
        refused(r) == refused(builder),
{
    builder.version(match version {
        JNIVersion::V1 => jni::JNIVersion::V1,
        JNIVersion::V2 => jni::JNIVersion::V2,
        JNIVersion::V4 => jni::JNIVersion::V4,
        JNIVersion::V6 => jni::JNIVersion::V6,
        JNIVersion::V8 => jni::JNIVersion::V8,
        JNIVersion::Invalid(code) => jni::JNIVersion::Invalid(code),
    })
}

/// `InitArgsBuilder::option`: the same arguments with one more startup
/// option. An option with a NUL character before its end is refused, and the
/// error deferred; an error that is deferred already stays so. What else the
/// platform refuses is not claimed.
#[verifier::external_body]
pub(crate) fn with_option<'a>(builder: InitArgsBuilder<'a>, option: &str) -> (r:
    InitArgsBuilder<'a>)
    ensures
        refused(builder) || interior_nul(option@) ==> refused(r),
{
    builder.option(option.to_owned())
}

/// `InitArgsBuilder::build`: the finished startup arguments, or the error
/// that was deferred, if one was.
#[verifier::external_body]
pub(crate) fn finish_args<'a>(builder: InitArgsBuilder<'a>) -> (r: Result<
    InitArgs<'a>,
    JvmError,
>)
    ensures
        r is Err <==> refused(builder),
{
    builder.build()
}

/// `JavaVM::new`: starts the runtime in this process. Nothing is claimed of
/// the outcome; it fails where the process holds a runtime already.
#[verifier::external_body]
pub(crate) fn launch(args: InitArgs) -> (r: Result<JavaVM, StartJvmError>) {
    JavaVM::new(args)
}

} // verus!
