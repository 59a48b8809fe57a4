//! Resolved method identities, and the calls that go through them.
//!
//! A wrapper object resolves each managed method it will call once, when it
//! is built, and keeps the identity for its whole life. A method that the
//! class does not have is so found out at construction, not at the first
//! call. With the identity goes the kind of value that the method is
//! declared to return; every call holds what comes back to that kind, so
//! that the conversions that follow a call never meet a value of another
//! shape.

use vstd::prelude::*;
use vstd::string::StrSliceExecFns;
use jni::objects::{JMethodID, JObject};
use jni::JNIEnv;
use crate::errors::JdbcError;
use crate::runtime::{
    boxed_value, call_method, get_method_id, new_object, plain_signature, raw_value,
};
use crate::value::{BoxedValue, ValueKind};

verus! {

/// A boxed value that is handed to a managed method.
pub type Argument<'r, 'p> = BoxedValue<&'r JObject<'p>>;

/// The arguments of one call. No method that the library calls takes more
/// than two.
pub enum Arguments<'r, 'p> {
    Zero,
    One(Argument<'r, 'p>),
    Two(Argument<'r, 'p>, Argument<'r, 'p>),
}

/// Whether a signature is plain: the test that a caller makes before it
/// hands a signature of its own to a call.
pub fn is_plain(signature: &str) -> (b: bool)
    ensures
        b == plain_signature(signature@),
{
    let len = signature.unicode_len();
    let mut i: usize = 1;
    while i < len
        invariant
            1 <= i,
            len == signature@.len(),
            forall|k: int| 0 < k < i && k < len ==> signature@[k] != '(',
        decreases len - i,
    {
        if signature.get_char(i) == '(' {
            return false;
        }
        i = i + 1;
    }
    true
}

/// Calls the instance method of `obj` with that name and plain signature and
/// boxes what comes back, whatever its shape.
pub fn call_raw<'a, 'o, 'r, 'p>(
    env: &mut JNIEnv<'a>,
    obj: &JObject<'o>,
    name: &str,
    signature: &str,
    args: Arguments<'r, 'p>,
) -> (r: Result<BoxedValue<JObject<'a>>, jni::errors::Error>)
    requires
        plain_signature(signature@),
    opens_invariants none
    no_unwind
{
    let returned = match args {
        Arguments::Zero => call_method(env, obj, name, signature, &[]),
        Arguments::One(first) => call_method(env, obj, name, signature, &[raw_value(&first)]),
        Arguments::Two(first, second) => call_method(
            env,
            obj,
            name,
            signature,
            &[raw_value(&first), raw_value(&second)],
        ),
    };
    match returned {
        Ok(value) => Ok(boxed_value(value)),
        Err(e) => Err(e),
    }
}

/// Constructs an object of the named class with the constructor of that
/// plain signature.
pub fn construct<'a, 'r, 'p>(
    env: &mut JNIEnv<'a>,
    class: &str,
    signature: &str,
    args: Arguments<'r, 'p>,
) -> (r: Result<JObject<'a>, jni::errors::Error>)
    requires
        plain_signature(signature@),
{
    match args {
        Arguments::Zero => new_object(env, class, signature, &[]),
        Arguments::One(first) => new_object(env, class, signature, &[raw_value(&first)]),
        Arguments::Two(first, second) => new_object(
            env,
            class,
            signature,
            &[raw_value(&first), raw_value(&second)],
        ),
    }
}

/// What a returned value amounts to, given the kind that was declared for
/// it: the value itself where its tag is of that kind, an impossible state
/// otherwise.
pub open spec fn shaped<O>(value: BoxedValue<O>, declared: ValueKind) -> Result<
    BoxedValue<O>,
    JdbcError,
> {
    if value.tag() == declared {
        Ok(value)
    } else {
        Err(JdbcError::ImpossibleError)
    }
}

/// Holds a returned value to the kind that was declared for it.
pub fn check_shape<O>(value: BoxedValue<O>, declared: ValueKind) -> (r: Result<
    BoxedValue<O>,
    JdbcError,
>)
    ensures
        r == shaped(value, declared),
    opens_invariants none
    no_unwind
{
    if value.kind() == declared {
        Ok(value)
    } else {
        Err(JdbcError::ImpossibleError)
    }
}

/// Calls the instance method of `obj` with that name and plain signature,
/// and holds what comes back to the declared kind. This is the call of a
/// method that is needed once and so not worth an identity.
pub fn call_by_name<'a, 'o, 'r, 'p>(
    env: &mut JNIEnv<'a>,
    obj: &JObject<'o>,
    name: &str,
    signature: &str,
    yields: ValueKind,
    args: Arguments<'r, 'p>,
) -> (r: Result<BoxedValue<JObject<'a>>, JdbcError>)
    requires
        plain_signature(signature@),
    ensures
        r matches Ok(value) ==> value.tag() == yields,
        r matches Err(e) ==> e.is_invocation_failure(),
    opens_invariants none
    no_unwind
{
    match call_raw(env, obj, name, signature, args) {
        Ok(value) => check_shape(value, yields),
        Err(e) => Err(JdbcError::JniError(e)),
    }
}

/// A method of a managed class, resolved by name and plain signature,
/// together with the kind of value it is declared to return.
pub struct MethodIdentity {
    id: JMethodID,
    name: &'static str,
    signature: &'static str,
    yields: ValueKind,
}

impl MethodIdentity {
    #[verifier::type_invariant]
    spec fn plain(self) -> bool {
        plain_signature(self.signature@)
    }

    /// The name the method was resolved by.
    pub closed spec fn method_name(&self) -> Seq<char> {
        self.name@
    }

    /// The signature the method was resolved by.
    pub closed spec fn method_signature(&self) -> Seq<char> {
        self.signature@
    }

    /// The kind of value the method is declared to return.
    pub closed spec fn result_kind(&self) -> ValueKind {
        self.yields
    }

    /// The runtime's handle of the method, as resolution gave it.
    pub closed spec fn handle(&self) -> JMethodID {
        self.id
    }

    /// Whether this identity stands for the method of that name and
    /// signature, declared to return that kind.
    pub open spec fn binds(&self, name: &str, signature: &str, yields: ValueKind) -> bool {
        &&& self.method_name() == name@
        &&& self.method_signature() == signature@
        &&& self.result_kind() == yields
    }

    /// Resolves the instance method of `class` with that name and plain
    /// signature. Whether the class has such a method is for the runtime to
    /// say; an identity that comes back stands for what was asked.
    pub fn resolve<'a, 'c>(
        env: &mut JNIEnv<'a>,
        class: &JObject<'c>,
        name: &'static str,
        signature: &'static str,
        yields: ValueKind,
    ) -> (r: Result<MethodIdentity, jni::errors::Error>)
        requires
            plain_signature(signature@),
        ensures
            r matches Ok(method) ==> method.binds(name, signature, yields),
    {
        match get_method_id(env, class, name, signature) {
            Ok(id) => Ok(MethodIdentity { id, name, signature, yields }),
            Err(e) => Err(e),
        }
    }

    /// Resolves two instance methods of `class`, the second only where the
    /// first was found: after a failure nothing more is asked of the
    /// runtime. In a pair that comes back each identity stands for what was
    /// asked.
    pub fn resolve_both<'a, 'c>(
        env: &mut JNIEnv<'a>,
        class: &JObject<'c>,
        first: (&'static str, &'static str, ValueKind),
        second: (&'static str, &'static str, ValueKind),
    ) -> (r: Result<(MethodIdentity, MethodIdentity), jni::errors::Error>)
        requires
            plain_signature(first.1@),
            plain_signature(second.1@),
        ensures
            r matches Ok(found) ==> {
                &&& found.0.binds(first.0, first.1, first.2)
                &&& found.1.binds(second.0, second.1, second.2)
            },
    {
        let one = MethodIdentity::resolve(env, class, first.0, first.1, first.2)?;
        let other = MethodIdentity::resolve(env, class, second.0, second.1, second.2)?;
        Ok((one, other))
    }

    /// The name the method was resolved by.
    pub fn name(&self) -> (r: &'static str)
        ensures
            r@ == self.method_name(),
    {
        self.name
    }

    /// The signature the method was resolved by. It is plain.
    pub fn signature(&self) -> (r: &'static str)
        ensures
            r@ == self.method_signature(),
            plain_signature(r@),
    {
        proof {
            use_type_invariant(self);
        }
        self.signature
    }

    /// The kind of value the method is declared to return.
    pub fn declared_kind(&self) -> (r: ValueKind)
        ensures
            r == self.result_kind(),
    {
        self.yields
    }

    /// The runtime's handle of the method, as resolution gave it.
    pub fn id(&self) -> (r: JMethodID)
        ensures
            r == self.handle(),
    {
        self.id
    }

    /// Calls this method on `obj`. The call goes by name and signature, which
    /// the runtime checks against the arguments before it dispatches.
    ///
    /// A value that comes back is of the declared kind: one of another shape
    /// is turned into an impossible state here, whatever the runtime did. The
    /// only other failures are those that the runtime reports.
    pub fn invoke<'a, 'o, 'r, 'p>(
        &self,
        env: &mut JNIEnv<'a>,
        obj: &JObject<'o>,
        args: Arguments<'r, 'p>,
    ) -> (r: Result<BoxedValue<JObject<'a>>, JdbcError>)
        ensures
            r matches Ok(value) ==> value.tag() == self.result_kind(),
            r matches Err(e) ==> e.is_invocation_failure(),
        opens_invariants none
        no_unwind
    {
        proof {
            use_type_invariant(self);
        }
        call_by_name(env, obj, self.name, self.signature, self.yields, args)
    }
}

} // verus!
