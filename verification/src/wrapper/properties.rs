//! A managed `java.util.Properties` object.

use vstd::prelude::*;
use jni::objects::JObject;
use jni::JNIEnv;
use crate::method::{call_raw, construct, Arguments, MethodIdentity};
use crate::runtime::{delete_local_ref, find_class, new_string};
use crate::util::cast::settle;
use crate::util::delete_value;
use crate::value::{BoxedValue, ValueKind};

verus! {

/// A property set on the managed side, filled key by key.
///
/// For the sake of its contracts the wrapper keeps a record of the settings
/// that were made through it. The record is ghost: nothing of it exists when
/// the library runs.
pub struct Properties<'a> {
    inner: JObject<'a>,
    set_prop: MethodIdentity,
    made: Ghost<Map<Seq<char>, Seq<char>>>,
}

impl<'a> Properties<'a> {
    #[verifier::type_invariant]
    spec fn bound(self) -> bool {
        self.set_prop.binds(
            "setProperty",
            "(Ljava/lang/String;Ljava/lang/String;)Ljava/lang/Object;",
            ValueKind::Object,
        )
    }

    /// The managed property set that this wraps.
    pub closed spec fn managed(&self) -> JObject<'a> {
        self.inner
    }

    /// The settings that were made through this wrapper: each key with the
    /// value it was set to last.
    pub closed spec fn settings(&self) -> Map<Seq<char>, Seq<char>> {
        self.made@
    }

    /// An empty managed property set: no setting has been made through it.
    /// The class reference that serves to resolve `setProperty` is released
    /// before this returns.
    pub fn new(env: &mut JNIEnv<'a>) -> (r: Result<Self, jni::errors::Error>)
        ensures
            r matches Ok(properties) ==> properties.settings() == Map::<
                Seq<char>,
                Seq<char>,
            >::empty(),
    {
        let class = find_class(env, "java/util/Properties")?;
        proof {
            reveal_strlit("(Ljava/lang/String;Ljava/lang/String;)Ljava/lang/Object;");
            reveal_strlit("()V");
        }
        let set_prop = MethodIdentity::resolve(
            env,
            &class,
            "setProperty",
            "(Ljava/lang/String;Ljava/lang/String;)Ljava/lang/Object;",
            ValueKind::Object,
        );
        let released = delete_local_ref(env, class);
        let set_prop = settle(set_prop, released)?;
        let inner = construct(env, "java/util/Properties", "()V", Arguments::Zero)?;
        Ok(Properties { inner, set_prop, made: Ghost(Map::empty()) })
    }

    /// Sets one property. The two managed strings that carry key and value,
    /// and what `setProperty` returns, are released before this returns.
    ///
    /// Where the step succeeds the setting is on record; where any part of
    /// it fails the record stays as it was.
    pub fn set_property(&mut self, env: &mut JNIEnv<'a>, key: &str, value: &str) -> (r: Result<
        (),
        jni::errors::Error,
    >)
        ensures
            final(self).managed() == old(self).managed(),
            r is Ok ==> final(self).settings() == old(self).settings().insert(key@, value@),
            r is Err ==> final(self).settings() == old(self).settings(),
    {
        let key_ref = new_string(env, key)?;
        let value_ref = match new_string(env, value) {
            Ok(value_ref) => value_ref,
            Err(e) => {
                let _ = delete_local_ref(env, key_ref);
                return Err(e);
            },
        };
        let previous = call_raw(
            env,
            &self.inner,
            self.set_prop.name(),
            self.set_prop.signature(),
            Arguments::Two(BoxedValue::Object(&key_ref), BoxedValue::Object(&value_ref)),
        );
        let released_key = delete_local_ref(env, key_ref);
        let released_value = delete_local_ref(env, value_ref);
        let previous = settle(settle(previous, released_key), released_value)?;
        match delete_value(env, previous) {
            Ok(_) => {
                proof {
                    use_type_invariant(&*self);
                    self.made@ = self.made@.insert(key@, value@);
                }
                Ok(())
            },
            Err(e) => Err(e),
        }
    }

    /// The managed object.
    pub fn into_object(self) -> (r: JObject<'a>)
        ensures
            r == self.managed(),
    {
        self.inner
    }
}

} // verus!
