//! The managed objects of the default connection pool.

use vstd::prelude::*;
use jni::objects::JObject;
use jni::JNIEnv;
use crate::method::{construct, Arguments};
use crate::runtime::delete_local_ref;
use crate::util::cast::settle;
use crate::value::BoxedValue;
use crate::wrapper::properties::Properties;

verus! {

/// A managed pool configuration. With it goes a ghost record of the settings
/// that it was made from.
pub struct HikariConfig<'a>(JObject<'a>, Ghost<Map<Seq<char>, Seq<char>>>);

impl<'a> HikariConfig<'a> {
    /// The managed configuration that this wraps.
    pub closed spec fn managed(&self) -> JObject<'a> {
        self.0
    }

    /// The settings that the configuration was made from.
    pub closed spec fn settings(&self) -> Map<Seq<char>, Seq<char>> {
        self.1@
    }

    /// A pool configuration made from a property set: the settings that
    /// were made through the property set are the settings of the
    /// configuration. The property set is consumed and its reference
    /// released.
    pub fn new(env: &mut JNIEnv<'a>, properties: Properties<'a>) -> (r: Result<
        Self,
        jni::errors::Error,
    >)
        ensures
            r matches Ok(config) ==> config.settings() == properties.settings(),
    {
        let settings = Ghost(properties.settings());
        let properties = properties.into_object();
        proof {
            reveal_strlit("(Ljava/util/Properties;)V");
        }
        let config = construct(
            env,
            "com/zaxxer/hikari/HikariConfig",
            "(Ljava/util/Properties;)V",
            Arguments::One(BoxedValue::Object(&properties)),
        );
        let released = delete_local_ref(env, properties);
        match settle(config, released) {
            Ok(config) => Ok(HikariConfig(config, settings)),
            Err(e) => Err(e),
        }
    }

    /// The managed object.
    pub fn into_object(self) -> (r: JObject<'a>)
        ensures
            r == self.managed(),
    {
        self.0
    }
}

/// A managed pooled connection source. With it goes a ghost record of the
/// settings that it was made from.
pub struct HikariDataSource<'a>(JObject<'a>, Ghost<Map<Seq<char>, Seq<char>>>);

impl<'a> HikariDataSource<'a> {
    /// The managed connection source that this wraps.
    pub closed spec fn managed(&self) -> JObject<'a> {
        self.0
    }

    /// The settings that the connection source was made from.
    pub closed spec fn settings(&self) -> Map<Seq<char>, Seq<char>> {
        self.1@
    }

    /// A pooled connection source made from a configuration, with the
    /// settings of that configuration. The configuration is consumed and its
    /// reference released.
    pub fn new(env: &mut JNIEnv<'a>, config: HikariConfig<'a>) -> (r: Result<
        Self,
        jni::errors::Error,
    >)
        ensures
            r matches Ok(source) ==> source.settings() == config.settings(),
    {
        let settings = Ghost(config.settings());
        let config = config.into_object();
        proof {
            reveal_strlit("(Lcom/zaxxer/hikari/HikariConfig;)V");
        }
        let datasource = construct(
            env,
            "com/zaxxer/hikari/HikariDataSource",
            "(Lcom/zaxxer/hikari/HikariConfig;)V",
            Arguments::One(BoxedValue::Object(&config)),
        );
        let released = delete_local_ref(env, config);
        match settle(datasource, released) {
            Ok(datasource) => Ok(HikariDataSource(datasource, settings)),
            Err(e) => Err(e),
        }
    }

    /// The managed object.
    pub fn into_object(self) -> (r: JObject<'a>)
        ensures
            r == self.managed(),
    {
        self.0
    }
}

} // verus!
