//! The library's error types.

use vstd::prelude::*;
use vstd::std_specs::convert::FromSpecImpl;
use crate::value::ValueKind;

verus! {

/// A failed call through the bridge.
#[derive(Debug)]
pub enum JdbcError {
    /// The managed runtime reported the failure.
    JniError(jni::errors::Error),
    /// A call returned a value of a shape that its signature rules out.
    ImpossibleError,
    /// A boxed value was asked for as one type and carries another.
    WrongType { expected: ValueKind, found: ValueKind },
}

impl From<jni::errors::Error> for JdbcError {
    fn from(err: jni::errors::Error) -> (r: Self) {
        JdbcError::JniError(err)
    }
}

impl FromSpecImpl<jni::errors::Error> for JdbcError {
    open spec fn obeys_from_spec() -> bool {
        true
    }

    open spec fn from_spec(err: jni::errors::Error) -> Self {
        JdbcError::JniError(err)
    }
}

impl JdbcError {
    /// Whether this is the failure of an invocation: the runtime reported
    /// one, or what it returned has another shape than was declared.
    pub open spec fn is_invocation_failure(self) -> bool {
        self is JniError || self is ImpossibleError
    }

    /// The text that describes this error.
    pub fn message(&self) -> (r: String)
        ensures
            self is ImpossibleError ==> r@ == "Impossible Error."@,
            self is WrongType ==> r@ == "Wrong type."@,
    {
        match self {
            JdbcError::JniError(err) => err.to_string(),
            JdbcError::ImpossibleError => "Impossible Error.".to_owned(),
            JdbcError::WrongType { .. } => "Wrong type.".to_owned(),
        }
    }
}

/// A failed attempt to start the runtime or to build a data source.
#[derive(Debug)]
pub enum InitError {
    /// A startup option was malformed.
    JvmError(jni::JvmError),
    /// The runtime did not start.
    StartJvmError(jni::errors::StartJvmError),
    /// The managed runtime reported the failure.
    JniError(jni::errors::Error),
    /// The custom pool kind was chosen and no factory was given.
    NoFactory,
    /// What the pool factory made is no connection source.
    IsNotDatasource,
}

impl From<jni::JvmError> for InitError {
    fn from(err: jni::JvmError) -> (r: Self) {
        InitError::JvmError(err)
    }
}

impl FromSpecImpl<jni::JvmError> for InitError {
    open spec fn obeys_from_spec() -> bool {
        true
    }

    open spec fn from_spec(err: jni::JvmError) -> Self {
        InitError::JvmError(err)
    }
}

impl From<jni::errors::StartJvmError> for InitError {
    fn from(err: jni::errors::StartJvmError) -> (r: Self) {
        InitError::StartJvmError(err)
    }
}

impl FromSpecImpl<jni::errors::StartJvmError> for InitError {
    open spec fn obeys_from_spec() -> bool {
        true
    }

    open spec fn from_spec(err: jni::errors::StartJvmError) -> Self {
        InitError::StartJvmError(err)
    }
}

impl From<jni::errors::Error> for InitError {
    fn from(err: jni::errors::Error) -> (r: Self) {
        InitError::JniError(err)
    }
}

impl FromSpecImpl<jni::errors::Error> for InitError {
    open spec fn obeys_from_spec() -> bool {
        true
    }

    open spec fn from_spec(err: jni::errors::Error) -> Self {
        InitError::JniError(err)
    }
}

impl InitError {
    /// The text that describes this error.
    pub fn message(&self) -> (r: String)
        ensures
            self is NoFactory ==> r@ == "No pool factory."@,
            self is IsNotDatasource ==> r@ == "Not a data source."@,
    {
        match self {
            InitError::JvmError(err) => err.to_string(),
            InitError::StartJvmError(err) => err.to_string(),
            InitError::JniError(err) => err.to_string(),
            InitError::NoFactory => "No pool factory.".to_owned(),
            InitError::IsNotDatasource => "Not a data source.".to_owned(),
        }
    }
}

} // verus!
