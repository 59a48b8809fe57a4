//! The pooled connection source.

use vstd::prelude::*;
use std::sync::Arc;
use jni::objects::GlobalRef;
use jni::JavaVM;
use crate::errors::JdbcError;
use crate::method::{Arguments, MethodIdentity};
use crate::runtime::{attach, delete_local_ref, env_of, find_class, global_obj};
use crate::util::call::share_object;
use crate::util::cast::settle;
use crate::value::ValueKind;
use crate::wrapper::sql::connection::Connection;

verus! {

/// A connection source backed by a pool on the managed side. Every
/// connection it hands out shares its runtime handle.
pub struct DataSource {
    vm: Arc<JavaVM>,
    inner: GlobalRef,
    get_conn: MethodIdentity,
}

impl DataSource {
    #[verifier::type_invariant]
    spec fn bound(self) -> bool {
        self.get_conn.binds("getConnection", "()Ljava/sql/Connection;", ValueKind::Object)
    }

    /// The managed connection source that this wraps.
    pub closed spec fn managed(&self) -> GlobalRef {
        self.inner
    }

    /// The runtime handle that every connection of this source shares.
    pub closed spec fn runtime(&self) -> Arc<JavaVM> {
        self.vm
    }

    /// Wraps a managed connection source. `getConnection` is resolved here,
    /// once.
    pub fn new(vm: Arc<JavaVM>, inner: GlobalRef) -> (r: Result<Self, jni::errors::Error>)
        ensures
            r matches Ok(source) ==> source.managed() == inner && source.runtime() == vm,
    {
        let get_conn = {
            let mut guard = attach(&vm)?;
            let env = env_of(&mut guard);
            let class = find_class(env, "javax/sql/DataSource")?;
            proof {
                reveal_strlit("()Ljava/sql/Connection;");
            }
            let get_conn = MethodIdentity::resolve(
                env,
                &class,
                "getConnection",
                "()Ljava/sql/Connection;",
                ValueKind::Object,
            );
            let released = delete_local_ref(env, class);
            settle(get_conn, released)?
        };
        Ok(DataSource { vm, inner, get_conn })
    }

    /// Checks a connection out of the pool. The only failures are those of
    /// an invocation.
    pub fn get_connection(&self) -> (r: Result<Connection, JdbcError>)
        ensures
            r matches Ok(connection) ==> connection.runtime() == self.runtime(),
            r matches Err(e) ==> e.is_invocation_failure(),
    {
        proof {
            use_type_invariant(self);
        }
        let conn_ref = Self::get_connection_ref(&self.vm, &self.inner, &self.get_conn)?;
        Connection::from_ref(self.vm.clone(), conn_ref)
    }

    fn get_connection_ref(vm: &Arc<JavaVM>, ds_ref: &GlobalRef, method: &MethodIdentity) -> (r:
        Result<GlobalRef, JdbcError>)
        requires
            method.result_kind() == ValueKind::Object,
        ensures
            r matches Err(e) ==> e.is_invocation_failure(),
    {
        let mut guard = match attach(vm) {
            Ok(guard) => guard,
            Err(e) => return Err(JdbcError::JniError(e)),
        };
        let env = env_of(&mut guard);
        match method.invoke(env, global_obj(ds_ref), Arguments::Zero) {
            Ok(conn) => share_object(env, conn),
            Err(e) => Err(e),
        }
    }
}

} // verus!
