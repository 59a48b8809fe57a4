//! A live database connection.

use vstd::prelude::*;
use std::sync::Arc;
use jni::objects::GlobalRef;
use jni::{AttachGuard, JavaVM};
use crate::errors::JdbcError;
use crate::method::{Arguments, MethodIdentity};
use crate::runtime::{attach, delete_local_ref, env_of, find_class, global_obj, new_string};
use crate::util::auto_close;
use crate::util::call::share_object;
use crate::util::cast::{after_release, settle};
use crate::value::{BoxedValue, ValueKind};
use crate::wrapper::sql::statement::{PreparedStatement, Statement};

verus! {

/// A connection checked out of the pool. It is closed when it is dropped.
pub struct Connection {
    inner: GlobalRef,
    vm: Arc<JavaVM>,
    prepare_statement: MethodIdentity,
    create_statement: MethodIdentity,
}

impl Connection {
    #[verifier::type_invariant]
    spec fn bound(self) -> bool {
        &&& self.prepare_statement.binds(
            "prepareStatement",
            "(Ljava/lang/String;)Ljava/sql/PreparedStatement;",
            ValueKind::Object,
        )
        &&& self.create_statement.binds(
            "createStatement",
            "()Ljava/sql/Statement;",
            ValueKind::Object,
        )
    }

    /// The managed connection that this wraps.
    pub closed spec fn managed(&self) -> GlobalRef {
        self.inner
    }

    /// The runtime handle that this connection shares.
    pub closed spec fn runtime(&self) -> Arc<JavaVM> {
        self.vm
    }

    /// Wraps a managed connection. The two methods that make statements are
    /// resolved here, once. The only failures are those that the runtime
    /// reports.
    pub fn from_ref(vm: Arc<JavaVM>, datasource: GlobalRef) -> (r: Result<Self, JdbcError>)
        ensures
            r matches Ok(connection) ==> connection.managed() == datasource && connection.runtime()
                == vm,
            r matches Err(e) ==> e is JniError,
    {
        let resolved = Self::resolve(&vm);
        match resolved {
            Ok((prepare_statement, create_statement)) => Ok(
                Connection { vm, inner: datasource, prepare_statement, create_statement },
            ),
            Err(e) => Err(JdbcError::JniError(e)),
        }
    }

    /// Resolves the two methods that make statements.
    fn resolve(vm: &Arc<JavaVM>) -> (r: Result<
        (MethodIdentity, MethodIdentity),
        jni::errors::Error,
    >)
        ensures
            r matches Ok(found) ==> {
                &&& found.0.binds(
                    "prepareStatement",
                    "(Ljava/lang/String;)Ljava/sql/PreparedStatement;",
                    ValueKind::Object,
                )
                &&& found.1.binds("createStatement", "()Ljava/sql/Statement;", ValueKind::Object)
            },
    {
        let mut guard = attach(vm)?;
        let env = env_of(&mut guard);
        let class = find_class(env, "java/sql/Connection")?;
        proof {
            reveal_strlit("(Ljava/lang/String;)Ljava/sql/PreparedStatement;");
            reveal_strlit("()Ljava/sql/Statement;");
        }
        let found = MethodIdentity::resolve_both(
            env,
            &class,
            (
                "prepareStatement",
                "(Ljava/lang/String;)Ljava/sql/PreparedStatement;",
                ValueKind::Object,
            ),
            ("createStatement", "()Ljava/sql/Statement;", ValueKind::Object),
        );
        let released = delete_local_ref(env, class);
        settle(found, released)
    }

    /// Prepares a parameterized statement. It borrows this connection. The
    /// only failures are those of an invocation.
    pub fn prepare_statement<'parent>(&'parent self, sql: &str) -> (r: Result<
        PreparedStatement<'parent>,
        JdbcError,
    >)
        ensures
            r matches Ok(statement) ==> {
                &&& statement.pending_streams() == 0
                &&& statement.bindings().len() == 0
                &&& statement.connection() == self
            },
            r matches Err(e) ==> e.is_invocation_failure(),
    {
        proof {
            use_type_invariant(self);
        }
        let statement = Self::prepare_statement_ref(
            &self.vm,
            &self.inner,
            &self.prepare_statement,
            sql,
        )?;
        PreparedStatement::from_ref(self, statement)
    }

    /// Creates a plain statement. It borrows this connection. The only
    /// failures are those of an invocation.
    pub fn create_statement<'parent>(&'parent self) -> (r: Result<Statement<'parent>, JdbcError>)
        ensures
            r matches Ok(statement) ==> statement.connection() == self,
            r matches Err(e) ==> e.is_invocation_failure(),
    {
        proof {
            use_type_invariant(self);
        }
        let statement = Self::create_statement_ref(&self.vm, &self.inner, &self.create_statement)?;
        Statement::from_ref(self, statement)
    }

    fn prepare_statement_ref(
        vm: &Arc<JavaVM>,
        inner: &GlobalRef,
        method: &MethodIdentity,
        sql: &str,
    ) -> (r: Result<GlobalRef, JdbcError>)
        requires
            method.result_kind() == ValueKind::Object,
        ensures
            r matches Err(e) ==> e.is_invocation_failure(),
    {
        let mut guard = match attach(vm) {
            Ok(guard) => guard,
            Err(e) => return Err(JdbcError::JniError(e)),
        };
        let env = env_of(&mut guard);
        let sql = match new_string(env, sql) {
            Ok(sql) => sql,
            Err(e) => return Err(JdbcError::JniError(e)),
        };
        let statement = method.invoke(
            env,
            global_obj(inner),
            Arguments::One(BoxedValue::Object(&sql)),
        );
        let released = delete_local_ref(env, sql);
        match after_release(statement, released) {
            Ok(statement) => share_object(env, statement),
            Err(e) => Err(e),
        }
    }

    fn create_statement_ref(vm: &Arc<JavaVM>, inner: &GlobalRef, method: &MethodIdentity) -> (r:
        Result<GlobalRef, JdbcError>)
        requires
            method.result_kind() == ValueKind::Object,
        ensures
            r matches Err(e) ==> e.is_invocation_failure(),
    {
        let mut guard = match attach(vm) {
            Ok(guard) => guard,
            Err(e) => return Err(JdbcError::JniError(e)),
        };
        let env = env_of(&mut guard);
        match method.invoke(env, global_obj(inner), Arguments::Zero) {
            Ok(statement) => share_object(env, statement),
            Err(e) => Err(e),
        }
    }

    /// Attaches the calling thread to the runtime of this connection. A
    /// thread that is attached already stays so.
    pub fn env(&self) -> (r: Result<AttachGuard<'_>, JdbcError>)
        ensures
            r matches Err(e) ==> e is JniError,
        opens_invariants none
        no_unwind
    {
        match attach(&self.vm) {
            Ok(guard) => Ok(guard),
            Err(e) => Err(JdbcError::JniError(e)),
        }
    }

    /// The runtime handle that this connection shares.
    pub fn vm(&self) -> (r: &Arc<JavaVM>)
        ensures
            *r == self.runtime(),
    {
        &self.vm
    }
}

impl Drop for Connection {
    fn drop(&mut self)
        opens_invariants none
        no_unwind
    {
        match self.env() {
            Ok(mut guard) => {
                let env = env_of(&mut guard);
                let _ = auto_close(env, global_obj(&self.inner));
            },
            Err(_) => {},
        }
    }
}

} // verus!
