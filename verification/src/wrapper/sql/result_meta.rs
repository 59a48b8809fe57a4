//! The metadata of a query result.

use vstd::prelude::*;
use jni::objects::GlobalRef;
use crate::errors::JdbcError;
use crate::method::{Arguments, MethodIdentity};
use crate::runtime::{delete_local_ref, env_of, find_class, global_obj};
use crate::util::call::get_int;
use crate::util::cast::{settle, value_cast_string};
use crate::value::{BoxedValue, ValueKind};
use crate::wrapper::sql::connection::Connection;

verus! {

/// How many columns a reported count stands for: a count below zero stands
/// for none.
pub open spec fn column_total(count: i32) -> nat {
    if count > 0 {
        count as nat
    } else {
        0
    }
}

/// Collects the names of the columns one to `count`, in that order, asking
/// `fetch` for each. The first failure ends the collection and is returned.
pub fn collect_names<F: Fn(i32) -> Result<String, JdbcError>>(count: i32, fetch: F) -> (r: Result<
    Vec<String>,
    JdbcError,
>)
    requires
        forall|column: i32| 1 <= column <= count ==> call_requires(fetch, (column,)),
    ensures
        r matches Ok(names) ==> {
            &&& names@.len() == column_total(count)
            &&& forall|k: int|
                0 <= k < names@.len() ==> call_ensures(
                    fetch,
                    ((k + 1) as i32,),
                    Ok::<String, JdbcError>(#[trigger] names@[k]),
                )
        },
        r matches Err(e) ==> exists|column: i32|
            1 <= column <= count && #[trigger] call_ensures(
                fetch,
                (column,),
                Err::<String, JdbcError>(e),
            ),
{
    let mut names: Vec<String> = Vec::new();
    let mut done: i32 = 0;
    while done < count
        invariant
            0 <= done,
            count > 0 ==> done <= count,
            count <= 0 ==> done == 0,
            names@.len() == done,
            forall|column: i32| 1 <= column <= count ==> call_requires(fetch, (column,)),
            forall|k: int|
                0 <= k < names@.len() ==> call_ensures(
                    fetch,
                    ((k + 1) as i32,),
                    Ok::<String, JdbcError>(#[trigger] names@[k]),
                ),
        decreases count - done,
    {
        let column: i32 = done + 1;
        match fetch(column) {
            Ok(name) => {
                names.push(name);
            },
            Err(e) => {
                return Err(e);
            },
        }
        done = column;
    }
    Ok(names)
}

/// The metadata of a query result: how many columns it has and what they are
/// called.
pub struct ResultSetMetaData<'local> {
    inner: GlobalRef,
    get_column_count: MethodIdentity,
    get_column_name: MethodIdentity,
    conn: &'local Connection,
}

impl<'local> ResultSetMetaData<'local> {
    #[verifier::type_invariant]
    spec fn bound(self) -> bool {
        &&& self.get_column_count.binds("getColumnCount", "()I", ValueKind::Int)
        &&& self.get_column_name.binds("getColumnName", "(I)Ljava/lang/String;", ValueKind::Object)
    }

    /// The managed metadata that this wraps.
    pub closed spec fn managed(&self) -> GlobalRef {
        self.inner
    }

    /// The connection that the metadata came over.
    pub closed spec fn connection(&self) -> &'local Connection {
        self.conn
    }

    /// Wraps managed metadata. The two methods that read it are resolved
    /// here, once. The only failures are those that the runtime reports.
    pub fn from_ref(conn: &'local Connection, statement: GlobalRef) -> (r: Result<Self, JdbcError>)
        ensures
            r matches Ok(meta) ==> meta.managed() == statement && meta.connection() == conn,
            r matches Err(e) ==> e is JniError,
    {
        let mut guard = conn.env()?;
        let env = env_of(&mut guard);
        let class = match find_class(env, "java/sql/ResultSetMetaData") {
            Ok(class) => class,
            Err(e) => return Err(JdbcError::JniError(e)),
        };
        proof {
            reveal_strlit("()I");
            reveal_strlit("(I)Ljava/lang/String;");
        }
        let found = MethodIdentity::resolve_both(
            env,
            &class,
            ("getColumnCount", "()I", ValueKind::Int),
            ("getColumnName", "(I)Ljava/lang/String;", ValueKind::Object),
        );
        let released = delete_local_ref(env, class);
        match settle(found, released) {
            Ok((get_column_count, get_column_name)) => Ok(
                ResultSetMetaData { inner: statement, get_column_count, get_column_name, conn },
            ),
            Err(e) => Err(JdbcError::JniError(e)),
        }
    }

    /// The number of columns. The only failures are those of an invocation.
    pub fn get_column_count(&self) -> (r: Result<i32, JdbcError>)
        ensures
            r matches Err(e) ==> e.is_invocation_failure(),
    {
        proof {
            use_type_invariant(self);
        }
        let mut guard = self.conn.env()?;
        let env = env_of(&mut guard);
        get_int(env, global_obj(&self.inner), &self.get_column_count)
    }

    /// The name of the column of that number, counted from one. The only
    /// failures are those of an invocation.
    pub fn get_column_name(&self, column: i32) -> (r: Result<String, JdbcError>)
        ensures
            r matches Err(e) ==> e.is_invocation_failure(),
    {
        proof {
            use_type_invariant(self);
        }
        let mut guard = self.conn.env()?;
        let env = env_of(&mut guard);
        let column = Arguments::One(BoxedValue::Int(column));
        match self.get_column_name.invoke(env, global_obj(&self.inner), column) {
            Ok(name) => value_cast_string(env, name),
            Err(e) => Err(e),
        }
    }

    /// The names of all columns, in column order: one name for each column
    /// that `get_column_count` reports, each as `get_column_name` gives it.
    /// The only failures are those of an invocation.
    pub fn get_columns_name(&self) -> (r: Result<Vec<String>, JdbcError>)
        ensures
            r matches Err(e) ==> e.is_invocation_failure(),
    {
        let count = self.get_column_count()?;
        let fetch = |column: i32| -> (name: Result<String, JdbcError>)
            ensures
                name matches Err(e) ==> e.is_invocation_failure(),
            { self.get_column_name(column) };
        collect_names(count, fetch)
    }
}

} // verus!
