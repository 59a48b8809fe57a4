//! Statements: plain ones that run a given text, and prepared ones whose
//! parameters are bound one by one.

use vstd::prelude::*;
use std::sync::Arc;
use bigdecimal::BigDecimal;
use jni::objects::{GlobalRef, JObject};
use jni::{JNIEnv, JavaVM};
use crate::errors::JdbcError;
use crate::method::{construct, Argument, Arguments, MethodIdentity};
use crate::runtime::{
    attach, byte_array_from_slice, delete_local_ref, env_of, find_class, global_obj, new_string,
    plain_signature, share_global,
};
use crate::util::auto_close;
use crate::util::call::{int_result, share_object};
use crate::util::cast::{
    after_release, bool_to_jvalue, boxed_bool, boxed_u8, cast_bool, cast_f32, cast_f64, cast_i16,
    cast_i32, cast_i64, cast_u8, settle, u8_to_jvalue,
};
use crate::value::{BoxedValue, ValueKind};
use crate::wrapper::io::{InputStream, OutputStream};
use crate::wrapper::sql::connection::Connection;
use crate::wrapper::sql::result::{CursorState, ResultSet};

verus! {

/// What every statement can do: run a query or an update given as text.
pub trait IStatement {
    /// How many streams of binary parameters the statement keeps open until
    /// it has run.
    spec fn open_streams(&self) -> nat;

    /// Runs a query given as text. The cursor of the result starts before
    /// the first row. Once the query has run, whether it succeeded or not,
    /// the statement keeps no stream open. The only failures are those of an
    /// invocation.
    fn execute_query(&mut self, sql: &str) -> (r: Result<ResultSet<'_>, JdbcError>)
        ensures
            final(self).open_streams() == 0,
            r matches Ok(rows) ==> rows.position() == CursorState::BeforeFirst,
            r matches Err(e) ==> e.is_invocation_failure(),
    ;

    /// Runs an update given as text and returns the number of rows it
    /// touched. Once the update has run, whether it succeeded or not, the
    /// statement keeps no stream open. The only failures are those of an
    /// invocation.
    fn execute_update(&mut self, sql: &str) -> (r: Result<i32, JdbcError>)
        ensures
            final(self).open_streams() == 0,
            r matches Err(e) ==> e.is_invocation_failure(),
    ;
}

/// The two arguments of a parameter binding: the position, counted from one,
/// and the value.
pub fn parameter<'r, 'p>(index: i32, value: Argument<'r, 'p>) -> (r: Arguments<'r, 'p>)
    ensures
        r == Arguments::Two(BoxedValue::Int(index), value),
{
    Arguments::Two(BoxedValue::Int(index), value)
}

/// A native value as a parameter binding hands it over.
pub enum Bound {
    Text(Seq<char>),
    Short(i16),
    Int(i32),
    Long(i64),
    /// A single-precision number, by its bit pattern.
    Float(u32),
    /// A double-precision number, by its bit pattern.
    Double(u64),
    Boolean(bool),
    Byte(u8),
    Bytes(Seq<u8>),
    Decimal(BigDecimal),
    /// A stream, fed through the writing end of its pipe.
    Stream,
}

impl Bound {
    /// The boxed value that crosses for a scalar. For the other values an
    /// object is made on the managed side, and a reference to it crosses.
    pub open spec fn boxed<O>(self) -> Option<BoxedValue<O>> {
        match self {
            Bound::Short(v) => Some(BoxedValue::Short(v)),
            Bound::Int(v) => Some(BoxedValue::Int(v)),
            Bound::Long(v) => Some(BoxedValue::Long(v)),
            Bound::Float(bits) => Some(BoxedValue::Float(bits)),
            Bound::Double(bits) => Some(BoxedValue::Double(bits)),
            Bound::Boolean(v) => Some(boxed_bool(v)),
            Bound::Byte(v) => Some(boxed_u8(v)),
            _ => None,
        }
    }

    /// Whether the conversion of the value's own type reads the boxed value
    /// that crossed for it back as the value.
    pub open spec fn reads_back(self) -> bool {
        match self {
            Bound::Short(v) => cast_i16(self.boxed::<()>().unwrap()) == Ok::<i16, JdbcError>(v),
            Bound::Int(v) => cast_i32(self.boxed::<()>().unwrap()) == Ok::<i32, JdbcError>(v),
            Bound::Long(v) => cast_i64(self.boxed::<()>().unwrap()) == Ok::<i64, JdbcError>(v),
            Bound::Float(v) => cast_f32(self.boxed::<()>().unwrap()) == Ok::<u32, JdbcError>(v),
            Bound::Double(v) => cast_f64(self.boxed::<()>().unwrap()) == Ok::<u64, JdbcError>(v),
            Bound::Boolean(v) => cast_bool(self.boxed::<()>().unwrap()) == Ok::<bool, JdbcError>(v),
            Bound::Byte(v) => cast_u8(self.boxed::<()>().unwrap()) == Ok::<u8, JdbcError>(v),
            _ => true,
        }
    }

    /// Law: every scalar crosses as a boxed value that the conversion of its
    /// own type reads back unchanged, the boundary values of each width
    /// included.
    pub proof fn lemma_scalars_read_back(value: Bound)
        ensures
            value.reads_back(),
    {
    }
}

/// One parameter binding: the position, counted from one, and the value.
pub struct Binding {
    pub index: i32,
    pub value: Bound,
}

/// A plain statement. It is closed when it is dropped.
pub struct Statement<'local> {
    inner: GlobalRef,
    conn: &'local Connection,
    execute_query_sql: MethodIdentity,
    execute_update_sql: MethodIdentity,
}

impl<'local> Statement<'local> {
    #[verifier::type_invariant]
    spec fn bound(self) -> bool {
        &&& self.execute_query_sql.binds(
            "executeQuery",
            "(Ljava/lang/String;)Ljava/sql/ResultSet;",
            ValueKind::Object,
        )
        &&& self.execute_update_sql.binds("executeUpdate", "(Ljava/lang/String;)I", ValueKind::Int)
    }

    /// The managed statement that this wraps.
    pub closed spec fn managed(&self) -> GlobalRef {
        self.inner
    }

    /// The connection that the statement runs on.
    pub closed spec fn connection(&self) -> &'local Connection {
        self.conn
    }

    /// Wraps a managed statement. The two methods that run a text are
    /// resolved here, once. The only failures are those that the runtime
    /// reports.
    pub fn from_ref(conn: &'local Connection, statement: GlobalRef) -> (r: Result<Self, JdbcError>)
        ensures
            r matches Ok(wrapped) ==> {
                &&& wrapped.managed() == statement
                &&& wrapped.connection() == conn
            },
            r matches Err(e) ==> e is JniError,
    {
        let mut guard = conn.env()?;
        let env = env_of(&mut guard);
        let class = match find_class(env, "java/sql/Statement") {
            Ok(class) => class,
            Err(e) => return Err(JdbcError::JniError(e)),
        };
        proof {
            reveal_strlit("(Ljava/lang/String;)Ljava/sql/ResultSet;");
            reveal_strlit("(Ljava/lang/String;)I");
        }
        let found = MethodIdentity::resolve_both(
            env,
            &class,
            ("executeQuery", "(Ljava/lang/String;)Ljava/sql/ResultSet;", ValueKind::Object),
            ("executeUpdate", "(Ljava/lang/String;)I", ValueKind::Int),
        );
        let released = delete_local_ref(env, class);
        match settle(found, released) {
            Ok((execute_query_sql, execute_update_sql)) => Ok(
                Self { inner: statement, conn, execute_query_sql, execute_update_sql },
            ),
            Err(e) => Err(JdbcError::JniError(e)),
        }
    }

    /// Runs a query given as text, for a result that may outlive the borrow
    /// of the statement.
    fn run_query(&self, sql: &str) -> (r: Result<ResultSet<'local>, JdbcError>)
        ensures
            r matches Ok(rows) ==> {
                &&& rows.position() == CursorState::BeforeFirst
                &&& rows.connection() == self.connection()
            },
            r matches Err(e) ==> e.is_invocation_failure(),
    {
        proof {
            use_type_invariant(self);
        }
        let result_ref = Self::execute_query_sql(
            self.conn.vm(),
            &self.inner,
            &self.execute_query_sql,
            sql,
        )?;
        ResultSet::from_ref(self.conn, result_ref)
    }

    /// Calls `executeQuery` with the text and promotes the result to a
    /// shared reference. The managed string that carries the text is
    /// released.
    fn execute_query_sql(
        vm: &Arc<JavaVM>,
        inner: &GlobalRef,
        method: &MethodIdentity,
        sql: &str,
    ) -> (r: Result<GlobalRef, JdbcError>)
        requires
            method.result_kind() == ValueKind::Object,
        ensures
            r matches Err(e) ==> e.is_invocation_failure(),
    {
        let mut guard = match attach(vm) {
            Ok(guard) => guard,
            Err(e) => return Err(JdbcError::JniError(e)),
        };
        let env = env_of(&mut guard);
        let sql = match new_string(env, sql) {
            Ok(sql) => sql,
            Err(e) => return Err(JdbcError::JniError(e)),
        };
        let result = method.invoke(
            env,
            global_obj(inner),
            Arguments::One(BoxedValue::Object(&sql)),
        );
        let released = delete_local_ref(env, sql);
        match after_release(result, released) {
            Ok(result) => share_object(env, result),
            Err(e) => Err(e),
        }
    }

    /// Calls `executeUpdate` with the text and unboxes the count. The
    /// managed string that carries the text is released.
    fn execute_update_sql(
        vm: &Arc<JavaVM>,
        inner: &GlobalRef,
        method: &MethodIdentity,
        sql: &str,
    ) -> (r: Result<i32, JdbcError>)
        ensures
            r matches Err(e) ==> e.is_invocation_failure(),
    {
        let mut guard = match attach(vm) {
            Ok(guard) => guard,
            Err(e) => return Err(JdbcError::JniError(e)),
        };
        let env = env_of(&mut guard);
        let sql = match new_string(env, sql) {
            Ok(sql) => sql,
            Err(e) => return Err(JdbcError::JniError(e)),
        };
        let result = method.invoke(
            env,
            global_obj(inner),
            Arguments::One(BoxedValue::Object(&sql)),
        );
        let released = delete_local_ref(env, sql);
        match after_release(result, released) {
            Ok(result) => int_result(result),
            Err(e) => Err(e),
        }
    }
}

impl<'local> IStatement for Statement<'local> {
    /// A plain statement has no parameters and so keeps no stream.
    open spec fn open_streams(&self) -> nat {
        0
    }

    fn execute_query(&mut self, sql: &str) -> Result<ResultSet<'_>, JdbcError> {
        self.run_query(sql)
    }

    fn execute_update(&mut self, sql: &str) -> Result<i32, JdbcError> {
        Self::execute_update_sql(self.conn.vm(), &self.inner, &self.execute_update_sql, sql)
    }
}

impl<'local> Drop for Statement<'local> {
    fn drop(&mut self)
        opens_invariants none
        no_unwind
    {
        match self.conn.env() {
            Ok(mut guard) => {
                let env = env_of(&mut guard);
                let _ = auto_close(env, global_obj(&self.inner));
            },
            Err(_) => {},
        }
    }
}

/// The methods of a managed prepared statement, resolved when it is wrapped:
/// one setter for each type of parameter, and the two that run it.
struct PreparedMethods {
    set_string: MethodIdentity,
    set_short: MethodIdentity,
    set_int: MethodIdentity,
    set_long: MethodIdentity,
    set_float: MethodIdentity,
    set_double: MethodIdentity,
    set_bool: MethodIdentity,
    set_byte: MethodIdentity,
    set_bytes: MethodIdentity,
    set_binary_stream: MethodIdentity,
    set_big_decimal: MethodIdentity,
    execute_query: MethodIdentity,
    execute_update: MethodIdentity,
}

impl PreparedMethods {
    #[verifier::type_invariant]
    spec fn bound(self) -> bool {
        &&& self.set_string.binds("setString", "(ILjava/lang/String;)V", ValueKind::Void)
        &&& self.set_short.binds("setShort", "(IS)V", ValueKind::Void)
        &&& self.set_int.binds("setInt", "(II)V", ValueKind::Void)
        &&& self.set_long.binds("setLong", "(IJ)V", ValueKind::Void)
        &&& self.set_float.binds("setFloat", "(IF)V", ValueKind::Void)
        &&& self.set_double.binds("setDouble", "(ID)V", ValueKind::Void)
        &&& self.set_bool.binds("setBoolean", "(IZ)V", ValueKind::Void)
        &&& self.set_byte.binds("setByte", "(IB)V", ValueKind::Void)
        &&& self.set_bytes.binds("setBytes", "(I[B)V", ValueKind::Void)
        &&& self.set_binary_stream.binds(
            "setBinaryStream",
            "(ILjava/io/InputStream;)V",
            ValueKind::Void,
        )
        &&& self.set_big_decimal.binds(
            "setBigDecimal",
            "(ILjava/math/BigDecimal;)V",
            ValueKind::Void,
        )
        &&& self.execute_query.binds("executeQuery", "()Ljava/sql/ResultSet;", ValueKind::Object)
        &&& self.execute_update.binds("executeUpdate", "()I", ValueKind::Int)
    }

    /// Resolves a setter: a method that returns nothing.
    fn setter<'a, 'c>(
        env: &mut JNIEnv<'a>,
        class: &JObject<'c>,
        name: &'static str,
        signature: &'static str,
    ) -> (r: Result<MethodIdentity, jni::errors::Error>)
        requires
            plain_signature(signature@),
        ensures
            r matches Ok(method) ==> method.binds(name, signature, ValueKind::Void),
    {
        MethodIdentity::resolve(env, class, name, signature, ValueKind::Void)
    }

    /// Resolves every method of the prepared-statement interface that the
    /// wrapper calls. In a table that comes back every entry stands for the
    /// method it is named after, with the kind that the method returns.
    fn resolve<'a, 'c>(env: &mut JNIEnv<'a>, class: &JObject<'c>) -> (r: Result<
        PreparedMethods,
        jni::errors::Error,
    >)
        ensures
            r matches Ok(methods) ==> methods.bound(),
    {
        proof {
            reveal_strlit("(ILjava/lang/String;)V");
            reveal_strlit("(IS)V");
            reveal_strlit("(II)V");
            reveal_strlit("(IJ)V");
            reveal_strlit("(IF)V");
            reveal_strlit("(ID)V");
            reveal_strlit("(IZ)V");
            reveal_strlit("(IB)V");
            reveal_strlit("(I[B)V");
            reveal_strlit("(ILjava/io/InputStream;)V");
            reveal_strlit("(ILjava/math/BigDecimal;)V");
            reveal_strlit("()Ljava/sql/ResultSet;");
            reveal_strlit("()I");
        }
        let set_string = Self::setter(env, class, "setString", "(ILjava/lang/String;)V")?;
        let set_short = Self::setter(env, class, "setShort", "(IS)V")?;
        let set_int = Self::setter(env, class, "setInt", "(II)V")?;
        let set_long = Self::setter(env, class, "setLong", "(IJ)V")?;
        let set_float = Self::setter(env, class, "setFloat", "(IF)V")?;
        let set_double = Self::setter(env, class, "setDouble", "(ID)V")?;
        let set_bool = Self::setter(env, class, "setBoolean", "(IZ)V")?;
        let set_byte = Self::setter(env, class, "setByte", "(IB)V")?;
        let set_bytes = Self::setter(env, class, "setBytes", "(I[B)V")?;
        let set_binary_stream = Self::setter(
            env,
            class,
            "setBinaryStream",
            "(ILjava/io/InputStream;)V",
        )?;
        let set_big_decimal = Self::setter(
            env,
            class,
            "setBigDecimal",
            "(ILjava/math/BigDecimal;)V",
        )?;
        let execute_query = MethodIdentity::resolve(
            env,
            class,
            "executeQuery",
            "()Ljava/sql/ResultSet;",
            ValueKind::Object,
        )?;
        let execute_update = MethodIdentity::resolve(
            env,
            class,
            "executeUpdate",
            "()I",
            ValueKind::Int,
        )?;
        Ok(
            PreparedMethods {
                set_string,
                set_short,
                set_int,
                set_long,
                set_float,
                set_double,
                set_bool,
                set_byte,
                set_bytes,
                set_binary_stream,
                set_big_decimal,
                execute_query,
                execute_update,
            },
        )
    }
}

/// A prepared statement. Each binding is an immediate round trip into the
/// runtime: nothing is buffered on the native side. The streams that feed
/// binary parameters are kept until the statement has run, and closed then.
///
/// Dropping the statement closes the streams that are still pending, and
/// then the statement itself: the fields are dropped in this order, and each
/// stream and the inner statement close what they wrap.
///
/// For the sake of its contracts the statement keeps a record of what was
/// bound to it. The record is ghost: nothing of it exists when the library
/// runs.
pub struct PreparedStatement<'local> {
    streams: Vec<InputStream>,
    statement: Statement<'local>,
    inner: GlobalRef,
    methods: PreparedMethods,
    conn: &'local Connection,
    bindings: Ghost<Seq<Binding>>,
}

impl<'local> PreparedStatement<'local> {
    /// How many streams of binary parameters wait for the statement to run.
    pub closed spec fn pending_streams(&self) -> nat {
        self.streams@.len()
    }

    /// The managed statement that this wraps.
    pub closed spec fn managed(&self) -> GlobalRef {
        self.inner
    }

    /// The connection that the statement runs on.
    pub closed spec fn connection(&self) -> &'local Connection {
        self.conn
    }

    /// The bindings that were made so far, in the order in which they were
    /// made.
    pub closed spec fn bindings(&self) -> Seq<Binding> {
        self.bindings@
    }

    /// Whether this is the statement `before` with one more binding.
    pub open spec fn follows(&self, before: &Self, index: i32, value: Bound) -> bool {
        &&& self.bindings() == before.bindings().push(Binding { index, value })
        &&& self.pending_streams() == before.pending_streams()
        &&& self.managed() == before.managed()
        &&& self.connection() == before.connection()
    }

    /// Wraps a managed prepared statement. Every method that the wrapper
    /// calls is resolved here, once. No stream is pending. The only failures
    /// are those that the runtime reports.
    pub fn from_ref(conn: &'local Connection, inner: GlobalRef) -> (r: Result<Self, JdbcError>)
        ensures
            r matches Ok(statement) ==> {
                &&& statement.pending_streams() == 0
                &&& statement.bindings() == Seq::<Binding>::empty()
                &&& statement.managed() == inner
                &&& statement.connection() == conn
            },
            r matches Err(e) ==> e is JniError,
    {
        let resolved = {
            let mut guard = conn.env()?;
            let env = env_of(&mut guard);
            match find_class(env, "java/sql/PreparedStatement") {
                Ok(class) => {
                    let methods = PreparedMethods::resolve(env, &class);
                    let released = delete_local_ref(env, class);
                    settle(methods, released)
                },
                Err(e) => Err(e),
            }
        };
        let methods = match resolved {
            Ok(methods) => methods,
            Err(e) => return Err(JdbcError::JniError(e)),
        };
        let statement = Statement::from_ref(conn, share_global(&inner))?;
        Ok(
            PreparedStatement {
                streams: Vec::new(),
                statement,
                inner,
                methods,
                conn,
                bindings: Ghost(Seq::empty()),
            },
        )
    }

    /// Runs the prepared query. The streams of binary parameters are closed
    /// once it has run, whether it succeeded or not. The cursor of the result
    /// starts before the first row. The only failures are those of an
    /// invocation.
    pub fn execute_query(&mut self) -> (r: Result<ResultSet<'local>, JdbcError>)
        ensures
            final(self).pending_streams() == 0,
            final(self).bindings() == old(self).bindings(),
            final(self).managed() == old(self).managed(),
            final(self).connection() == old(self).connection(),
            r matches Ok(rows) ==> {
                &&& rows.position() == CursorState::BeforeFirst
                &&& rows.connection() == old(self).connection()
            },
            r matches Err(e) ==> e.is_invocation_failure(),
    {
        proof {
            use_type_invariant(&self.methods);
        }
        let result_ref = Self::execute_query_inner(
            self.conn.vm(),
            &self.inner,
            &self.methods.execute_query,
        );
        self.close_streams();
        match result_ref {
            Ok(result_ref) => ResultSet::from_ref(self.conn, result_ref),
            Err(e) => Err(e),
        }
    }

    /// Runs the prepared update and returns the number of rows it touched.
    /// The streams of binary parameters are closed once it has run, whether
    /// it succeeded or not. The only failures are those of an invocation.
    pub fn execute_update(&mut self) -> (r: Result<i32, JdbcError>)
        ensures
            final(self).pending_streams() == 0,
            final(self).bindings() == old(self).bindings(),
            final(self).managed() == old(self).managed(),
            final(self).connection() == old(self).connection(),
            r matches Err(e) ==> e.is_invocation_failure(),
    {
        let count = Self::execute_update_inner(
            self.conn.vm(),
            &self.inner,
            &self.methods.execute_update,
        );
        self.close_streams();
        count
    }

    /// Calls `executeQuery` and promotes the result to a shared reference.
    fn execute_query_inner(vm: &Arc<JavaVM>, inner: &GlobalRef, method: &MethodIdentity) -> (r:
        Result<GlobalRef, JdbcError>)
        requires
            method.result_kind() == ValueKind::Object,
        ensures
            r matches Err(e) ==> e.is_invocation_failure(),
    {
        let mut guard = match attach(vm) {
            Ok(guard) => guard,
            Err(e) => return Err(JdbcError::JniError(e)),
        };
        let env = env_of(&mut guard);
        match method.invoke(env, global_obj(inner), Arguments::Zero) {
            Ok(result) => share_object(env, result),
            Err(e) => Err(e),
        }
    }

    /// Calls `executeUpdate` and unboxes the count.
    fn execute_update_inner(vm: &Arc<JavaVM>, inner: &GlobalRef, method: &MethodIdentity) -> (r:
        Result<i32, JdbcError>)
        ensures
            r matches Err(e) ==> e.is_invocation_failure(),
    {
        let mut guard = match attach(vm) {
            Ok(guard) => guard,
            Err(e) => return Err(JdbcError::JniError(e)),
        };
        let env = env_of(&mut guard);
        match method.invoke(env, global_obj(inner), Arguments::Zero) {
            Ok(result) => int_result(result),
            Err(e) => Err(e),
        }
    }

    /// Binds a text. The managed string that carries it is released once it
    /// is bound. The statement comes back with the binding on record; the
    /// only failures are those of an invocation.
    pub fn set_string(self, index: i32, value: &str) -> (r: Result<Self, JdbcError>)
        ensures
            r matches Ok(bound) ==> bound.follows(&self, index, Bound::Text(value@)),
            r matches Err(e) ==> e.is_invocation_failure(),
    {
        let mut guard = self.conn.env()?;
        let env = env_of(&mut guard);
        let text = match new_string(env, value) {
            Ok(text) => text,
            Err(e) => return Err(JdbcError::JniError(e)),
        };
        let native = Ghost(Bound::Text(value@));
        let bound = self.set_param(
            &self.methods.set_string,
            index,
            BoxedValue::Object(&text),
            native,
        );
        let released = delete_local_ref(env, text);
        match after_release(bound, released) {
            Ok(_) => Ok(self.record(Ghost(index), native)),
            Err(e) => Err(e),
        }
    }

    /// Binds a 16-bit number. The statement comes back with the binding on
    /// record; the only failures are those of an invocation.
    pub fn set_short(self, index: i32, value: i16) -> (r: Result<Self, JdbcError>)
        ensures
            r matches Ok(bound) ==> bound.follows(&self, index, Bound::Short(value)),
            r matches Err(e) ==> e.is_invocation_failure(),
    {
        let native = Ghost(Bound::Short(value));
        self.set_param(&self.methods.set_short, index, BoxedValue::Short(value), native)?;
        Ok(self.record(Ghost(index), native))
    }

    /// Binds a 32-bit number. The statement comes back with the binding on
    /// record; the only failures are those of an invocation.
    pub fn set_int(self, index: i32, value: i32) -> (r: Result<Self, JdbcError>)
        ensures
            r matches Ok(bound) ==> bound.follows(&self, index, Bound::Int(value)),
            r matches Err(e) ==> e.is_invocation_failure(),
    {
        let native = Ghost(Bound::Int(value));
        self.set_param(&self.methods.set_int, index, BoxedValue::Int(value), native)?;
        Ok(self.record(Ghost(index), native))
    }

    /// Binds a 64-bit number. The statement comes back with the binding on
    /// record; the only failures are those of an invocation.
    pub fn set_long(self, index: i32, value: i64) -> (r: Result<Self, JdbcError>)
        ensures
            r matches Ok(bound) ==> bound.follows(&self, index, Bound::Long(value)),
            r matches Err(e) ==> e.is_invocation_failure(),
    {
        let native = Ghost(Bound::Long(value));
        self.set_param(&self.methods.set_long, index, BoxedValue::Long(value), native)?;
        Ok(self.record(Ghost(index), native))
    }

    /// Binds a single-precision number, given by its bit pattern. The
    /// statement comes back with the binding on record; the only failures
    /// are those of an invocation.
    pub fn set_float(self, index: i32, bits: u32) -> (r: Result<Self, JdbcError>)
        ensures
            r matches Ok(bound) ==> bound.follows(&self, index, Bound::Float(bits)),
            r matches Err(e) ==> e.is_invocation_failure(),
    {
        let native = Ghost(Bound::Float(bits));
        self.set_param(&self.methods.set_float, index, BoxedValue::Float(bits), native)?;
        Ok(self.record(Ghost(index), native))
    }

    /// Binds a double-precision number, given by its bit pattern. The
    /// statement comes back with the binding on record; the only failures
    /// are those of an invocation.
    pub fn set_double(self, index: i32, bits: u64) -> (r: Result<Self, JdbcError>)
        ensures
            r matches Ok(bound) ==> bound.follows(&self, index, Bound::Double(bits)),
            r matches Err(e) ==> e.is_invocation_failure(),
    {
        let native = Ghost(Bound::Double(bits));
        self.set_param(&self.methods.set_double, index, BoxedValue::Double(bits), native)?;
        Ok(self.record(Ghost(index), native))
    }

    /// Binds a truth value, boxed as the runtime's one-byte sentinel. The
    /// statement comes back with the binding on record; the only failures
    /// are those of an invocation.
    pub fn set_boolean(self, index: i32, value: bool) -> (r: Result<Self, JdbcError>)
        ensures
            r matches Ok(bound) ==> bound.follows(&self, index, Bound::Boolean(value)),
            r matches Err(e) ==> e.is_invocation_failure(),
    {
        let native = Ghost(Bound::Boolean(value));
        self.set_param(&self.methods.set_bool, index, bool_to_jvalue(value), native)?;
        Ok(self.record(Ghost(index), native))
    }

    /// Binds an unsigned byte, boxed as the signed byte of the same bit
    /// pattern. The statement comes back with the binding on record; the only
    /// failures are those of an invocation.
    pub fn set_byte(self, index: i32, value: u8) -> (r: Result<Self, JdbcError>)
        ensures
            r matches Ok(bound) ==> bound.follows(&self, index, Bound::Byte(value)),
            r matches Err(e) ==> e.is_invocation_failure(),
    {
        let native = Ghost(Bound::Byte(value));
        self.set_param(&self.methods.set_byte, index, u8_to_jvalue(value), native)?;
        Ok(self.record(Ghost(index), native))
    }

    /// Binds a byte buffer, which must fit into one managed array. The
    /// managed array that carries it is released once it is bound. The
    /// statement comes back with the binding on record; the only failures
    /// are those of an invocation.
    pub fn set_bytes(self, index: i32, value: &[u8]) -> (r: Result<Self, JdbcError>)
        requires
            value@.len() <= i32::MAX,
        ensures
            r matches Ok(bound) ==> bound.follows(&self, index, Bound::Bytes(value@)),
            r matches Err(e) ==> e.is_invocation_failure(),
    {
        let mut guard = self.conn.env()?;
        let env = env_of(&mut guard);
        let array = match byte_array_from_slice(env, value) {
            Ok(array) => array,
            Err(e) => return Err(JdbcError::JniError(e)),
        };
        let native = Ghost(Bound::Bytes(value@));
        let bound = self.set_param(
            &self.methods.set_bytes,
            index,
            BoxedValue::Object(&array),
            native,
        );
        let released = delete_local_ref(env, array);
        match after_release(bound, released) {
            Ok(_) => Ok(self.record(Ghost(index), native)),
            Err(e) => Err(e),
        }
    }

    /// Binds a decimal. It crosses as its text, from which a managed decimal
    /// is constructed; both managed objects are released once the decimal is
    /// bound. The statement comes back with the binding on record; the only
    /// failures are those of an invocation.
    pub fn set_big_decimal(self, index: i32, value: &BigDecimal) -> (r: Result<Self, JdbcError>)
        ensures
            r matches Ok(bound) ==> bound.follows(&self, index, Bound::Decimal(*value)),
            r matches Err(e) ==> e.is_invocation_failure(),
    {
        let mut guard = self.conn.env()?;
        let env = env_of(&mut guard);
        let num = value.to_string();
        let java_string = match new_string(env, num.as_str()) {
            Ok(java_string) => java_string,
            Err(e) => return Err(JdbcError::JniError(e)),
        };
        proof {
            reveal_strlit("(Ljava/lang/String;)V");
        }
        let java_num = construct(
            env,
            "java/math/BigDecimal",
            "(Ljava/lang/String;)V",
            Arguments::One(BoxedValue::Object(&java_string)),
        );
        let released = delete_local_ref(env, java_string);
        let java_num = match settle(java_num, released) {
            Ok(java_num) => java_num,
            Err(e) => return Err(JdbcError::JniError(e)),
        };
        let bound = self.set_param(
            &self.methods.set_big_decimal,
            index,
            BoxedValue::Object(&java_num),
            Ghost(Bound::Decimal(*value)),
        );
        let released = delete_local_ref(env, java_num);
        match after_release(bound, released) {
            Ok(_) => Ok(self.record(Ghost(index), Ghost(Bound::Decimal(*value)))),
            Err(e) => Err(e),
        }
    }

    /// Makes the two ends of a binary stream: a connected pipe on the managed
    /// side, of which nothing is bound yet.
    ///
    /// The writing end is for the caller to feed, the reading end for
    /// `set_binary_stream` to bind. A driver may read while the stream is
    /// being bound, so whoever feeds the writing end starts before the
    /// binding. Both ends share the runtime handle of the connection. The
    /// only failures are those that the runtime reports.
    pub fn open_binary_stream(&self) -> (r: Result<(OutputStream, InputStream), JdbcError>)
        ensures
            r matches Ok(ends) ==> {
                &&& ends.0.runtime() == self.connection().runtime()
                &&& ends.1.runtime() == self.connection().runtime()
            },
            r matches Err(e) ==> e is JniError,
    {
        Self::open_pipe(self.conn.vm())
    }

    /// Binds the reading end of a binary stream.
    ///
    /// The stream is bound as the parameter and kept as a pending stream
    /// until the statement has run: what is written to the other end of its
    /// pipe is what the driver reads. Where the binding fails the stream is
    /// closed. The only failures are those of an invocation.
    pub fn set_binary_stream(self, index: i32, reader: InputStream) -> (r: Result<Self, JdbcError>)
        ensures
            r matches Ok(bound) ==> {
                &&& bound.bindings() == self.bindings().push(
                    Binding { index, value: Bound::Stream },
                )
                &&& bound.pending_streams() == self.pending_streams() + 1
                &&& bound.managed() == self.managed()
                &&& bound.connection() == self.connection()
            },
            r matches Err(e) ==> e.is_invocation_failure(),
    {
        self.set_param(
            &self.methods.set_binary_stream,
            index,
            BoxedValue::Object(reader.as_obj()),
            Ghost(Bound::Stream),
        )?;
        let mut bound = self.record(Ghost(index), Ghost(Bound::Stream));
        bound.streams.push(reader);
        Ok(bound)
    }

    /// Makes a piped output stream and a piped input stream connected to it,
    /// and wraps both. The writing end is wrapped as soon as it exists, so
    /// that it is closed where the reading end cannot be made.
    fn open_pipe(vm: &Arc<JavaVM>) -> (r: Result<(OutputStream, InputStream), JdbcError>)
        ensures
            r matches Ok(ends) ==> ends.0.runtime() == *vm && ends.1.runtime() == *vm,
            r matches Err(e) ==> e is JniError,
    {
        let mut guard = match attach(vm) {
            Ok(guard) => guard,
            Err(e) => return Err(JdbcError::JniError(e)),
        };
        let env = env_of(&mut guard);
        proof {
            reveal_strlit("()V");
            reveal_strlit("(Ljava/io/PipedOutputStream;)V");
        }
        let output = match construct(env, "java/io/PipedOutputStream", "()V", Arguments::Zero) {
            Ok(output) => share_object(env, BoxedValue::Object(output))?,
            Err(e) => return Err(JdbcError::JniError(e)),
        };
        let writer = OutputStream::new(output, vm.clone());
        let input = match construct(
            env,
            "java/io/PipedInputStream",
            "(Ljava/io/PipedOutputStream;)V",
            Arguments::One(BoxedValue::Object(writer.as_obj())),
        ) {
            Ok(input) => share_object(env, BoxedValue::Object(input))?,
            Err(e) => return Err(JdbcError::JniError(e)),
        };
        Ok((writer, InputStream::new(input, vm.clone())))
    }

    /// Binds one parameter: calls the setter with the position and the value.
    /// For a scalar, what is handed over is the boxed form of the native
    /// value.
    fn set_param<'r, 'p>(
        &self,
        method: &MethodIdentity,
        index: i32,
        value: Argument<'r, 'p>,
        Ghost(native): Ghost<Bound>,
    ) -> (r: Result<(), JdbcError>)
        requires
            native.boxed::<&'r JObject<'p>>() matches Some(boxed) ==> value == boxed,
        ensures
            r matches Err(e) ==> e.is_invocation_failure(),
    {
        let mut guard = self.conn.env()?;
        let env = env_of(&mut guard);
        match method.invoke(env, global_obj(&self.inner), parameter(index, value)) {
            Ok(_) => Ok(()),
            Err(e) => Err(e),
        }
    }

    /// Puts a binding that was made on record.
    fn record(self, Ghost(index): Ghost<i32>, Ghost(value): Ghost<Bound>) -> (r: Self)
        ensures
            r.follows(&self, index, value),
    {
        let mut bound = self;
        proof {
            bound.bindings@ = bound.bindings@.push(Binding { index, value });
        }
        bound
    }

    /// Forgets every pending stream; each one closes as it goes.
    fn close_streams(&mut self)
        ensures
            final(self).pending_streams() == 0,
            final(self).bindings() == old(self).bindings(),
            final(self).managed() == old(self).managed(),
            final(self).connection() == old(self).connection(),
    {
        self.streams.clear();
    }
}

impl<'local> IStatement for PreparedStatement<'local> {
    /// The streams that are pending.
    open spec fn open_streams(&self) -> nat {
        self.pending_streams()
    }

    /// Pending streams are closed once the query has run.
    fn execute_query(&mut self, sql: &str) -> Result<ResultSet<'_>, JdbcError> {
        let rows = self.statement.run_query(sql);
        self.close_streams();
        rows
    }

    /// Pending streams are closed once the update has run.
    fn execute_update(&mut self, sql: &str) -> Result<i32, JdbcError> {
        let count = self.statement.execute_update(sql);
        self.close_streams();
        count
    }
}

} // verus!
