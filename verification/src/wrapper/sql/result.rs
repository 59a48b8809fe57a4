//! The result of a query: a forward cursor over rows.

use vstd::prelude::*;
use bigdecimal::BigDecimal;
use jni::objects::{GlobalRef, JObject};
use jni::{AttachGuard, JNIEnv};
use crate::errors::JdbcError;
use crate::method::{Arguments, MethodIdentity};
use crate::runtime::{
    delete_local_ref, env_of, find_class, global_obj, new_string, plain_signature,
};
use crate::util::call::{absent_if_null, get_bool, get_int, present, share_object};
use crate::util::cast::{
    settle, value_cast_big_decimal, value_cast_bool, value_cast_bytes, value_cast_f32,
    value_cast_f64, value_cast_i16, value_cast_i32, value_cast_i64, value_cast_input_stream,
    value_cast_string, value_cast_timestamp_millis, value_cast_u8,
};
use crate::util::{auto_close, delete_value};
use crate::value::{BoxedValue, ValueKind};
use crate::wrapper::io::InputStream;
use crate::wrapper::sql::connection::Connection;
use crate::wrapper::sql::result_meta::ResultSetMetaData;

verus! {

/// Where a cursor stands.
#[derive(Clone, Copy, Debug, PartialEq, Eq, Structural)]
pub enum CursorState {
    /// No row has been asked for yet.
    BeforeFirst,
    /// The cursor stands on the row of that number, counted from one.
    OnRow(u64),
    /// The rows are used up. This state is final.
    Exhausted,
}

impl CursorState {
    /// The state after one more advance, given whether the driver had
    /// another row. An exhausted cursor stays exhausted whatever the driver
    /// would say.
    pub open spec fn step(self, has_row: bool) -> CursorState {
        match self {
            CursorState::Exhausted => CursorState::Exhausted,
            CursorState::BeforeFirst => if has_row {
                CursorState::OnRow(1)
            } else {
                CursorState::Exhausted
            },
            CursorState::OnRow(n) => if !has_row {
                CursorState::Exhausted
            } else if n < u64::MAX {
                CursorState::OnRow((n + 1) as u64)
            } else {
                CursorState::OnRow(n)
            },
        }
    }

    /// What an advance reports to the caller: a row, unless the cursor was
    /// exhausted already or the driver has none.
    pub open spec fn reports(self, has_row: bool) -> bool {
        !(self is Exhausted) && has_row
    }

    /// The state after a run of advances, given the driver's answer to each.
    pub open spec fn after(answers: Seq<bool>) -> CursorState
        decreases answers.len(),
    {
        if answers.len() == 0 {
            CursorState::BeforeFirst
        } else {
            Self::after(answers.drop_last()).step(answers.last())
        }
    }

    /// Advances the state by one answer of the driver.
    pub fn advance(self, has_row: bool) -> (r: CursorState)
        ensures
            r == self.step(has_row),
    {
        match self {
            CursorState::Exhausted => CursorState::Exhausted,
            CursorState::BeforeFirst => if has_row {
                CursorState::OnRow(1)
            } else {
                CursorState::Exhausted
            },
            CursorState::OnRow(n) => if !has_row {
                CursorState::Exhausted
            } else if n < u64::MAX {
                CursorState::OnRow(n + 1)
            } else {
                CursorState::OnRow(n)
            },
        }
    }

    /// Law: exhaustion is final. Once the driver has answered that there is
    /// no row, the cursor is exhausted after every longer run of advances,
    /// and every later advance reports no row.
    pub proof fn lemma_exhaustion_is_final(answers: Seq<bool>, k: int)
        requires
            0 <= k < answers.len(),
            !answers[k],
        ensures
            Self::after(answers) is Exhausted,
            forall|has_row: bool| !Self::after(answers).reports(has_row),
        decreases answers.len(),
    {
        if k < answers.len() - 1 {
            Self::lemma_exhaustion_is_final(answers.drop_last(), k);
        }
    }

    /// Law: once an advance has reported no row, no later advance reports
    /// one. `results` are the reports of a run of advances, each made in the
    /// state that the reports before it led to.
    pub proof fn lemma_no_row_after_the_last(results: Seq<bool>, k: int, j: int)
        requires
            forall|i: int|
                0 <= i < results.len() && Self::after(results.take(i)) is Exhausted
                    ==> !#[trigger] results[i],
            0 <= k < j < results.len(),
            !results[k],
        ensures
            !results[j],
    {
        Self::lemma_exhaustion_is_final(results.take(j), k);
    }

    /// Law: an advance reports a row exactly while the driver has answered
    /// every advance so far, this one included, with a row.
    pub proof fn lemma_reports_while_rows_remain(answers: Seq<bool>, has_row: bool)
        ensures
            Self::after(answers).reports(has_row) <==> (has_row && forall|k: int|
                0 <= k < answers.len() ==> answers[k]),
        decreases answers.len(),
    {
        if answers.len() > 0 {
            let earlier = answers.drop_last();
            Self::lemma_reports_while_rows_remain(earlier, answers.last());
            if !answers.last() {
                Self::lemma_exhaustion_is_final(answers, answers.len() - 1);
            } else if forall|k: int| 0 <= k < earlier.len() ==> earlier[k] {
                assert forall|k: int| 0 <= k < answers.len() implies answers[k] by {
                    if k < earlier.len() {
                        assert(earlier[k]);
                    }
                }
            }
        }
    }
}

/// The methods of a managed result, resolved when it is wrapped: those that
/// move and describe the cursor, and for each type of column one accessor by
/// index and its twin by label.
struct ResultSetMethods {
    get_meta_data: MethodIdentity,
    get_row: MethodIdentity,
    next: MethodIdentity,
    was_null: MethodIdentity,
    get_string: (MethodIdentity, MethodIdentity),
    get_short: (MethodIdentity, MethodIdentity),
    get_int: (MethodIdentity, MethodIdentity),
    get_long: (MethodIdentity, MethodIdentity),
    get_float: (MethodIdentity, MethodIdentity),
    get_double: (MethodIdentity, MethodIdentity),
    get_boolean: (MethodIdentity, MethodIdentity),
    get_byte: (MethodIdentity, MethodIdentity),
    get_bytes: (MethodIdentity, MethodIdentity),
    get_big_decimal: (MethodIdentity, MethodIdentity),
    get_binary_stream: (MethodIdentity, MethodIdentity),
    get_date: (MethodIdentity, MethodIdentity),
}

impl ResultSetMethods {
    #[verifier::type_invariant]
    spec fn bound(self) -> bool {
        &&& self.get_meta_data.binds(
            "getMetaData",
            "()Ljava/sql/ResultSetMetaData;",
            ValueKind::Object,
        )
        &&& self.get_row.binds("getRow", "()I", ValueKind::Int)
        &&& self.next.binds("next", "()Z", ValueKind::Bool)
        &&& self.was_null.binds("wasNull", "()Z", ValueKind::Bool)
        &&& self.get_string.0.binds("getString", "(I)Ljava/lang/String;", ValueKind::Object)
        &&& self.get_string.1.binds(
            "getString",
            "(Ljava/lang/String;)Ljava/lang/String;",
            ValueKind::Object,
        )
        &&& self.get_short.0.binds("getShort", "(I)S", ValueKind::Short)
        &&& self.get_short.1.binds("getShort", "(Ljava/lang/String;)S", ValueKind::Short)
        &&& self.get_int.0.binds("getInt", "(I)I", ValueKind::Int)
        &&& self.get_int.1.binds("getInt", "(Ljava/lang/String;)I", ValueKind::Int)
        &&& self.get_long.0.binds("getLong", "(I)J", ValueKind::Long)
        &&& self.get_long.1.binds("getLong", "(Ljava/lang/String;)J", ValueKind::Long)
        &&& self.get_float.0.binds("getFloat", "(I)F", ValueKind::Float)
        &&& self.get_float.1.binds("getFloat", "(Ljava/lang/String;)F", ValueKind::Float)
        &&& self.get_double.0.binds("getDouble", "(I)D", ValueKind::Double)
        &&& self.get_double.1.binds("getDouble", "(Ljava/lang/String;)D", ValueKind::Double)
        &&& self.get_boolean.0.binds("getBoolean", "(I)Z", ValueKind::Bool)
        &&& self.get_boolean.1.binds("getBoolean", "(Ljava/lang/String;)Z", ValueKind::Bool)
        &&& self.get_byte.0.binds("getByte", "(I)B", ValueKind::Byte)
        &&& self.get_byte.1.binds("getByte", "(Ljava/lang/String;)B", ValueKind::Byte)
        &&& self.get_bytes.0.binds("getBytes", "(I)[B", ValueKind::Object)
        &&& self.get_bytes.1.binds("getBytes", "(Ljava/lang/String;)[B", ValueKind::Object)
        &&& self.get_big_decimal.0.binds(
            "getBigDecimal",
            "(I)Ljava/math/BigDecimal;",
            ValueKind::Object,
        )
        &&& self.get_big_decimal.1.binds(
            "getBigDecimal",
            "(Ljava/lang/String;)Ljava/math/BigDecimal;",
            ValueKind::Object,
        )
        &&& self.get_binary_stream.0.binds(
            "getBinaryStream",
            "(I)Ljava/io/InputStream;",
            ValueKind::Object,
        )
        &&& self.get_binary_stream.1.binds(
            "getBinaryStream",
            "(Ljava/lang/String;)Ljava/io/InputStream;",
            ValueKind::Object,
        )
        &&& self.get_date.0.binds("getTimestamp", "(I)Ljava/sql/Timestamp;", ValueKind::Object)
        &&& self.get_date.1.binds(
            "getTimestamp",
            "(Ljava/lang/String;)Ljava/sql/Timestamp;",
            ValueKind::Object,
        )
    }

    /// Resolves an accessor by column index and its twin by column label.
    fn pair<'a, 'c>(
        env: &mut JNIEnv<'a>,
        class: &JObject<'c>,
        name: &'static str,
        by_index: &'static str,
        by_label: &'static str,
        yields: ValueKind,
    ) -> (r: Result<(MethodIdentity, MethodIdentity), jni::errors::Error>)
        requires
            plain_signature(by_index@),
            plain_signature(by_label@),
        ensures
            r matches Ok(found) ==> {
                &&& found.0.binds(name, by_index, yields)
                &&& found.1.binds(name, by_label, yields)
            },
    {
        let first = MethodIdentity::resolve(env, class, name, by_index, yields)?;
        let second = MethodIdentity::resolve(env, class, name, by_label, yields)?;
        Ok((first, second))
    }

    /// Resolves every method of the result interface that the wrapper
    /// calls. In a table that comes back every entry stands for the method
    /// it is named after, by index or by label, with the kind that the
    /// method returns.
    fn resolve<'a, 'c>(env: &mut JNIEnv<'a>, class: &JObject<'c>) -> (r: Result<
        ResultSetMethods,
        jni::errors::Error,
    >)
        ensures
            r matches Ok(methods) ==> methods.bound(),
    {
        proof {
            reveal_strlit("()Ljava/sql/ResultSetMetaData;");
            reveal_strlit("()I");
            reveal_strlit("()Z");
            reveal_strlit("(I)Ljava/lang/String;");
            reveal_strlit("(Ljava/lang/String;)Ljava/lang/String;");
            reveal_strlit("(I)S");
            reveal_strlit("(Ljava/lang/String;)S");
            reveal_strlit("(I)I");
            reveal_strlit("(Ljava/lang/String;)I");
            reveal_strlit("(I)J");
            reveal_strlit("(Ljava/lang/String;)J");
            reveal_strlit("(I)F");
            reveal_strlit("(Ljava/lang/String;)F");
            reveal_strlit("(I)D");
            reveal_strlit("(Ljava/lang/String;)D");
            reveal_strlit("(I)Z");
            reveal_strlit("(Ljava/lang/String;)Z");
            reveal_strlit("(I)B");
            reveal_strlit("(Ljava/lang/String;)B");
            reveal_strlit("(I)[B");
            reveal_strlit("(Ljava/lang/String;)[B");
            reveal_strlit("(I)Ljava/math/BigDecimal;");
            reveal_strlit("(Ljava/lang/String;)Ljava/math/BigDecimal;");
            reveal_strlit("(I)Ljava/io/InputStream;");
            reveal_strlit("(Ljava/lang/String;)Ljava/io/InputStream;");
            reveal_strlit("(I)Ljava/sql/Timestamp;");
            reveal_strlit("(Ljava/lang/String;)Ljava/sql/Timestamp;");
        }
        let get_meta_data = MethodIdentity::resolve(
            env,
            class,
            "getMetaData",
            "()Ljava/sql/ResultSetMetaData;",
            ValueKind::Object,
        )?;
        let get_row = MethodIdentity::resolve(env, class, "getRow", "()I", ValueKind::Int)?;
        let next = MethodIdentity::resolve(env, class, "next", "()Z", ValueKind::Bool)?;
        let was_null = MethodIdentity::resolve(env, class, "wasNull", "()Z", ValueKind::Bool)?;
        let get_string = Self::pair(
            env,
            class,
            "getString",
            "(I)Ljava/lang/String;",
            "(Ljava/lang/String;)Ljava/lang/String;",
            ValueKind::Object,
        )?;
        let get_short = Self::pair(
            env,
            class,
            "getShort",
            "(I)S",
            "(Ljava/lang/String;)S",
            ValueKind::Short,
        )?;
        let get_int = Self::pair(
            env,
            class,
            "getInt",
            "(I)I",
            "(Ljava/lang/String;)I",
            ValueKind::Int,
        )?;
        let get_long = Self::pair(
            env,
            class,
            "getLong",
            "(I)J",
            "(Ljava/lang/String;)J",
            ValueKind::Long,
        )?;
        let get_float = Self::pair(
            env,
            class,
            "getFloat",
            "(I)F",
            "(Ljava/lang/String;)F",
            ValueKind::Float,
        )?;
        let get_double = Self::pair(
            env,
            class,
            "getDouble",
            "(I)D",
            "(Ljava/lang/String;)D",
            ValueKind::Double,
        )?;
        let get_boolean = Self::pair(
            env,
            class,
            "getBoolean",
            "(I)Z",
            "(Ljava/lang/String;)Z",
            ValueKind::Bool,
        )?;
        let get_byte = Self::pair(
            env,
            class,
            "getByte",
            "(I)B",
            "(Ljava/lang/String;)B",
            ValueKind::Byte,
        )?;
        let get_bytes = Self::pair(
            env,
            class,
            "getBytes",
            "(I)[B",
            "(Ljava/lang/String;)[B",
            ValueKind::Object,
        )?;
        let get_big_decimal = Self::pair(
            env,
            class,
            "getBigDecimal",
            "(I)Ljava/math/BigDecimal;",
            "(Ljava/lang/String;)Ljava/math/BigDecimal;",
            ValueKind::Object,
        )?;
        let get_binary_stream = Self::pair(
            env,
            class,
            "getBinaryStream",
            "(I)Ljava/io/InputStream;",
            "(Ljava/lang/String;)Ljava/io/InputStream;",
            ValueKind::Object,
        )?;
        let get_date = Self::pair(
            env,
            class,
            "getTimestamp",
            "(I)Ljava/sql/Timestamp;",
            "(Ljava/lang/String;)Ljava/sql/Timestamp;",
            ValueKind::Object,
        )?;
        Ok(
            ResultSetMethods {
                get_meta_data,
                get_row,
                next,
                was_null,
                get_string,
                get_short,
                get_int,
                get_long,
                get_float,
                get_double,
                get_boolean,
                get_byte,
                get_bytes,
                get_big_decimal,
                get_binary_stream,
                get_date,
            },
        )
    }
}

/// The rows of a query result, read through a cursor that starts before the
/// first row. The managed result is closed when this is dropped.
pub struct ResultSet<'local> {
    inner: GlobalRef,
    methods: ResultSetMethods,
    cursor: CursorState,
    env: AttachGuard<'local>,
    conn: &'local Connection,
}

impl<'local> ResultSet<'local> {
    /// Where the cursor stands.
    pub closed spec fn position(&self) -> CursorState {
        self.cursor
    }

    /// The managed result that this wraps.
    pub closed spec fn managed(&self) -> GlobalRef {
        self.inner
    }

    /// The connection that the result came over.
    pub closed spec fn connection(&self) -> &'local Connection {
        self.conn
    }

    /// Wraps a managed result. Every method that the wrapper calls is
    /// resolved here, once, and the calling thread stays attached for the
    /// life of the wrapper. The cursor starts before the first row. The only
    /// failures are those that the runtime reports.
    pub fn from_ref(conn: &'local Connection, statement: GlobalRef) -> (r: Result<Self, JdbcError>)
        ensures
            r matches Ok(rows) ==> {
                &&& rows.position() == CursorState::BeforeFirst
                &&& rows.managed() == statement
                &&& rows.connection() == conn
            },
            r matches Err(e) ==> e is JniError,
    {
        let mut env = conn.env()?;
        let resolved = {
            let env = env_of(&mut env);
            match find_class(env, "java/sql/ResultSet") {
                Ok(class) => {
                    let methods = ResultSetMethods::resolve(env, &class);
                    let released = delete_local_ref(env, class);
                    settle(methods, released)
                },
                Err(e) => Err(e),
            }
        };
        match resolved {
            Ok(methods) => {
                let cursor = CursorState::BeforeFirst;
                Ok(ResultSet { inner: statement, methods, cursor, env, conn })
            },
            Err(e) => Err(JdbcError::JniError(e)),
        }
    }

    /// Where the cursor stands.
    pub fn cursor(&self) -> (r: CursorState)
        ensures
            r == self.position(),
    {
        self.cursor
    }

    /// The metadata of this result, over the same connection. The only
    /// failures are those of an invocation.
    pub fn get_meta_data(&self) -> (r: Result<ResultSetMetaData<'local>, JdbcError>)
        ensures
            r matches Ok(meta) ==> meta.connection() == self.connection(),
            r matches Err(e) ==> e.is_invocation_failure(),
    {
        proof {
            use_type_invariant(&self.methods);
        }
        let mut guard = self.conn.env()?;
        let env = env_of(&mut guard);
        let meta = self.methods.get_meta_data.invoke(
            env,
            global_obj(&self.inner),
            Arguments::Zero,
        )?;
        let meta = share_object(env, meta)?;
        ResultSetMetaData::from_ref(self.conn, meta)
    }

    /// The number of the row that the driver stands on. The only failures
    /// are those of an invocation.
    pub fn get_row(&self) -> (r: Result<i32, JdbcError>)
        ensures
            r matches Err(e) ==> e.is_invocation_failure(),
    {
        let mut guard = self.conn.env()?;
        let env = env_of(&mut guard);
        get_int(env, global_obj(&self.inner), &self.methods.get_row)
    }

    /// Advances the cursor and says whether it stands on a row.
    ///
    /// An exhausted cursor reports no row without asking the driver again.
    /// Otherwise the driver is asked, and its answer is what is reported and
    /// what moves the cursor: to the next row, or into exhaustion. A failure
    /// leaves the cursor where it was; the only failures are those of an
    /// invocation.
    pub fn next(&mut self) -> (r: Result<bool, JdbcError>)
        ensures
            final(self).managed() == old(self).managed(),
            final(self).connection() == old(self).connection(),
            old(self).position() is Exhausted ==> r == Ok::<bool, JdbcError>(false),
            r matches Ok(has_row) ==> final(self).position() == old(self).position().step(has_row),
            r matches Ok(has_row) ==> exists|answer: bool|
                {
                    &&& has_row == old(self).position().reports(answer)
                    &&& final(self).position() == #[trigger] old(self).position().step(answer)
                },
            r matches Err(e) ==> {
                &&& e.is_invocation_failure()
                &&& final(self).position() == old(self).position()
            },
    {
        match self.cursor {
            CursorState::Exhausted => Ok(false),
            state => {
                let has_row = {
                    let mut guard = self.conn.env()?;
                    let env = env_of(&mut guard);
                    get_bool(env, global_obj(&self.inner), &self.methods.next)?
                };
                self.cursor = state.advance(has_row);
                Ok(has_row)
            },
        }
    }

    fn was_null_inner<'a>(&self, env: &mut JNIEnv<'a>) -> (r: Result<bool, JdbcError>)
        ensures
            r matches Err(e) ==> e.is_invocation_failure(),
    {
        get_bool(env, global_obj(&self.inner), &self.methods.was_null)
    }

    /// Whether the column that was read last held SQL NULL. The only
    /// failures are those of an invocation.
    pub fn was_null(&self) -> (r: Result<bool, JdbcError>)
        ensures
            r matches Err(e) ==> e.is_invocation_failure(),
    {
        let mut guard = self.conn.env()?;
        let env = env_of(&mut guard);
        self.was_null_inner(env)
    }

    /// Reads a column by index: the raw value first, then the null check,
    /// which decides whether the value counts.
    fn use_index<'a>(&self, env: &mut JNIEnv<'a>, method: &MethodIdentity, index: i32) -> (r:
        Result<Option<BoxedValue<JObject<'a>>>, JdbcError>)
        ensures
            r matches Ok(Some(value)) ==> value.tag() == method.result_kind(),
            r matches Err(e) ==> e.is_invocation_failure(),
    {
        let index = Arguments::One(BoxedValue::Int(index));
        let fetched = method.invoke(env, global_obj(&self.inner), index)?;
        match self.was_null_inner(env) {
            Ok(was_null) => Ok(absent_if_null(fetched, was_null)),
            Err(e) => {
                let _ = delete_value(env, fetched);
                Err(e)
            },
        }
    }

    /// Reads a column by label: the raw value first, then the null check,
    /// which decides whether the value counts. The managed string that
    /// carries the label is released in between.
    fn use_label<'a>(&self, env: &mut JNIEnv<'a>, method: &MethodIdentity, label: &str) -> (r:
        Result<Option<BoxedValue<JObject<'a>>>, JdbcError>)
        ensures
            r matches Ok(Some(value)) ==> value.tag() == method.result_kind(),
            r matches Err(e) ==> e.is_invocation_failure(),
    {
        let label = match new_string(env, label) {
            Ok(label) => label,
            Err(e) => return Err(JdbcError::JniError(e)),
        };
        let fetched = method.invoke(
            env,
            global_obj(&self.inner),
            Arguments::One(BoxedValue::Object(&label)),
        );
        let released = delete_local_ref(env, label);
        let fetched = fetched?;
        let was_null = match released {
            Ok(_) => self.was_null_inner(env),
            Err(e) => Err(JdbcError::JniError(e)),
        };
        match was_null {
            Ok(was_null) => Ok(absent_if_null(fetched, was_null)),
            Err(e) => {
                let _ = delete_value(env, fetched);
                Err(e)
            },
        }
    }

    /// Reads a column as text, found by its index, counted from one. SQL NULL
    /// reads as nothing. The only failures are those of an invocation.
    pub fn get_string(&self, index: i32) -> (r: Result<Option<String>, JdbcError>)
        ensures
            r matches Err(e) ==> e.is_invocation_failure(),
    {
        proof {
            use_type_invariant(&self.methods);
        }
        let mut guard = self.conn.env()?;
        let env = env_of(&mut guard);
        match self.use_index(env, &self.methods.get_string.0, index)? {
            None => Ok(None),
            Some(value) => present(value_cast_string(env, value)),
        }
    }

    /// Reads a column as text, found by its label. SQL NULL reads as nothing.
    /// The only failures are those of an invocation.
    pub fn get_string_by_label(&self, label: &str) -> (r: Result<Option<String>, JdbcError>)
        ensures
            r matches Err(e) ==> e.is_invocation_failure(),
    {
        proof {
            use_type_invariant(&self.methods);
        }
        let mut guard = self.conn.env()?;
        let env = env_of(&mut guard);
        match self.use_label(env, &self.methods.get_string.1, label)? {
            None => Ok(None),
            Some(value) => present(value_cast_string(env, value)),
        }
    }

    /// Reads a column as a 16-bit number, found by its index, counted from
    /// one. SQL NULL reads as nothing. The only failures are those of an
    /// invocation.
    pub fn get_short(&self, index: i32) -> (r: Result<Option<i16>, JdbcError>)
        ensures
            r matches Err(e) ==> e.is_invocation_failure(),
    {
        proof {
            use_type_invariant(&self.methods);
        }
        let mut guard = self.conn.env()?;
        let env = env_of(&mut guard);
        match self.use_index(env, &self.methods.get_short.0, index)? {
            None => Ok(None),
            Some(value) => present(value_cast_i16(value)),
        }
    }

    /// Reads a column as a 16-bit number, found by its label. SQL NULL reads
    /// as nothing. The only failures are those of an invocation.
    pub fn get_short_by_label(&self, label: &str) -> (r: Result<Option<i16>, JdbcError>)
        ensures
            r matches Err(e) ==> e.is_invocation_failure(),
    {
        proof {
            use_type_invariant(&self.methods);
        }
        let mut guard = self.conn.env()?;
        let env = env_of(&mut guard);
        match self.use_label(env, &self.methods.get_short.1, label)? {
            None => Ok(None),
            Some(value) => present(value_cast_i16(value)),
        }
    }

    /// Reads a column as a 32-bit number, found by its index, counted from
    /// one. SQL NULL reads as nothing. The only failures are those of an
    /// invocation.
    pub fn get_int(&self, index: i32) -> (r: Result<Option<i32>, JdbcError>)
        ensures
            r matches Err(e) ==> e.is_invocation_failure(),
    {
        proof {
            use_type_invariant(&self.methods);
        }
        let mut guard = self.conn.env()?;
        let env = env_of(&mut guard);
        match self.use_index(env, &self.methods.get_int.0, index)? {
            None => Ok(None),
            Some(value) => present(value_cast_i32(value)),
        }
    }

    /// Reads a column as a 32-bit number, found by its label. SQL NULL reads
    /// as nothing. The only failures are those of an invocation.
    pub fn get_int_by_label(&self, label: &str) -> (r: Result<Option<i32>, JdbcError>)
        ensures
            r matches Err(e) ==> e.is_invocation_failure(),
    {
        proof {
            use_type_invariant(&self.methods);
        }
        let mut guard = self.conn.env()?;
        let env = env_of(&mut guard);
        match self.use_label(env, &self.methods.get_int.1, label)? {
            None => Ok(None),
            Some(value) => present(value_cast_i32(value)),
        }
    }

    /// Reads a column as a 64-bit number, found by its index, counted from
    /// one. SQL NULL reads as nothing. The only failures are those of an
    /// invocation.
    pub fn get_long(&self, index: i32) -> (r: Result<Option<i64>, JdbcError>)
        ensures
            r matches Err(e) ==> e.is_invocation_failure(),
    {
        proof {
            use_type_invariant(&self.methods);
        }
        let mut guard = self.conn.env()?;
        let env = env_of(&mut guard);
        match self.use_index(env, &self.methods.get_long.0, index)? {
            None => Ok(None),
            Some(value) => present(value_cast_i64(value)),
        }
    }

    /// Reads a column as a 64-bit number, found by its label. SQL NULL reads
    /// as nothing. The only failures are those of an invocation.
    pub fn get_long_by_label(&self, label: &str) -> (r: Result<Option<i64>, JdbcError>)
        ensures
            r matches Err(e) ==> e.is_invocation_failure(),
    {
        proof {
            use_type_invariant(&self.methods);
        }
        let mut guard = self.conn.env()?;
        let env = env_of(&mut guard);
        match self.use_label(env, &self.methods.get_long.1, label)? {
            None => Ok(None),
            Some(value) => present(value_cast_i64(value)),
        }
    }

    /// Reads a column as the bit pattern of a single-precision number, found
    /// by its index, counted from one. SQL NULL reads as nothing. The only
    /// failures are those of an invocation.
    pub fn get_float(&self, index: i32) -> (r: Result<Option<u32>, JdbcError>)
        ensures
            r matches Err(e) ==> e.is_invocation_failure(),
    {
        proof {
            use_type_invariant(&self.methods);
        }
        let mut guard = self.conn.env()?;
        let env = env_of(&mut guard);
        match self.use_index(env, &self.methods.get_float.0, index)? {
            None => Ok(None),
            Some(value) => present(value_cast_f32(value)),
        }
    }

    /// Reads a column as the bit pattern of a single-precision number, found
    /// by its label. SQL NULL reads as nothing. The only failures are those
    /// of an invocation.
    pub fn get_float_by_label(&self, label: &str) -> (r: Result<Option<u32>, JdbcError>)
        ensures
            r matches Err(e) ==> e.is_invocation_failure(),
    {
        proof {
            use_type_invariant(&self.methods);
        }
        let mut guard = self.conn.env()?;
        let env = env_of(&mut guard);
        match self.use_label(env, &self.methods.get_float.1, label)? {
            None => Ok(None),
            Some(value) => present(value_cast_f32(value)),
        }
    }

    /// Reads a column as the bit pattern of a double-precision number, found
    /// by its index, counted from one. SQL NULL reads as nothing. The only
    /// failures are those of an invocation.
    pub fn get_double(&self, index: i32) -> (r: Result<Option<u64>, JdbcError>)
        ensures
            r matches Err(e) ==> e.is_invocation_failure(),
    {
        proof {
            use_type_invariant(&self.methods);
        }
        let mut guard = self.conn.env()?;
        let env = env_of(&mut guard);
        match self.use_index(env, &self.methods.get_double.0, index)? {
            None => Ok(None),
            Some(value) => present(value_cast_f64(value)),
        }
    }

    /// Reads a column as the bit pattern of a double-precision number, found
    /// by its label. SQL NULL reads as nothing. The only failures are those
    /// of an invocation.
    pub fn get_double_by_label(&self, label: &str) -> (r: Result<Option<u64>, JdbcError>)
        ensures
            r matches Err(e) ==> e.is_invocation_failure(),
    {
        proof {
            use_type_invariant(&self.methods);
        }
        let mut guard = self.conn.env()?;
        let env = env_of(&mut guard);
        match self.use_label(env, &self.methods.get_double.1, label)? {
            None => Ok(None),
            Some(value) => present(value_cast_f64(value)),
        }
    }

    /// Reads a column as a truth value, found by its index, counted from one.
    /// SQL NULL reads as nothing. The only failures are those of an
    /// invocation.
    pub fn get_boolean(&self, index: i32) -> (r: Result<Option<bool>, JdbcError>)
        ensures
            r matches Err(e) ==> e.is_invocation_failure(),
    {
        proof {
            use_type_invariant(&self.methods);
        }
        let mut guard = self.conn.env()?;
        let env = env_of(&mut guard);
        match self.use_index(env, &self.methods.get_boolean.0, index)? {
            None => Ok(None),
            Some(value) => present(value_cast_bool(value)),
        }
    }

    /// Reads a column as a truth value, found by its label. SQL NULL reads as
    /// nothing. The only failures are those of an invocation.
    pub fn get_boolean_by_label(&self, label: &str) -> (r: Result<Option<bool>, JdbcError>)
        ensures
            r matches Err(e) ==> e.is_invocation_failure(),
    {
        proof {
            use_type_invariant(&self.methods);
        }
        let mut guard = self.conn.env()?;
        let env = env_of(&mut guard);
        match self.use_label(env, &self.methods.get_boolean.1, label)? {
            None => Ok(None),
            Some(value) => present(value_cast_bool(value)),
        }
    }

    /// Reads a column as an unsigned byte, found by its index, counted from
    /// one. SQL NULL reads as nothing. The only failures are those of an
    /// invocation.
    pub fn get_byte(&self, index: i32) -> (r: Result<Option<u8>, JdbcError>)
        ensures
            r matches Err(e) ==> e.is_invocation_failure(),
    {
        proof {
            use_type_invariant(&self.methods);
        }
        let mut guard = self.conn.env()?;
        let env = env_of(&mut guard);
        match self.use_index(env, &self.methods.get_byte.0, index)? {
            None => Ok(None),
            Some(value) => present(value_cast_u8(value)),
        }
    }

    /// Reads a column as an unsigned byte, found by its label. SQL NULL reads
    /// as nothing. The only failures are those of an invocation.
    pub fn get_byte_by_label(&self, label: &str) -> (r: Result<Option<u8>, JdbcError>)
        ensures
            r matches Err(e) ==> e.is_invocation_failure(),
    {
        proof {
            use_type_invariant(&self.methods);
        }
        let mut guard = self.conn.env()?;
        let env = env_of(&mut guard);
        match self.use_label(env, &self.methods.get_byte.1, label)? {
            None => Ok(None),
            Some(value) => present(value_cast_u8(value)),
        }
    }

    /// Reads a column as a byte buffer, found by its index, counted from one.
    /// SQL NULL reads as nothing. The only failures are those of an
    /// invocation.
    pub fn get_bytes(&self, index: i32) -> (r: Result<Option<Vec<u8>>, JdbcError>)
        ensures
            r matches Err(e) ==> e.is_invocation_failure(),
    {
        proof {
            use_type_invariant(&self.methods);
        }
        let mut guard = self.conn.env()?;
        let env = env_of(&mut guard);
        match self.use_index(env, &self.methods.get_bytes.0, index)? {
            None => Ok(None),
            Some(value) => present(value_cast_bytes(env, value)),
        }
    }

    /// Reads a column as a byte buffer, found by its label. SQL NULL reads as
    /// nothing. The only failures are those of an invocation.
    pub fn get_bytes_by_label(&self, label: &str) -> (r: Result<Option<Vec<u8>>, JdbcError>)
        ensures
            r matches Err(e) ==> e.is_invocation_failure(),
    {
        proof {
            use_type_invariant(&self.methods);
        }
        let mut guard = self.conn.env()?;
        let env = env_of(&mut guard);
        match self.use_label(env, &self.methods.get_bytes.1, label)? {
            None => Ok(None),
            Some(value) => present(value_cast_bytes(env, value)),
        }
    }

    /// Reads a column as a decimal, found by its index, counted from one. SQL
    /// NULL reads as nothing. The only failures are those of an invocation.
    pub fn get_big_decimal(&self, index: i32) -> (r: Result<Option<BigDecimal>, JdbcError>)
        ensures
            r matches Err(e) ==> e.is_invocation_failure(),
    {
        proof {
            use_type_invariant(&self.methods);
        }
        let mut guard = self.conn.env()?;
        let env = env_of(&mut guard);
        match self.use_index(env, &self.methods.get_big_decimal.0, index)? {
            None => Ok(None),
            Some(value) => present(value_cast_big_decimal(env, value)),
        }
    }

    /// Reads a column as a decimal, found by its label. SQL NULL reads as
    /// nothing. The only failures are those of an invocation.
    pub fn get_big_decimal_by_label(&self, label: &str) -> (r: Result<
        Option<BigDecimal>,
        JdbcError,
    >)
        ensures
            r matches Err(e) ==> e.is_invocation_failure(),
    {
        proof {
            use_type_invariant(&self.methods);
        }
        let mut guard = self.conn.env()?;
        let env = env_of(&mut guard);
        match self.use_label(env, &self.methods.get_big_decimal.1, label)? {
            None => Ok(None),
            Some(value) => present(value_cast_big_decimal(env, value)),
        }
    }

    /// Reads a column as a stream of which nothing has been read yet and
    /// which shares the runtime handle of the connection, found by its index,
    /// counted from one. SQL NULL reads as nothing. The only failures are
    /// those of an invocation.
    pub fn get_binary_stream(&self, index: i32) -> (r: Result<Option<InputStream>, JdbcError>)
        ensures
            r matches Ok(Some(stream)) ==> stream.runtime() == self.connection().runtime(),
            r matches Err(e) ==> e.is_invocation_failure(),
    {
        proof {
            use_type_invariant(&self.methods);
        }
        let vm = self.conn.vm().clone();
        let mut guard = self.conn.env()?;
        let env = env_of(&mut guard);
        match self.use_index(env, &self.methods.get_binary_stream.0, index)? {
            None => Ok(None),
            Some(value) => present(value_cast_input_stream(env, value, vm)),
        }
    }

    /// Reads a column as a stream of which nothing has been read yet and
    /// which shares the runtime handle of the connection, found by its label.
    /// SQL NULL reads as nothing. The only failures are those of an
    /// invocation.
    pub fn get_binary_stream_by_label(&self, label: &str) -> (r: Result<
        Option<InputStream>,
        JdbcError,
    >)
        ensures
            r matches Ok(Some(stream)) ==> stream.runtime() == self.connection().runtime(),
            r matches Err(e) ==> e.is_invocation_failure(),
    {
        proof {
            use_type_invariant(&self.methods);
        }
        let vm = self.conn.vm().clone();
        let mut guard = self.conn.env()?;
        let env = env_of(&mut guard);
        match self.use_label(env, &self.methods.get_binary_stream.1, label)? {
            None => Ok(None),
            Some(value) => present(value_cast_input_stream(env, value, vm)),
        }
    }

    /// Reads a timestamp column as milliseconds since the epoch, found by its
    /// index, counted from one. SQL NULL reads as nothing. The only failures
    /// are those of an invocation.
    pub fn get_timestamp_millis(&self, index: i32) -> (r: Result<Option<i64>, JdbcError>)
        ensures
            r matches Err(e) ==> e.is_invocation_failure(),
    {
        proof {
            use_type_invariant(&self.methods);
        }
        let mut guard = self.conn.env()?;
        let env = env_of(&mut guard);
        match self.use_index(env, &self.methods.get_date.0, index)? {
            None => Ok(None),
            Some(value) => present(value_cast_timestamp_millis(env, value)),
        }
    }

    /// Reads a timestamp column as milliseconds since the epoch, found by its
    /// label. SQL NULL reads as nothing. The only failures are those of an
    /// invocation.
    pub fn get_timestamp_millis_by_label(&self, label: &str) -> (r: Result<Option<i64>, JdbcError>)
        ensures
            r matches Err(e) ==> e.is_invocation_failure(),
    {
        proof {
            use_type_invariant(&self.methods);
        }
        let mut guard = self.conn.env()?;
        let env = env_of(&mut guard);
        match self.use_label(env, &self.methods.get_date.1, label)? {
            None => Ok(None),
            Some(value) => present(value_cast_timestamp_millis(env, value)),
        }
    }
}

impl<'local> Drop for ResultSet<'local> {
    fn drop(&mut self)
        opens_invariants none
        no_unwind
    {
        let env = env_of(&mut self.env);
        let _ = auto_close(env, global_obj(&self.inner));
    }
}

} // verus!
