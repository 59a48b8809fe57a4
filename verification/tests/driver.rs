// The statement and result API, run against a stand-in driver that is put
// together from classes of the runtime's own library: a cached row set holds
// the rows, and dynamic proxies stand for the data source, the connection and
// the statements.

use std::sync::Arc;

use bigdecimal::BigDecimal;
use chrono::{TimeZone, Utc};
use jdbc::errors::{InitError, JdbcError};
use jdbc::config::PropertySet;
use jdbc::util::call::calendar_value;
use jdbc::util::cast::vec_to_bytes_array;
use jdbc::{
    Builder, ClasspathEntry, CursorState, DataSource, IStatement, JvmBuilder, PoolFactory, PoolType,
};
use jni::errors::{JniError, StartJvmError};
use jni::objects::{GlobalRef, JObject, JValue};
use jni::{JNIEnv, JavaVM};

const INTEGER: i32 = 4;
const BIGINT: i32 = -5;
const SMALLINT: i32 = 5;
const TINYINT: i32 = -6;
const REAL: i32 = 7;
const DOUBLE: i32 = 8;
const BOOLEAN: i32 = 16;
const VARCHAR: i32 = 12;
const VARBINARY: i32 = -3;
const DECIMAL: i32 = 3;
const TIMESTAMP: i32 = 93;

enum Cell<'t> {
    Null,
    Short(i16),
    Int(i32),
    Long(i64),
    Byte(i8),
    Float(f32),
    Double(f64),
    Bool(bool),
    Text(&'t str),
    Bytes(&'t [u8]),
    Decimal(&'t str),
    Timestamp(i64),
}

fn start() -> Arc<JavaVM> {
    Arc::new(JvmBuilder::new().xmx_mb(128).build(&Vec::new()).expect("the runtime starts"))
}

fn proxy<'a>(
    env: &mut JNIEnv<'a>,
    interface: &str,
    target: &JObject,
    action: &str,
) -> jni::errors::Result<JObject<'a>> {
    let action = env.new_string(action)?;
    let null = JObject::null();
    let handler = env.new_object(
        "java/beans/EventHandler",
        "(Ljava/lang/Object;Ljava/lang/String;Ljava/lang/String;Ljava/lang/String;)V",
        &[JValue::Object(target), JValue::Object(&action), JValue::Object(&null), JValue::Object(&null)],
    )?;
    let interface = env.find_class(interface)?;
    let interfaces = env.new_object_array(1, "java/lang/Class", &interface)?;
    let loader = env
        .call_static_method(
            "java/lang/ClassLoader",
            "getSystemClassLoader",
            "()Ljava/lang/ClassLoader;",
            &[],
        )?
        .l()?;
    env.call_static_method(
        "java/lang/reflect/Proxy",
        "newProxyInstance",
        "(Ljava/lang/ClassLoader;[Ljava/lang/Class;Ljava/lang/reflect/InvocationHandler;)Ljava/lang/Object;",
        &[JValue::Object(&loader), JValue::Object(&interfaces), JValue::Object(&handler)],
    )?
    .l()
}

fn holder<'a>(env: &mut JNIEnv<'a>, held: &JObject) -> jni::errors::Result<JObject<'a>> {
    env.new_object(
        "java/util/concurrent/atomic/AtomicReference",
        "(Ljava/lang/Object;)V",
        &[JValue::Object(held)],
    )
}

fn row_set<'a>(
    env: &mut JNIEnv<'a>,
    columns: &[(&str, i32)],
    rows: &[Vec<Cell>],
) -> jni::errors::Result<JObject<'a>> {
    // The row set looks its provider up through the context class loader,
    // which a thread that was attached from native code does not have.
    let loader = env
        .call_static_method(
            "java/lang/ClassLoader",
            "getSystemClassLoader",
            "()Ljava/lang/ClassLoader;",
            &[],
        )?
        .l()?;
    let thread = env
        .call_static_method("java/lang/Thread", "currentThread", "()Ljava/lang/Thread;", &[])?
        .l()?;
    env.call_method(
        &thread,
        "setContextClassLoader",
        "(Ljava/lang/ClassLoader;)V",
        &[JValue::Object(&loader)],
    )?;
    let factory = env
        .call_static_method(
            "javax/sql/rowset/RowSetProvider",
            "newFactory",
            "()Ljavax/sql/rowset/RowSetFactory;",
            &[],
        )?
        .l()?;
    let rows_object = env
        .call_method(&factory, "createCachedRowSet", "()Ljavax/sql/rowset/CachedRowSet;", &[])?
        .l()?;
    let meta = env.new_object("javax/sql/rowset/RowSetMetaDataImpl", "()V", &[])?;
    env.call_method(&meta, "setColumnCount", "(I)V", &[JValue::Int(columns.len() as i32)])?;
    for (at, (name, kind)) in columns.iter().enumerate() {
        let at = at as i32 + 1;
        let name = env.new_string(name)?;
        env.call_method(
            &meta,
            "setColumnName",
            "(ILjava/lang/String;)V",
            &[JValue::Int(at), JValue::Object(&name)],
        )?;
        env.call_method(&meta, "setColumnType", "(II)V", &[JValue::Int(at), JValue::Int(*kind)])?;
    }
    env.call_method(
        &rows_object,
        "setMetaData",
        "(Ljavax/sql/RowSetMetaData;)V",
        &[JValue::Object(&meta)],
    )?;
    for row in rows.iter().rev() {
        env.call_method(&rows_object, "moveToInsertRow", "()V", &[])?;
        for (at, cell) in row.iter().enumerate() {
            let at = JValue::Int(at as i32 + 1);
            match cell {
                Cell::Null => env.call_method(&rows_object, "updateNull", "(I)V", &[at])?,
                Cell::Short(v) => {
                    env.call_method(&rows_object, "updateShort", "(IS)V", &[at, JValue::Short(*v)])?
                }
                Cell::Int(v) => {
                    env.call_method(&rows_object, "updateInt", "(II)V", &[at, JValue::Int(*v)])?
                }
                Cell::Long(v) => {
                    env.call_method(&rows_object, "updateLong", "(IJ)V", &[at, JValue::Long(*v)])?
                }
                Cell::Byte(v) => {
                    env.call_method(&rows_object, "updateByte", "(IB)V", &[at, JValue::Byte(*v)])?
                }
                Cell::Float(v) => {
                    env.call_method(&rows_object, "updateFloat", "(IF)V", &[at, JValue::Float(*v)])?
                }
                Cell::Double(v) => {
                    env.call_method(&rows_object, "updateDouble", "(ID)V", &[at, JValue::Double(*v)])?
                }
                Cell::Bool(v) => env.call_method(
                    &rows_object,
                    "updateBoolean",
                    "(IZ)V",
                    &[at, JValue::Bool(*v as u8)],
                )?,
                Cell::Text(v) => {
                    let text = env.new_string(v)?;
                    env.call_method(
                        &rows_object,
                        "updateString",
                        "(ILjava/lang/String;)V",
                        &[at, JValue::Object(&text)],
                    )?
                }
                Cell::Bytes(v) => {
                    let array = env.byte_array_from_slice(v)?;
                    env.call_method(&rows_object, "updateBytes", "(I[B)V", &[at, JValue::Object(&array)])?
                }
                Cell::Decimal(v) => {
                    let text = env.new_string(v)?;
                    let number = env.new_object(
                        "java/math/BigDecimal",
                        "(Ljava/lang/String;)V",
                        &[JValue::Object(&text)],
                    )?;
                    env.call_method(
                        &rows_object,
                        "updateBigDecimal",
                        "(ILjava/math/BigDecimal;)V",
                        &[at, JValue::Object(&number)],
                    )?
                }
                Cell::Timestamp(v) => {
                    let stamp = env.new_object("java/sql/Timestamp", "(J)V", &[JValue::Long(*v)])?;
                    env.call_method(
                        &rows_object,
                        "updateTimestamp",
                        "(ILjava/sql/Timestamp;)V",
                        &[at, JValue::Object(&stamp)],
                    )?
                }
            };
        }
        env.call_method(&rows_object, "insertRow", "()V", &[])?;
        env.call_method(&rows_object, "moveToCurrentRow", "()V", &[])?;
    }
    env.call_method(&rows_object, "beforeFirst", "()V", &[])?;
    Ok(rows_object)
}

// The stand-in driver: `slot` holds the statement that the connection hands
// out next.
struct Fake {
    vm: Arc<JavaVM>,
    slot: GlobalRef,
}

struct FakePool {
    slot: GlobalRef,
}

impl PoolFactory for FakePool {
    fn create(&self, vm: &JavaVM, _properties: &PropertySet) -> Result<GlobalRef, InitError> {
        let mut env = vm.attach_current_thread()?;
        let connection = proxy(&mut env, "java/sql/Connection", &self.slot, "get")?;
        let connections = holder(&mut env, &connection)?;
        let source = proxy(&mut env, "javax/sql/DataSource", &connections, "get")?;
        Ok(env.new_global_ref(source)?)
    }
}

struct PlainObjectPool;

impl PoolFactory for PlainObjectPool {
    fn create(&self, vm: &JavaVM, _properties: &PropertySet) -> Result<GlobalRef, InitError> {
        let mut env = vm.attach_current_thread()?;
        let object = env.new_object("java/lang/Object", "()V", &[])?;
        Ok(env.new_global_ref(object)?)
    }
}

impl Fake {
    fn new(vm: &Arc<JavaVM>) -> Fake {
        let mut env = vm.attach_current_thread().expect("attach");
        let slot = holder(&mut env, &JObject::null()).expect("slot");
        let slot = env.new_global_ref(slot).expect("slot");
        Fake { vm: vm.clone(), slot }
    }

    fn source(&self) -> DataSource {
        Builder::new()
            .vm(self.vm.clone())
            .jdbc_url("jdbc:sqlite::memory:")
            .pool_type(PoolType::Custom)
            .factory(Box::new(FakePool { slot: self.slot.clone() }))
            .build(&Vec::new())
            .expect("the data source is built")
    }

    fn hand_out(&self, env: &mut JNIEnv, statement: &JObject) {
        env.call_method(&self.slot, "set", "(Ljava/lang/Object;)V", &[JValue::Object(statement)])
            .expect("the slot is set");
    }

    // The next statement answers every update with `count`.
    fn serve_update(&self, count: i32) {
        let mut env = self.vm.attach_current_thread().expect("attach");
        let count = env.new_object("java/lang/Integer", "(I)V", &[JValue::Int(count)]).expect("count");
        let statement =
            proxy(&mut env, "java/sql/PreparedStatement", &count, "intValue").expect("statement");
        self.hand_out(&mut env, &statement);
    }

    // The next statement answers every query with these rows.
    fn serve_rows(&self, columns: &[(&str, i32)], rows: &[Vec<Cell>]) {
        let mut env = self.vm.attach_current_thread().expect("attach");
        let rows = row_set(&mut env, columns, rows).expect("rows");
        let rows = holder(&mut env, &rows).expect("holder");
        let statement = proxy(&mut env, "java/sql/PreparedStatement", &rows, "get").expect("statement");
        self.hand_out(&mut env, &statement);
    }
}

#[test]
fn hikari_test() -> Result<(), JdbcError> {
    let vm = start();
    let fake = Fake::new(&vm);
    let datasource = fake.source();
    let conn = datasource.get_connection()?;

    let data = ["Tom", "Jerry", "Spike"];

    // Create Table
    fake.serve_update(0);
    conn.prepare_statement("create table test(id primary key,name VARCHAR(255));")?
        .execute_update()?;

    // Insert Data
    fake.serve_update(1);
    for i in 0..data.len() {
        let mut statement = conn
            .prepare_statement("insert into test(id,name) values(?,?);")?
            .set_int(1, i as i32 + 1)?
            .set_string(2, data[i])?;
        let row = statement.execute_update()?;
        assert_eq!(row, 1);
    }

    // Read Data
    fake.serve_rows(
        &[("id", INTEGER), ("name", VARCHAR)],
        &[
            vec![Cell::Int(1), Cell::Text("Tom")],
            vec![Cell::Int(2), Cell::Text("Jerry")],
            vec![Cell::Int(3), Cell::Text("Spike")],
        ],
    );
    let mut statement = conn.prepare_statement("select id,name from test")?;
    let mut result = statement.execute_query()?;
    let meta_data = result.get_meta_data()?;

    let columns = meta_data.get_columns_name()?;
    assert_eq!(columns, vec!["id", "name"]);

    for i in 0..data.len() {
        let row = i as i32 + 1;
        let id = row;
        let name = data[i];
        assert_eq!(result.next()?, true);
        // Get Row Number
        assert_eq!(result.get_row()?, row);
        // get column 1 by column index
        assert_eq!(result.get_int(1)?, Some(id));
        assert_eq!(result.get_long(1)?, Some(id as i64));
        assert_eq!(result.get_float(1)?, Some((id as f32).to_bits()));
        assert_eq!(result.was_null()?, false);
        // get column 1 by column label
        assert_eq!(result.get_int_by_label("id")?, Some(id));
        // get column 2
        assert_eq!(result.get_string(2)?, Some(name.into()));
        assert_eq!(result.get_string_by_label("name")?, Some(name.into()));
        assert_eq!(result.was_null()?, false);
    }

    Ok(())
}

#[test]
fn the_cursor_stays_exhausted_after_the_last_row() -> Result<(), JdbcError> {
    let vm = start();
    let fake = Fake::new(&vm);
    let datasource = fake.source();
    let conn = datasource.get_connection()?;
    fake.serve_rows(&[("id", INTEGER)], &[vec![Cell::Int(7)], vec![Cell::Int(8)]]);
    let mut statement = conn.prepare_statement("select id from test")?;
    let mut result = statement.execute_query()?;
    assert_eq!(result.cursor(), CursorState::BeforeFirst);
    assert_eq!(result.next()?, true);
    assert_eq!(result.cursor(), CursorState::OnRow(1));
    assert_eq!(result.next()?, true);
    assert_eq!(result.cursor(), CursorState::OnRow(2));
    assert_eq!(result.get_int(1)?, Some(8));
    assert_eq!(result.next()?, false);
    assert_eq!(result.cursor(), CursorState::Exhausted);
    // The row set itself would throw from here on.
    assert_eq!(result.next()?, false);
    assert_eq!(result.next()?, false);
    assert_eq!(result.cursor(), CursorState::Exhausted);
    Ok(())
}

#[test]
fn an_empty_result_is_exhausted_at_once() -> Result<(), JdbcError> {
    let vm = start();
    let fake = Fake::new(&vm);
    let datasource = fake.source();
    let conn = datasource.get_connection()?;
    fake.serve_rows(&[("id", INTEGER), ("name", VARCHAR), ("more", BIGINT)], &[]);
    let mut statement = conn.prepare_statement("select id,name,more from test")?;
    let mut result = statement.execute_query()?;
    assert_eq!(result.next()?, false);
    assert_eq!(result.next()?, false);
    let meta = result.get_meta_data()?;
    assert_eq!(meta.get_column_count()?, 3);
    assert_eq!(meta.get_column_name(1)?, "id");
    assert_eq!(meta.get_column_name(2)?, "name");
    assert_eq!(meta.get_column_name(3)?, "more");
    assert_eq!(meta.get_columns_name()?, vec!["id", "name", "more"]);
    assert!(matches!(meta.get_column_name(0), Err(JdbcError::JniError(_))));
    Ok(())
}

#[test]
fn base_type_test() -> Result<(), JdbcError> {
    let vm = start();
    let fake = Fake::new(&vm);
    let ds = fake.source();
    let conn = ds.get_connection()?;

    fake.serve_rows(&[("value", SMALLINT)], &[vec![Cell::Short(i16::MAX)]]);
    let mut statement = conn
        .prepare_statement("select ? as value")?
        .set_short(1, i16::MAX)?;
    let mut result = statement.execute_query()?;
    assert_eq!(result.next()?, true);
    assert_eq!(result.get_short(1)?, Some(i16::MAX));
    assert_eq!(result.get_short_by_label("value")?, Some(i16::MAX));

    fake.serve_rows(&[("value", INTEGER)], &[vec![Cell::Int(i32::MAX)]]);
    let mut statement = conn
        .prepare_statement("select ? as value")?
        .set_int(1, i32::MAX)?;
    let mut result = statement.execute_query()?;
    assert_eq!(result.next()?, true);
    assert_eq!(result.get_int(1)?, Some(i32::MAX));
    assert_eq!(result.get_int_by_label("value")?, Some(i32::MAX));

    fake.serve_rows(&[("value", BIGINT)], &[vec![Cell::Long(i64::MAX)]]);
    let mut statement = conn
        .prepare_statement("select ? as value")?
        .set_long(1, i64::MAX)?;
    let mut result = statement.execute_query()?;
    assert_eq!(result.next()?, true);
    assert_eq!(result.get_long(1)?, Some(i64::MAX));
    assert_eq!(result.get_long_by_label("value")?, Some(i64::MAX));

    fake.serve_rows(&[("value", REAL)], &[vec![Cell::Float(f32::MAX)]]);
    let mut statement = conn
        .prepare_statement("select ? as value")?
        .set_float(1, f32::MAX.to_bits())?;
    let mut result = statement.execute_query()?;
    assert_eq!(result.next()?, true);
    assert_eq!(result.get_float(1)?.map(f32::from_bits), Some(f32::MAX));
    assert_eq!(result.get_float_by_label("value")?.map(f32::from_bits), Some(f32::MAX));

    fake.serve_rows(&[("value", DOUBLE)], &[vec![Cell::Double(f64::MAX)]]);
    let mut statement = conn
        .prepare_statement("select ? as value")?
        .set_double(1, f64::MAX.to_bits())?;
    let mut result = statement.execute_query()?;
    assert_eq!(result.next()?, true);
    assert_eq!(result.get_double(1)?.map(f64::from_bits), Some(f64::MAX));
    assert_eq!(result.get_double_by_label("value")?.map(f64::from_bits), Some(f64::MAX));

    fake.serve_rows(&[("value", BOOLEAN)], &[vec![Cell::Bool(true)]]);
    let mut statement = conn
        .prepare_statement("select ? as value")?
        .set_boolean(1, true)?;
    let mut result = statement.execute_query()?;
    assert_eq!(result.next()?, true);
    assert_eq!(result.get_boolean(1)?, Some(true));
    assert_eq!(result.get_boolean_by_label("value")?, Some(true));

    // Byte
    fake.serve_rows(&[("value", TINYINT)], &[vec![Cell::Byte(-1)]]);
    let mut statement = conn
        .prepare_statement("select ? as value")?
        .set_byte(1, u8::MAX)?;
    let mut result = statement.execute_query()?;
    assert_eq!(result.next()?, true);
    assert_eq!(result.get_byte(1)?, Some(u8::MAX));
    assert_eq!(result.get_byte_by_label("value")?, Some(u8::MAX));

    Ok(())
}

#[test]
fn base_type_test_null() -> Result<(), JdbcError> {
    let vm = start();
    let fake = Fake::new(&vm);
    let ds = fake.source();
    let conn = ds.get_connection()?;

    fake.serve_rows(&[("NULL", INTEGER)], &[vec![Cell::Null]]);
    let mut statement = conn.prepare_statement("select NULL")?;
    let mut result = statement.execute_query()?;
    assert_eq!(result.next()?, true);
    assert_eq!(result.get_short(1)?, None);
    assert_eq!(result.get_int(1)?, None);
    assert_eq!(result.get_long(1)?, None);
    assert_eq!(result.get_float(1)?, None);
    assert_eq!(result.get_double(1)?, None);
    assert_eq!(result.get_boolean(1)?, None);
    assert_eq!(result.get_byte(1)?, None);
    assert_eq!(result.was_null()?, true);
    Ok(())
}

#[test]
fn reference_type_test() -> Result<(), JdbcError> {
    let vm = start();
    let fake = Fake::new(&vm);
    let ds = fake.source();
    let conn = ds.get_connection()?;

    fake.serve_rows(&[("?", VARCHAR)], &[vec![Cell::Text("value")]]);
    let mut statement = conn.prepare_statement("select ?")?.set_string(1, "value")?;
    let mut result = statement.execute_query()?;
    assert_eq!(result.next()?, true);
    assert_eq!(result.get_string(1)?, Some("value".into()));

    // bytes
    fake.serve_rows(&[("value", VARBINARY)], &[vec![Cell::Bytes("hello world".as_bytes())]]);
    let mut statement = conn
        .prepare_statement("select ? as value")?
        .set_bytes(1, "hello world".as_bytes())?;
    let mut result = statement.execute_query()?;
    assert_eq!(result.next()?, true);
    assert_eq!(result.get_bytes(1)?, Some("hello world".into()));
    assert_eq!(result.get_bytes_by_label("value")?, Some("hello world".into()));

    Ok(())
}

#[test]
fn test_time() -> Result<(), JdbcError> {
    let vm = start();
    let fake = Fake::new(&vm);
    let ds = fake.source();
    let conn = ds.get_connection()?;
    let now_timestamp = Utc::now().timestamp_millis();
    fake.serve_rows(&[("now", TIMESTAMP)], &[vec![Cell::Timestamp(now_timestamp)]]);
    let mut statement =
        conn.prepare_statement(r#"select strftime("%Y-%m-%d %H:%M:%f", "now") as now"#)?;
    let mut result = statement.execute_query()?;

    assert_eq!(result.next()?, true);
    let timestamp = result.get_timestamp_millis(1)?.unwrap_or(0);
    assert!((now_timestamp - timestamp).abs() < 1000);
    let timestamp = result.get_timestamp_millis_by_label("now")?.unwrap_or(0);
    assert!((now_timestamp - timestamp).abs() < 1000);

    Ok(())
}

#[test]
fn a_timestamp_column_reads_as_a_calendar_value() -> Result<(), JdbcError> {
    let vm = start();
    let fake = Fake::new(&vm);
    let ds = fake.source();
    let conn = ds.get_connection()?;
    let instant = 1_700_000_000_123i64;
    fake.serve_rows(
        &[("at", TIMESTAMP), ("none", TIMESTAMP)],
        &[vec![Cell::Timestamp(instant), Cell::Null]],
    );
    let mut statement = conn.prepare_statement("select at, none")?;
    let mut result = statement.execute_query()?;
    assert!(result.next()?);

    let millis = result.get_timestamp_millis(1)?;
    let made = millis.and_then(|millis| Utc.timestamp_millis_opt(millis).earliest());
    let at = calendar_value(millis, made)?;
    assert_eq!(at.map(|at| at.timestamp_millis()), Some(instant));

    let millis = result.get_timestamp_millis_by_label("none")?;
    let made = millis.and_then(|millis| Utc.timestamp_millis_opt(millis).earliest());
    assert!(calendar_value(millis, made)?.is_none());

    // An instant that no calendar can place.
    let made = Utc.timestamp_millis_opt(i64::MAX).earliest();
    assert!(made.is_none());
    assert!(matches!(calendar_value(Some(i64::MAX), made), Err(JdbcError::ImpossibleError)));
    Ok(())
}

#[test]
fn reference_type_test_null() -> Result<(), JdbcError> {
    let vm = start();
    let fake = Fake::new(&vm);
    let ds = fake.source();
    let conn = ds.get_connection()?;

    fake.serve_rows(&[("NULL", VARBINARY)], &[vec![Cell::Null]]);
    let mut statement = conn.prepare_statement("select NULL")?;
    let mut result = statement.execute_query()?;
    assert_eq!(result.next()?, true);

    assert_eq!(result.get_string(1)?, None);
    assert_eq!(result.get_timestamp_millis(1)?, None);
    assert_eq!(result.get_bytes(1)?, None);
    assert!(result.get_binary_stream(1)?.is_none());

    assert_eq!(result.was_null()?, true);
    Ok(())
}

#[test]
fn a_null_column_reads_as_nothing_by_label_too() -> Result<(), JdbcError> {
    let vm = start();
    let fake = Fake::new(&vm);
    let ds = fake.source();
    let conn = ds.get_connection()?;

    fake.serve_rows(
        &[("gone", DECIMAL), ("here", INTEGER)],
        &[vec![Cell::Null, Cell::Int(5)]],
    );
    let mut statement = conn.prepare_statement("select NULL as gone, 5 as here")?;
    let mut result = statement.execute_query()?;
    assert_eq!(result.next()?, true);
    assert_eq!(result.get_big_decimal(1)?, None);
    assert_eq!(result.was_null()?, true);
    assert_eq!(result.get_big_decimal_by_label("gone")?, None);
    assert_eq!(result.get_string_by_label("gone")?, None);
    assert_eq!(result.get_int_by_label("gone")?, None);
    assert_eq!(result.get_long_by_label("gone")?, None);
    assert_eq!(result.was_null()?, true);
    assert_eq!(result.get_int_by_label("here")?, Some(5));
    assert_eq!(result.was_null()?, false);
    assert_eq!(result.get_short(2)?, Some(5));
    assert_eq!(result.get_byte_by_label("here")?, Some(5));
    assert_eq!(result.get_string(2)?, Some("5".to_string()));
    Ok(())
}

#[test]
fn test_big_decimal() -> Result<(), JdbcError> {
    let vm = start();
    let mut env = vm.attach_current_thread()?;
    let num = "-1290000000000000000000000.4167500";
    let rust_num = num.parse().unwrap_or(BigDecimal::from(0));
    let java_string = env.new_string(num)?;
    let java_num = env.new_object(
        "java/math/BigDecimal",
        "(Ljava/lang/String;)V",
        &[JValue::Object(&java_string)],
    )?;

    let java_num = jdbc::util::to_string(&mut env, &java_num)?;
    assert_eq!(rust_num.to_string(), java_num);

    let fake = Fake::new(&vm);
    let ds = fake.source();
    let conn = ds.get_connection()?;
    fake.serve_rows(&[("value", DECIMAL)], &[vec![Cell::Decimal(num)]]);
    let mut statement = conn
        .prepare_statement("select ? as value")?
        .set_big_decimal(1, &rust_num)?;
    let mut result = statement.execute_query()?;
    assert_eq!(result.next()?, true);
    assert_eq!(result.get_string(1)?, Some(num.into()));
    assert_eq!(result.get_big_decimal(1)?.as_ref(), Some(&rust_num));
    assert_eq!(
        result.get_big_decimal_by_label("value")?.as_ref(),
        Some(&rust_num)
    );
    Ok(())
}

#[test]
fn test_create() -> Result<(), InitError> {
    // create a jvm
    let vm = JvmBuilder::new()
        .vm_option("-Duser.timezone=UTC")
        .xmx_mb(128)
        .build(&Vec::new())
        .expect("init jvm error.");

    assert!(matches!(
        // Create jvm again
        JvmBuilder::new().build(&Vec::new()),
        Err(InitError::StartJvmError(StartJvmError::Create(
            jni::errors::Error::JniCall(JniError::AlreadyCreated),
        )))
    ));

    assert!(matches!(
        // Create Datasource
        Builder::new().jdbc_url("jdbc:sqlite::memory:").build(&Vec::new()),
        Err(InitError::StartJvmError(StartJvmError::Create(
            jni::errors::Error::JniCall(JniError::AlreadyCreated),
        )))
    ));

    let vm = Arc::new(vm);
    let fake = Fake::new(&vm);

    // Shared VM
    let first = Builder::new()
        .jdbc_url("jdbc:sqlite::memory:")
        .vm(vm.clone())
        .pool_type(PoolType::Custom)
        .factory(Box::new(FakePool { slot: fake.slot.clone() }))
        .build(&Vec::new())?;
    let second = Builder::new()
        .jdbc_url("jdbc:sqlite::memory:")
        .vm(vm.clone())
        .pool_type(PoolType::Custom)
        .factory(Box::new(FakePool { slot: fake.slot.clone() }))
        .build(&Vec::new())?;
    assert!(first.get_connection().is_ok());
    assert!(second.get_connection().is_ok());

    Ok(())
}

#[test]
fn the_custom_pool_needs_a_factory() {
    let vm = start();
    let built = Builder::new().vm(vm.clone()).pool_type(PoolType::Custom).build(&Vec::new());
    assert!(matches!(built, Err(InitError::NoFactory)));
    let listing = vec![ClasspathEntry { path: Some("libs/a.jar".to_string()), is_dir: false }];
    let built = Builder::new()
        .pool_type(PoolType::Custom)
        .vm(vm)
        .property("maximumPoolSize", "2")
        .build(&listing);
    assert!(matches!(built, Err(InitError::NoFactory)));
}

#[test]
fn a_pool_object_without_the_capability_is_refused() {
    let vm = start();
    let built = Builder::new()
        .vm(vm)
        .pool_type(PoolType::Custom)
        .factory(Box::new(PlainObjectPool))
        .build(&Vec::new());
    assert!(matches!(built, Err(InitError::IsNotDatasource)));
}

#[test]
fn the_default_pool_is_missing_without_its_archive() {
    let vm = start();
    let built = Builder::new().vm(vm).jdbc_url("jdbc:sqlite::memory:").build(&Vec::new());
    assert!(matches!(built, Err(InitError::JniError(_))));
}

#[test]
fn a_plain_statement_runs_the_text_it_is_given() -> Result<(), JdbcError> {
    let vm = start();
    let fake = Fake::new(&vm);
    let ds = fake.source();
    let conn = ds.get_connection()?;
    fake.serve_update(3);
    let mut statement = conn.create_statement()?;
    assert_eq!(statement.execute_update("update test set name = 'x'")?, 3);
    drop(statement);

    fake.serve_rows(&[("name", VARCHAR)], &[vec![Cell::Text("Tom")]]);
    let mut statement = conn.create_statement()?;
    {
        let mut result = statement.execute_query("select name from test where id=1")?;
        assert!(result.next()?);
        let value = result.get_string(1)?.unwrap_or("".into());
        assert_eq!(value, "Tom");
    }
    drop(statement);

    fake.serve_rows(&[("name", VARCHAR)], &[vec![Cell::Text("Jerry")]]);
    let mut prepared = conn.prepare_statement("select 1")?;
    let mut result = IStatement::execute_query(&mut prepared, "select name from test where id=2")?;
    assert!(result.next()?);
    assert_eq!(result.get_string_by_label("name")?, Some("Jerry".to_string()));
    Ok(())
}

#[test]
fn a_bound_stream_is_fed_through_its_writer() -> Result<(), JdbcError> {
    let vm = start();
    let fake = Fake::new(&vm);
    let ds = fake.source();
    let conn = ds.get_connection()?;
    let bytes = "hello world".as_bytes();
    fake.serve_rows(&[("?", VARBINARY)], &[vec![Cell::Bytes(bytes)]]);
    let statement = conn.prepare_statement("select ?")?;
    // The writer is fed before the stream is bound, as a relay would.
    let (mut writer, reader) = statement.open_binary_stream()?;
    assert_eq!(writer.write(bytes)?, bytes.len());
    drop(writer);
    let mut statement = statement.set_binary_stream(1, reader)?;
    let mut result = statement.execute_query()?;
    assert!(result.next()?);
    let input = result.get_binary_stream(1)?;
    assert!(input.is_some());
    if let Some(mut input) = input {
        let mut buf = [0u8; 64];
        let len = input.read(&mut buf)?;
        assert_eq!(len, bytes.len());
        assert_eq!(&buf[..len], b"hello world");
        assert_eq!(input.read(&mut buf)?, 0);
    }
    let by_label = result.get_binary_stream_by_label("?")?;
    assert!(by_label.is_some());
    Ok(())
}

#[test]
fn the_two_ends_of_a_stream_are_connected_before_it_is_bound() -> Result<(), JdbcError> {
    let vm = start();
    let fake = Fake::new(&vm);
    let ds = fake.source();
    let conn = ds.get_connection()?;
    fake.serve_rows(&[("n", INTEGER)], &[vec![Cell::Int(1)]]);
    let statement = conn.prepare_statement("select ?")?;
    let (mut writer, mut reader) = statement.open_binary_stream()?;
    assert_eq!(writer.write(b"early")?, 5);
    // What a driver would read while it binds is there already.
    let mut buf = [0u8; 16];
    assert_eq!(reader.read(&mut buf)?, 5);
    assert_eq!(&buf[..5], b"early");
    drop(writer);
    assert_eq!(reader.read(&mut buf)?, 0);
    let mut statement = statement.set_binary_stream(1, reader)?;
    assert!(statement.execute_query()?.next()?);
    Ok(())
}

#[test]
fn a_failure_of_the_driver_is_a_runtime_failure() -> Result<(), JdbcError> {
    let vm = start();
    let fake = Fake::new(&vm);
    let ds = fake.source();
    let conn = ds.get_connection()?;
    fake.serve_rows(&[("id", INTEGER)], &[vec![Cell::Int(1)]]);
    let mut statement = conn.prepare_statement("select id from test")?;
    // The stand-in answers an update with a row set, which is no number.
    assert!(matches!(statement.execute_update(), Err(JdbcError::JniError(_))));
    vm.attach_current_thread()?.exception_clear()?;
    let mut result = statement.execute_query()?;
    assert!(result.next()?);
    assert!(matches!(result.get_int(5), Err(JdbcError::JniError(_))));
    vm.attach_current_thread()?.exception_clear()?;
    assert_eq!(result.get_int(1)?, Some(1));
    assert!(matches!(result.get_int_by_label("none"), Err(JdbcError::JniError(_))));
    vm.attach_current_thread()?.exception_clear()?;
    let array = {
        let mut env = vm.attach_current_thread()?;
        let array = vec_to_bytes_array(&mut env, &[1, 2, 3])?;
        env.new_global_ref(array)?
    };
    assert!(!array.is_null());
    Ok(())
}

fn insert_one(ds: Arc<DataSource>) -> bool {
    let conn = ds.get_connection();
    match conn {
        Ok(conn) => matches!(
            conn.prepare_statement("insert into test(id,name) values(1,'Tom')")
                .and_then(|mut statement| statement.execute_update()),
            Ok(1)
        ),
        Err(_) => false,
    }
}

#[test]
fn threads_test() -> Result<(), JdbcError> {
    let vm = start();
    let fake = Fake::new(&vm);
    fake.serve_update(1);

    let ds = Arc::new(fake.source());
    let ds1 = ds.clone();
    let workers = tokio::runtime::Builder::new_current_thread().build().expect("workers");
    let h1 = workers.spawn_blocking(move || insert_one(ds));
    let h2 = workers.spawn_blocking(move || insert_one(ds1));

    assert_eq!(
        workers.block_on(h1).expect("Couldn't join on the associated thread"),
        true
    );
    assert_eq!(
        workers.block_on(h2).expect("Couldn't join on the associated thread"),
        true
    );

    Ok(())
}

fn query(ds: Arc<DataSource>) -> Result<(), JdbcError> {
    let conn = ds.get_connection()?;
    let count = conn
        .prepare_statement(r#"insert into test(id,name) values(1,"Tom")"#)?
        .execute_update()?;
    assert_eq!(count, 1);
    conn.create_statement()?
        .execute_update("create table test(id primary key,name VARCHAR(255))")?;
    Ok(())
}

#[test]
fn async_test() {
    let vm = start();
    let fake = Fake::new(&vm);
    fake.serve_update(1);
    let ds = Arc::new(fake.source());
    let ds1 = ds.clone();
    let workers = tokio::runtime::Builder::new_current_thread().build().expect("workers");
    let j1 = workers.spawn_blocking(move || query(ds));
    let j2 = workers.spawn_blocking(move || query(ds1));
    assert!(matches!(workers.block_on(j1), Ok(Ok(()))));
    assert!(matches!(workers.block_on(j2), Ok(Ok(()))));

    fake.serve_rows(&[("name", VARCHAR)], &[vec![Cell::Text("Tom")]]);
    let ds = Arc::new(fake.source());
    let read = workers.spawn_blocking(move || -> Result<String, JdbcError> {
        let conn = ds.get_connection()?;
        let mut statement = conn.prepare_statement("select name from test where id=1")?;
        let mut result = statement.execute_query()?;
        assert!(result.next()?);
        Ok(result.get_string(1)?.unwrap_or("".into()))
    });
    assert!(matches!(workers.block_on(read), Ok(Ok(value)) if value == "Tom"));
}
