use std::sync::Arc;

use bigdecimal::BigDecimal;
use jdbc::errors::JdbcError;
use jdbc::method::{call_by_name, check_shape, Arguments, MethodIdentity};
use jdbc::util::cast::{
    array_cast_bytes, obj_cast_string, value_cast_big_decimal, value_cast_bytes,
    value_cast_input_stream, value_cast_string, value_cast_timestamp_millis, vec_to_bytes_array,
};
use jdbc::util::{auto_close, delete_value, get_class_name, to_string};
use jdbc::value::{BoxedValue, ValueKind};
use jdbc::wrapper::io::OutputStream;
use jdbc::wrapper::properties::Properties;
use jdbc::JvmBuilder;
use jni::objects::{JObject, JValue};
use jni::JavaVM;

fn start() -> Arc<JavaVM> {
    Arc::new(JvmBuilder::new().xmx_mb(128).build(&Vec::new()).expect("the runtime starts"))
}

#[test]
fn test_byte() -> Result<(), JdbcError> {
    let vm = start();
    let mut env = vm.attach_current_thread()?;

    let string = "hello world";
    let java_string: JObject = env.new_string(string)?.into();
    let bytes = env.call_method(&java_string, "getBytes", "()[B", &[])?;
    env.delete_local_ref(java_string)?;
    let bytes = value_cast_bytes(&mut env, BoxedValue::Object(bytes.l()?))?;
    assert_eq!(bytes, string.as_bytes());

    let array = vec_to_bytes_array(&mut env, &bytes)?;
    let java_string = env.new_object("java/lang/String", "([B)V", &[JValue::Object(&array)])?;
    let java_string = obj_cast_string(&mut env, java_string)?;
    assert_eq!(java_string, "hello world");

    Ok(())
}

#[test]
fn a_decimal_reads_the_same_on_both_sides() -> Result<(), JdbcError> {
    let vm = start();
    let mut env = vm.attach_current_thread()?;
    let num = "-1290000000000000000000000.4167500";
    let rust_num = num.parse().unwrap_or(BigDecimal::from(0));
    let java_string = env.new_string(num)?;
    let java_num = env.new_object(
        "java/math/BigDecimal",
        "(Ljava/lang/String;)V",
        &[JValue::Object(&java_string)],
    )?;

    let text = to_string(&mut env, &java_num)?;
    assert_eq!(rust_num.to_string(), text);

    let back = value_cast_big_decimal(&mut env, BoxedValue::Object(java_num))?;
    assert_eq!(back, rust_num);
    Ok(())
}

#[test]
fn a_text_that_is_no_decimal_reads_as_zero() -> Result<(), JdbcError> {
    let vm = start();
    let mut env = vm.attach_current_thread()?;
    let not_a_number: JObject = env.new_string("not a number")?.into();
    let value = value_cast_big_decimal(&mut env, BoxedValue::Object(not_a_number))?;
    assert_eq!(value, BigDecimal::from(0));
    assert!(matches!(
        value_cast_big_decimal(&mut env, BoxedValue::Int(5)),
        Err(JdbcError::WrongType { expected: ValueKind::Object, found: ValueKind::Int })
    ));
    assert_eq!(jdbc::decimal::decimal_or_zero("12.50"), "12.50".parse::<BigDecimal>().unwrap());
    assert_eq!(jdbc::decimal::decimal_or_zero(""), BigDecimal::from(0));
    assert_eq!(jdbc::decimal::decimal_or_zero("1e3"), BigDecimal::from(1000));
    Ok(())
}

#[test]
fn an_object_describes_itself() -> Result<(), JdbcError> {
    let vm = start();
    let mut env = vm.attach_current_thread()?;
    let int = env.new_object("java/lang/Integer", "(I)V", &[JValue::Int(42)])?;
    assert_eq!(to_string(&mut env, &int)?, "42");
    assert_eq!(get_class_name(&mut env, &int)?, "java.lang.Integer");
    let text: JObject = env.new_string("grüße")?.into();
    assert_eq!(get_class_name(&mut env, &text)?, "java.lang.String");
    assert_eq!(to_string(&mut env, &text)?, "grüße");
    Ok(())
}

#[test]
fn a_string_object_becomes_a_native_string() -> Result<(), JdbcError> {
    let vm = start();
    let mut env = vm.attach_current_thread()?;
    let text: JObject = env.new_string("value")?.into();
    assert_eq!(value_cast_string(&mut env, BoxedValue::Object(text))?, "value");
    let empty: JObject = env.new_string("")?.into();
    assert_eq!(obj_cast_string(&mut env, empty)?, "");
    assert!(matches!(
        value_cast_string(&mut env, BoxedValue::Int(1)),
        Err(JdbcError::WrongType { expected: ValueKind::Object, found: ValueKind::Int })
    ));
    Ok(())
}

#[test]
fn a_null_string_is_a_runtime_failure() -> Result<(), JdbcError> {
    let vm = start();
    let mut env = vm.attach_current_thread()?;
    let got = value_cast_string(&mut env, BoxedValue::Object(JObject::null()));
    assert!(matches!(got, Err(JdbcError::JniError(_))));
    Ok(())
}

#[test]
fn a_date_reads_as_milliseconds() -> Result<(), JdbcError> {
    let vm = start();
    let mut env = vm.attach_current_thread()?;
    let date = env.new_object("java/util/Date", "(J)V", &[JValue::Long(1_700_000_000_123)])?;
    assert_eq!(
        value_cast_timestamp_millis(&mut env, BoxedValue::Object(date))?,
        1_700_000_000_123
    );
    let stamp = env.new_object("java/sql/Timestamp", "(J)V", &[JValue::Long(-5)])?;
    assert_eq!(value_cast_timestamp_millis(&mut env, BoxedValue::Object(stamp))?, -5);
    assert!(matches!(
        value_cast_timestamp_millis(&mut env, BoxedValue::Long(7)),
        Err(JdbcError::WrongType { expected: ValueKind::Object, found: ValueKind::Long })
    ));
    Ok(())
}

#[test]
fn bytes_cross_in_both_directions() -> Result<(), JdbcError> {
    let vm = start();
    let mut env = vm.attach_current_thread()?;
    let bytes: Vec<u8> = (0..=255u8).collect();
    let array = vec_to_bytes_array(&mut env, &bytes)?;
    assert_eq!(array_cast_bytes(&mut env, array)?, bytes);
    let array = vec_to_bytes_array(&mut env, &[])?;
    assert_eq!(array_cast_bytes(&mut env, array)?, Vec::<u8>::new());
    assert!(matches!(
        value_cast_bytes(&mut env, BoxedValue::Int(3)),
        Err(JdbcError::WrongType { expected: ValueKind::Object, found: ValueKind::Int })
    ));
    assert!(matches!(
        value_cast_bytes(&mut env, BoxedValue::Void),
        Err(JdbcError::WrongType { expected: ValueKind::Object, found: ValueKind::Void })
    ));
    Ok(())
}

#[test]
fn releasing_a_primitive_asks_nothing() -> Result<(), JdbcError> {
    let vm = start();
    let mut env = vm.attach_current_thread()?;
    assert!(delete_value(&mut env, BoxedValue::Int(1)).is_ok());
    assert!(delete_value(&mut env, BoxedValue::Void).is_ok());
    let text: JObject = env.new_string("x")?.into();
    assert!(delete_value(&mut env, BoxedValue::Object(text)).is_ok());
    Ok(())
}

#[test]
fn a_method_is_resolved_once_and_called_by_its_identity() -> Result<(), JdbcError> {
    let vm = start();
    let mut env = vm.attach_current_thread()?;
    let class: JObject = env.find_class("java/lang/String")?.into();
    let length = MethodIdentity::resolve(&mut env, &class, "length", "()I", ValueKind::Int)?;
    assert_eq!(length.declared_kind(), ValueKind::Int);
    assert_eq!(length.name(), "length");
    assert_eq!(length.signature(), "()I");
    let char_at = MethodIdentity::resolve(&mut env, &class, "charAt", "(I)C", ValueKind::Char)?;
    let concat = MethodIdentity::resolve(
        &mut env,
        &class,
        "concat",
        "(Ljava/lang/String;)Ljava/lang/String;",
        ValueKind::Object,
    )?;

    let hello: JObject = env.new_string("hello")?.into();
    assert!(matches!(length.invoke(&mut env, &hello, Arguments::Zero)?, BoxedValue::Int(5)));
    assert_eq!(
        jdbc::util::call::get_int(&mut env, &hello, &length)?,
        5
    );
    let at = char_at.invoke(&mut env, &hello, Arguments::One(BoxedValue::Int(1)))?;
    assert!(matches!(at, BoxedValue::Char(101)));
    let world: JObject = env.new_string(" world")?.into();
    let joined = concat.invoke(&mut env, &hello, Arguments::One(BoxedValue::Object(&world)))?;
    assert_eq!(joined.kind(), ValueKind::Object);
    assert_eq!(value_cast_string(&mut env, joined)?, "hello world");

    let empty: JObject = env.new_string("")?.into();
    let is_empty = MethodIdentity::resolve(&mut env, &class, "isEmpty", "()Z", ValueKind::Bool)?;
    assert!(jdbc::util::call::get_bool(&mut env, &empty, &is_empty)?);
    assert!(!jdbc::util::call::get_bool(&mut env, &hello, &is_empty)?);
    assert!(matches!(
        jdbc::util::call::get_int(&mut env, &hello, &is_empty),
        Err(JdbcError::ImpossibleError)
    ));
    Ok(())
}

#[test]
fn a_value_of_another_shape_than_declared_is_impossible() -> Result<(), JdbcError> {
    let vm = start();
    let mut env = vm.attach_current_thread()?;
    let class: JObject = env.find_class("java/lang/String")?.into();
    let length = MethodIdentity::resolve(&mut env, &class, "length", "()I", ValueKind::Long)?;
    let hello: JObject = env.new_string("hello")?.into();
    assert!(matches!(length.invoke(&mut env, &hello, Arguments::Zero), Err(JdbcError::ImpossibleError)));
    assert!(matches!(
        call_by_name(&mut env, &hello, "length", "()I", ValueKind::Int, Arguments::Zero),
        Ok(BoxedValue::Int(5))
    ));
    assert!(matches!(
        call_by_name(&mut env, &hello, "length", "()I", ValueKind::Object, Arguments::Zero),
        Err(JdbcError::ImpossibleError)
    ));
    assert!(matches!(
        check_shape::<()>(BoxedValue::Short(1), ValueKind::Short),
        Ok(BoxedValue::Short(1))
    ));
    assert!(matches!(
        check_shape::<()>(BoxedValue::Void, ValueKind::Short),
        Err(JdbcError::ImpossibleError)
    ));
    Ok(())
}

#[test]
fn a_method_that_the_class_lacks_is_found_out_at_resolution() -> Result<(), JdbcError> {
    let vm = start();
    let mut env = vm.attach_current_thread()?;
    let class: JObject = env.find_class("java/lang/String")?.into();
    let missing = MethodIdentity::resolve(&mut env, &class, "length", "()J", ValueKind::Long);
    assert!(missing.is_err());
    Ok(())
}

#[test]
fn an_argument_of_the_wrong_shape_is_refused() -> Result<(), JdbcError> {
    let vm = start();
    let mut env = vm.attach_current_thread()?;
    let class: JObject = env.find_class("java/lang/String")?.into();
    let char_at = MethodIdentity::resolve(&mut env, &class, "charAt", "(I)C", ValueKind::Char)?;
    let hello: JObject = env.new_string("hello")?.into();
    assert!(char_at.invoke(&mut env, &hello, Arguments::One(BoxedValue::Long(1))).is_err());
    assert!(char_at.invoke(&mut env, &hello, Arguments::Zero).is_err());
    assert!(char_at
        .invoke(&mut env, &hello, Arguments::Two(BoxedValue::Int(1), BoxedValue::Int(2)))
        .is_err());
    Ok(())
}

#[test]
fn properties_reach_the_managed_side() -> Result<(), JdbcError> {
    let vm = start();
    let mut env = vm.attach_current_thread()?;
    let mut props = Properties::new(&mut env)?;
    props.set_property(&mut env, "jdbcUrl", "jdbc:sqlite::memory:")?;
    props.set_property(&mut env, "maximumPoolSize", "4")?;
    props.set_property(&mut env, "maximumPoolSize", "8")?;
    let object = props.into_object();
    let key = env.new_string("maximumPoolSize")?;
    let value = env
        .call_method(
            &object,
            "getProperty",
            "(Ljava/lang/String;)Ljava/lang/String;",
            &[JValue::Object(&key)],
        )?
        .l()?;
    assert_eq!(obj_cast_string(&mut env, value)?, "8");
    let size = env.call_method(&object, "size", "()I", &[])?.i()?;
    assert_eq!(size, 2);
    Ok(())
}

#[test]
fn closing_touches_closeable_objects_only() -> Result<(), JdbcError> {
    let vm = start();
    let mut env = vm.attach_current_thread()?;
    let text = env.new_string("abc")?;
    let reader = env.new_object("java/io/StringReader", "(Ljava/lang/String;)V", &[JValue::Object(&text)])?;
    assert_eq!(env.call_method(&reader, "read", "()I", &[])?.i()?, 97);
    auto_close(&mut env, &reader)?;
    assert!(env.call_method(&reader, "read", "()I", &[]).is_err());
    env.exception_clear()?;

    let plain = env.new_object("java/lang/Object", "()V", &[])?;
    auto_close(&mut env, &plain)?;
    assert_eq!(get_class_name(&mut env, &plain)?, "java.lang.Object");
    Ok(())
}

#[test]
fn a_managed_stream_is_read_to_its_end() -> Result<(), JdbcError> {
    let vm = start();
    let mut env = vm.attach_current_thread()?;
    let bytes = "hello world".as_bytes();
    let array = vec_to_bytes_array(&mut env, bytes)?;
    let stream = env.new_object("java/io/ByteArrayInputStream", "([B)V", &[JValue::Object(&array)])?;
    let kept = env.new_local_ref(&stream)?;
    let mut input = value_cast_input_stream(&mut env, BoxedValue::Object(stream), vm.clone())?;
    assert!(env.is_same_object(input.as_obj(), &kept)?);
    let other = env.new_object("java/lang/Object", "()V", &[])?;
    assert!(!env.is_same_object(input.as_obj(), &other)?);

    let mut first = [0u8; 4];
    assert_eq!(input.read(&mut first)?, 4);
    assert_eq!(&first, b"hell");
    let mut rest = [7u8; 16];
    assert_eq!(input.read(&mut rest)?, 7);
    assert_eq!(&rest[..7], b"o world");
    assert_eq!(&rest[7..], &[7u8; 9]);
    let mut more = [7u8; 4];
    assert_eq!(input.read(&mut more)?, 0);
    assert_eq!(more, [7u8; 4]);
    let mut none: [u8; 0] = [];
    assert_eq!(input.read(&mut none)?, 0);
    Ok(())
}

#[test]
fn a_value_that_is_no_object_is_no_stream() -> Result<(), JdbcError> {
    let vm = start();
    let mut env = vm.attach_current_thread()?;
    assert!(matches!(
        value_cast_input_stream(&mut env, BoxedValue::Int(1), vm.clone()),
        Err(JdbcError::WrongType { expected: ValueKind::Object, found: ValueKind::Int })
    ));
    assert!(matches!(
        value_cast_input_stream(&mut env, BoxedValue::Bool(1), vm.clone()),
        Err(JdbcError::WrongType { expected: ValueKind::Object, found: ValueKind::Bool })
    ));
    Ok(())
}

#[test]
fn what_is_written_reaches_the_managed_stream() -> Result<(), JdbcError> {
    let vm = start();
    let mut env = vm.attach_current_thread()?;
    let sink = env.new_object("java/io/ByteArrayOutputStream", "()V", &[])?;
    let shared = env.new_global_ref(&sink)?;
    {
        let mut output = OutputStream::new(shared, vm.clone());
        assert!(env.is_same_object(output.as_obj(), &sink)?);
        assert_eq!(output.write(b"hello ")?, 6);
        assert_eq!(output.write(b"world")?, 5);
        assert_eq!(output.write(b"")?, 0);
        output.flush()?;
        assert!(output.close().is_ok());
    }
    let written = env.call_method(&sink, "toByteArray", "()[B", &[])?.l()?;
    assert_eq!(array_cast_bytes(&mut env, written)?, b"hello world");
    Ok(())
}

#[test]
fn a_pipe_carries_bytes_from_the_writer_to_the_reader() -> Result<(), JdbcError> {
    let vm = start();
    let mut env = vm.attach_current_thread()?;
    let out = env.new_object("java/io/PipedOutputStream", "()V", &[])?;
    let inp = env.new_object(
        "java/io/PipedInputStream",
        "(Ljava/io/PipedOutputStream;)V",
        &[JValue::Object(&out)],
    )?;
    let out = env.new_global_ref(out)?;
    let mut input = value_cast_input_stream(&mut env, BoxedValue::Object(inp), vm.clone())?;
    {
        let mut output = OutputStream::new(out, vm.clone());
        assert_eq!(output.write(b"hello world")?, 11);
    }
    let mut got = Vec::new();
    let mut buf = [0u8; 8];
    loop {
        let n = input.read(&mut buf)?;
        if n == 0 {
            break;
        }
        got.extend_from_slice(&buf[..n]);
    }
    assert_eq!(got, b"hello world");
    Ok(())
}

#[test]
fn a_failure_of_a_managed_stream_reaches_the_caller() -> Result<(), JdbcError> {
    let vm = start();
    let mut env = vm.attach_current_thread()?;
    let unconnected = env.new_object("java/io/PipedOutputStream", "()V", &[])?;
    let unconnected = env.new_global_ref(unconnected)?;
    let mut output = OutputStream::new(unconnected, vm.clone());
    // The pipe has no reader: the managed write throws.
    assert!(matches!(output.write(b"lost"), Err(JdbcError::JniError(_))));
    env.exception_clear()?;
    let text: JObject = env.new_string("still here")?.into();
    assert_eq!(to_string(&mut env, &text)?, "still here");

    let source = env.new_object("java/io/PipedInputStream", "()V", &[])?;
    let mut input = value_cast_input_stream(&mut env, BoxedValue::Object(source), vm.clone())?;
    let mut buf = [1u8; 3];
    assert!(matches!(input.read(&mut buf), Err(JdbcError::JniError(_))));
    env.exception_clear()?;
    assert_eq!(buf, [1u8; 3]);
    assert_eq!(get_class_name(&mut env, &text)?, "java.lang.String");
    Ok(())
}

#[test]
fn a_flush_that_fails_is_reported() -> Result<(), JdbcError> {
    let vm = start();
    let mut env = vm.attach_current_thread()?;
    // An object without a `flush` method stands for a stream whose flush
    // fails.
    let plain = env.new_object("java/lang/Object", "()V", &[])?;
    let plain = env.new_global_ref(plain)?;
    let mut output = OutputStream::new(plain, vm.clone());
    assert!(matches!(output.flush(), Err(JdbcError::JniError(_))));
    env.exception_clear()?;
    assert!(matches!(output.close(), Err(JdbcError::JniError(_))));
    env.exception_clear()?;
    Ok(())
}
