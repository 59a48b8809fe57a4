use jdbc::errors::InitError;
use jdbc::{Builder, ClasspathEntry, JvmBuilder, PoolType};
use jni::errors::{JniError, StartJvmError};

fn no_entries() -> Vec<ClasspathEntry> {
    Vec::new()
}

#[test]
fn a_second_runtime_is_refused() {
    let vm = JvmBuilder::new().xmx_mb(128).build(&no_entries());
    assert!(vm.is_ok());
    let second = JvmBuilder::new().build(&no_entries());
    assert!(matches!(
        second,
        Err(InitError::StartJvmError(StartJvmError::Create(jni::errors::Error::JniCall(
            JniError::AlreadyCreated
        ))))
    ));
}

#[test]
fn the_runtime_starts_with_options() {
    let vm = JvmBuilder::new()
        .vm_option("-Duser.timezone=UTC")
        .xms_mb(16)
        .build(&no_entries());
    assert!(vm.is_ok());
}

#[test]
fn a_malformed_option_is_refused_before_the_start() {
    let vm = JvmBuilder::new().vm_option("-Dbroken=a\0b").build(&no_entries());
    assert!(matches!(vm, Err(InitError::JvmError(_))));
    // Nothing was started, so the process can still start its runtime.
    assert!(JvmBuilder::new().build(&no_entries()).is_ok());
}

#[test]
fn an_option_that_the_runtime_does_not_know_stops_the_start() {
    let vm = JvmBuilder::new().vm_option("-XX:NoSuchFlagAtAll").build(&no_entries());
    assert!(matches!(vm, Err(InitError::StartJvmError(StartJvmError::Create(_)))));
}

#[test]
fn archives_that_are_listed_reach_the_class_path() {
    let listing = vec![
        ClasspathEntry { path: Some("/nowhere/a.jar".to_string()), is_dir: false },
        ClasspathEntry { path: Some("/nowhere/sub".to_string()), is_dir: true },
    ];
    let vm = JvmBuilder::new().build(&listing).expect("the runtime starts");
    let mut env = vm.attach_current_thread().expect("attach");
    let key = env.new_string("java.class.path").expect("key");
    let value = env
        .call_static_method(
            "java/lang/System",
            "getProperty",
            "(Ljava/lang/String;)Ljava/lang/String;",
            &[jni::objects::JValue::Object(&key)],
        )
        .expect("property")
        .l()
        .expect("object");
    let value = jdbc::util::cast::obj_cast_string(&mut env, value).expect("text");
    assert_eq!(value, "/nowhere/a.jar");
}

#[test]
fn the_custom_pool_needs_a_factory_also_without_a_runtime_handle() {
    let built = Builder::new().pool_type(PoolType::Custom).build(&no_entries());
    assert!(matches!(built, Err(InitError::NoFactory)));
}
