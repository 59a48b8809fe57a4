//! Building the runtime handle and the pooled connection source.

use vstd::prelude::*;
use std::sync::Arc;
use jni::objects::GlobalRef;
use jni::{JNIEnv, JavaVM};
use crate::config::{settings_of, PropertySet};
use crate::errors::InitError;
use crate::runtime::{
    args_builder, attach, delete_local_ref, env_of, find_class, finish_args, global_obj,
    interior_nul, is_instance_of, launch, new_global_ref, refused, with_option, with_version,
};
use crate::util::cast::settle;
use crate::wrapper::hikari::{HikariConfig, HikariDataSource};
use crate::wrapper::properties::Properties;
use crate::wrapper::sql::datasource::DataSource;

verus! {

/// Which connection-pool implementation backs a data source.
#[derive(Clone, Copy, Debug, PartialEq, Eq, Structural)]
pub enum PoolType {
    HikariCP,
    Custom,
}

/// The version of the native interface that the runtime is asked for.
#[derive(Clone, Copy, Debug, PartialEq, Eq, Structural)]
pub enum JNIVersion {
    V1,
    V2,
    V4,
    V6,
    V8,
    Invalid(i32),
}

/// One entry of the class path directory, as a listing of the directory
/// reports it.
pub struct ClasspathEntry {
    /// The path of the entry, if it can be written as text.
    pub path: Option<String>,
    /// Whether the entry is a directory.
    pub is_dir: bool,
}

/// The character of a decimal digit.
pub open spec fn digit_char(digit: nat) -> char {
    if digit == 0 {
        '0'
    } else if digit == 1 {
        '1'
    } else if digit == 2 {
        '2'
    } else if digit == 3 {
        '3'
    } else if digit == 4 {
        '4'
    } else if digit == 5 {
        '5'
    } else if digit == 6 {
        '6'
    } else if digit == 7 {
        '7'
    } else if digit == 8 {
        '8'
    } else {
        '9'
    }
}

/// The decimal numeral of a number, without leading zeros.
pub open spec fn decimal(number: nat) -> Seq<char>
    decreases number,
{
    if number < 10 {
        seq![digit_char(number)]
    } else {
        decimal(number / 10).push(digit_char(number % 10))
    }
}

/// The texts of a run of strings.
pub open spec fn texts(strings: Seq<String>) -> Seq<Seq<char>> {
    strings.map_values(|s: String| s@)
}

/// The paths of the entries that can be loaded: every entry that is no
/// directory and whose path can be written as text, in the order of the
/// listing.
pub open spec fn loadable(entries: Seq<ClasspathEntry>) -> Seq<Seq<char>>
    decreases entries.len(),
{
    if entries.len() == 0 {
        Seq::empty()
    } else {
        let entry = entries.last();
        let before = loadable(entries.drop_last());
        match entry.path {
            Some(path) if !entry.is_dir => before.push(path@),
            _ => before,
        }
    }
}

/// The parts joined into one text, with `separator` between neighbours.
pub open spec fn joined(parts: Seq<Seq<char>>, separator: Seq<char>) -> Seq<char>
    decreases parts.len(),
{
    if parts.len() == 0 {
        Seq::empty()
    } else if parts.len() == 1 {
        parts[0]
    } else {
        joined(parts.drop_last(), separator) + separator + parts.last()
    }
}

/// Whether one of the options holds a NUL character before its end.
pub open spec fn malformed(options: Seq<Seq<char>>) -> bool {
    exists|at: int| 0 <= at < options.len() && interior_nul(#[trigger] options[at])
}

/// The startup options of a runtime: the two heap bounds in megabytes, the
/// class path if there is anything on it, then the extra options in the
/// order in which they were given.
pub open spec fn startup(xmx: nat, xms: nat, libs: Seq<Seq<char>>, extra: Seq<Seq<char>>) -> Seq<
    Seq<char>,
> {
    let heap = seq!["-Xmx"@ + decimal(xmx) + "m"@, "-Xms"@ + decimal(xms) + "m"@];
    let path = if libs.len() > 0 {
        seq!["-Djava.class.path="@ + joined(libs, ";"@)]
    } else {
        Seq::empty()
    };
    heap + path + extra
}

fn digit_text(digit: u32) -> (r: &'static str)
    requires
        digit < 10,
    ensures
        r@ == seq![digit_char(digit as nat)],
{
    proof {
        reveal_strlit("0");
        reveal_strlit("1");
        reveal_strlit("2");
        reveal_strlit("3");
        reveal_strlit("4");
        reveal_strlit("5");
        reveal_strlit("6");
        reveal_strlit("7");
        reveal_strlit("8");
        reveal_strlit("9");
    }
    if digit == 0 {
        "0"
    } else if digit == 1 {
        "1"
    } else if digit == 2 {
        "2"
    } else if digit == 3 {
        "3"
    } else if digit == 4 {
        "4"
    } else if digit == 5 {
        "5"
    } else if digit == 6 {
        "6"
    } else if digit == 7 {
        "7"
    } else if digit == 8 {
        "8"
    } else {
        "9"
    }
}

/// The decimal numeral of a number.
pub fn decimal_text(number: u32) -> (r: String)
    ensures
        r@ == decimal(number as nat),
    decreases number,
{
    if number < 10 {
        digit_text(number).to_owned()
    } else {
        let mut text = decimal_text(number / 10);
        text.append(digit_text(number % 10));
        text
    }
}

/// The archives on the class path: of the entries that a listing of the
/// class path directory reports, those that are no directory and whose path
/// can be written as text. Subdirectories are not searched.
pub fn libs(entries: &Vec<ClasspathEntry>) -> (r: Vec<String>)
    ensures
        texts(r@) == loadable(entries@),
{
    let mut found: Vec<String> = Vec::new();
    let mut i: usize = 0;
    while i < entries.len()
        invariant
            i <= entries@.len(),
            texts(found@) == loadable(entries@.subrange(0, i as int)),
        decreases entries@.len() - i,
    {
        assert(entries@.subrange(0, i + 1).drop_last() =~= entries@.subrange(0, i as int));
        let entry = &entries[i];
        if !entry.is_dir {
            match &entry.path {
                Some(path) => {
                    found.push(path.clone());
                },
                None => {},
            }
        }
        i = i + 1;
    }
    assert(entries@.subrange(0, i as int) =~= entries@);
    found
}

/// Joins the archives into the value of the class path property.
fn class_path(libs: &Vec<String>) -> (r: String)
    ensures
        r@ == joined(texts(libs@), ";"@),
{
    let mut path = String::new();
    let mut i: usize = 0;
    while i < libs.len()
        invariant
            i <= libs@.len(),
            path@ == joined(texts(libs@).subrange(0, i as int), ";"@),
        decreases libs@.len() - i,
    {
        let ghost parts = texts(libs@).subrange(0, i + 1);
        assert(parts.drop_last() =~= texts(libs@).subrange(0, i as int));
        if i > 0 {
            path.append(";");
        }
        path.append(libs[i].as_str());
        i = i + 1;
    }
    assert(texts(libs@).subrange(0, i as int) =~= texts(libs@));
    path
}

/// The configuration of the runtime that is to be started: heap bounds in
/// megabytes, the class path directory, the version of the native interface
/// and extra startup options. The lower heap bound never exceeds the upper
/// one.
pub struct JvmBuilder {
    version: JNIVersion,
    classpath: String,
    xmx: u32,
    xms: u32,
    vm_options: Vec<String>,
}

impl JvmBuilder {
    #[verifier::type_invariant]
    spec fn ordered(self) -> bool {
        self.xms <= self.xmx
    }

    /// The version of the native interface that will be asked for.
    pub closed spec fn api_version(&self) -> JNIVersion {
        self.version
    }

    /// The class path directory.
    pub closed spec fn class_dir(&self) -> Seq<char> {
        self.classpath@
    }

    /// The upper heap bound in megabytes.
    pub closed spec fn heap_max(&self) -> nat {
        self.xmx as nat
    }

    /// The lower heap bound in megabytes.
    pub closed spec fn heap_min(&self) -> nat {
        self.xms as nat
    }

    /// The extra startup options, in the order in which they were given.
    pub closed spec fn extra_options(&self) -> Seq<Seq<char>> {
        texts(self.vm_options@)
    }

    /// The heap bounds in megabytes, the lower one first. The lower bound
    /// never exceeds the upper one, whatever the order in which the two were
    /// set.
    pub fn heap_bounds(&self) -> (r: (u32, u32))
        ensures
            r.0 == self.heap_min(),
            r.1 == self.heap_max(),
            r.0 <= r.1,
    {
        proof {
            use_type_invariant(self);
        }
        (self.xms, self.xmx)
    }

    /// Sets the version of the native interface.
    pub fn version(self, version: JNIVersion) -> (r: Self)
        ensures
            r.api_version() == version,
            r.class_dir() == self.class_dir(),
            r.heap_max() == self.heap_max(),
            r.heap_min() == self.heap_min(),
            r.extra_options() == self.extra_options(),
    {
        proof {
            use_type_invariant(&self);
        }
        JvmBuilder {
            version,
            classpath: self.classpath,
            xmx: self.xmx,
            xms: self.xms,
            vm_options: self.vm_options,
        }
    }

    /// Sets the upper heap bound. A lower bound above it comes down to it.
    pub fn xmx_mb(self, xmx: u32) -> (r: Self)
        ensures
            r.heap_max() == xmx,
            r.heap_min() == if self.heap_min() > xmx {
                xmx as nat
            } else {
                self.heap_min()
            },
            r.api_version() == self.api_version(),
            r.class_dir() == self.class_dir(),
            r.extra_options() == self.extra_options(),
    {
        let xms = if self.xms > xmx {
            xmx
        } else {
            self.xms
        };
        JvmBuilder {
            version: self.version,
            classpath: self.classpath,
            xmx,
            xms,
            vm_options: self.vm_options,
        }
    }

    /// Sets the lower heap bound. An upper bound below it goes up to it.
    pub fn xms_mb(self, xms: u32) -> (r: Self)
        ensures
            r.heap_min() == xms,
            r.heap_max() == if xms > self.heap_max() {
                xms as nat
            } else {
                self.heap_max()
            },
            r.api_version() == self.api_version(),
            r.class_dir() == self.class_dir(),
            r.extra_options() == self.extra_options(),
    {
        let xmx = if xms > self.xmx {
            xms
        } else {
            self.xmx
        };
        JvmBuilder {
            version: self.version,
            classpath: self.classpath,
            xmx,
            xms,
            vm_options: self.vm_options,
        }
    }

    /// Sets the class path directory.
    pub fn classpath(self, classpath: &str) -> (r: Self)
        ensures
            r.class_dir() == classpath@,
            r.api_version() == self.api_version(),
            r.heap_max() == self.heap_max(),
            r.heap_min() == self.heap_min(),
            r.extra_options() == self.extra_options(),
    {
        proof {
            use_type_invariant(&self);
        }
        JvmBuilder {
            version: self.version,
            classpath: classpath.to_owned(),
            xmx: self.xmx,
            xms: self.xms,
            vm_options: self.vm_options,
        }
    }

    /// Adds one extra startup option after those given so far.
    pub fn vm_option(self, option: &str) -> (r: Self)
        ensures
            r.extra_options() == self.extra_options().push(option@),
            r.api_version() == self.api_version(),
            r.class_dir() == self.class_dir(),
            r.heap_max() == self.heap_max(),
            r.heap_min() == self.heap_min(),
    {
        proof {
            use_type_invariant(&self);
        }
        let mut vm_options = self.vm_options;
        vm_options.push(option.to_owned());
        JvmBuilder {
            version: self.version,
            classpath: self.classpath,
            xmx: self.xmx,
            xms: self.xms,
            vm_options,
        }
    }

    /// The default configuration: version 8 of the native interface, the
    /// class path directory `./libs/`, a heap of 72 megabytes, no extra
    /// option.
    pub fn new() -> (r: Self)
        ensures
            r.api_version() == JNIVersion::V8,
            r.class_dir() == "./libs/"@,
            r.heap_max() == 72,
            r.heap_min() == 72,
            r.extra_options() == Seq::<Seq<char>>::empty(),
    {
        let vm_options: Vec<String> = Vec::new();
        JvmBuilder {
            version: JNIVersion::V8,
            classpath: "./libs/".to_owned(),
            xmx: 72,
            xms: 72,
            vm_options,
        }
    }

    /// The class path directory. A listing of it is what `build` takes.
    pub fn class_path_dir(&self) -> (r: &str)
        ensures
            r@ == self.class_dir(),
    {
        self.classpath.as_str()
    }

    /// The startup options that this configuration gives the runtime, with
    /// those archives on the class path.
    pub fn startup_options(&self, libs: &Vec<String>) -> (r: Vec<String>)
        ensures
            texts(r@) == startup(
                self.heap_max(),
                self.heap_min(),
                texts(libs@),
                self.extra_options(),
            ),
    {
        let mut options: Vec<String> = Vec::new();
        let mut upper = "-Xmx".to_owned();
        upper.append(decimal_text(self.xmx).as_str());
        upper.append("m");
        options.push(upper);
        let mut lower = "-Xms".to_owned();
        lower.append(decimal_text(self.xms).as_str());
        lower.append("m");
        options.push(lower);
        if libs.len() > 0 {
            let mut path = "-Djava.class.path=".to_owned();
            path.append(class_path(libs).as_str());
            options.push(path);
        }
        let ghost head = options@;
        let mut i: usize = 0;
        while i < self.vm_options.len()
            invariant
                i <= self.vm_options@.len(),
                texts(options@) == texts(head) + texts(self.vm_options@).subrange(0, i as int),
            decreases self.vm_options@.len() - i,
        {
            let ghost before = options@;
            options.push(self.vm_options[i].clone());
            assert(texts(options@) =~= texts(before).push(self.vm_options@[i as int]@));
            i = i + 1;
        }
        options
    }

    /// Starts the runtime with this configuration. `entries` is the listing
    /// of the class path directory; a directory that is missing or empty
    /// lists nothing and adds nothing to the class path.
    ///
    /// The options handed to the runtime are those of `startup_options`. If
    /// one of them holds a NUL character before its end, the start fails as
    /// `JvmError` and nothing is started. Whether the runtime starts
    /// otherwise is for the platform to say: a failure is a `JvmError` or a
    /// `StartJvmError`, and a second start in a process that holds a runtime
    /// already is one.
    pub fn build(self, entries: &Vec<ClasspathEntry>) -> (r: Result<JavaVM, InitError>)
        ensures
            malformed(
                startup(
                    self.heap_max(),
                    self.heap_min(),
                    loadable(entries@),
                    self.extra_options(),
                ),
            ) ==> (r matches Err(e) && e is JvmError),
            r matches Err(e) ==> e is JvmError || e is StartJvmError,
    {
        let archives = libs(entries);
        let options = self.startup_options(&archives);
        let mut vm_builder = with_version(args_builder(), self.version);
        let mut i: usize = 0;
        while i < options.len()
            invariant
                i <= options@.len(),
                malformed(texts(options@).take(i as int)) ==> refused(vm_builder),
            decreases options@.len() - i,
        {
            vm_builder = with_option(vm_builder, options[i].as_str());
            proof {
                let before = texts(options@).take(i as int);
                let now = texts(options@).take(i + 1);
                if malformed(now) {
                    let at = choose|at: int| 0 <= at < now.len() && interior_nul(#[trigger] now[at]);
                    if at < i {
                        assert(interior_nul(before[at]));
                    }
                }
            }
            i = i + 1;
        }
        assert(texts(options@).take(i as int) =~= texts(options@));
        let jvm_args = match finish_args(vm_builder) {
            Ok(jvm_args) => jvm_args,
            Err(e) => return Err(InitError::JvmError(e)),
        };
        match launch(jvm_args) {
            Ok(jvm) => Ok(jvm),
            Err(e) => Err(InitError::StartJvmError(e)),
        }
    }
}

/// What makes the managed connection source of a custom pool.
pub trait PoolFactory {
    /// Makes the managed connection source from the properties.
    fn create(&self, vm: &JavaVM, properties: &PropertySet) -> (r: Result<GlobalRef, InitError>);
}

/// A boxed pool factory, as the builder keeps it.
pub type FactoryFn = Box<dyn PoolFactory>;

/// The factory of the default pool.
pub struct Hikari;

impl PoolFactory for Hikari {
    /// Makes a pooled connection source and hands every property to it
    /// verbatim. The only failures are those that the runtime reports.
    fn create(&self, vm: &JavaVM, properties: &PropertySet) -> (r: Result<GlobalRef, InitError>)
        ensures
            r matches Err(e) ==> e is JniError,
    {
        match hikari(vm, properties) {
            Ok(datasource) => Ok(datasource),
            Err(e) => Err(InitError::JniError(e)),
        }
    }
}

/// Makes the managed objects of the default pool. Every property is handed
/// over verbatim, in the order of the listing: the pool object that comes
/// back was made from exactly the settings of `properties`.
fn pool_object<'a>(env: &mut JNIEnv<'a>, properties: &PropertySet) -> (r: Result<
    HikariDataSource<'a>,
    jni::errors::Error,
>)
    ensures
        r matches Ok(source) ==> source.settings() == properties@,
{
    let mut props = Properties::new(env)?;
    let mut i: usize = 0;
    assert(properties.listing().take(0) =~= Seq::empty());
    while i < properties.len()
        invariant
            i <= properties.listing().len(),
            props.settings() == settings_of(properties.listing().take(i as int)),
        decreases properties.listing().len() - i,
    {
        let (key, value) = properties.entry(i);
        assert(properties.listing().take(i + 1).drop_last() =~= properties.listing().take(
            i as int,
        ));
        props.set_property(env, key.as_str(), value.as_str())?;
        i = i + 1;
    }
    assert(properties.listing().take(i as int) =~= properties.listing());
    let config = HikariConfig::new(env, props)?;
    HikariDataSource::new(env, config)
}

/// Makes the pool object of the default pool and promotes it to a shared
/// reference.
fn hikari(vm: &JavaVM, properties: &PropertySet) -> (r: Result<GlobalRef, jni::errors::Error>) {
    let mut guard = attach(vm)?;
    let env = env_of(&mut guard);
    let datasource = pool_object(env, properties)?.into_object();
    let global_ref = new_global_ref(env, &datasource);
    let released = delete_local_ref(env, datasource);
    settle(global_ref, released)
}

/// What the capability probe of a freshly made pool object amounts to: an
/// object that is no connection source is refused.
pub open spec fn probe_verdict(is_source: bool) -> Result<(), InitError> {
    if is_source {
        Ok(())
    } else {
        Err(InitError::IsNotDatasource)
    }
}

/// Judges the capability probe of a freshly made pool object.
pub fn verdict(is_source: bool) -> (r: Result<(), InitError>)
    ensures
        r == probe_verdict(is_source),
{
    if is_source {
        Ok(())
    } else {
        Err(InitError::IsNotDatasource)
    }
}

fn check_datasource(vm: &Arc<JavaVM>, datasource: &GlobalRef) -> (r: Result<(), InitError>)
    ensures
        r matches Err(e) ==> e is JniError || e is IsNotDatasource,
{
    let mut guard = match attach(vm) {
        Ok(guard) => guard,
        Err(e) => return Err(InitError::JniError(e)),
    };
    let env = env_of(&mut guard);
    let class = match find_class(env, "javax/sql/DataSource") {
        Ok(class) => class,
        Err(e) => return Err(InitError::JniError(e)),
    };
    let is_ds = is_instance_of(env, global_obj(datasource), &class);
    let released = delete_local_ref(env, class);
    match settle(is_ds, released) {
        Ok(is_ds) => verdict(is_ds),
        Err(e) => Err(InitError::JniError(e)),
    }
}

/// The configuration of a data source: its properties, the kind of pool, the
/// factory of a custom pool and the runtime handle to share.
pub struct Builder {
    properties: PropertySet,
    pool_type: PoolType,
    factory: Option<FactoryFn>,
    vm: Option<Arc<JavaVM>>,
}

impl Builder {
    /// The properties set so far.
    pub closed spec fn settings(&self) -> Map<Seq<char>, Seq<char>> {
        self.properties@
    }

    /// The kind of pool.
    pub closed spec fn kind(&self) -> PoolType {
        self.pool_type
    }

    /// Whether a factory was given.
    pub closed spec fn has_factory(&self) -> bool {
        self.factory is Some
    }

    /// The runtime handle that was given, if one was.
    pub closed spec fn shared_vm(&self) -> Option<Arc<JavaVM>> {
        self.vm
    }

    /// Whether a runtime handle was given.
    pub open spec fn has_vm(&self) -> bool {
        self.shared_vm() is Some
    }

    /// No property, the default pool, no factory and no runtime handle.
    pub fn new() -> (r: Self)
        ensures
            r.settings() == Map::<Seq<char>, Seq<char>>::empty(),
            r.kind() == PoolType::HikariCP,
            !r.has_factory(),
            r.shared_vm() is None,
    {
        Builder {
            properties: PropertySet::new(),
            pool_type: PoolType::HikariCP,
            factory: None,
            vm: None,
        }
    }

    /// Chooses the kind of pool.
    pub fn pool_type(self, pool_type: PoolType) -> (r: Self)
        ensures
            r.kind() == pool_type,
            r.settings() == self.settings(),
            r.has_factory() == self.has_factory(),
            r.shared_vm() == self.shared_vm(),
    {
        Builder { properties: self.properties, pool_type, factory: self.factory, vm: self.vm }
    }

    /// Gives the factory of a custom pool.
    pub fn factory(self, factory: FactoryFn) -> (r: Self)
        ensures
            r.has_factory(),
            r.kind() == self.kind(),
            r.settings() == self.settings(),
            r.shared_vm() == self.shared_vm(),
    {
        Builder {
            properties: self.properties,
            pool_type: self.pool_type,
            factory: Some(factory),
            vm: self.vm,
        }
    }

    /// Gives the runtime handle to share.
    pub fn vm(self, vm: Arc<JavaVM>) -> (r: Self)
        ensures
            r.shared_vm() == Some(vm),
            r.kind() == self.kind(),
            r.settings() == self.settings(),
            r.has_factory() == self.has_factory(),
    {
        Builder {
            properties: self.properties,
            pool_type: self.pool_type,
            factory: self.factory,
            vm: Some(vm),
        }
    }

    /// Sets a property. No name is refused: what the pool does not know is
    /// for the pool to judge.
    pub fn property(self, k: &str, v: &str) -> (r: Self)
        ensures
            r.settings() == self.settings().insert(k@, v@),
            r.kind() == self.kind(),
            r.has_factory() == self.has_factory(),
            r.shared_vm() == self.shared_vm(),
    {
        Builder {
            properties: self.properties.insert(k, v),
            pool_type: self.pool_type,
            factory: self.factory,
            vm: self.vm,
        }
    }

    /// Sets the connection URL, the property `jdbcUrl`.
    pub fn jdbc_url(self, url: &str) -> (r: Self)
        ensures
            r.settings() == self.settings().insert("jdbcUrl"@, url@),
            r.kind() == self.kind(),
            r.has_factory() == self.has_factory(),
            r.shared_vm() == self.shared_vm(),
    {
        self.property("jdbcUrl", url)
    }

    /// Sets the driver class, the property `driverClassName`.
    pub fn driver_class(self, url: &str) -> (r: Self)
        ensures
            r.settings() == self.settings().insert("driverClassName"@, url@),
            r.kind() == self.kind(),
            r.has_factory() == self.has_factory(),
            r.shared_vm() == self.shared_vm(),
    {
        self.property("driverClassName", url)
    }

    /// Sets the user name, the property `username`.
    pub fn username(self, username: &str) -> (r: Self)
        ensures
            r.settings() == self.settings().insert("username"@, username@),
            r.kind() == self.kind(),
            r.has_factory() == self.has_factory(),
            r.shared_vm() == self.shared_vm(),
    {
        self.property("username", username)
    }

    /// Sets the password, the property `password`.
    pub fn password(self, password: &str) -> (r: Self)
        ensures
            r.settings() == self.settings().insert("password"@, password@),
            r.kind() == self.kind(),
            r.has_factory() == self.has_factory(),
            r.shared_vm() == self.shared_vm(),
    {
        self.property("password", password)
    }

    /// Builds the data source.
    ///
    /// The runtime handle that was given is shared; without one a runtime
    /// with the default configuration is started, with `entries` as the
    /// listing of its class path directory. The pool object is made by the
    /// default pool or by the factory, probed for the connection-source
    /// capability, and wrapped.
    ///
    /// The custom kind without a factory always fails: as `NoFactory`, or,
    /// where no runtime handle was given and the runtime does not start, as
    /// the failure of that start. With a runtime handle given it fails as
    /// `NoFactory` before anything is asked of the runtime. The default
    /// pool fails only where the runtime does not start, where the runtime
    /// reports a failure, or where the probe refuses the pool object. A data
    /// source that comes back shares the runtime handle that was given.
    pub fn build(self, entries: &Vec<ClasspathEntry>) -> (r: Result<DataSource, InitError>)
        ensures
            self.has_vm() && self.kind() == PoolType::Custom && !self.has_factory() ==> {
                &&& r matches Err(e)
                &&& e is NoFactory
            },
            self.kind() == PoolType::Custom && !self.has_factory() ==> {
                &&& r matches Err(e)
                &&& (e is NoFactory || (!self.has_vm() && (e is JvmError || e is StartJvmError)))
            },
            self.kind() == PoolType::HikariCP ==> (r matches Err(e) ==> {
                ||| e is JniError
                ||| e is IsNotDatasource
                ||| !self.has_vm() && (e is JvmError || e is StartJvmError)
            }),
            r matches Ok(source) ==> (self.shared_vm() matches Some(vm) ==> source.runtime() == vm),
    {
        let vm = match self.vm {
            Some(vm) => vm,
            None => Arc::new(JvmBuilder::new().build(entries)?),
        };
        let made = match self.pool_type {
            PoolType::HikariCP => Hikari.create(&vm, &self.properties),
            PoolType::Custom => match self.factory {
                Some(factory) => factory.create(&vm, &self.properties),
                None => Err(InitError::NoFactory),
            },
        };
        let datasource = match made {
            Ok(datasource) => datasource,
            Err(e) => return Err(e),
        };
        match check_datasource(&vm, &datasource) {
            Ok(_) => {},
            Err(e) => return Err(e),
        }
        match DataSource::new(vm, datasource) {
            Ok(datasource) => Ok(datasource),
            Err(e) => Err(InitError::JniError(e)),
        }
    }
}

} // verus!
