//! Adapters between native byte streams and managed stream objects.

use vstd::prelude::*;
use vstd::slice::slice_subrange;
use std::sync::Arc;
use jni::objects::{GlobalRef, JObject};
use jni::{JNIEnv, JavaVM};
use crate::errors::JdbcError;
use crate::method::{call_by_name, call_raw, Arguments};
use crate::runtime::{
    attach, byte_array_from_slice, convert_byte_array, delete_local_ref, env_of, global_obj,
    referent,
};
use crate::util::cast::{settle, value_cast_i32};
use crate::util::note_failure;
use crate::value::{BoxedValue, ValueKind};

verus! {

/// How many bytes of a buffer of `len` bytes fit into one managed byte array.
pub open spec fn array_room(len: nat) -> nat {
    if len <= i32::MAX {
        len
    } else {
        i32::MAX as nat
    }
}

/// How many bytes a read hands over: what the stream reports, at most what it
/// sent and what the buffer holds, and none at the end of the stream.
pub open spec fn delivered(room: nat, sent: nat, reported: int) -> nat {
    if reported <= 0 {
        0
    } else if reported <= room && reported <= sent {
        reported as nat
    } else if room <= sent {
        room
    } else {
        sent
    }
}

/// The first bytes of a slice, as many as fit into one managed byte array.
fn first_chunk<'s>(buf: &'s [u8]) -> (chunk: &'s [u8])
    ensures
        chunk@ == buf@.subrange(0, array_room(buf@.len()) as int),
        chunk@.len() == array_room(buf@.len()),
{
    if buf.len() <= 0x7fff_ffff {
        slice_subrange(buf, 0, buf.len())
    } else {
        slice_subrange(buf, 0, 0x7fff_ffff)
    }
}

/// Copies what a read of the managed stream brought into the caller's
/// buffer: the first `delivered` bytes of `bytes` go to the front of `buf`,
/// the rest of `buf` stays as it was.
pub fn deliver(buf: &mut [u8], bytes: &Vec<u8>, reported: i32) -> (n: usize)
    ensures
        n == delivered(old(buf)@.len(), bytes@.len(), reported as int),
        final(buf)@.len() == old(buf)@.len(),
        final(buf)@.subrange(0, n as int) == bytes@.subrange(0, n as int),
        final(buf)@.subrange(n as int, old(buf)@.len() as int) == old(buf)@.subrange(
            n as int,
            old(buf)@.len() as int,
        ),
{
    let mut n: usize = 0;
    if reported > 0 {
        n = reported as usize;
        if n > buf.len() {
            n = buf.len();
        }
        if n > bytes.len() {
            n = bytes.len();
        }
    }
    let mut i: usize = 0;
    while i < n
        invariant
            i <= n,
            n <= buf@.len(),
            n <= bytes@.len(),
            buf@.len() == old(buf)@.len(),
            buf@.subrange(0, i as int) == bytes@.subrange(0, i as int),
            buf@.subrange(i as int, buf@.len() as int) == old(buf)@.subrange(
                i as int,
                buf@.len() as int,
            ),
        decreases n - i,
    {
        let ghost before = buf@;
        buf[i] = bytes[i];
        proof {
            let len = buf@.len() as int;
            assert(buf@.subrange(0, i + 1) =~= bytes@.subrange(0, i + 1)) by {
                assert(forall|k: int| 0 <= k < i ==> buf@[k] == before.subrange(0, i as int)[k]);
            }
            assert(buf@.subrange(i + 1, len) =~= old(buf)@.subrange(i + 1, len)) by {
                assert(forall|k: int|
                    i < k < len ==> buf@[k] == before.subrange(i as int, len)[k - i]);
            }
        }
        i = i + 1;
    }
    n
}

/// Closes a managed stream.
fn close_stream<'a>(env: &mut JNIEnv<'a>, stream: &GlobalRef) -> (r: Result<(), JdbcError>)
    ensures
        r matches Err(e) ==> e is JniError,
    opens_invariants none
    no_unwind
{
    proof {
        reveal_strlit("()V");
    }
    match call_raw(env, global_obj(stream), "close", "()V", Arguments::Zero) {
        Ok(_) => Ok(()),
        Err(e) => Err(JdbcError::JniError(e)),
    }
}

/// Closes a managed stream whose wrapper is being dropped. A failure is put
/// on record and goes no further.
fn close_quietly(vm: &Arc<JavaVM>, stream: &GlobalRef)
    opens_invariants none
    no_unwind
{
    match attach(vm) {
        Ok(mut guard) => {
            let env = env_of(&mut guard);
            match close_stream(env, stream) {
                Ok(_) => {},
                Err(_) => note_failure(env),
            }
        },
        Err(_) => {},
    }
}

/// A native writer over a managed output stream. The managed stream is
/// closed when this is dropped.
#[derive(Debug)]
pub struct OutputStream {
    inner: GlobalRef,
    vm: Arc<JavaVM>,
}

impl OutputStream {
    /// The managed stream that this writes to.
    pub closed spec fn managed(&self) -> GlobalRef {
        self.inner
    }

    /// The runtime handle that this shares.
    pub closed spec fn runtime(&self) -> Arc<JavaVM> {
        self.vm
    }

    /// Wraps a managed output stream.
    pub fn new(inner: GlobalRef, vm: Arc<JavaVM>) -> (r: Self)
        ensures
            r.managed() == inner,
            r.runtime() == vm,
    {
        Self { inner, vm }
    }

    /// The managed stream object: the one that the wrapped reference
    /// points to.
    pub fn as_obj(&self) -> (r: &JObject<'static>)
        ensures
            *r == referent(self.managed()),
    {
        global_obj(&self.inner)
    }

    /// Hands one chunk to the `write` method of the managed stream. The
    /// managed array that carries it is released.
    fn write_jni<'a>(&self, env: &mut JNIEnv<'a>, buf: &[u8]) -> (r: Result<(), jni::errors::Error>)
        requires
            buf@.len() <= i32::MAX,
    {
        let array = byte_array_from_slice(env, buf)?;
        proof {
            reveal_strlit("([B)V");
        }
        let written = call_raw(
            env,
            global_obj(&self.inner),
            "write",
            "([B)V",
            Arguments::One(BoxedValue::Object(&array)),
        );
        let released = delete_local_ref(env, array);
        match settle(written, released) {
            Ok(_) => Ok(()),
            Err(e) => Err(e),
        }
    }

    /// Closes the managed stream. The only failures are those that the
    /// runtime reports.
    pub fn close(&mut self) -> (r: Result<(), JdbcError>)
        ensures
            final(self).managed() == old(self).managed(),
            final(self).runtime() == old(self).runtime(),
            r matches Err(e) ==> e is JniError,
        opens_invariants none
        no_unwind
    {
        match attach(&self.vm) {
            Ok(mut guard) => close_stream(env_of(&mut guard), &self.inner),
            Err(e) => Err(JdbcError::JniError(e)),
        }
    }

    /// Writes the front of `buf` to the managed stream, as much of it as fits
    /// into one managed byte array, and says how many bytes that was. The
    /// only failures are those that the runtime reports.
    pub fn write(&mut self, buf: &[u8]) -> (r: Result<usize, JdbcError>)
        ensures
            r matches Ok(n) ==> n == array_room(buf@.len()),
            r matches Err(e) ==> e is JniError,
            final(self).managed() == old(self).managed(),
            final(self).runtime() == old(self).runtime(),
    {
        let chunk = first_chunk(buf);
        let mut guard = match attach(&self.vm) {
            Ok(guard) => guard,
            Err(e) => return Err(JdbcError::JniError(e)),
        };
        match self.write_jni(env_of(&mut guard), chunk) {
            Ok(_) => Ok(chunk.len()),
            Err(e) => Err(JdbcError::JniError(e)),
        }
    }

    /// Flushes the managed stream. The only failures are those that the
    /// runtime reports.
    pub fn flush(&mut self) -> (r: Result<(), JdbcError>)
        ensures
            r matches Err(e) ==> e is JniError,
            final(self).managed() == old(self).managed(),
            final(self).runtime() == old(self).runtime(),
    {
        let mut guard = match attach(&self.vm) {
            Ok(guard) => guard,
            Err(e) => return Err(JdbcError::JniError(e)),
        };
        proof {
            reveal_strlit("()V");
        }
        match call_raw(env_of(&mut guard), global_obj(&self.inner), "flush", "()V", Arguments::Zero) {
            Ok(_) => Ok(()),
            Err(e) => Err(JdbcError::JniError(e)),
        }
    }
}

impl Drop for OutputStream {
    fn drop(&mut self)
        opens_invariants none
        no_unwind
    {
        close_quietly(&self.vm, &self.inner);
    }
}

/// A native reader over a managed input stream. The managed stream is closed
/// when this is dropped.
#[derive(Debug)]
pub struct InputStream {
    inner: GlobalRef,
    vm: Arc<JavaVM>,
}

impl InputStream {
    /// The managed stream that this reads from.
    pub closed spec fn managed(&self) -> GlobalRef {
        self.inner
    }

    /// The runtime handle that this shares.
    pub closed spec fn runtime(&self) -> Arc<JavaVM> {
        self.vm
    }

    /// Wraps a managed input stream. Nothing is read yet.
    pub fn new(inner: GlobalRef, vm: Arc<JavaVM>) -> (r: Self)
        ensures
            r.managed() == inner,
            r.runtime() == vm,
    {
        Self { inner, vm }
    }

    /// The managed stream object: the one that the wrapped reference
    /// points to.
    pub fn as_obj(&self) -> (r: &JObject<'static>)
        ensures
            *r == referent(self.managed()),
    {
        global_obj(&self.inner)
    }

    /// Asks the managed stream to fill an array as long as the front of the
    /// buffer, and copies over what it reports to have read. Where the read
    /// fails nothing is copied. The array is released either way.
    fn read_jni<'a>(&self, env: &mut JNIEnv<'a>, buf: &mut [u8]) -> (r: Result<usize, JdbcError>)
        ensures
            final(buf)@.len() == old(buf)@.len(),
            r matches Ok(n) ==> n <= old(buf)@.len() && final(buf)@.subrange(
                n as int,
                old(buf)@.len() as int,
            ) == old(buf)@.subrange(n as int, old(buf)@.len() as int),
            r matches Err(e) ==> e.is_invocation_failure() && final(buf)@ == old(buf)@,
    {
        let array = match byte_array_from_slice(env, first_chunk(buf)) {
            Ok(array) => array,
            Err(e) => return Err(JdbcError::JniError(e)),
        };
        proof {
            reveal_strlit("([B)I");
        }
        let reported = call_by_name(
            env,
            global_obj(&self.inner),
            "read",
            "([B)I",
            ValueKind::Int,
            Arguments::One(BoxedValue::Object(&array)),
        );
        let reported = match reported {
            Ok(reported) => value_cast_i32(reported),
            Err(e) => Err(e),
        };
        let reported = match reported {
            Ok(reported) => reported,
            Err(e) => {
                let _ = delete_local_ref(env, array);
                return Err(e);
            },
        };
        let bytes = convert_byte_array(env, &array);
        let released = delete_local_ref(env, array);
        match settle(bytes, released) {
            Ok(bytes) => Ok(deliver(buf, &bytes, reported)),
            Err(e) => Err(JdbcError::JniError(e)),
        }
    }

    /// Reads from the managed stream into `buf` and says how many bytes came:
    /// they stand at the front of `buf`, and the rest of `buf` is as it was.
    /// At the end of the stream none come. A failure leaves `buf` as it was;
    /// the only failures are those of an invocation.
    pub fn read(&mut self, buf: &mut [u8]) -> (r: Result<usize, JdbcError>)
        ensures
            final(buf)@.len() == old(buf)@.len(),
            r matches Ok(n) ==> n <= old(buf)@.len() && final(buf)@.subrange(
                n as int,
                old(buf)@.len() as int,
            ) == old(buf)@.subrange(n as int, old(buf)@.len() as int),
            r matches Err(e) ==> e.is_invocation_failure() && final(buf)@ == old(buf)@,
            final(self).managed() == old(self).managed(),
            final(self).runtime() == old(self).runtime(),
    {
        let mut guard = match attach(&self.vm) {
            Ok(guard) => guard,
            Err(e) => return Err(JdbcError::JniError(e)),
        };
        self.read_jni(env_of(&mut guard), buf)
    }
}

impl Drop for InputStream {
    fn drop(&mut self)
        opens_invariants none
        no_unwind
    {
        close_quietly(&self.vm, &self.inner);
    }
}

} // verus!
