//! The synchronous file: an exclusive access handle to one file in the host
//! storage area, wrapped with a cursor and offset-addressed, blocking
//! operations.
//!
//! The host enforces that at most one exclusive access handle is open on a
//! given file, so while this crate holds the handle, every change to the
//! file's bytes goes through it. That is what lets the file's contents be
//! modeled as a function of the handle, [`handle_data`], and each operation
//! be given an exact contract over that model.
//!
//! The host addresses offsets and lengths with numbers that are exact only up
//! to [`MAX_SAFE_LEN`]; every offset handed to the host is checked against
//! that bound first.

use vstd::prelude::*;

use crate::error::Error;
use crate::error::ErrorKind;
use crate::error::error_from_host;
use crate::error::host_error_kind;

verus! {

/// The largest length or offset the host can represent exactly.
pub const MAX_SAFE_LEN: u64 = 9007199254740991;

/// The number of bytes a read at `at` into a buffer of `buf_len` bytes
/// transfers from a file of `file_len` bytes: the full buffer, cut short
/// only by the end of the file.
pub open spec fn read_len(file_len: nat, at: nat, buf_len: nat) -> nat {
    if at >= file_len {
        0
    } else if buf_len <= file_len - at {
        buf_len
    } else {
        (file_len - at) as nat
    }
}

/// The buffer after a read at `at`: the transferred bytes, then the buffer's
/// own remainder.
pub open spec fn read_effect(data: Seq<u8>, at: nat, buf: Seq<u8>) -> Seq<u8> {
    Seq::new(
        buf.len(),
        |i: int|
            if i < read_len(data.len(), at, buf.len()) {
                data[at + i]
            } else {
                buf[i]
            },
    )
}

/// The file after writing `src` at `at`: the written window replaces or
/// extends the old bytes, everything below the old end and outside the
/// window is kept, and a write past the old end zero-fills the gap.
pub open spec fn write_effect(data: Seq<u8>, at: nat, src: Seq<u8>) -> Seq<u8> {
    Seq::new(
        if at + src.len() > data.len() {
            (at + src.len()) as nat
        } else {
            data.len()
        },
        |i: int|
            if at <= i < at + src.len() {
                src[i - at]
            } else if i < data.len() {
                data[i]
            } else {
                0u8
            },
    )
}

/// The file after setting its length to `new_len`: the shorter prefix is
/// kept and any extension is zero-filled.
pub open spec fn truncate_effect(data: Seq<u8>, new_len: nat) -> Seq<u8> {
    Seq::new(
        new_len,
        |i: int|
            if i < data.len() {
                data[i]
            } else {
                0u8
            },
    )
}

/// Law: writing bytes wholly within the current length leaves the length
/// unchanged, and reading the same window back yields exactly those bytes.
pub proof fn lemma_write_then_read_round_trip(data: Seq<u8>, at: nat, bytes: Seq<u8>, buf: Seq<u8>)
    requires
        at + bytes.len() <= data.len(),
        buf.len() == bytes.len(),
    ensures
        write_effect(data, at, bytes).len() == data.len(),
        read_len(write_effect(data, at, bytes).len(), at, bytes.len()) == bytes.len(),
        read_effect(write_effect(data, at, bytes), at, buf) == bytes,
        forall|k: int| 0 <= k < bytes.len() ==> write_effect(data, at, bytes)[at + k] == bytes[k],
{
    assert(read_effect(write_effect(data, at, bytes), at, buf) =~= bytes);
}

/// Law: after setting the length to `n`, the length is exactly `n`, the
/// common prefix is kept, and any extension reads back as zero.
pub proof fn lemma_set_len_effect(data: Seq<u8>, n: nat)
    ensures
        truncate_effect(data, n).len() == n,
        forall|i: int| 0 <= i < n && i < data.len() ==> truncate_effect(data, n)[i] == data[i],
        forall|i: int| data.len() <= i < n ==> truncate_effect(data, n)[i] == 0u8,
{
}

#[verifier::external_type_specification]
#[verifier::external_body]
pub struct ExFileSystemSyncAccessHandle(web_sys::FileSystemSyncAccessHandle);

/// The bytes of the one file this exclusive handle is open on. Sound as a
/// function of the handle because the host admits no second handle, and so
/// no other writer, while this one is held.
pub uninterp spec fn handle_data(h: web_sys::FileSystemSyncAccessHandle) -> Seq<u8>;

/// Relies on FileSystemSyncAccessHandle.getSize: reports the file's byte
/// length, which the host keeps exactly representable in its numbers.
#[verifier::external_body]
fn handle_size(h: &web_sys::FileSystemSyncAccessHandle) -> (r: Result<u64, wasm_bindgen::JsValue>)
    ensures
        r matches Ok(sz) ==> sz == handle_data(*h).len() && sz <= MAX_SAFE_LEN,
{
    h.get_size().map(|sz| sz as _)
}

/// Relies on FileSystemSyncAccessHandle.read with an explicit offset: fills
/// the buffer from the file at that offset and returns the number of bytes
/// transferred, which falls short of the buffer's length only at end of
/// file.
#[verifier::external_body]
fn handle_read_at(
    h: &web_sys::FileSystemSyncAccessHandle,
    buf: &mut Vec<u8>,
    at: u64,
) -> (r: Result<usize, wasm_bindgen::JsValue>)
    requires
        at <= MAX_SAFE_LEN,
    ensures
        final(buf)@.len() == old(buf)@.len(),
        r matches Ok(n) ==> n == read_len(handle_data(*h).len(), at as nat, old(buf)@.len())
            && final(buf)@ == read_effect(handle_data(*h), at as nat, old(buf)@),
{
    let options = web_sys::FileSystemReadWriteOptions::new();
    options.set_at(at as _);
    match h.read_with_u8_array_and_options(buf.as_mut_slice(), &options) {
        Ok(n) => Ok(n as _),
        Err(e) => Err(e),
    }
}

/// Relies on FileSystemSyncAccessHandle.write with an explicit offset:
/// writes the whole buffer into the file at that offset, growing the file
/// as needed and zero-filling any gap between the old end and the offset,
/// and returns the number of bytes written.
#[verifier::external_body]
fn handle_write_at(
    h: &mut web_sys::FileSystemSyncAccessHandle,
    data: &[u8],
    at: u64,
) -> (r: Result<usize, wasm_bindgen::JsValue>)
    requires
        at + data@.len() <= MAX_SAFE_LEN,
    ensures
        r matches Ok(n) ==> n == data@.len() && handle_data(*final(h)) == write_effect(
            handle_data(*old(h)),
            at as nat,
            data@,
        ),
{
    let options = web_sys::FileSystemReadWriteOptions::new();
    options.set_at(at as _);
    match (*h).write_with_u8_array_and_options(data, &options) {
        Ok(n) => Ok(n as _),
        Err(e) => Err(e),
    }
}

/// Relies on FileSystemSyncAccessHandle.truncate: resizes the file to
/// exactly the requested length, keeping the shorter prefix and zero-filling
/// any extension.
#[verifier::external_body]
fn handle_truncate(
    h: &mut web_sys::FileSystemSyncAccessHandle,
    new_len: u64,
) -> (r: Result<(), wasm_bindgen::JsValue>)
    requires
        new_len <= MAX_SAFE_LEN,
    ensures
        r is Ok ==> handle_data(*final(h)) == truncate_effect(
            handle_data(*old(h)),
            new_len as nat,
        ),
{
    (*h).truncate_with_f64(new_len as _)
}

/// Relies on FileSystemSyncAccessHandle.flush: forces buffered file content
/// to durable storage, leaving the file's bytes unchanged.
#[verifier::external_body]
fn handle_flush(h: &web_sys::FileSystemSyncAccessHandle) -> (r: Result<
    (),
    wasm_bindgen::JsValue,
>) {
    h.flush()
}

/// Whether the host can represent a requested length exactly; larger
/// requests are rejected before any host call.
pub fn set_len_allowed(size: u64) -> (r: bool)
    ensures
        r == (size <= MAX_SAFE_LEN),
{
    size <= MAX_SAFE_LEN
}

/// The origin of a seek: the start of the file, its end, or the cursor.
#[derive(Clone, Copy, Debug)]
pub enum SeekFrom {
    Start(u64),
    End(i64),
    Current(i64),
}

/// The cursor position a seek asks for, before range checking.
pub open spec fn seek_target(from: SeekFrom, cur: u64, size: u64) -> int {
    match from {
        SeekFrom::Start(o) => o as int,
        SeekFrom::End(d) => size + d,
        SeekFrom::Current(d) => cur + d,
    }
}

/// The diagnostic for a seek that leaves the cursor's range.
pub open spec fn seek_err_message(from: SeekFrom) -> Seq<char> {
    match from {
        SeekFrom::Start(_) => Seq::empty(),
        SeekFrom::End(_) => "over/underflow seeking from file end"@,
        SeekFrom::Current(_) => "over/underflow seeking from current position"@,
    }
}

/// The new cursor for a seek from `cur` in a file of `size` bytes: the
/// origin plus the signed offset, rejected as invalid input when it leaves
/// the cursor's range. Seeking past the end of the file is legal.
pub fn seek_position(from: SeekFrom, cur: u64, size: u64) -> (r: Result<u64, Error>)
    ensures
        match r {
            Ok(p) => 0 <= seek_target(from, cur, size) <= u64::MAX && p == seek_target(
                from,
                cur,
                size,
            ),
            Err(e) => !(0 <= seek_target(from, cur, size) <= u64::MAX) && e.chain() == seq![
                (ErrorKind::InvalidInput, seek_err_message(from)),
            ],
        },
{
    match from {
        SeekFrom::Start(offset) => Ok(offset),
        SeekFrom::End(delta) => match size.checked_add_signed(delta) {
            Some(p) => Ok(p),
            None => Err(
                Error::new(
                    ErrorKind::InvalidInput,
                    "over/underflow seeking from file end".to_owned(),
                ),
            ),
        },
        SeekFrom::Current(delta) => match cur.checked_add_signed(delta) {
            Some(p) => Ok(p),
            None => Err(
                Error::new(
                    ErrorKind::InvalidInput,
                    "over/underflow seeking from current position".to_owned(),
                ),
            ),
        },
    }
}

/// The model of a synchronous file: the bytes of the backing file and the
/// cursor, which may point past the end.
pub ghost struct FileView {
    pub data: Seq<u8>,
    pub pos: u64,
}

/// A blocking file over an exclusive synchronous access handle, with a
/// cursor that advances by exactly the bytes each read or write transfers.
#[derive(Debug)]
pub struct File {
    handle: web_sys::FileSystemSyncAccessHandle,
    pos: u64,
}

impl View for File {
    type V = FileView;

    closed spec fn view(&self) -> FileView {
        FileView { data: handle_data(self.handle), pos: self.pos }
    }
}

impl File {
    /// Wrap a freshly acquired exclusive handle; the cursor starts at zero.
    pub fn new(handle: web_sys::FileSystemSyncAccessHandle) -> (r: File)
        ensures
            r@.data == handle_data(handle),
            r@.pos == 0,
    {
        File { handle, pos: 0 }
    }

    /// The current byte length of the file.
    pub fn size(&self) -> (r: Result<u64, Error>)
        ensures
            match r {
                Ok(sz) => sz == self@.data.len() && self@.data.len() <= MAX_SAFE_LEN,
                Err(e) => e.chain().len() == 1 && host_error_kind(e.spec_kind()),
            },
    {
        match handle_size(&self.handle) {
            Ok(sz) => Ok(sz),
            Err(js) => Err(error_from_host(js)),
        }
    }

    /// Move the cursor. Only a seek from the end consults the host, for the
    /// file's length; the others are pure cursor arithmetic.
    pub fn seek(&mut self, from: SeekFrom) -> (r: Result<u64, Error>)
        ensures
            final(self)@.data == old(self)@.data,
            match r {
                Ok(p) => final(self)@.pos == p && match from {
                    SeekFrom::Start(o) => p == o,
                    SeekFrom::End(d) => p == old(self)@.data.len() + d,
                    SeekFrom::Current(d) => p == old(self)@.pos + d,
                },
                Err(e) => final(self)@.pos == old(self)@.pos,
            },
            match from {
                SeekFrom::Start(o) => r == Ok::<u64, Error>(o),
                SeekFrom::End(d) => r matches Err(e) ==> (!(0 <= old(self)@.data.len() + d
                    <= u64::MAX) && e.chain() == seq![
                    (ErrorKind::InvalidInput, seek_err_message(from)),
                ]) || host_error_kind(e.spec_kind()),
                SeekFrom::Current(d) => if 0 <= old(self)@.pos + d <= u64::MAX {
                    r matches Ok(p) && p == old(self)@.pos + d
                } else {
                    r matches Err(e) && e.chain() == seq![
                        (ErrorKind::InvalidInput, seek_err_message(from)),
                    ]
                },
            },
    {
        let size: u64 = match from {
            SeekFrom::End(_) => match self.size() {
                Ok(sz) => sz,
                Err(e) => {
                    return Err(e);
                },
            },
            _ => 0,
        };
        match seek_position(from, self.pos, size) {
            Ok(p) => {
                self.pos = p;
                Ok(p)
            },
            Err(e) => Err(e),
        }
    }

    /// Read into `buf` at the cursor, advancing the cursor by the number of
    /// bytes transferred, which falls short of the buffer's length only at
    /// end of file.
    pub fn read(&mut self, buf: &mut Vec<u8>) -> (r: Result<usize, Error>)
        ensures
            final(self)@.data == old(self)@.data,
            final(buf)@.len() == old(buf)@.len(),
            match r {
                Ok(n) => {
                    &&& old(self)@.pos <= MAX_SAFE_LEN
                    &&& n == read_len(
                        old(self)@.data.len(),
                        old(self)@.pos as nat,
                        old(buf)@.len(),
                    )
                    &&& final(buf)@ == read_effect(
                        old(self)@.data,
                        old(self)@.pos as nat,
                        old(buf)@,
                    )
                    &&& final(self)@.pos == old(self)@.pos + n
                },
                Err(e) => {
                    &&& final(self)@.pos == old(self)@.pos
                    &&& (host_error_kind(e.spec_kind()) || e.spec_kind() == ErrorKind::InvalidInput)
                    &&& (e.spec_kind() == ErrorKind::InvalidInput ==> old(self)@.pos
                        > MAX_SAFE_LEN)
                },
            },
            old(self)@.pos > MAX_SAFE_LEN ==> r is Err,
    {
        if self.pos > MAX_SAFE_LEN {
            return Err(
                Error::new(
                    ErrorKind::InvalidInput,
                    "cursor beyond the host's addressable range".to_owned(),
                ),
            );
        }
        match handle_read_at(&self.handle, buf, self.pos) {
            Ok(n) => match self.pos.checked_add(n as u64) {
                Some(p) => {
                    self.pos = p;
                    Ok(n)
                },
                None => Err(Error::new(ErrorKind::Other, "cursor would overflow".to_owned())),
            },
            Err(js) => Err(error_from_host(js)),
        }
    }

    /// Write `buf` at the cursor, advancing the cursor by the number of
    /// bytes written; the whole buffer is written or the call fails. A write
    /// past the end of the file zero-fills the gap.
    pub fn write(&mut self, buf: &[u8]) -> (r: Result<usize, Error>)
        ensures
            match r {
                Ok(n) => {
                    &&& n == buf@.len()
                    &&& old(self)@.pos + buf@.len() <= MAX_SAFE_LEN
                    &&& final(self)@.pos == old(self)@.pos + n
                    &&& final(self)@.data == write_effect(
                        old(self)@.data,
                        old(self)@.pos as nat,
                        buf@,
                    )
                },
                Err(e) => {
                    &&& final(self)@.pos == old(self)@.pos
                    &&& (e.spec_kind() == ErrorKind::InvalidInput ==> final(self)@.data == old(
                        self,
                    )@.data && old(self)@.pos + buf@.len() > MAX_SAFE_LEN)
                },
            },
            old(self)@.pos + buf@.len() > MAX_SAFE_LEN ==> (r matches Err(e) && e.spec_kind()
                == ErrorKind::InvalidInput),
    {
        if self.pos > MAX_SAFE_LEN || (buf.len() as u64) > MAX_SAFE_LEN - self.pos {
            return Err(
                Error::new(
                    ErrorKind::InvalidInput,
                    "write would pass the host's addressable range".to_owned(),
                ),
            );
        }
        match handle_write_at(&mut self.handle, buf, self.pos) {
            Ok(n) => {
                self.pos = self.pos + (n as u64);
                Ok(n)
            },
            Err(js) => Err(error_from_host(js)),
        }
    }

    /// Shrink or extend the file to exactly `size` bytes; extension
    /// zero-fills. The cursor is left unchanged, even when a shrink leaves
    /// it past the new end. A length the host cannot represent exactly is
    /// rejected before any host call.
    pub fn set_len(&mut self, size: u64) -> (r: Result<(), Error>)
        ensures
            final(self)@.pos == old(self)@.pos,
            size > MAX_SAFE_LEN ==> (r matches Err(e) && e.spec_kind() == ErrorKind::InvalidInput
                && final(self)@.data == old(self)@.data),
            size <= MAX_SAFE_LEN ==> match r {
                Ok(_) => final(self)@.data == truncate_effect(old(self)@.data, size as nat),
                Err(e) => e.spec_kind() != ErrorKind::InvalidInput,
            },
    {
        if !set_len_allowed(size) {
            return Err(Error::new(ErrorKind::InvalidInput, "requested size too large".to_owned()));
        }
        match handle_truncate(&mut self.handle, size) {
            Ok(_) => Ok(()),
            Err(js) => Err(error_from_host(js)),
        }
    }

    /// Read exactly `out.len()` bytes at the cursor, or fail: a short
    /// transfer is not a valid outcome here. On success the cursor has
    /// advanced past the window read. An empty read makes no host call and
    /// always succeeds; a cursor the host cannot address is rejected as
    /// invalid input, and that is the only invalid-input failure here.
    pub fn read_exact(&mut self, out: &mut Vec<u8>) -> (r: Result<(), Error>)
        ensures
            final(self)@.data == old(self)@.data,
            final(out)@.len() == old(out)@.len(),
            match r {
                Ok(_) => {
                    &&& old(out)@.len() > 0 ==> old(self)@.pos + old(out)@.len() <= old(
                        self,
                    )@.data.len()
                    &&& forall|k: int|
                        0 <= k < old(out)@.len() ==> final(out)@[k] == old(self)@.data[old(
                            self,
                        )@.pos + k]
                    &&& final(self)@.pos == old(self)@.pos + old(out)@.len()
                },
                Err(e) => {
                    &&& (host_error_kind(e.spec_kind()) || e.spec_kind() == ErrorKind::InvalidInput)
                    &&& (e.spec_kind() == ErrorKind::InvalidInput ==> old(self)@.pos + old(
                        out,
                    )@.len() > MAX_SAFE_LEN)
                },
            },
            old(out)@.len() == 0 ==> r is Ok,
            old(out)@.len() > 0 && old(self)@.pos > MAX_SAFE_LEN ==> r is Err,
    {
        let ghost gdata = self@.data;
        let ghost start = self@.pos;
        let mut filled: usize = 0;
        while filled < out.len()
            invariant
                gdata == old(self)@.data,
                start == old(self)@.pos,
                filled <= out@.len(),
                self@.data == gdata,
                self@.pos == start + filled,
                out@.len() == old(out)@.len(),
                forall|k: int| 0 <= k < filled ==> out@[k] == gdata[start + k],
                forall|k: int| filled <= k < out@.len() ==> out@[k] == old(out)@[k],
                filled > 0 ==> start + filled <= gdata.len(),
                filled > 0 ==> start <= MAX_SAFE_LEN,
            decreases out@.len() - filled,
        {
            let want = out.len() - filled;
            let mut chunk: Vec<u8> = Vec::new();
            while chunk.len() < want
                invariant
                    chunk@.len() <= want,
                decreases want - chunk@.len(),
            {
                chunk.push(0);
            }
            let n = match self.read(&mut chunk) {
                Ok(n) => n,
                Err(e) => {
                    return Err(e);
                },
            };
            if n == 0 {
                return Err(Error::new(ErrorKind::Other, "failed to fill whole buffer".to_owned()));
            }
            let mut j: usize = 0;
            while j < n
                invariant
                    j <= n <= want,
                    filled + want == out@.len(),
                    filled + want <= usize::MAX,
                    chunk@.len() == want,
                    forall|k: int| 0 <= k < n ==> chunk@[k] == gdata[start + filled + k],
                    out@.len() == old(out)@.len(),
                    forall|k: int| 0 <= k < filled + j ==> out@[k] == gdata[start + k],
                    forall|k: int| filled + j <= k < out@.len() ==> out@[k] == old(out)@[k],
                decreases n - j,
            {
                let b = chunk[j];
                out[filled + j] = b;
                j += 1;
            }
            filled = filled + n;
        }
        Ok(())
    }

    /// Write all of `buf` at the cursor, or fail; on success the cursor has
    /// advanced past the window written. A write past the end of the file
    /// zero-fills the gap.
    pub fn write_all(&mut self, buf: &[u8]) -> (r: Result<(), Error>)
        ensures
            match r {
                Ok(_) => {
                    &&& old(self)@.pos + buf@.len() <= MAX_SAFE_LEN
                    &&& final(self)@.pos == old(self)@.pos + buf@.len()
                    &&& final(self)@.data == write_effect(
                        old(self)@.data,
                        old(self)@.pos as nat,
                        buf@,
                    )
                },
                Err(e) => {
                    &&& final(self)@.pos == old(self)@.pos
                    &&& (e.spec_kind() == ErrorKind::InvalidInput ==> final(self)@.data == old(
                        self,
                    )@.data && old(self)@.pos + buf@.len() > MAX_SAFE_LEN)
                },
            },
            old(self)@.pos + buf@.len() > MAX_SAFE_LEN ==> (r matches Err(e) && e.spec_kind()
                == ErrorKind::InvalidInput),
    {
        match self.write(buf) {
            Ok(_) => Ok(()),
            Err(e) => Err(e),
        }
    }

    /// Force pending file content to durable storage; directory metadata is
    /// not necessarily flushed.
    pub fn flush(&self) -> (r: Result<(), Error>)
        ensures
            r matches Err(e) ==> e.chain().len() == 1 && host_error_kind(e.spec_kind()),
    {
        match handle_flush(&self.handle) {
            Ok(_) => Ok(()),
            Err(js) => Err(error_from_host(js)),
        }
    }
}

} // verus!
