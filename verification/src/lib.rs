//! A storage backend that adapts an embedded key-value database to a
//! browser's origin-private file system: a virtual path is resolved once,
//! asynchronously, to an exclusive synchronous access handle, and every later
//! operation is a synchronous, offset-addressed call on that handle.
//!
//! The pieces, leaf first: [`virtualize_path`] normalizes a path into
//! root-confined segments; the surrounding worker resolves those segments to
//! an exclusive handle and wraps it in a [`File`], the cursor-based
//! synchronous file; [`OpfsBackend`] serializes offset-addressed, full-length
//! reads and writes over that file; and [`Error`] carries every failure as a
//! portable category with a causal chain.

use vstd::prelude::*;

mod error;
mod file;
mod lifecycle;
mod path;

pub use error::Error;
pub use error::ErrorKind;
pub use error::HostSignal;
pub use error::acquire_signal_kind;
pub use error::chain_messages_of;
pub use error::error_from_host;
pub use error::error_from_host_acquire;
pub use error::host_error_kind;
pub use error::joined;
pub use error::kind_label;
pub use error::kind_of_code;
pub use error::signal_kind;
pub use error::signal_link;
pub use error::translate_acquire_signal;
pub use error::translate_signal;
pub use error::NOT_FOUND_CODE;
pub use error::NO_DATA_ALLOWED_CODE;
pub use error::NO_MODIFICATION_ALLOWED_CODE;
pub use error::TYPE_MISMATCH_CODE;
pub use file::File;
pub use file::FileView;
pub use file::SeekFrom;
pub use file::MAX_SAFE_LEN;
pub use file::handle_data;
pub use file::lemma_set_len_effect;
pub use file::lemma_write_then_read_round_trip;
pub use file::read_effect;
pub use file::read_len;
pub use file::seek_err_message;
pub use file::seek_position;
pub use file::seek_target;
pub use file::set_len_allowed;
pub use file::truncate_effect;
pub use file::write_effect;
pub use lifecycle::Lifecycle;
pub use path::VirtualPath;
pub use path::closed_parent_marker;
pub use path::current_marker;
pub use path::keep_segment;
pub use path::parent_marker;
pub use path::rejects;
pub use path::scan;
pub use path::valid_segment;
pub use path::virtual_segments;
pub use path::virtualize_path;

verus! {

/// The storage contract the embedding database engine consumes: length,
/// offset-addressed full-length read and write, truncate or extend, and
/// flush, all over one synchronous file.
///
/// Every operation takes the adapter exclusively; the surrounding worker
/// serializes callers through one mutual-exclusion guard around this value.
#[derive(Debug)]
pub struct OpfsBackend {
    file: File,
}

impl View for OpfsBackend {
    type V = FileView;

    closed spec fn view(&self) -> FileView {
        self.file@
    }
}

impl OpfsBackend {
    /// Wrap an opened synchronous file.
    pub fn new(file: File) -> (r: OpfsBackend)
        ensures
            r@ == file@,
    {
        OpfsBackend { file }
    }

    /// The current byte length of the file.
    pub fn len(&self) -> (r: Result<u64, Error>)
        ensures
            match r {
                Ok(sz) => sz == self@.data.len() && self@.data.len() <= MAX_SAFE_LEN,
                Err(e) => e.chain().len() == 1 && host_error_kind(e.spec_kind()),
            },
    {
        self.file.size()
    }

    /// Read exactly `out.len()` bytes at `offset`, or fail: a short transfer
    /// is not a valid outcome for this contract. An empty read makes no host
    /// call and always succeeds; an offset the host cannot address is
    /// rejected as invalid input, and only such rejections carry that
    /// category.
    pub fn read(&mut self, offset: u64, out: &mut Vec<u8>) -> (r: Result<(), Error>)
        ensures
            final(self)@.data == old(self)@.data,
            final(out)@.len() == old(out)@.len(),
            r is Ok ==> {
                &&& (old(out)@.len() > 0 ==> offset + old(out)@.len() <= old(self)@.data.len())
                &&& forall|k: int|
                    0 <= k < old(out)@.len() ==> final(out)@[k] == old(self)@.data[offset + k]
            },
            old(out)@.len() == 0 ==> r is Ok,
            old(out)@.len() > 0 && offset > MAX_SAFE_LEN ==> r is Err,
            r matches Err(e) && e.spec_kind() == ErrorKind::InvalidInput ==> offset + old(
                out,
            )@.len() > MAX_SAFE_LEN,
    {
        match self.file.seek(SeekFrom::Start(offset)) {
            Ok(_) => {},
            Err(e) => {
                return Err(e);
            },
        }
        self.file.read_exact(out)
    }

    /// Write all of `data` at `offset`, or fail. A write past the end of the
    /// file zero-fills the gap. A window the host cannot address is rejected
    /// as invalid input, and only such rejections carry that category.
    pub fn write(&mut self, offset: u64, data: &[u8]) -> (r: Result<(), Error>)
        ensures
            match r {
                Ok(_) => {
                    &&& offset + data@.len() <= MAX_SAFE_LEN
                    &&& final(self)@.data == write_effect(old(self)@.data, offset as nat, data@)
                },
                Err(e) => e.spec_kind() == ErrorKind::InvalidInput ==> final(self)@.data == old(
                    self,
                )@.data,
            },
            offset + data@.len() > MAX_SAFE_LEN ==> (r matches Err(e) && e.spec_kind()
                == ErrorKind::InvalidInput),
            r matches Err(e) && e.spec_kind() == ErrorKind::InvalidInput ==> offset + data@.len()
                > MAX_SAFE_LEN,
    {
        match self.file.seek(SeekFrom::Start(offset)) {
            Ok(_) => {},
            Err(e) => {
                return Err(e);
            },
        }
        self.file.write_all(data)
    }

    /// Shrink or extend the file to exactly `len` bytes; extension
    /// zero-fills; the cursor is left where it was, even past the new end.
    /// A length the host cannot represent exactly is rejected as invalid
    /// input before any host call.
    pub fn set_len(&mut self, len: u64) -> (r: Result<(), Error>)
        ensures
            final(self)@.pos == old(self)@.pos,
            len > MAX_SAFE_LEN ==> (r matches Err(e) && e.spec_kind() == ErrorKind::InvalidInput
                && final(self)@.data == old(self)@.data),
            len <= MAX_SAFE_LEN ==> match r {
                Ok(_) => final(self)@.data == truncate_effect(old(self)@.data, len as nat),
                Err(e) => e.spec_kind() != ErrorKind::InvalidInput,
            },
    {
        self.file.set_len(len)
    }

    /// Force pending file content to durable storage.
    pub fn sync_data(&self) -> (r: Result<(), Error>)
        ensures
            r matches Err(e) ==> e.chain().len() == 1 && host_error_kind(e.spec_kind()),
    {
        self.file.flush()
    }
}

} // verus!
