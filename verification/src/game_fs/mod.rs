//! Files of the host's storage, held in memory.
//!
//! The library never touches the host's storage itself. A [`File`] is the picture of one
//! file that the host was asked to open: where it lies, whether the open succeeded, and the
//! bytes it holds. Reads and writes work on that picture, and the caller carries the bytes
//! back to the host when it is done.

use vstd::prelude::*;

verus! {

/// The two storage namespaces a file can lie in.
#[derive(Clone, Copy, Debug, PartialEq, Eq, Structural)]
pub enum Archive {
    /// The extra data of the title with the given unique id.
    ExtData { unique_id: u32 },
    /// The SD card.
    Sdmc,
}

/// What a [`File`] stands for.
pub struct FileView {
    /// The namespace the file lies in.
    pub archive: Archive,
    /// The file's path within its namespace.
    pub path: Seq<char>,
    /// The bytes that the storage holds for the file.
    pub bytes: Seq<u8>,
    /// Whether the file's handle can be used: the open succeeded, and the file was not
    /// closed since.
    pub is_open: bool,
}

/// `bytes` with the `patch.len()` bytes from `offset` on replaced by `patch`.
pub open spec fn overwrite(bytes: Seq<u8>, offset: int, patch: Seq<u8>) -> Seq<u8>
    recommends
        0 <= offset,
        offset + patch.len() <= bytes.len(),
{
    bytes.subrange(0, offset) + patch + bytes.subrange(offset + patch.len(), bytes.len() as int)
}

/// An overwritten sequence keeps its length, holds the patch where the patch was put, and
/// its old bytes elsewhere.
pub proof fn lemma_overwrite(bytes: Seq<u8>, offset: int, patch: Seq<u8>)
    requires
        0 <= offset,
        offset + patch.len() <= bytes.len(),
    ensures
        overwrite(bytes, offset, patch).len() == bytes.len(),
        forall|position: int|
            0 <= position < bytes.len() ==> #[trigger] overwrite(bytes, offset, patch)[position]
                == (if offset <= position < offset + patch.len() {
                patch[position - offset]
            } else {
                bytes[position]
            }),
{
}

impl FileView {
    /// Whether `count` bytes from `offset` on can be read or written: the file is open and
    /// holds the whole range. A file has the size it was opened with, and no write extends it.
    pub open spec fn can_access(self, offset: int, count: int) -> bool {
        self.is_open && 0 <= offset && 0 <= count && offset + count <= self.bytes.len()
    }

    /// What a read from `offset` leaves in a buffer that held `before`: as many bytes of the
    /// file as the buffer is long, or `before` where the file cannot be read there.
    pub open spec fn read_into(self, offset: int, before: Seq<u8>) -> Seq<u8> {
        if self.can_access(offset, before.len() as int) {
            self.bytes.subrange(offset, offset + before.len())
        } else {
            before
        }
    }

    /// The file after a write of `patch` at `offset`: a write that cannot cover its whole
    /// range fails and changes nothing.
    pub open spec fn after_write(self, offset: int, patch: Seq<u8>) -> FileView {
        if self.can_access(offset, patch.len() as int) {
            FileView { bytes: overwrite(self.bytes, offset, patch), ..self }
        } else {
            self
        }
    }

    /// The bytes that can be seen through the file's handle: none where the file is not
    /// open.
    pub open spec fn readable(self) -> Seq<u8> {
        if self.is_open {
            self.bytes
        } else {
            Seq::empty()
        }
    }

    /// The file after its handle was released: the bytes stay where they are.
    pub open spec fn after_close(self) -> FileView {
        FileView { is_open: false, ..self }
    }
}

/// The file at `path` in `archive`, given what the host answered to the open: the file's
/// bytes, or nothing where the open failed.
pub open spec fn opened(archive: Archive, path: Seq<char>, contents: Option<Vec<u8>>) -> FileView {
    FileView {
        archive,
        path,
        bytes: match contents {
            Some(bytes) => bytes@,
            None => Seq::empty(),
        },
        is_open: contents.is_some(),
    }
}

/// A file of the host's storage.
pub struct File {
    archive: Archive,
    path: String,
    data: Vec<u8>,
    open_success: bool,
}

impl File {
    pub closed spec fn view(&self) -> FileView {
        FileView {
            archive: self.archive,
            path: self.path@,
            bytes: self.data@,
            is_open: self.open_success,
        }
    }

    /// The file at `file_path` on the SD card. `contents` is what the host found there:
    /// `None` where it could not open the file.
    pub fn new_sd_file(file_path: &str, contents: Option<Vec<u8>>) -> (file: File)
        ensures
            file@ == opened(Archive::Sdmc, file_path@, contents),
    {
        File::open(Archive::Sdmc, file_path, contents)
    }

    /// The file at `file_path` in the extra data of the title `extdata_unique_id`.
    /// `contents` is what the host found there: `None` where it could not open the file.
    pub fn new_extdata_file(
        extdata_unique_id: u32,
        file_path: &str,
        contents: Option<Vec<u8>>,
    ) -> (file: File)
        ensures
            file@ == opened(
                (Archive::ExtData { unique_id: extdata_unique_id }),
                file_path@,
                contents,
            ),
    {
        File::open(Archive::ExtData { unique_id: extdata_unique_id }, file_path, contents)
    }

    fn open(archive: Archive, file_path: &str, contents: Option<Vec<u8>>) -> (file: File)
        ensures
            file@ == opened(archive, file_path@, contents),
    {
        let path = file_path.to_owned();
        match contents {
            Some(data) => File { archive, path, data, open_success: true },
            None => File { archive, path, data: Vec::new(), open_success: false },
        }
    }

    /// Fills `buffer` with the bytes from `offset` on. Where the file is not open or does not
    /// hold the whole range, the read fails and `buffer` keeps what it held.
    pub fn read(&mut self, offset: u64, buffer: &mut [u8]) -> (success: bool)
        ensures
            final(self)@ == old(self)@,
            success == old(self)@.can_access(offset as int, old(buffer)@.len() as int),
            final(buffer)@ == old(self)@.read_into(offset as int, old(buffer)@),
    {
        let size = self.data.len();
        let count = buffer.len();
        if !self.open_success || offset > size as u64 || count > size - offset as usize {
            return false;
        }
        let start = offset as usize;
        let mut i: usize = 0;
        while i < count
            invariant
                i <= count,
                count == buffer@.len(),
                count == old(buffer)@.len(),
                start + count <= size,
                size == self.data@.len(),
                *self == *old(self),
                forall|k: int| 0 <= k < i ==> buffer@[k] == self.data@[start + k],
            decreases count - i,
        {
            buffer[i] = self.data[start + i];
            i += 1;
        }
        assert(buffer@ =~= self.data@.subrange(start as int, start + count));
        true
    }

    /// Writes `buffer` at `offset`. Where the file is not open or does not hold the whole
    /// range, the write fails and the file keeps what it held.
    pub fn write(&mut self, offset: u64, buffer: &[u8]) -> (success: bool)
        ensures
            success == old(self)@.can_access(offset as int, buffer@.len() as int),
            final(self)@ == old(self)@.after_write(offset as int, buffer@),
    {
        let size = self.data.len();
        let count = buffer.len();
        if !self.open_success || offset > size as u64 || count > size - offset as usize {
            return false;
        }
        let start = offset as usize;
        let mut i: usize = 0;
        while i < count
            invariant
                i <= count,
                count == buffer@.len(),
                start + count <= size,
                size == self.data@.len(),
                size == old(self).data@.len(),
                self.archive == old(self).archive,
                self.path == old(self).path,
                self.open_success == old(self).open_success,
                forall|k: int| 0 <= k < i ==> self.data@[start + k] == buffer@[k],
                forall|p: int|
                    0 <= p < size && !(start <= p < start + i) ==> self.data@[p] == old(
                        self,
                    ).data@[p],
            decreases count - i,
        {
            self.data.set(start + i, buffer[i]);
            i += 1;
        }
        assert(self.data@ =~= overwrite(old(self).data@, start as int, buffer@));
        true
    }

    /// The file's size in bytes, or 0 where the file is not open.
    pub fn get_size(&mut self) -> (size: u64)
        ensures
            final(self)@ == old(self)@,
            size == old(self)@.readable().len(),
    {
        if self.open_success {
            self.data.len() as u64
        } else {
            0
        }
    }

    /// Releases the file. Succeeds where the file was open; afterwards it is not.
    pub fn close(&mut self) -> (success: bool)
        ensures
            success == old(self)@.is_open,
            final(self)@ == old(self)@.after_close(),
    {
        let was_open = self.open_success;
        self.open_success = false;
        was_open
    }

    /// Whether the file is open.
    pub fn open_success(&self) -> (is_open: bool)
        ensures
            is_open == self@.is_open,
    {
        self.open_success
    }

    /// The namespace the file lies in.
    pub fn archive(&self) -> (archive: Archive)
        ensures
            archive == self@.archive,
    {
        self.archive
    }

    /// The file's path within its namespace.
    pub fn path(&self) -> (path: &str)
        ensures
            path@ == self@.path,
    {
        self.path.as_str()
    }

    /// The bytes that the storage holds for the file, open or not, for the caller to carry
    /// back to the host.
    pub fn bytes(&self) -> (bytes: &[u8])
        ensures
            bytes@ == self@.bytes,
    {
        self.data.as_slice()
    }
}

} // verus!
