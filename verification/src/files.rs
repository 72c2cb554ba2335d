//! File metadata, and the decisions taken while reading or writing a whole file through the
//! device's chunked read and write calls.
use vstd::prelude::*;

verus! {

/// A filesystem timestamp, which can represent when a file or folder was last accessed, modified,
/// etc.
#[derive(Debug, Copy, Clone, PartialEq, Eq, Structural, PartialOrd, Ord, Hash)]
pub struct FilePathTimestamp {
    /// The timestamp's year.
    pub year: i32,
    /// The timestamp's month within the year, from 1 to 12.
    pub month: i32,
    /// The timestamp's day within the month, from 1 to 31.
    pub day: i32,
    /// The timestamp's hour within the day, from 0 to 23.
    pub hour: i32,
    /// The timestamp's minute within the hour, from 0 to 59.
    pub minute: i32,
    /// The timestamp's seconds within the minute, normally from 0 to 59. Can be 60 on a leap
    /// second.
    pub second: i32,
}

/// Information about a file path in the filesystem.
#[derive(Debug, Copy, Clone, PartialEq, Eq, Structural, PartialOrd, Ord, Hash)]
pub enum FilePathStat {
    /// The path refers to a folder.
    Folder {
        /// When the folder was last modified, which occurs when a file is created or deleted.
        modified: FilePathTimestamp,
    },
    /// The path refers to a file.
    File {
        /// The size of the file in bytes.
        size: u32,
        /// When the file was last modified.
        modified: FilePathTimestamp,
    },
}

/// A filesystem timestamp.
#[derive(Debug, Copy, Clone, PartialEq, Eq, Structural, PartialOrd, Ord, Hash)]
pub struct FileTimestamp {
    pub year: i32,
    pub month: i32,
    pub day: i32,
    pub hour: i32,
    pub minute: i32,
    pub second: i32,
}

/// Information about a file or folder.
#[derive(Debug, Copy, Clone, PartialEq, Eq, Structural, PartialOrd, Ord, Hash)]
pub struct FileStat {
    pub is_folder: bool,
    pub size: u32,
    pub modified: FileTimestamp,
}

/// The information about a path from what the device reports for it: whether it is a folder
/// (`isdir` non-zero), its size, and its modification time.
pub fn file_path_stat_from_device(isdir: i32, size: u32, modified: FilePathTimestamp) -> (r:
    FilePathStat)
    ensures
        r == (if isdir != 0 {
            FilePathStat::Folder { modified }
        } else {
            FilePathStat::File { size, modified }
        }),
{
    if isdir != 0 {
        FilePathStat::Folder { modified }
    } else {
        FilePathStat::File { size, modified }
    }
}

/// The information about a file or folder from what the device reports for it.
pub fn file_stat_from_device(isdir: i32, size: u32, modified: FileTimestamp) -> (r: FileStat)
    ensures
        r == (FileStat { is_folder: isdir != 0, size, modified }),
{
    FileStat { is_folder: isdir != 0, size, modified }
}

/// The names of the files and subfolders found in a folder, handed out one at a time.
///
/// Subfolders are indicated by a slash '/' suffix in the filename.
#[derive(Debug)]
pub struct ListFilesIterator {
    names: Vec<String>,
    pos: usize,
}

impl ListFilesIterator {
    /// The position is within the names.
    pub closed spec fn wf(&self) -> bool {
        self.pos <= self.names@.len()
    }

    /// The names not handed out yet, in order.
    pub closed spec fn remaining_spec(&self) -> Seq<Seq<char>> {
        self.names@.subrange(self.pos as int, self.names@.len() as int).map_values(|s: String| s@)
    }

    /// Hands out `names` in order.
    pub fn from_names(names: Vec<String>) -> (r: Self)
        ensures
            r.wf(),
            r.remaining_spec() == names@.map_values(|s: String| s@),
    {
        let r = ListFilesIterator { names, pos: 0 };
        proof {
            assert(r.names@.subrange(0, r.names@.len() as int) =~= r.names@);
        }
        r
    }

    /// The next name, or `None` when every name was handed out.
    pub fn next(&mut self) -> (r: Option<String>)
        requires
            old(self).wf(),
        ensures
            final(self).wf(),
            match r {
                Some(s) => old(self).remaining_spec().len() > 0 && s@ == old(self).remaining_spec()[0]
                    && final(self).remaining_spec() == old(self).remaining_spec().drop_first(),
                None => old(self).remaining_spec().len() == 0 && final(self).remaining_spec()
                    == old(self).remaining_spec(),
            },
    {
        if self.pos < self.names.len() {
            let s = self.names[self.pos].clone();
            self.pos = self.pos + 1;
            proof {
                assert(self.remaining_spec() =~= old(self).remaining_spec().drop_first());
            }
            Some(s)
        } else {
            None
        }
    }
}

/// The number of bytes read or written per device call.
pub const FILE_BUF_SIZE: usize = 256;

/// What to do after a device read of a file.
#[derive(Debug, Copy, Clone, PartialEq, Eq, Structural)]
pub enum ReadStep {
    /// Bytes were read; read again.
    Continue,
    /// The end of the file was reached.
    Done,
    /// The read failed.
    Failed,
}

/// Takes in the result of one device read into `buf`: `0` at the end of the file, `-1` on an
/// error, otherwise the number of bytes read, which are appended to `out`.
pub fn read_step(out: &mut Vec<u8>, buf: &[u8], result: i32) -> (r: ReadStep)
    requires
        -1 <= result <= buf@.len(),
    ensures
        r == (if result == 0 {
            ReadStep::Done
        } else if result == -1 {
            ReadStep::Failed
        } else {
            ReadStep::Continue
        }),
        final(out)@ == if result > 0 {
            old(out)@ + buf@.subrange(0, result as int)
        } else {
            old(out)@
        },
{
    if result == 0 {
        return ReadStep::Done;
    }
    if result == -1 {
        return ReadStep::Failed;
    }
    let n = result as usize;
    let mut i: usize = 0;
    while i < n
        invariant
            n == result,
            n <= buf@.len(),
            i <= n,
            out@ == old(out)@ + buf@.subrange(0, i as int),
        decreases n - i,
    {
        out.push(buf[i]);
        i = i + 1;
        proof {
            assert(buf@.subrange(0, i as int) =~= buf@.subrange(0, i - 1).push(buf@[i - 1]));
        }
    }
    ReadStep::Continue
}

/// One device write: the `len` bytes of the contents that start at `start`, written to the
/// file's handle.
#[derive(Debug, Copy, Clone, PartialEq, Eq, Structural)]
pub struct WriteRequest {
    pub start: usize,
    pub len: usize,
}

/// The progress of writing `total` bytes to one file handle in chunks of `FILE_BUF_SIZE` bytes,
/// where a device write may take only part of what it is given; what is left of a chunk is then
/// written again, from the first byte that was not taken.
#[derive(Debug)]
pub struct FileWriter {
    total: usize,
    progress: usize,
}

/// The end of the chunk of `FILE_BUF_SIZE` bytes of `total` bytes that holds the byte at
/// `progress`: the next multiple of the chunk size, or the end of the contents.
pub open spec fn chunk_end(total: int, progress: int) -> int {
    let end = progress - progress % 256 + 256;
    if end < total {
        end
    } else {
        total
    }
}

/// Where a run of device writes that starts at `start` ends, when the writes take `taken[0]`,
/// `taken[1]`, ... bytes in turn.
pub open spec fn end_after(start: int, taken: Seq<int>) -> int
    decreases taken.len(),
{
    if taken.len() == 0 {
        start
    } else {
        end_after(start + taken[0], taken.drop_first())
    }
}

/// Each write of the run takes no more than `next_write()` asks for at its point.
pub open spec fn takes_fit(total: int, start: int, taken: Seq<int>) -> bool
    decreases taken.len(),
{
    taken.len() == 0 || {
        &&& start < total
        &&& 0 <= taken[0] <= chunk_end(total, start) - start
        &&& takes_fit(total, start + taken[0], taken.drop_first())
    }
}

/// The bytes the device receives, in order, from a run of writes of `contents` that starts at
/// `start` and takes `taken[0]`, `taken[1]`, ... bytes in turn.
pub open spec fn bytes_sent(contents: Seq<u8>, start: int, taken: Seq<int>) -> Seq<u8>
    decreases taken.len(),
{
    if taken.len() == 0 {
        Seq::empty()
    } else {
        contents.subrange(start, start + taken[0]) + bytes_sent(
            contents,
            start + taken[0],
            taken.drop_first(),
        )
    }
}

/// Writing a whole file sends the device the contents in order: the bytes that a run of
/// successful writes hands over, each taking part of what `next_write()` asked for, are exactly
/// the contents from where the run started to where it ended; a run from the start that reaches
/// the end has sent the whole contents.
pub proof fn lemma_writes_send_contents_in_order(contents: Seq<u8>, start: int, taken: Seq<int>)
    requires
        0 <= start <= contents.len(),
        takes_fit(contents.len() as int, start, taken),
    ensures
        start <= end_after(start, taken) <= contents.len(),
        bytes_sent(contents, start, taken) == contents.subrange(start, end_after(start, taken)),
        start == 0 && end_after(start, taken) == contents.len() ==> bytes_sent(
            contents,
            start,
            taken,
        ) == contents,
    decreases taken.len(),
{
    if taken.len() > 0 {
        let next = start + taken[0];
        lemma_writes_send_contents_in_order(contents, next, taken.drop_first());
        assert(contents.subrange(start, next) + contents.subrange(next, end_after(start, taken))
            =~= contents.subrange(start, end_after(start, taken)));
    } else {
        assert(contents.subrange(start, start) =~= Seq::<u8>::empty());
    }
    if start == 0 && end_after(start, taken) == contents.len() {
        assert(contents.subrange(0, contents.len() as int) =~= contents);
    }
}

impl FileWriter {
    /// No more bytes are taken than there are.
    pub closed spec fn wf(&self) -> bool {
        self.progress <= self.total
    }

    /// The number of bytes to write.
    pub closed spec fn total_spec(&self) -> int {
        self.total as int
    }

    /// The number of bytes the device has taken so far, which are the first bytes of the
    /// contents.
    pub closed spec fn progress_spec(&self) -> int {
        self.progress as int
    }

    /// Starts writing `total` bytes.
    pub fn new(total: usize) -> (r: Self)
        ensures
            r.wf(),
            r.total_spec() == total,
            r.progress_spec() == 0,
    {
        FileWriter { total, progress: 0 }
    }

    /// The next device write, which starts at the first byte not taken yet and runs to the end
    /// of its chunk, or `None` once the device has taken every byte.
    pub fn next_write(&self) -> (r: Option<WriteRequest>)
        requires
            self.wf(),
        ensures
            match r {
                Some(req) => self.progress_spec() < self.total_spec() && req.start
                    == self.progress_spec() && req.len == chunk_end(
                    self.total_spec(),
                    self.progress_spec(),
                ) - self.progress_spec(),
                None => self.progress_spec() == self.total_spec(),
            },
    {
        if self.progress < self.total {
            let room = FILE_BUF_SIZE - self.progress % FILE_BUF_SIZE;
            let left = self.total - self.progress;
            let len = if left < room {
                left
            } else {
                room
            };
            Some(WriteRequest { start: self.progress, len })
        } else {
            None
        }
    }

    /// Takes in the result of the device write of `next_write()`: `-1` on an error (returns
    /// false), otherwise the number of bytes written, which the device has then taken.
    pub fn on_written(&mut self, result: i32) -> (r: bool)
        requires
            old(self).wf(),
            old(self).progress_spec() < old(self).total_spec(),
            -1 <= result <= chunk_end(old(self).total_spec(), old(self).progress_spec())
                - old(self).progress_spec(),
        ensures
            final(self).wf(),
            final(self).total_spec() == old(self).total_spec(),
            r == (result != -1),
            final(self).progress_spec() == if result == -1 {
                old(self).progress_spec()
            } else {
                old(self).progress_spec() + result
            },
    {
        if result == -1 {
            return false;
        }
        self.progress = self.progress + result as usize;
        true
    }

    /// Whether writing the file succeeded, once the writes are over and the file was closed with
    /// the outcome `close_ok`: every byte was taken by the device and the file closed cleanly, as
    /// a failed close may leave the content incomplete.
    pub fn succeeded(&self, close_ok: bool) -> (r: bool)
        ensures
            r == (self.progress_spec() == self.total_spec() && close_ok),
    {
        self.progress == self.total && close_ok
    }
}

} // verus!
