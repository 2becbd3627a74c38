//! The blob store's side of a download: archives keyed by package name and
//! version, read in sequence through a cursor, never written.

use vstd::prelude::*;
use crate::version::{ArchiveVersion, VersionParts};

verus! {

/// One published archive. Its bytes never change.
#[derive(Debug, Clone, PartialEq, Eq)]
pub struct Archive {
    pub name: String,
    pub version: ArchiveVersion,
    pub bytes: Vec<u8>,
}

/// The mathematical value of an archive.
pub struct Blob {
    pub name: Seq<char>,
    pub version: VersionParts,
    pub bytes: Seq<u8>,
}

impl View for Archive {
    type V = Blob;

    open spec fn view(&self) -> Blob {
        Blob { name: self.name@, version: self.version@, bytes: self.bytes@ }
    }
}

/// The index of the first archive from `from` on with this name and
/// version, or the number of archives if there is none.
pub open spec fn seek(blobs: Seq<Blob>, name: Seq<char>, version: VersionParts, from: int) -> int
    decreases blobs.len() - from,
{
    if from < 0 || from >= blobs.len() {
        blobs.len() as int
    } else if blobs[from].name == name && blobs[from].version == version {
        from
    } else {
        seek(blobs, name, version, from + 1)
    }
}

/// The bytes stored for exactly this name and version, if there are any.
pub open spec fn stored(blobs: Seq<Blob>, name: Seq<char>, version: VersionParts) -> Option<Seq<u8>> {
    if seek(blobs, name, version, 0) < blobs.len() {
        Some(blobs[seek(blobs, name, version, 0)].bytes)
    } else {
        None
    }
}

/// The part of `content` that one read hands out: from `at`, at most
/// `limit` bytes, and no further than the end.
pub open spec fn chunk_of(content: Seq<u8>, at: int, limit: int) -> Seq<u8> {
    if at + limit <= content.len() {
        content.subrange(at, at + limit)
    } else {
        content.subrange(at, content.len() as int)
    }
}

/// The most that one read of a download takes into memory.
pub const CHUNK_SIZE: usize = 8192;

/// A cursor over one open archive: all the state that streaming needs.
pub struct BlobReader<'a> {
    bytes: &'a Vec<u8>,
    at: usize,
}

impl<'a> BlobReader<'a> {
    /// The whole archive.
    pub closed spec fn content(&self) -> Seq<u8> {
        self.bytes@
    }

    /// How many bytes have been handed out.
    pub closed spec fn consumed(&self) -> int {
        self.at as int
    }

    /// The cursor stands inside the archive or at its end.
    pub closed spec fn wf(&self) -> bool {
        self.at <= self.bytes@.len()
    }

    /// The archive's length, which the store knows without reading it.
    pub fn length(&self) -> (total: usize)
        ensures
            total == self.content().len(),
    {
        self.bytes.len()
    }

    /// Whether every byte has been handed out.
    pub fn is_done(&self) -> (done: bool)
        requires
            self.wf(),
        ensures
            done == (self.consumed() == self.content().len()),
    {
        self.at >= self.bytes.len()
    }

    /// Reads on: hands out the next bytes, at most `limit` of them, and
    /// moves the cursor behind them.
    pub fn read(&mut self, limit: usize) -> (chunk: Vec<u8>)
        requires
            old(self).wf(),
        ensures
            final(self).wf(),
            final(self).content() == old(self).content(),
            chunk@ == chunk_of(old(self).content(), old(self).consumed(), limit as int),
            final(self).consumed() == old(self).consumed() + chunk@.len(),
            chunk@.len() <= limit,
    {
        let total: usize = self.bytes.len();
        let start: usize = self.at;
        let end: usize = if limit <= total - start {
            start + limit
        } else {
            total
        };
        let mut chunk: Vec<u8> = Vec::new();
        let mut i: usize = start;
        while i < end
            invariant
                start <= i <= end <= total,
                total == self.bytes@.len(),
                self.bytes == old(self).bytes,
                self.at == start,
                chunk@ == self.bytes@.subrange(start as int, i as int),
            decreases end - i,
        {
            chunk.push(self.bytes[i]);
            i = i + 1;
            assert(chunk@ =~= self.bytes@.subrange(start as int, i as int));
        }
        self.at = end;
        chunk
    }

    /// Forwards the rest of the archive chunk by chunk, holding no more than
    /// one chunk of [`CHUNK_SIZE`] bytes at a time, and returns what the
    /// client has then received.
    pub fn forward_all(&mut self, received: Vec<u8>) -> (body: Vec<u8>)
        requires
            old(self).wf(),
        ensures
            final(self).wf(),
            final(self).content() == old(self).content(),
            final(self).consumed() == old(self).content().len(),
            body@ == received@ + old(self).content().subrange(
                old(self).consumed(),
                old(self).content().len() as int,
            ),
    {
        let mut body = received;
        while !self.is_done()
            invariant
                self.wf(),
                old(self).wf(),
                self.content() == old(self).content(),
                old(self).consumed() <= self.consumed(),
                body@ == received@ + old(self).content().subrange(
                    old(self).consumed(),
                    self.consumed(),
                ),
            decreases self.content().len() - self.consumed(),
        {
            let mut chunk = self.read(CHUNK_SIZE);
            body.append(&mut chunk);
            assert(body@ =~= received@ + old(self).content().subrange(
                old(self).consumed(),
                self.consumed(),
            ));
        }
        body
    }
}

/// The archives of a blob store, held in memory.
#[derive(Debug, Clone, PartialEq, Eq)]
pub struct BlobShelf {
    archives: Vec<Archive>,
}

impl View for BlobShelf {
    type V = Seq<Blob>;

    closed spec fn view(&self) -> Seq<Blob> {
        self.archives@.map_values(|a: Archive| a@)
    }
}

impl BlobShelf {
    /// A shelf without archives.
    pub fn new() -> (shelf: BlobShelf)
        ensures
            shelf@ == Seq::<Blob>::empty(),
    {
        let shelf = BlobShelf { archives: Vec::new() };
        assert(shelf@ =~= Seq::<Blob>::empty());
        shelf
    }

    /// The index of the archive, or the number of archives.
    fn locate(&self, name: &String, version: &ArchiveVersion) -> (at: usize)
        ensures
            at == seek(self@, name@, version@, 0),
            at <= self.archives@.len(),
            self.archives@.len() == self@.len(),
    {
        let n: usize = self.archives.len();
        let mut i: usize = 0;
        while i < n
            invariant
                n == self.archives@.len(),
                i <= n,
                seek(self@, name@, version@, 0) == seek(self@, name@, version@, i as int),
            decreases n - i,
        {
            if self.archives[i].name == *name && self.archives[i].version.same(version) {
                return i;
            }
            i = i + 1;
        }
        i
    }

    /// Publishes an archive. Refused, with the shelf unchanged, where one of
    /// that name and version is there already: its content stays.
    pub fn publish(&mut self, archive: Archive) -> (added: bool)
        ensures
            added == (stored(old(self)@, archive.name@, archive.version@) is None),
            added ==> final(self)@ == old(self)@.push(archive@),
            !added ==> final(self)@ == old(self)@,
    {
        let at: usize = self.locate(&archive.name, &archive.version);
        if at < self.archives.len() {
            return false;
        }
        self.archives.push(archive);
        assert(self@ =~= old(self)@.push(archive@));
        true
    }

    /// Opens the archive of exactly this name and version for sequential
    /// reading, from its first byte. `None` where the shelf has none.
    pub fn open_read(&self, name: &String, version: &ArchiveVersion) -> (opened: Option<BlobReader<'_>>)
        ensures
            (opened is Some) == (stored(self@, name@, version@) is Some),
            opened matches Some(reader) ==> reader.wf() && reader.consumed() == 0 && Some(
                reader.content(),
            ) == stored(self@, name@, version@),
    {
        let at: usize = self.locate(name, version);
        if at < self.archives.len() {
            Some(BlobReader { bytes: &self.archives[at].bytes, at: 0 })
        } else {
            None
        }
    }
}

} // verus!
