//! A registry with all three collaborators in memory: the identity store,
//! the package table and the blob shelf. It answers a download request by
//! driving the pipeline's state machine to its end.

use vstd::prelude::*;
use crate::auth::last_supplied;
use crate::blob::{stored, BlobShelf};
use crate::error::DownloadError;
use crate::metadata::{counter, position, present, recorded, PackageTable};
use crate::pipeline::{content_type, Action, Download, Event};
use crate::version::ArchiveVersion;

verus! {

/// The answer to a download that succeeded.
#[derive(Debug, Clone, PartialEq, Eq)]
pub struct Delivery {
    pub status: u16,
    pub content_type: String,
    pub body: Vec<u8>,
}

/// The three stores that a download needs, handed to the pipeline together.
#[derive(Debug, Clone, PartialEq, Eq)]
pub struct Registry {
    /// The tokens that name an author.
    pub tokens: Vec<String>,
    pub packages: PackageTable,
    pub archives: BlobShelf,
}

/// Whether the identity store knows an author for the token.
pub open spec fn names_author(known: Seq<String>, token: Seq<char>) -> bool {
    exists|i: int| 0 <= i < known.len() && (#[trigger] known[i])@ == token
}

/// Whether the header's values carry a token that names an author. Only the
/// value supplied last counts.
pub open spec fn authorized(known: Seq<String>, header: Seq<String>) -> bool {
    match last_supplied(header) {
        Some(token) => names_author(known, token@),
        None => false,
    }
}

impl Registry {
    /// The identity store's lookup.
    pub fn resolve(&self, token: &String) -> (known: bool)
        ensures
            known == names_author(self.tokens@, token@),
    {
        let n: usize = self.tokens.len();
        let mut i: usize = 0;
        while i < n
            invariant
                n == self.tokens@.len(),
                i <= n,
                forall|j: int| 0 <= j < i ==> (#[trigger] self.tokens@[j])@ != token@,
            decreases n - i,
        {
            if self.tokens[i] == *token {
                return true;
            }
            i = i + 1;
        }
        false
    }

    /// Answers one download request for the archive of `version` of the
    /// package with this canonical name, sent with these values of the
    /// authorization header.
    ///
    /// Without a token that names an author the request is refused and no
    /// counter moves. Without the package it fails and no counter moves.
    /// Otherwise the package's counter rises by one, whether or not the
    /// archive is there; the archive's bytes are delivered as they are
    /// stored, or the request fails because this version is missing. The
    /// archives themselves are never changed. The package's counter must
    /// leave room for one more.
    pub fn download(
        &mut self,
        header: Vec<String>,
        canonical_name: String,
        version: ArchiveVersion,
    ) -> (out: Result<Delivery, DownloadError>)
        requires
            old(self).packages.wf(),
            counter(old(self).packages@, canonical_name@) < i64::MAX,
        ensures
            final(self).packages.wf(),
            final(self).tokens == old(self).tokens,
            final(self).archives == old(self).archives,
            !authorized(old(self).tokens@, header@) ==> {
                &&& out == Err::<Delivery, DownloadError>(DownloadError::Unauthorized)
                &&& final(self).packages@ == old(self).packages@
            },
            authorized(old(self).tokens@, header@) && !present(old(self).packages@, canonical_name@) ==> {
                &&& out == Err::<Delivery, DownloadError>(
                    DownloadError::PackageNotFound { name: canonical_name },
                )
                &&& final(self).packages@ == old(self).packages@
            },
            authorized(old(self).tokens@, header@) && present(old(self).packages@, canonical_name@) ==> {
                &&& final(self).packages@ == recorded(old(self).packages@, canonical_name@)
                &&& match stored(
                    old(self).archives@,
                    old(self).packages@[position(old(self).packages@, canonical_name@)].name,
                    version@,
                ) {
                    Some(bytes) => {
                        &&& out matches Ok(delivery)
                        &&& delivery.status == 200
                        &&& delivery.content_type@ == "application/octet-stream"@
                        &&& delivery.body@ == bytes
                    },
                    None => {
                        &&& out matches Err(DownloadError::VersionNotFound { name, version: missing })
                        &&& name@ == old(self).packages@[position(
                            old(self).packages@,
                            canonical_name@,
                        )].name
                        &&& missing == version
                    },
                }
            },
    {
        let request = Download::new(canonical_name, version);
        let (request, action) = request.step(Event::Arrived { tokens: header });
        let token = match action {
            Action::ResolveToken { token } => token,
            Action::Fail { error } => { return Err(error); },
            _ => { return Err(DownloadError::StoreIoFailure); },
        };
        let known = self.resolve(&token);
        let (request, action) = request.step(Event::TokenResolved { known });
        let key = match action {
            Action::RunTransaction { canonical_name } => canonical_name,
            Action::Fail { error } => { return Err(error); },
            _ => { return Err(DownloadError::StoreIoFailure); },
        };
        let event = match self.packages.increment_downloads_in_transaction(&key) {
            Ok(name) => Event::Committed { name },
            Err(_) => Event::PackageAbsent,
        };
        let (request, action) = request.step(event);
        let (name, wanted) = match action {
            Action::OpenBlob { name, version } => (name, version),
            Action::Fail { error } => { return Err(error); },
            _ => { return Err(DownloadError::StoreIoFailure); },
        };
        match self.archives.open_read(&name, &wanted) {
            Some(mut reader) => {
                let (request, action) = request.step(Event::BlobOpened);
                match action {
                    Action::StreamBody { status } => {
                        let body = reader.forward_all(Vec::new());
                        let _ = request.step(Event::StreamEnded);
                        assert(body@ =~= reader.content());
                        Ok(Delivery { status, content_type: content_type().to_owned(), body })
                    },
                    _ => Err(DownloadError::StoreIoFailure),
                }
            },
            None => {
                let (_, action) = request.step(Event::BlobAbsent);
                match action {
                    Action::Fail { error } => Err(error),
                    _ => Err(DownloadError::StoreIoFailure),
                }
            },
        }
    }
}

} // verus!
