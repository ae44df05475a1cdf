//! A file that is read line by line and followed as it grows.

use vstd::prelude::*;
use vstd::string::StringExecFns;

use super::ConnectAction;
use super::DisconnectAction;
use super::Link;
use super::LogSourceError;
use super::LogSourceTrait;
use super::SourceDetail;
use super::SourceView;
use super::Transport;
use super::TransportView;

verus! {

/// A file as a source of log bytes.
#[derive(Debug)]
pub struct FileSource {
    /// Connection state, ID and storage
    link: Link,
    /// File that is opened
    file_name: String,
}

impl FileSource {
    /// Makes an unconnected source for the file of the given name.
    pub fn new(id: u32, file_name: String) -> (r: FileSource)
        ensures
            r.snapshot() == (SourceView {
                link: super::LinkView::fresh(id),
                detail: SourceDetail::File { file_name: file_name@ },
            }),
    {
        FileSource { link: Link::new(id), file_name }
    }

    /// The snapshot of this kind of source is of this kind.
    pub proof fn lemma_kind(&self)
        ensures
            self.snapshot().detail is File,
    {
    }

    /// The part of the source that every kind shares.
    pub fn link(&self) -> (r: &Link)
        ensures
            r.deep_view() == self.snapshot().link,
    {
        &self.link
    }

    /// Records whether an acquisition thread exists for the source.
    pub fn set_worker(&mut self, present: bool)
        ensures
            final(self).snapshot() == old(self).snapshot().with_worker(present),
    {
        self.link.set_worker(present);
    }

    /// Where the acquisition thread of the source reads from.
    pub fn transport(&self) -> (r: Transport)
        ensures
            Some(r.deep_view()) == self.snapshot().transport(),
    {
        Transport::File { path: self.file_name.clone() }
    }
}

impl LogSourceTrait for FileSource {
    closed spec fn snapshot(&self) -> SourceView {
        SourceView {
            link: self.link.deep_view(),
            detail: SourceDetail::File { file_name: self.file_name@ },
        }
    }

    fn connect(&mut self) -> (action: ConnectAction) {
        self.link.connect(true)
    }

    fn disconnect(&mut self) -> (action: DisconnectAction) {
        self.link.disconnect()
    }

    fn id_eq(&self, id: u32) -> (r: bool) {
        self.link.id() == id
    }

    fn id(&self) -> (r: u32) {
        self.link.id()
    }

    fn id_string(&self) -> (r: String) {
        let mut label = String::from_str("Stream (");
        label.append(self.file_name.as_str());
        label.append(")");
        label
    }

    fn take_storage(&mut self) -> (r: Option<Vec<u8>>) {
        self.link.take_storage()
    }

    fn set_storage(&mut self, bytes: Vec<u8>) {
        self.link.set_storage(bytes);
    }

    fn reflash(&self) -> (r: Result<(), LogSourceError>) {
        Err(LogSourceError::NotImplemented)
    }
}

} // verus!
