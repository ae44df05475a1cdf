//! Standard input, read line by line.

use vstd::prelude::*;
use vstd::string::StringExecFns;

use super::ConnectAction;
use super::DisconnectAction;
use super::Link;
use super::LogSourceError;
use super::LogSourceTrait;
use super::SourceDetail;
use super::SourceView;

verus! {

/// Standard input as a source of log bytes.
#[derive(Debug)]
pub struct StdinSource {
    /// Connection state, ID and storage
    link: Link,
}

impl StdinSource {
    /// Makes an unconnected source for standard input.
    pub fn new(id: u32) -> (r: StdinSource)
        ensures
            r.snapshot() == (SourceView {
                link: super::LinkView::fresh(id),
                detail: SourceDetail::Stdin,
            }),
    {
        StdinSource { link: Link::new(id) }
    }

    /// The snapshot of this kind of source is of this kind.
    pub proof fn lemma_kind(&self)
        ensures
            self.snapshot().detail is Stdin,
    {
    }

    /// The part of the source that every kind shares.
    pub fn link(&self) -> (r: &Link)
        ensures
            r.deep_view() == self.snapshot().link,
    {
        &self.link
    }

    /// Records whether an acquisition thread exists for the source.
    pub fn set_worker(&mut self, present: bool)
        ensures
            final(self).snapshot() == old(self).snapshot().with_worker(present),
    {
        self.link.set_worker(present);
    }
}

impl LogSourceTrait for StdinSource {
    closed spec fn snapshot(&self) -> SourceView {
        SourceView { link: self.link.deep_view(), detail: SourceDetail::Stdin }
    }

    fn connect(&mut self) -> (action: ConnectAction) {
        self.link.connect(true)
    }

    fn disconnect(&mut self) -> (action: DisconnectAction) {
        self.link.disconnect()
    }

    fn id_eq(&self, id: u32) -> (r: bool) {
        self.link.id() == id
    }

    fn id(&self) -> (r: u32) {
        self.link.id()
    }

    fn id_string(&self) -> (r: String) {
        String::from_str("Stream (STDIN)")
    }

    fn take_storage(&mut self) -> (r: Option<Vec<u8>>) {
        self.link.take_storage()
    }

    fn set_storage(&mut self, bytes: Vec<u8>) {
        self.link.set_storage(bytes);
    }

    fn reflash(&self) -> (r: Result<(), LogSourceError>) {
        Err(LogSourceError::NotImplemented)
    }
}

} // verus!
