//! A serial port of a target behind a debug probe.

use vstd::prelude::*;

use crate::commander::LogBackendInformation;
use crate::commander::ProbeInfo;
use crate::commander::TargetMcu;

use super::ConnectAction;
use super::DisconnectAction;
use super::Link;
use super::LogSourceError;
use super::LogSourceTrait;
use super::SourceDetail;
use super::SourceView;
use super::Transport;

verus! {

/// The serial port of a target as a source of log bytes.
#[derive(Debug)]
pub struct UartSource {
    /// Connection state, ID and storage
    link: Link,
    /// What is known of the connected MCU
    mcu_info: TargetMcu,
}

impl UartSource {
    /// Makes an unconnected source for the serial port of a target.
    pub fn new(id: u32, mcu_info: TargetMcu) -> (r: UartSource)
        ensures
            r.snapshot() == (SourceView {
                link: super::LinkView::fresh(id),
                detail: SourceDetail::Uart { mcu: mcu_info.deep_view() },
            }),
    {
        UartSource { link: Link::new(id), mcu_info }
    }

    /// What is known of the probe that the target hangs on.
    pub fn get_probe_state(&self) -> (r: &ProbeInfo)
        ensures
            self.snapshot().detail matches SourceDetail::Uart { mcu }
                && mcu.probe_info == r.deep_view(),
    {
        &self.mcu_info.probe_info
    }

    /// The snapshot of this kind of source is of this kind.
    pub proof fn lemma_kind(&self)
        ensures
            self.snapshot().detail is Uart,
    {
    }

    /// The part of the source that every kind shares.
    pub fn link(&self) -> (r: &Link)
        ensures
            r.deep_view() == self.snapshot().link,
    {
        &self.link
    }

    /// Records whether an acquisition thread exists for the source.
    pub fn set_worker(&mut self, present: bool)
        ensures
            final(self).snapshot() == old(self).snapshot().with_worker(present),
    {
        self.link.set_worker(present);
    }

    /// Where the acquisition thread of the source reads from; `None` where the
    /// target is configured for RTT.
    pub fn transport(&self) -> (r: Option<Transport>)
        ensures
            r.deep_view() == self.snapshot().transport(),
    {
        match &self.mcu_info.backend {
            LogBackendInformation::Uart(device, baud) => Some(
                Transport::Uart { device: device.clone(), baud: *baud },
            ),
            LogBackendInformation::Rtt(_) => None,
        }
    }

    fn usable(&self) -> (r: bool)
        ensures
            r == (self.snapshot().transport() is Some),
    {
        match &self.mcu_info.backend {
            LogBackendInformation::Uart(_, _) => true,
            LogBackendInformation::Rtt(_) => false,
        }
    }
}

impl LogSourceTrait for UartSource {
    closed spec fn snapshot(&self) -> SourceView {
        SourceView {
            link: self.link.deep_view(),
            detail: SourceDetail::Uart { mcu: self.mcu_info.deep_view() },
        }
    }

    fn connect(&mut self) -> (action: ConnectAction) {
        let usable = self.usable();
        self.link.connect(usable)
    }

    fn disconnect(&mut self) -> (action: DisconnectAction) {
        self.link.disconnect()
    }

    fn id_eq(&self, id: u32) -> (r: bool) {
        self.link.id() == id
    }

    fn id(&self) -> (r: u32) {
        self.link.id()
    }

    fn id_string(&self) -> (r: String) {
        self.mcu_info.name.clone()
    }

    fn take_storage(&mut self) -> (r: Option<Vec<u8>>) {
        self.link.take_storage()
    }

    fn set_storage(&mut self, bytes: Vec<u8>) {
        self.link.set_storage(bytes);
    }

    fn reflash(&self) -> (r: Result<(), LogSourceError>) {
        Err(LogSourceError::NotImplemented)
    }
}

} // verus!
