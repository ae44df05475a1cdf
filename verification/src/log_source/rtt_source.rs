//! An RTT channel of a target, read through a debug probe.

use vstd::prelude::*;
use vstd::string::StringExecFns;

use crate::commander::LogBackendInformation;
use crate::commander::ProbeInfo;
use crate::commander::TargetMcu;

use super::ConnectAction;
use super::DisconnectAction;
use super::Link;
use super::LogSourceError;
use super::LogSourceTrait;
use super::SourceDetail;
use super::SourceView;
use super::Transport;

verus! {

/// The RTT channel of a target as a source of log bytes.
#[derive(Debug)]
pub struct RttSource {
    /// Connection state, ID and storage
    link: Link,
    /// What is known of the connected MCU
    mcu_info: TargetMcu,
    /// Name of the target
    target_name: String,
}

impl RttSource {
    /// Makes an unconnected source for the RTT channel of a target.
    pub fn new(id: u32, mcu_info: TargetMcu, target_name: String) -> (r: RttSource)
        ensures
            r.snapshot() == (SourceView {
                link: super::LinkView::fresh(id),
                detail: SourceDetail::Rtt {
                    mcu: mcu_info.deep_view(),
                    target_name: target_name@,
                },
            }),
    {
        RttSource { link: Link::new(id), mcu_info, target_name }
    }

    /// What is known of the probe that the target hangs on.
    pub fn get_probe_state(&self) -> (r: &ProbeInfo)
        ensures
            self.snapshot().detail matches SourceDetail::Rtt { mcu, target_name }
                && mcu.probe_info == r.deep_view(),
    {
        &self.mcu_info.probe_info
    }

    /// The snapshot of this kind of source is of this kind.
    pub proof fn lemma_kind(&self)
        ensures
            self.snapshot().detail is Rtt,
    {
    }

    /// The part of the source that every kind shares.
    pub fn link(&self) -> (r: &Link)
        ensures
            r.deep_view() == self.snapshot().link,
    {
        &self.link
    }

    /// Records whether an acquisition thread exists for the source.
    pub fn set_worker(&mut self, present: bool)
        ensures
            final(self).snapshot() == old(self).snapshot().with_worker(present),
    {
        self.link.set_worker(present);
    }

    /// Where the acquisition thread of the source reads from; `None` where the
    /// target is configured for a serial port.
    pub fn transport(&self) -> (r: Option<Transport>)
        ensures
            r.deep_view() == self.snapshot().transport(),
    {
        match &self.mcu_info.backend {
            LogBackendInformation::Rtt(address) => Some(
                Transport::Rtt {
                    probe: self.mcu_info.probe_info.clone(),
                    chip: self.mcu_info.mcu.clone(),
                    address: *address,
                },
            ),
            LogBackendInformation::Uart(_, _) => None,
        }
    }

    fn usable(&self) -> (r: bool)
        ensures
            r == (self.snapshot().transport() is Some),
    {
        match &self.mcu_info.backend {
            LogBackendInformation::Rtt(_) => true,
            LogBackendInformation::Uart(_, _) => false,
        }
    }
}

impl LogSourceTrait for RttSource {
    closed spec fn snapshot(&self) -> SourceView {
        SourceView {
            link: self.link.deep_view(),
            detail: SourceDetail::Rtt {
                mcu: self.mcu_info.deep_view(),
                target_name: self.target_name@,
            },
        }
    }

    fn connect(&mut self) -> (action: ConnectAction) {
        let usable = self.usable();
        self.link.connect(usable)
    }

    fn disconnect(&mut self) -> (action: DisconnectAction) {
        self.link.disconnect()
    }

    fn id_eq(&self, id: u32) -> (r: bool) {
        self.link.id() == id
    }

    fn id(&self) -> (r: u32) {
        self.link.id()
    }

    fn id_string(&self) -> (r: String) {
        let mut label = self.target_name.clone();
        label.append(" (RTT - ");
        label.append(self.mcu_info.name.as_str());
        label.append(")");
        label
    }

    fn take_storage(&mut self) -> (r: Option<Vec<u8>>) {
        self.link.take_storage()
    }

    fn set_storage(&mut self, bytes: Vec<u8>) {
        self.link.set_storage(bytes);
    }

    fn reflash(&self) -> (r: Result<(), LogSourceError>) {
        Ok(())
    }
}

} // verus!
