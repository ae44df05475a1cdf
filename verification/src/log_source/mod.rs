//! Log sources: the independently connectable origins of log bytes. A
//! source keeps what the registry has to know of it: its ID, whether it is
//! connected, whether an acquisition thread exists for it, and the
//! unconsumed tail of its byte stream. The thread itself lives with the
//! driver, which is told what to do by the actions returned here.

use vstd::prelude::*;
use vstd::string::StringExecFns;

use crate::commander::LogBackendInformationView;
use crate::commander::ProbeInfo;
use crate::commander::ProbeInfoView;
use crate::commander::TargetMcuView;
use crate::reassembly::storage_view;

pub mod acquisition;
pub mod file_source;
pub mod rtt_source;
pub mod stdin_source;
pub mod uart_source;

pub use file_source::FileSource;
pub use rtt_source::RttSource;
pub use stdin_source::StdinSource;
pub use uart_source::UartSource;

verus! {

/// Why an operation on a source failed. The text variants carry the
/// message of the debug probe library's error.
#[derive(Debug)]
pub enum LogSourceError {
    DebugProbeError(String),
    ProbeRsError(String),
    FlashingError(String),
    NotImplemented,
}

impl LogSourceError {
    /// The message of an error.
    pub open spec fn text(self) -> Seq<char> {
        match self {
            LogSourceError::DebugProbeError(text) => text@,
            LogSourceError::ProbeRsError(text) => text@,
            LogSourceError::FlashingError(text) => text@,
            LogSourceError::NotImplemented => "This function is not implemented"@,
        }
    }

    /// The message of the error.
    pub fn to_string(&self) -> (r: String)
        ensures
            r@ == self.text(),
    {
        match self {
            LogSourceError::DebugProbeError(text) => text.clone(),
            LogSourceError::ProbeRsError(text) => text.clone(),
            LogSourceError::FlashingError(text) => text.clone(),
            LogSourceError::NotImplemented => String::from_str("This function is not implemented"),
        }
    }
}

/// What the driver has to do when a source is asked to connect.
#[derive(Clone, Copy, Debug, PartialEq, Eq, Structural)]
pub enum ConnectAction {
    /// The source is connected already: nothing to do.
    AlreadyConnected,
    /// The target of the source is configured for another backend than
    /// the source reads: nothing can be started.
    BackendMismatch,
    /// Start the acquisition thread.
    Start,
    /// A thread is left over from an incomplete disconnect: stop it and
    /// wait for its end, then start a new one.
    Restart,
}

/// What the driver has to do when a source is asked to disconnect.
#[derive(Clone, Copy, Debug, PartialEq, Eq, Structural)]
pub enum DisconnectAction {
    /// The source is not connected: nothing to do.
    NotConnected,
    /// Signal the acquisition thread to stop and wait until it has ended.
    Stop,
}

/// Where an acquisition thread reads from.
#[derive(Debug)]
pub enum Transport {
    File { path: String },
    Stdin,
    Uart { device: String, baud: u32 },
    Rtt { probe: ProbeInfo, chip: String, address: u64 },
}

/// What the contracts say of a [`Transport`].
pub enum TransportView {
    File { path: Seq<char> },
    Stdin,
    Uart { device: Seq<char>, baud: u32 },
    Rtt { probe: ProbeInfoView, chip: Seq<char>, address: u64 },
}

impl DeepView for Transport {
    type V = TransportView;

    open spec fn deep_view(&self) -> TransportView {
        match *self {
            Transport::File { path } => TransportView::File { path: path@ },
            Transport::Stdin => TransportView::Stdin,
            Transport::Uart { device, baud } => TransportView::Uart { device: device@, baud },
            Transport::Rtt { probe, chip, address } => TransportView::Rtt {
                probe: probe.deep_view(),
                chip: chip@,
                address,
            },
        }
    }
}

/// The part of a source that every variant shares.
#[derive(Debug)]
pub struct Link {
    /// Identifier of this source
    id: u32,
    /// Holds state
    is_connected: bool,
    /// An acquisition thread exists for this source
    worker: bool,
    /// Log processing storage
    storage: Option<Vec<u8>>,
}

/// What the contracts say of a [`Link`].
pub struct LinkView {
    pub id: u32,
    pub is_connected: bool,
    pub worker: bool,
    pub storage: Option<Seq<u8>>,
}

impl LinkView {
    /// The link of a source that was just created.
    pub open spec fn fresh(id: u32) -> LinkView {
        LinkView { id, is_connected: false, worker: false, storage: None }
    }

    /// What connecting asks of the driver. `usable` tells whether the
    /// source's target is configured for the backend the source reads.
    pub open spec fn connect_action(self, usable: bool) -> ConnectAction {
        if self.is_connected {
            ConnectAction::AlreadyConnected
        } else if !usable {
            ConnectAction::BackendMismatch
        } else if self.worker {
            ConnectAction::Restart
        } else {
            ConnectAction::Start
        }
    }

    /// The link after a request to connect.
    pub open spec fn after_connect(self, usable: bool) -> LinkView {
        if self.is_connected || !usable {
            self
        } else {
            LinkView { is_connected: true, worker: true, ..self }
        }
    }

    /// What disconnecting asks of the driver.
    pub open spec fn disconnect_action(self) -> DisconnectAction {
        if self.is_connected {
            DisconnectAction::Stop
        } else {
            DisconnectAction::NotConnected
        }
    }

    /// The link after a request to disconnect.
    pub open spec fn after_disconnect(self) -> LinkView {
        if self.is_connected {
            LinkView { is_connected: false, worker: false, ..self }
        } else {
            self
        }
    }
}

impl DeepView for Link {
    type V = LinkView;

    closed spec fn deep_view(&self) -> LinkView {
        LinkView {
            id: self.id,
            is_connected: self.is_connected,
            worker: self.worker,
            storage: storage_view(self.storage),
        }
    }
}

impl Link {
    /// The link of a source that was just created.
    pub fn new(id: u32) -> (r: Link)
        ensures
            r.deep_view() == LinkView::fresh(id),
    {
        Link { id, is_connected: false, worker: false, storage: None }
    }

    /// Asks the source to connect; `usable` tells whether its target is
    /// configured for the backend it reads.
    pub fn connect(&mut self, usable: bool) -> (action: ConnectAction)
        ensures
            action == old(self).deep_view().connect_action(usable),
            final(self).deep_view() == old(self).deep_view().after_connect(usable),
    {
        if self.is_connected {
            ConnectAction::AlreadyConnected
        } else if !usable {
            ConnectAction::BackendMismatch
        } else {
            let action = if self.worker {
                ConnectAction::Restart
            } else {
                ConnectAction::Start
            };
            self.is_connected = true;
            self.worker = true;
            action
        }
    }

    /// Asks the source to disconnect.
    pub fn disconnect(&mut self) -> (action: DisconnectAction)
        ensures
            action == old(self).deep_view().disconnect_action(),
            final(self).deep_view() == old(self).deep_view().after_disconnect(),
    {
        if self.is_connected {
            self.is_connected = false;
            self.worker = false;
            DisconnectAction::Stop
        } else {
            DisconnectAction::NotConnected
        }
    }

    /// Records whether an acquisition thread exists for the source.
    pub fn set_worker(&mut self, present: bool)
        ensures
            final(self).deep_view() == (LinkView { worker: present, ..old(self).deep_view() }),
    {
        self.worker = present;
    }

    /// The ID of the source.
    pub fn id(&self) -> (r: u32)
        ensures
            r == self.deep_view().id,
    {
        self.id
    }

    /// Whether the source counts as connected.
    pub fn is_connected(&self) -> (r: bool)
        ensures
            r == self.deep_view().is_connected,
    {
        self.is_connected
    }

    /// Whether an acquisition thread is taken to exist for the source.
    pub fn has_worker(&self) -> (r: bool)
        ensures
            r == self.deep_view().worker,
    {
        self.worker
    }

    /// Hands out the stored tail and leaves the storage empty.
    pub fn take_storage(&mut self) -> (r: Option<Vec<u8>>)
        ensures
            storage_view(r) == old(self).deep_view().storage,
            final(self).deep_view() == (LinkView { storage: None, ..old(self).deep_view() }),
    {
        self.storage.take()
    }

    /// The stored tail, left in place.
    pub fn storage(&self) -> (r: Option<&Vec<u8>>)
        ensures
            match r {
                Some(bytes) => self.deep_view().storage == Some(bytes@),
                None => self.deep_view().storage is None,
            },
    {
        self.storage.as_ref()
    }

    /// Stores the unconsumed tail.
    pub fn set_storage(&mut self, bytes: Vec<u8>)
        ensures
            final(self).deep_view() == (LinkView {
                storage: Some(bytes@),
                ..old(self).deep_view()
            }),
    {
        self.storage = Some(bytes);
    }
}

/// What tells the variants of a source apart, and what each knows of its
/// transport.
pub enum SourceDetail {
    File { file_name: Seq<char> },
    Stdin,
    Uart { mcu: TargetMcuView },
    Rtt { mcu: TargetMcuView, target_name: Seq<char> },
}

/// What the contracts say of a source.
pub struct SourceView {
    pub link: LinkView,
    pub detail: SourceDetail,
}

impl SourceView {
    /// The ID of the source.
    pub open spec fn id(self) -> u32 {
        self.link.id
    }

    /// The source reads from hardware behind a debug probe.
    pub open spec fn is_hardware(self) -> bool {
        self.detail is Uart || self.detail is Rtt
    }

    /// The serial number of the probe behind a hardware source.
    pub open spec fn serial(self) -> Option<Seq<char>> {
        match self.detail {
            SourceDetail::Uart { mcu } => mcu.probe_info.serial_number,
            SourceDetail::Rtt { mcu, target_name } => mcu.probe_info.serial_number,
            _ => None,
        }
    }

    /// The text to display for the source.
    pub open spec fn label(self) -> Seq<char> {
        match self.detail {
            SourceDetail::File { file_name } => "Stream ("@ + file_name + ")"@,
            SourceDetail::Stdin => "Stream (STDIN)"@,
            SourceDetail::Uart { mcu } => mcu.name,
            SourceDetail::Rtt { mcu, target_name } => target_name + " (RTT - "@ + mcu.name + ")"@,
        }
    }

    /// Where the acquisition thread of the source reads from; `None` for a
    /// hardware source whose target is configured for the other backend.
    pub open spec fn transport(self) -> Option<TransportView> {
        match self.detail {
            SourceDetail::File { file_name } => Some(TransportView::File { path: file_name }),
            SourceDetail::Stdin => Some(TransportView::Stdin),
            SourceDetail::Uart { mcu } => match mcu.backend {
                LogBackendInformationView::Uart(device, baud) => Some(
                    TransportView::Uart { device, baud },
                ),
                LogBackendInformationView::Rtt(_) => None,
            },
            SourceDetail::Rtt { mcu, target_name } => match mcu.backend {
                LogBackendInformationView::Rtt(address) => Some(
                    TransportView::Rtt { probe: mcu.probe_info, chip: mcu.mcu, address },
                ),
                LogBackendInformationView::Uart(_, _) => None,
            },
        }
    }

    /// The pause between two polls of the transport, in milliseconds:
    /// short for hardware, longer for files and standard input.
    pub open spec fn poll_interval_ms(self) -> u64 {
        if self.is_hardware() {
            acquisition::HARDWARE_POLL_MS
        } else {
            acquisition::STREAM_POLL_MS
        }
    }

    /// What connecting the source asks of the driver.
    pub open spec fn connect_action(self) -> ConnectAction {
        self.link.connect_action(self.transport() is Some)
    }

    /// The source after a request to connect.
    pub open spec fn after_connect(self) -> SourceView {
        SourceView { link: self.link.after_connect(self.transport() is Some), ..self }
    }

    /// What disconnecting the source asks of the driver.
    pub open spec fn disconnect_action(self) -> DisconnectAction {
        self.link.disconnect_action()
    }

    /// The source after a request to disconnect.
    pub open spec fn after_disconnect(self) -> SourceView {
        SourceView { link: self.link.after_disconnect(), ..self }
    }

    /// The source with another content of its storage.
    pub open spec fn with_storage(self, storage: Option<Seq<u8>>) -> SourceView {
        SourceView { link: LinkView { storage, ..self.link }, ..self }
    }

    /// The source with another record of whether a thread exists for it.
    pub open spec fn with_worker(self, present: bool) -> SourceView {
        SourceView { link: LinkView { worker: present, ..self.link }, ..self }
    }

    /// Whether the target behind the source can be flashed anew.
    pub open spec fn can_reflash(self) -> bool {
        self.detail is Rtt
    }
}

/// Connecting a source that is connected already is a no-op, and no
/// request to connect starts a second thread beside a running one: once a
/// source was asked to connect, asking again changes nothing and starts
/// nothing.
pub proof fn law_connect_is_idempotent(source: SourceView)
    ensures
        source.link.is_connected ==> source.after_connect() == source && source.connect_action()
            == ConnectAction::AlreadyConnected,
        source.after_connect().after_connect() == source.after_connect(),
        source.after_connect().connect_action() == ConnectAction::AlreadyConnected
            || source.after_connect().connect_action() == ConnectAction::BackendMismatch,
        source.connect_action() == ConnectAction::Start || source.connect_action()
            == ConnectAction::Restart ==> source.after_connect().link.is_connected
            && source.after_connect().link.worker,
{
}

/// Disconnecting a source that is not connected is a no-op; disconnecting
/// a connected one has its thread stopped, and none is left for it when
/// the request returns.
pub proof fn law_disconnect_leaves_no_worker(source: SourceView)
    ensures
        !source.link.is_connected ==> source.after_disconnect() == source
            && source.disconnect_action() == DisconnectAction::NotConnected,
        source.link.is_connected ==> source.disconnect_action() == DisconnectAction::Stop
            && !source.after_disconnect().link.is_connected
            && !source.after_disconnect().link.worker,
        source.after_disconnect().after_disconnect() == source.after_disconnect(),
        source.after_disconnect().id() == source.id(),
        source.after_disconnect().link.storage == source.link.storage,
{
}

/// What every kind of source can do.
pub trait LogSourceTrait {
    /// The source as the contracts see it.
    spec fn snapshot(&self) -> SourceView;

    /// Asks the source to connect. An already connected source stays as
    /// it is; otherwise the source counts as connected from now on and the
    /// driver is told to start its acquisition thread.
    fn connect(&mut self) -> (action: ConnectAction)
        ensures
            action == old(self).snapshot().connect_action(),
            final(self).snapshot() == old(self).snapshot().after_connect(),
    ;

    /// Asks the source to disconnect. A source that is not connected stays
    /// as it is; otherwise the driver is told to stop the thread, and no
    /// thread is left for the source.
    fn disconnect(&mut self) -> (action: DisconnectAction)
        ensures
            action == old(self).snapshot().disconnect_action(),
            final(self).snapshot() == old(self).snapshot().after_disconnect(),
    ;

    fn id_eq(&self, id: u32) -> (r: bool)
        ensures
            r == (self.snapshot().id() == id),
    ;

    fn id(&self) -> (r: u32)
        ensures
            r == self.snapshot().id(),
    ;

    fn id_string(&self) -> (r: String)
        ensures
            r@ == self.snapshot().label(),
    ;

    /// Hands out the stored tail and leaves the storage empty.
    fn take_storage(&mut self) -> (r: Option<Vec<u8>>)
        ensures
            storage_view(r) == old(self).snapshot().link.storage,
            final(self).snapshot() == old(self).snapshot().with_storage(None),
    ;

    /// Stores the unconsumed tail.
    fn set_storage(&mut self, bytes: Vec<u8>)
        ensures
            final(self).snapshot() == old(self).snapshot().with_storage(Some(bytes@)),
    ;

    /// Tells whether the target behind the source can be flashed anew; the
    /// flashing itself is the driver's.
    fn reflash(&self) -> (r: Result<(), LogSourceError>)
        ensures
            self.snapshot().can_reflash() ==> r is Ok,
            !self.snapshot().can_reflash() ==> r == Err::<(), LogSourceError>(
                LogSourceError::NotImplemented,
            ),
    ;
}

/// A source of any kind.
#[derive(Debug)]
pub enum LogSource {
    FileSource(FileSource),
    UartSource(UartSource),
    RttSource(RttSource),
    StdinSource(StdinSource),
}

impl DeepView for LogSource {
    type V = SourceView;

    open spec fn deep_view(&self) -> SourceView {
        self.snapshot()
    }
}

impl LogSourceTrait for LogSource {
    open spec fn snapshot(&self) -> SourceView {
        match *self {
            LogSource::FileSource(s) => s.snapshot(),
            LogSource::UartSource(s) => s.snapshot(),
            LogSource::RttSource(s) => s.snapshot(),
            LogSource::StdinSource(s) => s.snapshot(),
        }
    }

    fn connect(&mut self) -> (action: ConnectAction) {
        match self {
            LogSource::FileSource(s) => s.connect(),
            LogSource::UartSource(s) => s.connect(),
            LogSource::RttSource(s) => s.connect(),
            LogSource::StdinSource(s) => s.connect(),
        }
    }

    fn disconnect(&mut self) -> (action: DisconnectAction) {
        match self {
            LogSource::FileSource(s) => s.disconnect(),
            LogSource::UartSource(s) => s.disconnect(),
            LogSource::RttSource(s) => s.disconnect(),
            LogSource::StdinSource(s) => s.disconnect(),
        }
    }

    fn id_eq(&self, id: u32) -> (r: bool) {
        match self {
            LogSource::FileSource(s) => s.id_eq(id),
            LogSource::UartSource(s) => s.id_eq(id),
            LogSource::RttSource(s) => s.id_eq(id),
            LogSource::StdinSource(s) => s.id_eq(id),
        }
    }

    fn id(&self) -> (r: u32) {
        match self {
            LogSource::FileSource(s) => s.id(),
            LogSource::UartSource(s) => s.id(),
            LogSource::RttSource(s) => s.id(),
            LogSource::StdinSource(s) => s.id(),
        }
    }

    fn id_string(&self) -> (r: String) {
        match self {
            LogSource::FileSource(s) => s.id_string(),
            LogSource::UartSource(s) => s.id_string(),
            LogSource::RttSource(s) => s.id_string(),
            LogSource::StdinSource(s) => s.id_string(),
        }
    }

    fn take_storage(&mut self) -> (r: Option<Vec<u8>>) {
        match self {
            LogSource::FileSource(s) => s.take_storage(),
            LogSource::UartSource(s) => s.take_storage(),
            LogSource::RttSource(s) => s.take_storage(),
            LogSource::StdinSource(s) => s.take_storage(),
        }
    }

    fn set_storage(&mut self, bytes: Vec<u8>) {
        match self {
            LogSource::FileSource(s) => s.set_storage(bytes),
            LogSource::UartSource(s) => s.set_storage(bytes),
            LogSource::RttSource(s) => s.set_storage(bytes),
            LogSource::StdinSource(s) => s.set_storage(bytes),
        }
    }

    fn reflash(&self) -> (r: Result<(), LogSourceError>) {
        match self {
            LogSource::FileSource(s) => s.reflash(),
            LogSource::UartSource(s) => s.reflash(),
            LogSource::RttSource(s) => s.reflash(),
            LogSource::StdinSource(s) => s.reflash(),
        }
    }
}

impl LogSource {
    /// The snapshot of each variant is of that variant's kind.
    pub proof fn lemma_kind(&self)
        ensures
            *self is FileSource <==> self.snapshot().detail is File,
            *self is StdinSource <==> self.snapshot().detail is Stdin,
            *self is UartSource <==> self.snapshot().detail is Uart,
            *self is RttSource <==> self.snapshot().detail is Rtt,
    {
        match *self {
            LogSource::FileSource(s) => s.lemma_kind(),
            LogSource::UartSource(s) => s.lemma_kind(),
            LogSource::RttSource(s) => s.lemma_kind(),
            LogSource::StdinSource(s) => s.lemma_kind(),
        }
    }

    /// Whether the source counts as connected.
    pub fn is_connected(&self) -> (r: bool)
        ensures
            r == self.snapshot().link.is_connected,
    {
        match self {
            LogSource::FileSource(s) => s.link().is_connected(),
            LogSource::UartSource(s) => s.link().is_connected(),
            LogSource::RttSource(s) => s.link().is_connected(),
            LogSource::StdinSource(s) => s.link().is_connected(),
        }
    }

    /// Whether an acquisition thread is taken to exist for the source.
    pub fn has_worker(&self) -> (r: bool)
        ensures
            r == self.snapshot().link.worker,
    {
        match self {
            LogSource::FileSource(s) => s.link().has_worker(),
            LogSource::UartSource(s) => s.link().has_worker(),
            LogSource::RttSource(s) => s.link().has_worker(),
            LogSource::StdinSource(s) => s.link().has_worker(),
        }
    }

    /// The stored tail of the source, left in place.
    pub fn storage(&self) -> (r: Option<&Vec<u8>>)
        ensures
            match r {
                Some(bytes) => self.snapshot().link.storage == Some(bytes@),
                None => self.snapshot().link.storage is None,
            },
    {
        match self {
            LogSource::FileSource(s) => s.link().storage(),
            LogSource::UartSource(s) => s.link().storage(),
            LogSource::RttSource(s) => s.link().storage(),
            LogSource::StdinSource(s) => s.link().storage(),
        }
    }

    /// Records what the driver found: whether a thread exists for the
    /// source. A thread that is left while the source counts as
    /// unconnected is stopped by the next request to connect.
    pub fn set_worker(&mut self, present: bool)
        ensures
            final(self).snapshot() == old(self).snapshot().with_worker(present),
    {
        match self {
            LogSource::FileSource(s) => s.set_worker(present),
            LogSource::UartSource(s) => s.set_worker(present),
            LogSource::RttSource(s) => s.set_worker(present),
            LogSource::StdinSource(s) => s.set_worker(present),
        }
    }

    /// Where the acquisition thread of the source reads from.
    pub fn transport(&self) -> (r: Option<Transport>)
        ensures
            r.deep_view() == self.snapshot().transport(),
    {
        match self {
            LogSource::FileSource(s) => Some(s.transport()),
            LogSource::UartSource(s) => s.transport(),
            LogSource::RttSource(s) => s.transport(),
            LogSource::StdinSource(s) => {
                proof {
                    s.lemma_kind();
                }
                Some(Transport::Stdin)
            },
        }
    }

    /// The serial number of the probe behind a hardware source.
    pub fn serial(&self) -> (r: Option<&String>)
        ensures
            r.deep_view() == self.snapshot().serial(),
    {
        proof {
            self.lemma_kind();
        }
        match self {
            LogSource::UartSource(s) => s.get_probe_state().serial_number.as_ref(),
            LogSource::RttSource(s) => s.get_probe_state().serial_number.as_ref(),
            _ => None,
        }
    }

    /// Whether the source reads from hardware behind a debug probe.
    pub fn is_hardware(&self) -> (r: bool)
        ensures
            r == self.snapshot().is_hardware(),
    {
        proof {
            self.lemma_kind();
        }
        match self {
            LogSource::UartSource(_) => true,
            LogSource::RttSource(_) => true,
            _ => false,
        }
    }

    /// The pause between two polls of the transport, in milliseconds.
    pub fn poll_interval_ms(&self) -> (r: u64)
        ensures
            r == self.snapshot().poll_interval_ms(),
    {
        if self.is_hardware() {
            acquisition::HARDWARE_POLL_MS
        } else {
            acquisition::STREAM_POLL_MS
        }
    }
}

} // verus!
