//! The dispatch loop: one owner of the source registry, the filter list and
//! the log history, fed with commands one at a time. Whatever a command
//! makes the outside world do is queued as an [`Effect`] for the driver of
//! the loop to perform, in order.

use vstd::prelude::*;
use vstd::string::StringExecFns;

use crate::configuration::ApplicationConfiguration;
use crate::configuration::TargetConfiguration;
use crate::configuration::TargetView;
use crate::configuration::AliasView;
use crate::log_source::LogSource;
use crate::log_source::SourceView;
use crate::log_source::Transport;
use crate::log_source::TransportView;
use crate::LogFilter;
use crate::LogFilterView;
use crate::LogMessage;
use crate::LogMessageView;
use crate::LogTimestamp;
use crate::filter::filtered_message;
use crate::filter::styled_message;
use crate::log_source::LogSourceTrait;
use crate::reassembly::lines_view;
use crate::reassembly::reassemble;
use crate::reassembly::reassemble_chunk;
use crate::reassembly::stored_bytes;
use crate::style::LogStyle;
use crate::text::decode_lossy;
use crate::text::decoded_faithfully;
use crate::text::lossy_text;

pub mod file_io;
pub mod filter_handler;
pub mod laws;
pub mod refresh;
pub mod rtt_block;
pub mod source_handler;
pub mod storage;
pub mod user_commands;

verus! {

/// What a debug probe tells of itself when the probes are listed.
#[derive(Debug)]
pub struct ProbeInfo {
    /// Name of the probe
    pub identifier: String,
    /// Hardware serial number, where the probe has one
    pub serial_number: Option<String>,
}

/// What the contracts say of a [`ProbeInfo`].
pub struct ProbeInfoView {
    pub identifier: Seq<char>,
    pub serial_number: Option<Seq<char>>,
}

impl DeepView for ProbeInfo {
    type V = ProbeInfoView;

    open spec fn deep_view(&self) -> ProbeInfoView {
        ProbeInfoView {
            identifier: self.identifier@,
            serial_number: self.serial_number.deep_view(),
        }
    }
}

impl Clone for ProbeInfo {
    fn clone(&self) -> (r: ProbeInfo)
        ensures
            r == *self,
    {
        ProbeInfo {
            identifier: self.identifier.clone(),
            serial_number: match &self.serial_number {
                Some(serial) => Some(serial.clone()),
                None => None,
            },
        }
    }
}

/// Read-only information for log backend
///
/// Details about the kind of logging backend a target uses: the address of
/// the RTT control block, or the serial device and its baud rate.
#[derive(Debug)]
pub enum LogBackendInformation {
    Rtt(u64),
    Uart(String, u32),
}

/// What the contracts say of a [`LogBackendInformation`].
pub enum LogBackendInformationView {
    Rtt(u64),
    Uart(Seq<char>, u32),
}

impl DeepView for LogBackendInformation {
    type V = LogBackendInformationView;

    open spec fn deep_view(&self) -> LogBackendInformationView {
        match *self {
            LogBackendInformation::Rtt(address) => LogBackendInformationView::Rtt(address),
            LogBackendInformation::Uart(device, baud) => LogBackendInformationView::Uart(
                device@,
                baud,
            ),
        }
    }
}

impl Clone for LogBackendInformation {
    fn clone(&self) -> (r: LogBackendInformation)
        ensures
            r == *self,
    {
        match self {
            LogBackendInformation::Rtt(address) => LogBackendInformation::Rtt(*address),
            LogBackendInformation::Uart(device, baud) => LogBackendInformation::Uart(
                device.clone(),
                *baud,
            ),
        }
    }
}

/// This class holds the whole state of a target MCU
///
/// One per target connected to the system.
#[derive(Debug)]
pub struct TargetMcu {
    /// Name of the target, coming from a configuration file
    pub name: String,
    /// State of the debug probe attached to the target
    pub probe_info: ProbeInfo,
    /// MCU name, as the debug probe library knows it
    pub mcu: String,
    /// Details about the log backend used by the target
    pub backend: LogBackendInformation,
}

/// What the contracts say of a [`TargetMcu`].
pub struct TargetMcuView {
    pub name: Seq<char>,
    pub probe_info: ProbeInfoView,
    pub mcu: Seq<char>,
    pub backend: LogBackendInformationView,
}

impl DeepView for TargetMcu {
    type V = TargetMcuView;

    open spec fn deep_view(&self) -> TargetMcuView {
        TargetMcuView {
            name: self.name@,
            probe_info: self.probe_info.deep_view(),
            mcu: self.mcu@,
            backend: self.backend.deep_view(),
        }
    }
}

impl Clone for TargetMcu {
    fn clone(&self) -> (r: TargetMcu)
        ensures
            r == *self,
    {
        TargetMcu {
            name: self.name.clone(),
            probe_info: self.probe_info.clone(),
            mcu: self.mcu.clone(),
            backend: self.backend.clone(),
        }
    }
}

/// Read only information of a Target
///
/// What a view needs to display a target: names and backend, none of the
/// state that cannot be shared.
#[derive(Debug)]
pub struct TargetInformation {
    pub probe_name: String,
    pub probe_serial: String,
    pub mcu: String,
    pub backend: LogBackendInformation,
    pub is_connected: bool,
}

/// What the contracts say of a [`TargetInformation`].
pub struct TargetInformationView {
    pub probe_name: Seq<char>,
    pub probe_serial: Seq<char>,
    pub mcu: Seq<char>,
    pub backend: LogBackendInformationView,
    pub is_connected: bool,
}

impl DeepView for TargetInformation {
    type V = TargetInformationView;

    open spec fn deep_view(&self) -> TargetInformationView {
        TargetInformationView {
            probe_name: self.probe_name@,
            probe_serial: self.probe_serial@,
            mcu: self.mcu@,
            backend: self.backend.deep_view(),
            is_connected: self.is_connected,
        }
    }
}

impl TargetInformation {
    /// The information shown for a target: its name with the probe's name
    /// in brackets, and `Unknown` where the probe has no serial number.
    pub open spec fn describe(mcu: TargetMcuView, is_connected: bool) -> TargetInformationView {
        TargetInformationView {
            probe_name: mcu.name + " ("@ + mcu.probe_info.identifier + ")"@,
            probe_serial: match mcu.probe_info.serial_number {
                Some(serial) => serial,
                None => "Unknown"@,
            },
            mcu: mcu.mcu,
            backend: mcu.backend,
            is_connected,
        }
    }

    /// Makes the information to display out of what is known of a target.
    pub fn from(mcu: &TargetMcu, is_connected: bool) -> (r: TargetInformation)
        ensures
            r.deep_view() == TargetInformation::describe(mcu.deep_view(), is_connected),
    {
        let mut probe_name = mcu.name.clone();
        probe_name.append(" (");
        probe_name.append(mcu.probe_info.identifier.as_str());
        probe_name.append(")");
        let probe_serial = match &mcu.probe_info.serial_number {
            Some(serial) => serial.clone(),
            None => String::from_str("Unknown"),
        };
        TargetInformation {
            probe_name,
            probe_serial,
            mcu: mcu.mcu.clone(),
            backend: mcu.backend.clone(),
            is_connected,
        }
    }
}

/// What the dispatch loop is asked to do.
#[derive(Debug)]
pub enum Command {
    // File
    StreamFile(String),
    StreamStdin,
    StreamLogs(bool, String),
    // LogSources
    ConnectLogSource(u32),
    DisconnectLogSource(u32),
    // Probes
    RefreshProbeInfo,
    Reset(u32),
    Reflash(u32),
    // Misc
    PrintMessage(String),
    // Filters
    AddFilter(LogFilter),
    ClearFilters,
    GetFilters,
    // Logs
    ParseLogBytes(u32, Vec<u8>),
    ClearLogs,
    FindLog(String),
}

/// What the contracts say of a [`Command`].
pub enum CommandView {
    StreamFile(Seq<char>),
    StreamStdin,
    StreamLogs(bool, Seq<char>),
    ConnectLogSource(u32),
    DisconnectLogSource(u32),
    RefreshProbeInfo,
    Reset(u32),
    Reflash(u32),
    PrintMessage(Seq<char>),
    AddFilter(LogFilterView),
    ClearFilters,
    GetFilters,
    ParseLogBytes(u32, Seq<u8>),
    ClearLogs,
    FindLog(Seq<char>),
}

impl DeepView for Command {
    type V = CommandView;

    open spec fn deep_view(&self) -> CommandView {
        match *self {
            Command::StreamFile(path) => CommandView::StreamFile(path@),
            Command::StreamStdin => CommandView::StreamStdin,
            Command::StreamLogs(on, path) => CommandView::StreamLogs(on, path@),
            Command::ConnectLogSource(id) => CommandView::ConnectLogSource(id),
            Command::DisconnectLogSource(id) => CommandView::DisconnectLogSource(id),
            Command::RefreshProbeInfo => CommandView::RefreshProbeInfo,
            Command::Reset(id) => CommandView::Reset(id),
            Command::Reflash(id) => CommandView::Reflash(id),
            Command::PrintMessage(text) => CommandView::PrintMessage(text@),
            Command::AddFilter(filter) => CommandView::AddFilter(filter.deep_view()),
            Command::ClearFilters => CommandView::ClearFilters,
            Command::GetFilters => CommandView::GetFilters,
            Command::ParseLogBytes(id, bytes) => CommandView::ParseLogBytes(id, bytes@),
            Command::ClearLogs => CommandView::ClearLogs,
            Command::FindLog(text) => CommandView::FindLog(text@),
        }
    }
}

impl CommandView {
    /// The name of a command, as it is written in diagnostics.
    pub open spec fn name(self) -> Seq<char> {
        match self {
            CommandView::ClearLogs => "ClearLogs"@,
            CommandView::GetFilters => "GetFilters"@,
            CommandView::ParseLogBytes(_, _) => "ParseLogBytes"@,
            CommandView::ClearFilters => "ClearFilters"@,
            CommandView::Reset(_) => "Reset"@,
            CommandView::Reflash(_) => "Reflash"@,
            CommandView::AddFilter(_) => "AddFilter"@,
            CommandView::PrintMessage(_) => "PrintMessage"@,
            CommandView::FindLog(_) => "FindLog"@,
            CommandView::RefreshProbeInfo => "RefreshProbeInfo"@,
            CommandView::StreamLogs(_, _) => "StreamLogs"@,
            CommandView::StreamFile(_) => "StreamFile"@,
            CommandView::StreamStdin => "StreamStdin"@,
            CommandView::ConnectLogSource(_) => "ConnectLogSource"@,
            CommandView::DisconnectLogSource(_) => "DisconnectLogSource"@,
        }
    }
}

impl Command {
    /// The name of the command, without its arguments.
    pub fn to_string(&self) -> (r: String)
        ensures
            r@ == self.deep_view().name(),
    {
        let text = match self {
            Command::ClearLogs => "ClearLogs",
            Command::GetFilters => "GetFilters",
            Command::ParseLogBytes(_, _) => "ParseLogBytes",
            Command::ClearFilters => "ClearFilters",
            Command::Reset(_) => "Reset",
            Command::Reflash(_) => "Reflash",
            Command::AddFilter(_) => "AddFilter",
            Command::PrintMessage(_) => "PrintMessage",
            Command::FindLog(_) => "FindLog",
            Command::RefreshProbeInfo => "RefreshProbeInfo",
            Command::StreamLogs(_, _) => "StreamLogs",
            Command::StreamFile(_) => "StreamFile",
            Command::StreamStdin => "StreamStdin",
            Command::ConnectLogSource(_) => "ConnectLogSource",
            Command::DisconnectLogSource(_) => "DisconnectLogSource",
        };
        String::from_str(text)
    }
}

/// What the dispatch loop tells the rendering layer.
#[derive(Debug)]
pub enum UiCommand {
    /// Misc
    TextMessage { message: String },
    /// Sources: a new one, with its ID and the text to display
    AddNewSource(u32, String),
    RemoveSource(u32),
    /// ID and whether the source is connected
    SetConnectionSource(u32, bool),
    /// Filters
    UpdateFilterList(Vec<LogFilter>),
    UpdateLogs(Vec<LogMessage>),
    /// Log search
    UpdateSearchLog(String),
}

/// What the contracts say of a [`UiCommand`].
pub enum UiCommandView {
    TextMessage { message: Seq<char> },
    AddNewSource(u32, Seq<char>),
    RemoveSource(u32),
    SetConnectionSource(u32, bool),
    UpdateFilterList(Seq<LogFilterView>),
    UpdateLogs(Seq<LogMessageView>),
    UpdateSearchLog(Seq<char>),
}

impl DeepView for UiCommand {
    type V = UiCommandView;

    open spec fn deep_view(&self) -> UiCommandView {
        match *self {
            UiCommand::TextMessage { message } => UiCommandView::TextMessage { message: message@ },
            UiCommand::AddNewSource(id, label) => UiCommandView::AddNewSource(id, label@),
            UiCommand::RemoveSource(id) => UiCommandView::RemoveSource(id),
            UiCommand::SetConnectionSource(id, on) => UiCommandView::SetConnectionSource(id, on),
            UiCommand::UpdateFilterList(filters) => UiCommandView::UpdateFilterList(
                filters.deep_view(),
            ),
            UiCommand::UpdateLogs(logs) => UiCommandView::UpdateLogs(logs.deep_view()),
            UiCommand::UpdateSearchLog(text) => UiCommandView::UpdateSearchLog(text@),
        }
    }
}

impl UiCommandView {
    /// The name of a message to the rendering layer.
    pub open spec fn name(self) -> Seq<char> {
        match self {
            UiCommandView::TextMessage { message: _ } => "TextMessage"@,
            UiCommandView::AddNewSource(_, _) => "AddNewSource"@,
            UiCommandView::SetConnectionSource(_, _) => "SetConnectionSource"@,
            UiCommandView::UpdateFilterList(_) => "UpdateFilterList"@,
            UiCommandView::UpdateLogs(_) => "UpdateLogs"@,
            UiCommandView::UpdateSearchLog(_) => "UpdateSearchLog"@,
            UiCommandView::RemoveSource(_) => "RemoveSource"@,
        }
    }
}

impl UiCommand {
    /// The name of the message, without its arguments.
    pub fn to_string(&self) -> (r: String)
        ensures
            r@ == self.deep_view().name(),
    {
        let text = match self {
            UiCommand::TextMessage { message: _ } => "TextMessage",
            UiCommand::AddNewSource(_, _) => "AddNewSource",
            UiCommand::SetConnectionSource(_, _) => "SetConnectionSource",
            UiCommand::UpdateFilterList(_) => "UpdateFilterList",
            UiCommand::UpdateLogs(_) => "UpdateLogs",
            UiCommand::UpdateSearchLog(_) => "UpdateSearchLog",
            UiCommand::RemoveSource(_) => "RemoveSource",
        };
        String::from_str(text)
    }
}

/// What the driver of the dispatch loop has to carry out for it, in the
/// order in which the loop queued it.
#[derive(Debug)]
pub enum Effect {
    /// Hand a message to the rendering layer.
    Ui(UiCommand),
    /// Hand a line that survived the filters to the log view.
    Log(LogMessage),
    /// Append text to the recording.
    Record(String),
    /// Create the recording file at this path and report back with
    /// [`Commander::recording_opened`] if that worked.
    OpenRecording(String),
    /// Close the recording file.
    CloseRecording,
    /// List the debug probes and report back with
    /// [`Commander::cmd_refresh_probe_info`].
    ListProbes,
    /// Start the acquisition thread of a source on its transport.
    StartSource(u32, Transport),
    /// Signal the acquisition thread of a source to stop, and wait until
    /// it has ended.
    StopSource(u32),
    /// Reset the target behind a source.
    ResetTarget(u32),
    /// Flash the target behind a source anew.
    ReflashTarget(u32),
}

/// What the contracts say of an [`Effect`].
pub enum EffectView {
    Ui(UiCommandView),
    Log(LogMessageView),
    Record(Seq<char>),
    OpenRecording(Seq<char>),
    CloseRecording,
    ListProbes,
    StartSource(u32, TransportView),
    StopSource(u32),
    ResetTarget(u32),
    ReflashTarget(u32),
}

impl DeepView for Effect {
    type V = EffectView;

    open spec fn deep_view(&self) -> EffectView {
        match *self {
            Effect::Ui(command) => EffectView::Ui(command.deep_view()),
            Effect::Log(message) => EffectView::Log(message.deep_view()),
            Effect::Record(text) => EffectView::Record(text@),
            Effect::OpenRecording(path) => EffectView::OpenRecording(path@),
            Effect::CloseRecording => EffectView::CloseRecording,
            Effect::ListProbes => EffectView::ListProbes,
            Effect::StartSource(id, transport) => EffectView::StartSource(
                id,
                transport.deep_view(),
            ),
            Effect::StopSource(id) => EffectView::StopSource(id),
            Effect::ResetTarget(id) => EffectView::ResetTarget(id),
            Effect::ReflashTarget(id) => EffectView::ReflashTarget(id),
        }
    }
}

/// A message to the rendering layer that carries one line of text.
pub open spec fn text_message(message: Seq<char>) -> EffectView {
    EffectView::Ui(UiCommandView::TextMessage { message })
}

/// The effect that hands a filtered view to the rendering layer.
pub open spec fn update_logs(view: Seq<LogMessageView>) -> EffectView {
    EffectView::Ui(UiCommandView::UpdateLogs(view))
}

/// The ID under which a message records the source it came from.
pub open spec fn message_source(id: u32) -> i32 {
    #[verifier::truncate] (id as i32)
}

/// The position of the first source with the given ID, if there is one.
pub open spec fn index_of_id(sources: Seq<SourceView>, id: u32) -> Option<int>
    decreases sources.len(),
{
    if sources.len() == 0 {
        None
    } else {
        match index_of_id(sources.drop_last(), id) {
            Some(i) => Some(i),
            None => if sources.last().id() == id {
                Some(sources.len() - 1)
            } else {
                None
            },
        }
    }
}

/// `index_of_id` finds the first source with the ID, and finds one
/// whenever there is one.
pub proof fn lemma_index_of_id(sources: Seq<SourceView>, id: u32)
    ensures
        match index_of_id(sources, id) {
            Some(i) => 0 <= i < sources.len() && sources[i].id() == id && forall|j: int|
                0 <= j < i ==> (#[trigger] sources[j]).id() != id,
            None => forall|j: int| 0 <= j < sources.len() ==> (#[trigger] sources[j]).id() != id,
        },
    decreases sources.len(),
{
    if sources.len() > 0 {
        lemma_index_of_id(sources.drop_last(), id);
        assert(forall|j: int|
            0 <= j < sources.len() - 1 ==> sources.drop_last()[j] == #[trigger] sources[j]);
    }
}

/// A source found in a prefix of the list is the source found in the list.
pub proof fn lemma_index_of_id_prefix(sources: Seq<SourceView>, n: int, id: u32)
    requires
        0 <= n <= sources.len(),
        index_of_id(sources.take(n), id) is Some,
    ensures
        index_of_id(sources, id) == index_of_id(sources.take(n), id),
    decreases sources.len() - n,
{
    if n < sources.len() {
        assert(sources.take(n + 1).drop_last() =~= sources.take(n));
        lemma_index_of_id_prefix(sources, n + 1, id);
    } else {
        assert(sources.take(n) =~= sources);
    }
}

/// The single owner of the registry of sources, the filter list and the
/// log history.
pub struct Commander {
    /// Connected target information
    log_sources: Vec<LogSource>,
    /// New sources IDs will just increase this number
    log_source_id: u32,
    /// Log filtering feature
    filters: Vec<LogFilter>,
    /// All received log messages
    log_messages: Vec<LogMessage>,
    /// Target configuration
    pub target_cfg: Option<TargetConfiguration>,
    /// Application configuration
    pub app_cfg: ApplicationConfiguration,
    /// Log streaming information: a recording is open
    pub stream_logs: bool,
    /// What the driver has still to carry out
    effects: Vec<Effect>,
}

/// What the contracts say of a [`Commander`].
pub struct CommanderView {
    /// The registered sources, in the order of their registration
    pub sources: Seq<SourceView>,
    /// The ID that the next source gets
    pub next_id: u32,
    /// The filters, in the order of evaluation
    pub filters: Seq<LogFilterView>,
    /// Every line reassembled so far, in the order of arrival
    pub history: Seq<LogMessageView>,
    /// The configured targets, where a target configuration was given
    pub targets: Option<Seq<TargetView>>,
    pub aliases: Seq<AliasView>,
    /// Lines are being recorded to a file
    pub recording: bool,
    /// The queued effects, oldest first
    pub effects: Seq<EffectView>,
}

impl CommanderView {
    /// The registry is in order: the IDs of the sources rise strictly
    /// along the list, and all of them lie below the ID that comes next.
    /// So no two sources share an ID, and no ID is issued twice.
    pub open spec fn wf(self) -> bool {
        &&& forall|i: int| 0 <= i < self.sources.len() ==> (#[trigger] self.sources[i]).id()
            < self.next_id
        &&& forall|i: int, j: int|
            0 <= i < j < self.sources.len() ==> (#[trigger] self.sources[i]).id() < (
            #[trigger] self.sources[j]).id()
    }

    /// The state with one more effect queued.
    pub open spec fn emit(self, effect: EffectView) -> CommanderView {
        CommanderView { effects: self.effects.push(effect), ..self }
    }

    /// The state with one more message to the rendering layer queued.
    pub open spec fn tell(self, command: UiCommandView) -> CommanderView {
        self.emit(EffectView::Ui(command))
    }

    /// A fresh dispatch loop.
    pub open spec fn initial(
        targets: Option<Seq<TargetView>>,
        aliases: Seq<AliasView>,
    ) -> CommanderView {
        CommanderView {
            sources: Seq::empty(),
            next_id: 0,
            filters: Seq::empty(),
            history: Seq::empty(),
            targets,
            aliases,
            recording: false,
            effects: Seq::empty(),
        }
    }
}

impl DeepView for Commander {
    type V = CommanderView;

    closed spec fn deep_view(&self) -> CommanderView {
        CommanderView {
            sources: self.log_sources.deep_view(),
            next_id: self.log_source_id,
            filters: self.filters.deep_view(),
            history: self.log_messages.deep_view(),
            targets: self.target_cfg.deep_view(),
            aliases: self.app_cfg.deep_view(),
            recording: self.stream_logs,
            effects: self.effects.deep_view(),
        }
    }
}

impl Commander {
    /// The dispatch loop is well formed when its registry is in order.
    pub open spec fn wf(&self) -> bool {
        self.deep_view().wf()
    }

    /// Create a new Commander
    ///
    /// Intended to be used in the beginning of the application, to create
    /// the single commander that will handle all sources.
    pub fn new(cfg: Option<TargetConfiguration>, app_cfg: &ApplicationConfiguration) -> (r:
        Commander)
        ensures
            r.deep_view() == CommanderView::initial(cfg.deep_view(), app_cfg.deep_view()),
            r.wf(),
    {
        let r = Commander {
            log_sources: Vec::new(),
            log_source_id: 0,
            filters: Vec::new(),
            log_messages: Vec::new(),
            target_cfg: cfg,
            app_cfg: app_cfg.clone(),
            stream_logs: false,
            effects: Vec::new(),
        };
        assert(r.deep_view().sources =~= Seq::empty());
        assert(r.deep_view().filters =~= Seq::empty());
        assert(r.deep_view().history =~= Seq::empty());
        assert(r.deep_view().effects =~= Seq::empty());
        assert(r.deep_view().aliases =~= app_cfg.deep_view());
        r
    }

    /// Hands the queued effects to the driver, oldest first, and leaves
    /// the queue empty.
    pub fn take_effects(&mut self) -> (r: Vec<Effect>)
        ensures
            r.deep_view() == old(self).deep_view().effects,
            final(self).deep_view() == (CommanderView {
                effects: Seq::empty(),
                ..old(self).deep_view()
            }),
    {
        let mut out: Vec<Effect> = Vec::new();
        std::mem::swap(&mut out, &mut self.effects);
        assert(self.effects.deep_view() =~= Seq::empty());
        out
    }

    /// Queues one effect.
    pub(crate) fn emit(&mut self, effect: Effect)
        ensures
            final(self).deep_view() == old(self).deep_view().emit(effect.deep_view()),
    {
        self.effects.push(effect);
        assert(self.effects.deep_view() =~= old(self).effects.deep_view().push(
            effect.deep_view(),
        ));
    }

    /// Queues one message to the rendering layer.
    pub(crate) fn tell(&mut self, command: UiCommand)
        ensures
            final(self).deep_view() == old(self).deep_view().tell(command.deep_view()),
    {
        self.emit(Effect::Ui(command));
    }

    /// The filters in force, in the order of evaluation.
    pub fn filters(&self) -> (r: &Vec<LogFilter>)
        ensures
            r.deep_view() == self.deep_view().filters,
    {
        &self.filters
    }

    /// Every line reassembled so far, in the order of arrival.
    pub fn log_messages(&self) -> (r: &Vec<LogMessage>)
        ensures
            r.deep_view() == self.deep_view().history,
    {
        &self.log_messages
    }

    /// The registered sources, in the order of their registration.
    pub fn log_sources(&self) -> (r: &Vec<LogSource>)
        ensures
            r.deep_view() == self.deep_view().sources,
    {
        &self.log_sources
    }
}

/// The texts of reassembled lines, each decoded on its own.
pub open spec fn decoded(lines: Seq<Seq<u8>>) -> Seq<Seq<char>> {
    lines.map_values(|line: Seq<u8>| lossy_text(line))
}

/// Lossy decoding lost nothing of those lines that are valid UTF-8.
pub open spec fn faithful(lines: Seq<Seq<u8>>) -> bool {
    forall|k: int| 0 <= k < lines.len() ==> decoded_faithfully(#[trigger] lines[k])
}

/// The messages that lines become when they enter the history: stamped
/// with the time of reassembly, marked with their source, in the dim style.
pub open spec fn new_messages(texts: Seq<Seq<char>>, timestamp: LogTimestamp, id: i32) -> Seq<
    LogMessageView,
> {
    texts.map_values(|text: Seq<char>| styled_message(timestamp, id, text, LogStyle::spec_dim()))
}

impl CommanderView {
    /// What one new line queues: its text for the recording, where one is
    /// open, and the line itself for the log view if it survives the
    /// filters.
    pub open spec fn line_effects(self, text: Seq<char>, timestamp: LogTimestamp, id: i32) -> Seq<
        EffectView,
    > {
        let recorded = if self.recording {
            seq![EffectView::Record(text)]
        } else {
            Seq::empty()
        };
        match filtered_message(self.filters, timestamp, id, text) {
            Some(shown) => recorded.push(EffectView::Log(shown)),
            None => recorded,
        }
    }

    /// What a run of new lines queues, line after line.
    pub open spec fn lines_effects(
        self,
        texts: Seq<Seq<char>>,
        timestamp: LogTimestamp,
        id: i32,
    ) -> Seq<EffectView>
        decreases texts.len(),
    {
        if texts.len() == 0 {
            Seq::empty()
        } else {
            self.lines_effects(texts.drop_last(), timestamp, id) + self.line_effects(
                texts.last(),
                timestamp,
                id,
            )
        }
    }

    /// The lines that a chunk of bytes from the source with the given ID
    /// completes.
    pub open spec fn completed(self, id: u32, bytes: Seq<u8>) -> Seq<Seq<u8>> {
        match index_of_id(self.sources, id) {
            None => Seq::empty(),
            Some(at) => reassemble(stored_bytes(self.sources[at].link.storage), bytes).lines,
        }
    }

    /// A chunk of bytes arrives from the source with the given ID at the
    /// given time. The chunk is joined to the stored tail of that source and
    /// reassembled; each line that is now complete is decoded, appended to
    /// the history and passed on; the rest becomes the stored tail. Bytes
    /// of an unknown source change nothing.
    pub open spec fn parse_bytes(
        self,
        id: u32,
        bytes: Seq<u8>,
        timestamp: LogTimestamp,
    ) -> CommanderView {
        match index_of_id(self.sources, id) {
            None => self,
            Some(at) => {
                let split = reassemble(stored_bytes(self.sources[at].link.storage), bytes);
                let texts = decoded(split.lines);
                CommanderView {
                    sources: self.sources.update(
                        at,
                        self.sources[at].with_storage(Some(split.tail)),
                    ),
                    history: self.history + new_messages(texts, timestamp, message_source(id)),
                    effects: self.effects + self.lines_effects(
                        texts,
                        timestamp,
                        message_source(id),
                    ),
                    ..self
                }
            },
        }
    }
}

impl Commander {
    /// Process received bytes from the different log sources, as of the
    /// given time
    ///
    /// Turns the raw bytes of a source into log messages, applies the
    /// filters and queues what survives for the log view.
    pub fn cmd_parse_bytes_at(&mut self, id: u32, bytes: Vec<u8>, timestamp: LogTimestamp) -> (r:
        Result<(), String>)
        ensures
            old(self).wf() ==> final(self).wf(),
            final(self).deep_view() == old(self).deep_view().parse_bytes(id, bytes@, timestamp),
            match index_of_id(old(self).deep_view().sources, id) {
                Some(_) => r is Ok,
                None => r matches Err(e) && e@ == "Source has no RAM state"@,
            },
            faithful(old(self).deep_view().completed(id, bytes@)),
    {
        // Get current bytes
        let idx = match self.get_source_idx(id) {
            Some(idx) => idx,
            None => {
                return Err(String::from_str("Source has no RAM state"));
            },
        };
        let ghost before = self.deep_view();
        let ghost source = before.sources[idx as int];
        let ghost split = reassemble(stored_bytes(source.link.storage), bytes@);
        let ghost texts = decoded(split.lines);
        let message_id = #[verifier::truncate] (id as i32);
        let tail = self.log_sources[idx].take_storage();
        assert(self.log_sources.deep_view() =~= before.sources.update(
            idx as int,
            source.with_storage(None),
        ));
        let (lines, rest) = reassemble_chunk(tail, bytes);
        let mut i: usize = 0;
        proof {
            assert(texts.take(0) =~= Seq::<Seq<char>>::empty());
            assert(before.history + new_messages(texts.take(0), timestamp, message_id)
                =~= before.history);
            assert(before.effects + before.lines_effects(texts.take(0), timestamp, message_id)
                =~= before.effects);
        }
        while i < lines.len()
            invariant
                i <= lines.len(),
                idx < before.sources.len(),
                source == before.sources[idx as int],
                rest@ == split.tail,
                lines_view(lines@) == split.lines,
                forall|k: int| 0 <= k < i ==> decoded_faithfully(#[trigger] split.lines[k]),
                texts == decoded(split.lines),
                message_id == message_source(id),
                self.deep_view() == (CommanderView {
                    sources: before.sources.update(idx as int, source.with_storage(None)),
                    history: before.history + new_messages(
                        texts.take(i as int),
                        timestamp,
                        message_id,
                    ),
                    effects: before.effects + before.lines_effects(
                        texts.take(i as int),
                        timestamp,
                        message_id,
                    ),
                    ..before
                }),
            decreases lines.len() - i,
        {
            let ghost now = self.deep_view();
            let line = decode_lossy(&lines[i]);
            proof {
                assert(lines_view(lines@)[i as int] == lines[i as int]@);
                assert(line@ == texts[i as int]);
                assert(texts.take(i + 1).drop_last() =~= texts.take(i as int));
                assert(texts.take(i + 1).last() == texts[i as int]);
            }
            // Store it
            self.log_messages.push(
                LogMessage {
                    timestamp,
                    source_id: message_id,
                    message: line.clone(),
                    style: LogStyle::dim(),
                },
            );
            assert(self.log_messages.deep_view() =~= now.history.push(
                styled_message(timestamp, message_id, line@, LogStyle::spec_dim()),
            ));
            assert(now.history.push(
                styled_message(timestamp, message_id, line@, LogStyle::spec_dim()),
            ) =~= before.history + new_messages(texts.take(i + 1), timestamp, message_id));
            // If we are streaming logs to a file, add the line to it
            if self.stream_logs {
                self.emit(Effect::Record(line.clone()));
            }
            // Apply filters
            if let Some(log_message) = self.apply_filters(timestamp, message_id, line) {
                self.emit(Effect::Log(log_message));
            }
            assert(self.deep_view().effects =~= now.effects + before.line_effects(
                texts[i as int],
                timestamp,
                message_id,
            ));
            assert(now.effects + before.line_effects(texts[i as int], timestamp, message_id)
                =~= before.effects + before.lines_effects(
                texts.take(i + 1),
                timestamp,
                message_id,
            ));
            i += 1;
        }
        assert(texts.take(lines.len() as int) =~= texts);
        let ghost emptied = self.deep_view().sources;
        self.log_sources[idx].set_storage(rest);
        assert(self.log_sources.deep_view() =~= emptied.update(
            idx as int,
            emptied[idx as int].with_storage(Some(split.tail)),
        ));
        assert(emptied[idx as int].with_storage(Some(split.tail)) == source.with_storage(
            Some(split.tail),
        ));
        assert(self.log_sources.deep_view() =~= before.sources.update(
            idx as int,
            source.with_storage(Some(split.tail)),
        ));
        Ok(())
    }

    /// Process received bytes from the different log sources
    ///
    /// Stamps the lines that the bytes complete with the current time of
    /// day; for the rest see [`Commander::cmd_parse_bytes_at`].
    pub fn cmd_parse_bytes(&mut self, id: u32, bytes: Vec<u8>) -> (r: Result<(), String>)
        ensures
            old(self).wf() ==> final(self).wf(),
            exists|timestamp: LogTimestamp|
                timestamp.wf() && final(self).deep_view() == #[trigger] old(
                    self,
                ).deep_view().parse_bytes(id, bytes@, timestamp),
            match index_of_id(old(self).deep_view().sources, id) {
                Some(_) => r is Ok,
                None => r matches Err(e) && e@ == "Source has no RAM state"@,
            },
            faithful(old(self).deep_view().completed(id, bytes@)),
    {
        // Get timestamp
        let ts = LogTimestamp::now();
        self.cmd_parse_bytes_at(id, bytes, ts)
    }
}

/// Copies a list of filters.
pub fn clone_filters(list: &Vec<LogFilter>) -> (r: Vec<LogFilter>)
    ensures
        r@ == list@,
{
    let mut out: Vec<LogFilter> = Vec::new();
    let mut i: usize = 0;
    while i < list.len()
        invariant
            i <= list.len(),
            out@ == list@.take(i as int),
        decreases list.len() - i,
    {
        out.push(list[i].clone());
        assert(out@ =~= list@.take(i + 1));
        i += 1;
    }
    assert(list@.take(list.len() as int) =~= list@);
    out
}

/// A result of the dispatch loop with its error text taken by its view.
pub open spec fn outcome(r: Result<(), String>) -> Result<(), Seq<char>> {
    match r {
        Ok(()) => Ok(()),
        Err(text) => Err(text@),
    }
}

/// `Ok` where there is no complaint, else the complaint as an error.
pub open spec fn refusal(complaint: Option<Seq<char>>) -> Result<(), Seq<char>> {
    match complaint {
        Some(text) => Err(text),
        None => Ok(()),
    }
}

impl CommanderView {
    /// Dropping the whole log history: the view is empty again.
    pub open spec fn clear_logs(self) -> CommanderView {
        CommanderView { history: Seq::empty(), ..self }.tell(
            UiCommandView::UpdateLogs(Seq::empty()),
        )
    }

    /// A request to look at the probes again: without a target
    /// configuration the user is told so, else the driver is asked to list
    /// the probes.
    pub open spec fn request_refresh(self) -> CommanderView {
        if self.targets is None {
            self.emit(text_message("No .gadget.yaml file provided"@))
        } else {
            self.emit(EffectView::ListProbes)
        }
    }

    /// The state after a command, taken at the given time.
    pub open spec fn after(self, command: CommandView, timestamp: LogTimestamp) -> CommanderView {
        match command {
            CommandView::RefreshProbeInfo => self.request_refresh(),
            CommandView::Reset(id) => self.reset(id),
            CommandView::Reflash(id) => self.reflash(id),
            CommandView::StreamLogs(streaming, path) => self.log_stream(streaming, path),
            CommandView::ParseLogBytes(id, bytes) => self.parse_bytes(id, bytes, timestamp),
            CommandView::StreamFile(path) => if self.can_register() {
                self.open_stream(crate::log_source::SourceDetail::File { file_name: path })
            } else {
                self
            },
            CommandView::StreamStdin => if self.can_register() {
                self.open_stream(crate::log_source::SourceDetail::Stdin)
            } else {
                self
            },
            CommandView::PrintMessage(message) => self.emit(text_message(message)),
            CommandView::AddFilter(filter) => self.add_filter(filter),
            CommandView::ClearFilters => self.clear_filters(),
            CommandView::GetFilters => self.tell(UiCommandView::UpdateFilterList(self.filters)),
            CommandView::ClearLogs => self.clear_logs(),
            CommandView::FindLog(text) => self.tell(UiCommandView::UpdateSearchLog(text)),
            CommandView::ConnectLogSource(id) => self.connect(id),
            CommandView::DisconnectLogSource(id) => self.disconnect(id),
        }
    }

    /// Why a command is refused, if it is.
    pub open spec fn complaint(self, command: CommandView) -> Option<Seq<char>> {
        match command {
            CommandView::Reset(id) => self.reset_error(id),
            CommandView::Reflash(id) => self.reflash_error(id),
            CommandView::StreamLogs(streaming, _) => self.log_stream_error(streaming),
            CommandView::ParseLogBytes(id, _) => if index_of_id(self.sources, id) is None {
                Some("Source has no RAM state"@)
            } else {
                None
            },
            CommandView::StreamFile(_) => if self.can_register() {
                None
            } else {
                Some("No source ID left"@)
            },
            CommandView::StreamStdin => if self.can_register() {
                None
            } else {
                Some("No source ID left"@)
            },
            _ => None,
        }
    }

    /// One turn of the dispatch loop, taken at the given time: what was
    /// received from the command queue changes the state and is answered.
    /// Where the queue is broken nothing changes and the loop has to end.
    pub open spec fn step(self, received: Option<CommandView>, timestamp: LogTimestamp) -> (
        CommanderView,
        Result<(), Seq<char>>,
    ) {
        match received {
            None => (self, Err("channel broken"@)),
            Some(command) => (self.after(command, timestamp), refusal(self.complaint(command))),
        }
    }
}

impl Commander {
    /// Change the log being searched for
    pub fn update_log_search(&mut self, log: String) -> (r: Result<(), String>)
        ensures
            r is Ok,
            final(self).deep_view() == old(self).deep_view().tell(
                UiCommandView::UpdateSearchLog(log@),
            ),
    {
        self.tell(UiCommand::UpdateSearchLog(log));
        Ok(())
    }

    /// Clear logs
    ///
    /// Remove all stored logs and request a clear also to the UI
    pub fn clear_logs(&mut self) -> (r: Result<(), String>)
        ensures
            r is Ok,
            final(self).deep_view() == old(self).deep_view().clear_logs(),
    {
        self.log_messages.clear();
        assert(self.log_messages.deep_view() =~= Seq::empty());
        let shown: Vec<LogMessage> = Vec::new();
        assert(shown.deep_view() =~= Seq::empty());
        self.tell(UiCommand::UpdateLogs(shown));
        Ok(())
    }

    /// Answers a request to look at the probes again.
    pub fn request_refresh(&mut self) -> (r: Result<(), String>)
        ensures
            r is Ok,
            final(self).deep_view() == old(self).deep_view().request_refresh(),
    {
        if self.target_cfg.is_none() {
            let message = String::from_str("No .gadget.yaml file provided");
            self.tell(UiCommand::TextMessage { message });
        } else {
            self.emit(Effect::ListProbes);
        }
        Ok(())
    }

    /// Process incoming commands, as of the given time
    ///
    /// One turn of the dispatch loop on what was received from the command
    /// queue; `None` stands for a queue that is broken.
    pub fn process_at(&mut self, received: Option<Command>, timestamp: LogTimestamp) -> (r: Result<
        (),
        String,
    >)
        ensures
            old(self).wf() ==> final(self).wf(),
            (final(self).deep_view(), outcome(r)) == old(self).deep_view().step(
                received.deep_view(),
                timestamp,
            ),
            received matches Some(Command::ParseLogBytes(id, bytes)) ==> faithful(
                old(self).deep_view().completed(id, bytes@),
            ),
    {
        let command = match received {
            Some(command) => command,
            None => {
                return Err(String::from_str("channel broken"));
            },
        };
        match command {
            Command::RefreshProbeInfo => self.request_refresh(),
            Command::Reset(source_id) => self.reset_log_source(source_id),
            Command::Reflash(source_id) => self.reflash_log_source(source_id),
            Command::StreamLogs(streaming, path) => self.cmd_log_stream(streaming, path),
            Command::ParseLogBytes(id, bytes) => self.cmd_parse_bytes_at(id, bytes, timestamp),
            Command::StreamFile(path) => self.cmd_stream_file(path),
            Command::StreamStdin => self.cmd_stream_stdin(),
            Command::PrintMessage(msg) => {
                self.tell(UiCommand::TextMessage { message: msg });
                Ok(())
            },
            Command::AddFilter(filter) => self.add_filter(filter),
            Command::ClearFilters => self.clear_filters(),
            Command::GetFilters => {
                let filters = clone_filters(&self.filters);
                assert(filters.deep_view() =~= self.filters.deep_view());
                self.tell(UiCommand::UpdateFilterList(filters));
                Ok(())
            },
            Command::ClearLogs => self.clear_logs(),
            Command::FindLog(log) => self.update_log_search(log),
            Command::ConnectLogSource(id) => self.connect_log_source(id),
            Command::DisconnectLogSource(id) => self.disconnect_log_source(id),
        }
    }

    /// Process incoming commands
    ///
    /// Core of this module: one turn of the dispatch loop on what was
    /// received from the command queue, at the current time of day. What
    /// the turn does is what [`Commander::process_at`] does at some time of
    /// day.
    pub fn process(&mut self, received: Option<Command>) -> (r: Result<(), String>)
        ensures
            old(self).wf() ==> final(self).wf(),
            exists|timestamp: LogTimestamp|
                timestamp.wf() && (final(self).deep_view(), outcome(r)) == #[trigger] old(
                    self,
                ).deep_view().step(received.deep_view(), timestamp),
            received matches Some(Command::ParseLogBytes(id, bytes)) ==> faithful(
                old(self).deep_view().completed(id, bytes@),
            ),
    {
        let ts = LogTimestamp::now();
        self.process_at(received, ts)
    }
}

} // verus!
