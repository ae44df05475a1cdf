//! Streams in and out: files and standard input as sources of log bytes,
//! and the recording of reassembled lines to a file.

use vstd::prelude::*;
use vstd::string::StringExecFns;

use crate::log_source::FileSource;
use crate::log_source::LinkView;
use crate::log_source::LogSource;
use crate::log_source::LogSourceTrait;
use crate::log_source::SourceDetail;
use crate::log_source::SourceView;
use crate::log_source::StdinSource;
use crate::LogMessageView;

use super::text_message;
use super::Commander;
use super::CommanderView;
use super::Effect;
use super::EffectView;
use super::UiCommand;
use super::UiCommandView;

verus! {

/// The texts of a log history as writes to the recording, oldest first.
pub open spec fn record_all(history: Seq<LogMessageView>) -> Seq<EffectView> {
    history.map_values(|m: LogMessageView| EffectView::Record(m.message))
}

impl CommanderView {
    /// An ID is left for one more source.
    pub open spec fn can_register(self) -> bool {
        self.next_id < u32::MAX
    }

    /// A stream is opened as a new source: it gets the next ID, is
    /// connected at once and put at the end of the registry; the driver is
    /// told to start its acquisition thread, the rendering layer that there
    /// is a new source and that it is connected.
    pub open spec fn open_stream(self, detail: SourceDetail) -> CommanderView {
        let id = self.next_id;
        let fresh = SourceView { link: LinkView::fresh(id), detail };
        CommanderView {
            sources: self.sources.push(fresh.after_connect()),
            next_id: (id + 1) as u32,
            effects: self.effects + CommanderView::connect_effects(fresh) + seq![
                EffectView::Ui(UiCommandView::AddNewSource(id, fresh.label())),
                EffectView::Ui(UiCommandView::SetConnectionSource(id, true)),
            ],
            ..self
        }
    }

    /// Why a request to start or stop the recording is refused, if it is:
    /// a recording that runs cannot be started, one that does not run
    /// cannot be stopped.
    pub open spec fn log_stream_error(self, streaming: bool) -> Option<Seq<char>> {
        if streaming && self.recording {
            Some("Already streaming"@)
        } else if !streaming && !self.recording {
            Some("Nothing to do, really"@)
        } else {
            None
        }
    }

    /// A request to start or stop the recording. To start, the driver is
    /// asked to create the file; nothing is recorded before it reports
    /// success. To stop, the recording ends at once.
    pub open spec fn log_stream(self, streaming: bool, path: Seq<char>) -> CommanderView {
        if self.log_stream_error(streaming) is Some {
            self
        } else if streaming {
            self.emit(EffectView::OpenRecording(path))
        } else {
            CommanderView { recording: false, ..self }.emit(EffectView::CloseRecording).emit(
                text_message("Streaming stopped"@),
            )
        }
    }

    /// The driver created the recording file: the whole history is
    /// written to it, lines to come will follow, and the user is told.
    pub open spec fn recording_opened(self, path: Seq<char>) -> CommanderView {
        CommanderView {
            recording: true,
            effects: self.effects + record_all(self.history) + seq![
                text_message("Saved/streaming data into <"@ + path + ">"@),
            ],
            ..self
        }
    }
}

impl Commander {
    /// The ID that the next source gets, or `None` when all IDs are spent.
    pub fn next_source_id(&self) -> (r: Option<u32>)
        ensures
            self.deep_view().can_register() ==> r == Some(self.deep_view().next_id),
            !self.deep_view().can_register() ==> r is None,
    {
        if self.log_source_id == u32::MAX {
            None
        } else {
            Some(self.log_source_id)
        }
    }

    /// Connects a new stream source and puts it into the registry.
    fn open_stream(&mut self, source: LogSource)
        requires
            old(self).deep_view().can_register(),
            source.deep_view().link == LinkView::fresh(old(self).deep_view().next_id),
            source.deep_view().transport() is Some,
        ensures
            final(self).deep_view() == old(self).deep_view().open_stream(
                source.deep_view().detail,
            ),
            old(self).wf() ==> final(self).wf(),
    {
        let ghost before = self.deep_view();
        let ghost fresh = source.deep_view();
        let mut source = source;
        let id = source.id();
        let label = source.id_string();
        let transport = source.transport();
        let _ = source.connect();
        self.emit(Effect::StartSource(id, transport.unwrap()));
        self.log_sources.push(source);
        self.log_source_id = id + 1;
        assert(self.log_sources.deep_view() =~= before.sources.push(fresh.after_connect()));
        self.tell(UiCommand::AddNewSource(id, label));
        self.tell(UiCommand::SetConnectionSource(id, true));
        assert(self.deep_view().effects =~= before.effects + CommanderView::connect_effects(fresh)
            + seq![
            EffectView::Ui(UiCommandView::AddNewSource(id, fresh.label())),
            EffectView::Ui(UiCommandView::SetConnectionSource(id, true)),
        ]);
    }

    /// Stream file
    ///
    /// Registers the file at `path` as a new source and connects it.
    pub fn cmd_stream_file(&mut self, path: String) -> (r: Result<(), String>)
        ensures
            old(self).wf() ==> final(self).wf(),
            old(self).deep_view().can_register() ==> r is Ok && final(self).deep_view() == old(
                self,
            ).deep_view().open_stream(SourceDetail::File { file_name: path@ }),
            !old(self).deep_view().can_register() ==> final(self).deep_view() == old(
                self,
            ).deep_view() && (r matches Err(e) && e@ == "No source ID left"@),
    {
        match self.next_source_id() {
            None => Err(String::from_str("No source ID left")),
            Some(id) => {
                let source = FileSource::new(id, path);
                proof {
                    source.lemma_kind();
                }
                self.open_stream(LogSource::FileSource(source));
                Ok(())
            },
        }
    }

    /// Registers standard input as a new source and connects it.
    pub fn cmd_stream_stdin(&mut self) -> (r: Result<(), String>)
        ensures
            old(self).wf() ==> final(self).wf(),
            old(self).deep_view().can_register() ==> r is Ok && final(self).deep_view() == old(
                self,
            ).deep_view().open_stream(SourceDetail::Stdin),
            !old(self).deep_view().can_register() ==> final(self).deep_view() == old(
                self,
            ).deep_view() && (r matches Err(e) && e@ == "No source ID left"@),
    {
        match self.next_source_id() {
            None => Err(String::from_str("No source ID left")),
            Some(id) => {
                let source = StdinSource::new(id);
                proof {
                    source.lemma_kind();
                }
                self.open_stream(LogSource::StdinSource(source));
                Ok(())
            },
        }
    }

    /// Configure output log streaming
    ///
    /// Receive a status update and a path where to stream
    pub fn cmd_log_stream(&mut self, streaming: bool, path: String) -> (r: Result<(), String>)
        ensures
            final(self).deep_view() == old(self).deep_view().log_stream(streaming, path@),
            match old(self).deep_view().log_stream_error(streaming) {
                Some(text) => r matches Err(e) && e@ == text,
                None => r is Ok,
            },
    {
        if streaming {
            // Make sure we were not streaming already
            if self.stream_logs {
                return Err(String::from_str("Already streaming"));
            }
            self.emit(Effect::OpenRecording(path));
        } else {
            // Make sure we were not -not- streaming already
            if !self.stream_logs {
                return Err(String::from_str("Nothing to do, really"));
            }
            self.stream_logs = false;
            self.emit(Effect::CloseRecording);
            self.tell(UiCommand::TextMessage { message: String::from_str("Streaming stopped") });
        }
        Ok(())
    }

    /// The driver reports that it created the recording file at `path`.
    pub fn recording_opened(&mut self, path: String)
        ensures
            final(self).deep_view() == old(self).deep_view().recording_opened(path@),
    {
        let ghost before = self.deep_view();
        let mut i: usize = 0;
        while i < self.log_messages.len()
            invariant
                i <= self.log_messages.len(),
                self.deep_view() == (CommanderView {
                    effects: before.effects + record_all(before.history).take(i as int),
                    ..before
                }),
            decreases self.log_messages.len() - i,
        {
            let text = self.log_messages[i].message.clone();
            self.emit(Effect::Record(text));
            assert(record_all(before.history).take(i + 1) =~= record_all(before.history).take(
                i as int,
            ).push(EffectView::Record(before.history[i as int].message)));
            assert(before.effects + record_all(before.history).take(i + 1) =~= (before.effects
                + record_all(before.history).take(i as int)).push(
                EffectView::Record(before.history[i as int].message),
            ));
            i += 1;
        }
        assert(record_all(before.history).take(i as int) =~= record_all(before.history));
        self.stream_logs = true;
        let mut message = String::from_str("Saved/streaming data into <");
        message.append(path.as_str());
        message.append(">");
        self.tell(UiCommand::TextMessage { message });
        assert(self.deep_view().effects =~= before.recording_opened(path@).effects);
    }
}

} // verus!
