//! The registry of sources: lookup by ID, the issue of new IDs, and the
//! brokering of connect and disconnect.

use vstd::prelude::*;
use vstd::string::StringExecFns;

use crate::log_source::ConnectAction;
use crate::log_source::DisconnectAction;
use crate::log_source::LogSource;
use crate::log_source::LogSourceError;
use crate::log_source::LogSourceTrait;
use crate::log_source::SourceView;

use super::index_of_id;
use super::lemma_index_of_id;
use super::lemma_index_of_id_prefix;
use super::Commander;
use super::CommanderView;
use super::Effect;
use super::EffectView;
use super::UiCommand;
use super::UiCommandView;

verus! {

impl CommanderView {
    /// The state in which the source at position `at` is replaced.
    pub open spec fn with_source(self, at: int, source: SourceView) -> CommanderView {
        CommanderView { sources: self.sources.update(at, source), ..self }
    }

    /// What a request to connect queues for the driver: the start of the
    /// acquisition thread, after the stop of a leftover one.
    pub open spec fn connect_effects(source: SourceView) -> Seq<EffectView> {
        match source.connect_action() {
            ConnectAction::AlreadyConnected => Seq::empty(),
            ConnectAction::BackendMismatch => Seq::empty(),
            ConnectAction::Start => seq![
                EffectView::StartSource(source.id(), source.transport().unwrap()),
            ],
            ConnectAction::Restart => seq![
                EffectView::StopSource(source.id()),
                EffectView::StartSource(source.id(), source.transport().unwrap()),
            ],
        }
    }

    /// Connecting the source with the given ID. An unknown ID changes
    /// nothing. Otherwise the source is asked to connect, the driver is told
    /// what that takes, and the rendering layer is told whether the source
    /// now counts as connected.
    pub open spec fn connect(self, id: u32) -> CommanderView {
        match index_of_id(self.sources, id) {
            None => self,
            Some(at) => {
                let source = self.sources[at];
                let after = source.after_connect();
                CommanderView {
                    sources: self.sources.update(at, after),
                    effects: self.effects + CommanderView::connect_effects(source) + seq![
                        EffectView::Ui(
                            UiCommandView::SetConnectionSource(id, after.link.is_connected),
                        ),
                    ],
                    ..self
                }
            },
        }
    }

    /// What a request to disconnect queues for the driver.
    pub open spec fn disconnect_effects(source: SourceView) -> Seq<EffectView> {
        match source.disconnect_action() {
            DisconnectAction::NotConnected => Seq::empty(),
            DisconnectAction::Stop => seq![EffectView::StopSource(source.id())],
        }
    }

    /// Disconnecting the source with the given ID. An unknown ID changes
    /// nothing.
    pub open spec fn disconnect(self, id: u32) -> CommanderView {
        match index_of_id(self.sources, id) {
            None => self,
            Some(at) => {
                let source = self.sources[at];
                CommanderView {
                    sources: self.sources.update(at, source.after_disconnect()),
                    effects: self.effects + CommanderView::disconnect_effects(source) + seq![
                        EffectView::Ui(UiCommandView::SetConnectionSource(id, false)),
                    ],
                    ..self
                }
            },
        }
    }

    /// Why the target behind a source cannot be reset, if it cannot: the
    /// source is unknown, it has no target, or it is connected.
    pub open spec fn reset_error(self, id: u32) -> Option<Seq<char>> {
        match index_of_id(self.sources, id) {
            None => Some("Unable to find probe"@),
            Some(at) => if !self.sources[at].is_hardware() {
                Some(LogSourceError::NotImplemented.text())
            } else if self.sources[at].link.is_connected {
                Some("Target is connected, can't reset"@)
            } else {
                None
            },
        }
    }

    /// A request to reset the target behind a source: the driver is told
    /// to do so unless the request is refused.
    pub open spec fn reset(self, id: u32) -> CommanderView {
        if self.reset_error(id) is Some {
            self
        } else {
            self.emit(EffectView::ResetTarget(id))
        }
    }

    /// Why the target behind a source cannot be flashed anew, if it
    /// cannot: the source is unknown, or of a kind that has no flashing.
    pub open spec fn reflash_error(self, id: u32) -> Option<Seq<char>> {
        match index_of_id(self.sources, id) {
            None => Some("Unable to find probe"@),
            Some(at) => if !self.sources[at].can_reflash() {
                Some(LogSourceError::NotImplemented.text())
            } else {
                None
            },
        }
    }

    /// A request to flash the target behind a source anew.
    pub open spec fn reflash(self, id: u32) -> CommanderView {
        if self.reflash_error(id) is Some {
            self
        } else {
            self.emit(EffectView::ReflashTarget(id))
        }
    }

    /// Recording what the driver found of the thread of a source.
    pub open spec fn worker_reported(self, id: u32, present: bool) -> CommanderView {
        match index_of_id(self.sources, id) {
            None => self,
            Some(at) => self.with_source(at, self.sources[at].with_worker(present)),
        }
    }
}

impl Commander {
    /// Given an id return the log source
    ///
    /// Find the position of the log source with the given ID
    pub fn get_source_idx(&self, id: u32) -> (r: Option<usize>)
        ensures
            match r {
                Some(at) => index_of_id(self.deep_view().sources, id) == Some(at as int),
                None => index_of_id(self.deep_view().sources, id) is None,
            },
            r matches Some(at) ==> at < self.deep_view().sources.len(),
    {
        let mut i: usize = 0;
        let ghost all = self.log_sources.deep_view();
        proof {
            assert(all.take(0) =~= Seq::<SourceView>::empty());
        }
        while i < self.log_sources.len()
            invariant
                i <= self.log_sources.len(),
                all == self.log_sources.deep_view(),
                index_of_id(all.take(i as int), id) is None,
            decreases self.log_sources.len() - i,
        {
            proof {
                assert(all.take(i + 1).drop_last() =~= all.take(i as int));
                assert(all.take(i + 1).last() == self.log_sources[i as int].deep_view());
            }
            if self.log_sources[i].id_eq(id) {
                proof {
                    lemma_index_of_id_prefix(all, i + 1, id);
                }
                return Some(i);
            }
            i += 1;
        }
        assert(all.take(self.log_sources.len() as int) =~= all);
        None
    }

    /// Connect a log source
    ///
    /// Identify the internal log source and connect it
    pub fn connect_log_source(&mut self, id: u32) -> (r: Result<(), String>)
        ensures
            r is Ok,
            final(self).deep_view() == old(self).deep_view().connect(id),
            old(self).wf() ==> final(self).wf(),
    {
        if let Some(idx) = self.get_source_idx(id) {
            let ghost before = self.deep_view();
            let ghost source = before.sources[idx as int];
            let transport = self.log_sources[idx].transport();
            let action = self.log_sources[idx].connect();
            let connected = self.log_sources[idx].is_connected();
            assert(self.log_sources.deep_view() =~= before.sources.update(
                idx as int,
                source.after_connect(),
            ));
            match action {
                ConnectAction::Start => {
                    self.emit(Effect::StartSource(id, transport.unwrap()));
                },
                ConnectAction::Restart => {
                    self.emit(Effect::StopSource(id));
                    self.emit(Effect::StartSource(id, transport.unwrap()));
                },
                _ => {},
            }
            self.tell(UiCommand::SetConnectionSource(id, connected));
            proof {
                lemma_index_of_id(before.sources, id);
                assert(self.deep_view().effects =~= before.connect(id).effects);
            }
        }
        Ok(())
    }

    /// Disconnect a log source
    ///
    /// Identify the internal log source and disconnect it
    pub fn disconnect_log_source(&mut self, id: u32) -> (r: Result<(), String>)
        ensures
            r is Ok,
            final(self).deep_view() == old(self).deep_view().disconnect(id),
            old(self).wf() ==> final(self).wf(),
    {
        if let Some(idx) = self.get_source_idx(id) {
            let ghost before = self.deep_view();
            let ghost source = before.sources[idx as int];
            let action = self.log_sources[idx].disconnect();
            assert(self.log_sources.deep_view() =~= before.sources.update(
                idx as int,
                source.after_disconnect(),
            ));
            match action {
                DisconnectAction::Stop => {
                    self.emit(Effect::StopSource(id));
                },
                DisconnectAction::NotConnected => {},
            }
            self.tell(UiCommand::SetConnectionSource(id, false));
            proof {
                lemma_index_of_id(before.sources, id);
                assert(self.deep_view().effects =~= before.disconnect(id).effects);
            }
        }
        Ok(())
    }

    /// Reset target
    ///
    /// Asks the driver to reset the MCU behind the given source
    pub fn reset_log_source(&mut self, id: u32) -> (r: Result<(), String>)
        ensures
            final(self).deep_view() == old(self).deep_view().reset(id),
            match old(self).deep_view().reset_error(id) {
                Some(text) => r matches Err(e) && e@ == text,
                None => r is Ok,
            },
    {
        let idx = match self.get_source_idx(id) {
            Some(idx) => idx,
            None => {
                return Err(String::from_str("Unable to find probe"));
            },
        };
        if !self.log_sources[idx].is_hardware() {
            return Err(LogSourceError::NotImplemented.to_string());
        }
        if self.log_sources[idx].is_connected() {
            return Err(String::from_str("Target is connected, can't reset"));
        }
        self.emit(Effect::ResetTarget(id));
        Ok(())
    }

    /// Asks the driver to flash the MCU behind the given source anew
    pub fn reflash_log_source(&mut self, id: u32) -> (r: Result<(), String>)
        ensures
            final(self).deep_view() == old(self).deep_view().reflash(id),
            match old(self).deep_view().reflash_error(id) {
                Some(text) => r matches Err(e) && e@ == text,
                None => r is Ok,
            },
    {
        let idx = match self.get_source_idx(id) {
            Some(idx) => idx,
            None => {
                return Err(String::from_str("Unable to find probe"));
            },
        };
        match self.log_sources[idx].reflash() {
            Err(e) => Err(e.to_string()),
            Ok(()) => {
                self.emit(Effect::ReflashTarget(id));
                Ok(())
            },
        }
    }

    /// Records what the driver found: whether an acquisition thread exists
    /// for the source with the given ID.
    pub fn worker_reported(&mut self, id: u32, present: bool)
        ensures
            final(self).deep_view() == old(self).deep_view().worker_reported(id, present),
            old(self).wf() ==> final(self).wf(),
    {
        if let Some(idx) = self.get_source_idx(id) {
            let ghost before = self.deep_view();
            self.log_sources[idx].set_worker(present);
            assert(self.log_sources.deep_view() =~= before.sources.update(
                idx as int,
                before.sources[idx as int].with_worker(present),
            ));
        }
    }
}

} // verus!
