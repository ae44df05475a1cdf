//! The panel of the log sources: what is known of each source for
//! display, which one is selected, and what the keys of the panel do.

use vstd::prelude::*;
use vstd::string::StringExecFns;

use crate::commander::Command;
use crate::commander::CommandView;

use super::framed_lines;
use super::lines_framed;
use super::move_down;
use super::move_up;
use super::step_down;
use super::step_up;
use super::Key;
use super::LayoutSection;

verus! {

/// What the panel shows of one source.
#[derive(Debug)]
pub struct SourceInformation {
    /// Whether it is currently connected or not
    connected: bool,
    /// Name to display about the source
    name: String,
    /// ID coming from Commander, use to identify it
    id: u32,
    /// Some sources have operations that take time, like flashing new
    /// code: how far the operation is, in percent, and the name of its stage
    progress: u16,
    progress_stage: String,
}

/// What the contracts say of a [`SourceInformation`].
pub struct SourceInformationView {
    pub connected: bool,
    pub name: Seq<char>,
    pub id: u32,
    pub progress: u16,
    pub progress_stage: Seq<char>,
}

impl DeepView for SourceInformation {
    type V = SourceInformationView;

    closed spec fn deep_view(&self) -> SourceInformationView {
        SourceInformationView {
            connected: self.connected,
            name: self.name@,
            id: self.id,
            progress: self.progress,
            progress_stage: self.progress_stage@,
        }
    }
}

impl SourceInformation {
    /// What is shown of a source that was just registered.
    pub fn new(id: u32, name: String) -> (r: SourceInformation)
        ensures
            r.deep_view() == (SourceInformationView {
                connected: false,
                name: name@,
                id,
                progress: 0,
                progress_stage: Seq::empty(),
            }),
    {
        SourceInformation { id, name, connected: false, progress: 0, progress_stage: String::new() }
    }

    /// Records whether the source is connected.
    pub fn set_connected(&mut self, connected: bool)
        ensures
            final(self).deep_view() == (SourceInformationView {
                connected,
                ..old(self).deep_view()
            }),
    {
        self.connected = connected;
    }

    /// Whether the source is connected.
    pub fn is_connected(&self) -> (r: bool)
        ensures
            r == self.deep_view().connected,
    {
        self.connected
    }

    /// The name to display.
    pub fn get_name(&self) -> (r: String)
        ensures
            r@ == self.deep_view().name,
    {
        self.name.clone()
    }

    /// Records how far an operation on the source is, and its stage.
    pub fn set_progress(&mut self, progress: u16, progress_stage: String)
        ensures
            final(self).deep_view() == (SourceInformationView {
                progress,
                progress_stage: progress_stage@,
                ..old(self).deep_view()
            }),
    {
        self.progress = progress;
        self.progress_stage = progress_stage;
    }

    /// The ID of the source.
    pub fn id(&self) -> (r: u32)
        ensures
            r == self.deep_view().id,
    {
        self.id
    }

    /// How far an operation on the source is, in percent.
    pub fn progress(&self) -> (r: u16)
        ensures
            r == self.deep_view().progress,
    {
        self.progress
    }

    /// The name of the stage that an operation on the source is in.
    pub fn progress_stage(&self) -> (r: String)
        ensures
            r@ == self.deep_view().progress_stage,
    {
        self.progress_stage.clone()
    }
}

/// The position of the first entry with the given ID, if there is one.
pub open spec fn entry_of(sources: Seq<SourceInformationView>, id: u32) -> Option<int>
    decreases sources.len(),
{
    if sources.len() == 0 {
        None
    } else {
        match entry_of(sources.drop_last(), id) {
            Some(i) => Some(i),
            None => if sources.last().id == id {
                Some(sources.len() - 1)
            } else {
                None
            },
        }
    }
}

/// `entry_of` finds an entry of the list, and one with the given ID.
pub proof fn law_entry_of_finds_the_first(sources: Seq<SourceInformationView>, id: u32)
    ensures
        entry_of(sources, id) matches Some(i) ==> 0 <= i < sources.len() && sources[i].id == id,
        entry_of(sources, id) is None ==> forall|j: int|
            0 <= j < sources.len() ==> (#[trigger] sources[j]).id != id,
    decreases sources.len(),
{
    if sources.len() > 0 {
        law_entry_of_finds_the_first(sources.drop_last(), id);
        assert(forall|j: int|
            0 <= j < sources.len() - 1 ==> sources.drop_last()[j] == #[trigger] sources[j]);
    }
}

/// An entry found among the first is the entry found.
proof fn lemma_entry_of_prefix(sources: Seq<SourceInformationView>, n: int, id: u32)
    requires
        0 <= n <= sources.len(),
        entry_of(sources.take(n), id) is Some,
    ensures
        entry_of(sources, id) == entry_of(sources.take(n), id),
    decreases sources.len() - n,
{
    if n < sources.len() {
        assert(sources.take(n + 1).drop_last() =~= sources.take(n));
        lemma_entry_of_prefix(sources, n + 1, id);
    } else {
        assert(sources.take(n) =~= sources);
    }
}

/// What the contracts say of a [`SectionSources`].
pub struct SectionSourcesView {
    /// The sources shown, in the order in which they were added
    pub sources: Seq<SourceInformationView>,
    /// The position of the selected source
    pub selected: usize,
}

/// What a key of the panel asks of the selected source.
#[derive(Clone, Copy, Debug, PartialEq, Eq, Structural)]
pub enum Request {
    Connect,
    Disconnect,
    Reset,
    Reflash,
}

impl Request {
    /// The command that asks this of the source with the given ID.
    pub open spec fn command(self, id: u32) -> CommandView {
        match self {
            Request::Connect => CommandView::ConnectLogSource(id),
            Request::Disconnect => CommandView::DisconnectLogSource(id),
            Request::Reset => CommandView::Reset(id),
            Request::Reflash => CommandView::Reflash(id),
        }
    }
}

impl SectionSourcesView {
    /// The panel with the first entry of the given ID replaced by `entry`;
    /// the panel itself where no entry has that ID.
    pub open spec fn with_entry(self, id: u32, entry: SourceInformationView) -> SectionSourcesView {
        match entry_of(self.sources, id) {
            Some(at) => SectionSourcesView { sources: self.sources.update(at, entry), ..self },
            None => self,
        }
    }

    /// The panel after the source of the given ID was reported connected
    /// or not.
    pub open spec fn set_connected(self, id: u32, connected: bool) -> SectionSourcesView {
        match entry_of(self.sources, id) {
            Some(at) => self.with_entry(
                id,
                SourceInformationView { connected, ..self.sources[at] },
            ),
            None => self,
        }
    }

    /// The panel after the source of the given ID reported progress.
    pub open spec fn set_progress(
        self,
        id: u32,
        progress: u16,
        progress_stage: Seq<char>,
    ) -> SectionSourcesView {
        match entry_of(self.sources, id) {
            Some(at) => self.with_entry(
                id,
                SourceInformationView { progress, progress_stage, ..self.sources[at] },
            ),
            None => self,
        }
    }

    /// The panel without the first entry of the given ID.
    pub open spec fn delete(self, id: u32) -> SectionSourcesView {
        match entry_of(self.sources, id) {
            Some(at) => SectionSourcesView { sources: self.sources.remove(at), ..self },
            None => self,
        }
    }

    /// The ID of the selected source, where the selection points at one.
    pub open spec fn selected_id(self) -> Option<u32> {
        if self.selected < self.sources.len() {
            Some(self.sources[self.selected as int].id)
        } else {
            None
        }
    }

    /// The panel after a key: `j` and `k`, or the arrows, move the
    /// selection, `Home` and `End` jump to the first and the last source.
    pub open spec fn after_key(self, key: Key) -> SectionSourcesView {
        let len = self.sources.len() as usize;
        match key {
            Key::Char('j') | Key::Down => SectionSourcesView {
                selected: step_down(self.selected, len),
                ..self
            },
            Key::Char('k') | Key::Up => SectionSourcesView {
                selected: step_up(self.selected),
                ..self
            },
            Key::Home => SectionSourcesView { selected: 0, ..self },
            Key::End => if len == 0 {
                self
            } else {
                SectionSourcesView { selected: (len - 1) as usize, ..self }
            },
            _ => self,
        }
    }

    /// The command that asks something of the selected source, or the
    /// complaint that there is no source at all. Nothing is sent where the
    /// selection points past the end of the list.
    pub open spec fn on_selected(self, request: Request) -> Seq<CommandView> {
        if self.sources.len() == 0 {
            seq![CommandView::PrintMessage("No probes detected"@)]
        } else {
            match self.selected_id() {
                Some(id) => seq![request.command(id)],
                None => Seq::empty(),
            }
        }
    }

    /// The commands that a key sends: `c` connects the selected source,
    /// `d` disconnects it, `R` resets and `l` flashes its target, `r` asks
    /// for a fresh look at the probes.
    pub open spec fn sent_by(self, key: Key) -> Seq<CommandView> {
        match key {
            Key::Char('c') => self.on_selected(Request::Connect),
            Key::Char('d') => self.on_selected(Request::Disconnect),
            Key::Char('r') => seq![CommandView::RefreshProbeInfo],
            Key::Char('R') => self.on_selected(Request::Reset),
            Key::Char('l') => self.on_selected(Request::Reflash),
            _ => Seq::empty(),
        }
    }
}

/// The panel of the log sources.
pub struct SectionSources {
    /// Store available sources
    sources: Vec<SourceInformation>,
    /// Currently selected source
    selected_source_idx: usize,
}

impl DeepView for SectionSources {
    type V = SectionSourcesView;

    closed spec fn deep_view(&self) -> SectionSourcesView {
        SectionSourcesView {
            sources: self.sources.deep_view(),
            selected: self.selected_source_idx,
        }
    }
}

impl SectionSources {
    /// Makes a panel without sources.
    pub fn new() -> (r: SectionSources)
        ensures
            r.deep_view() == (SectionSourcesView { sources: Seq::empty(), selected: 0 }),
    {
        let r = SectionSources { sources: Vec::new(), selected_source_idx: 0 };
        assert(r.deep_view().sources =~= Seq::empty());
        r
    }

    /// The sources shown.
    pub fn sources(&self) -> (r: &Vec<SourceInformation>)
        ensures
            r.deep_view() == self.deep_view().sources,
    {
        &self.sources
    }

    /// The position of the selected source.
    pub fn selected(&self) -> (r: usize)
        ensures
            r == self.deep_view().selected,
    {
        self.selected_source_idx
    }

    /// Records whether the source with the given ID is connected.
    pub fn set_connected(&mut self, id: u32, is_connected: bool)
        ensures
            final(self).deep_view() == old(self).deep_view().set_connected(id, is_connected),
    {
        if let Some(idx) = self.get_source_idx(id) {
            let ghost before = self.sources.deep_view();
            self.sources[idx].set_connected(is_connected);
            assert(self.sources.deep_view() =~= before.update(
                idx as int,
                SourceInformationView { connected: is_connected, ..before[idx as int] },
            ));
        }
    }

    /// Puts a new source at the end of the list.
    pub fn add_source(&mut self, id: u32, name: String)
        ensures
            final(self).deep_view() == (SectionSourcesView {
                sources: old(self).deep_view().sources.push(
                    SourceInformationView {
                        connected: false,
                        name: name@,
                        id,
                        progress: 0,
                        progress_stage: Seq::empty(),
                    },
                ),
                ..old(self).deep_view()
            }),
    {
        let ghost before = self.sources.deep_view();
        let entry = SourceInformation::new(id, name);
        self.sources.push(entry);
        assert(self.sources.deep_view() =~= before.push(entry.deep_view()));
    }

    /// Takes the source with the given ID out of the list.
    pub fn delete_source(&mut self, id: u32)
        ensures
            final(self).deep_view() == old(self).deep_view().delete(id),
    {
        if let Some(idx) = self.get_source_idx(id) {
            let ghost before = self.sources.deep_view();
            let _ = self.sources.remove(idx);
            assert(self.sources.deep_view() =~= before.remove(idx as int));
        }
    }

    /// Records the progress of an operation on the source with the given ID.
    pub fn source_set_progress(&mut self, id: u32, progress: u16, progress_stage: String)
        ensures
            final(self).deep_view() == old(self).deep_view().set_progress(
                id,
                progress,
                progress_stage@,
            ),
    {
        if let Some(idx) = self.get_source_idx(id) {
            let ghost before = self.sources.deep_view();
            self.sources[idx].set_progress(progress, progress_stage);
            assert(self.sources.deep_view() =~= before.update(
                idx as int,
                SourceInformationView {
                    progress,
                    progress_stage: progress_stage@,
                    ..before[idx as int]
                },
            ));
        }
    }

    /// The position of the first source with the given ID.
    pub fn get_source_idx(&self, id: u32) -> (r: Option<usize>)
        ensures
            match r {
                Some(at) => entry_of(self.deep_view().sources, id) == Some(at as int),
                None => entry_of(self.deep_view().sources, id) is None,
            },
            r matches Some(at) ==> at < self.deep_view().sources.len(),
    {
        let mut i: usize = 0;
        let ghost all = self.sources.deep_view();
        proof {
            assert(all.take(0) =~= Seq::<SourceInformationView>::empty());
        }
        while i < self.sources.len()
            invariant
                i <= self.sources.len(),
                all == self.sources.deep_view(),
                entry_of(all.take(i as int), id) is None,
            decreases self.sources.len() - i,
        {
            proof {
                assert(all.take(i + 1).drop_last() =~= all.take(i as int));
                assert(all.take(i + 1).last() == self.sources[i as int].deep_view());
            }
            if self.sources[i].id() == id {
                proof {
                    lemma_entry_of_prefix(all, i + 1, id);
                }
                return Some(i);
            }
            i += 1;
        }
        assert(all.take(self.sources.len() as int) =~= all);
        None
    }

    /// Makes the command that asks something of the selected source.
    pub fn on_selected(&self, request: Request) -> (r: Vec<Command>)
        ensures
            r.deep_view() == self.deep_view().on_selected(request),
    {
        let mut out: Vec<Command> = Vec::new();
        if self.sources.is_empty() {
            out.push(Command::PrintMessage(String::from_str("No probes detected")));
            assert(out.deep_view() =~= seq![CommandView::PrintMessage("No probes detected"@)]);
        } else if self.selected_source_idx < self.sources.len() {
            let id = self.sources[self.selected_source_idx].id();
            let command = match request {
                Request::Connect => Command::ConnectLogSource(id),
                Request::Disconnect => Command::DisconnectLogSource(id),
                Request::Reset => Command::Reset(id),
                Request::Reflash => Command::Reflash(id),
            };
            out.push(command);
            assert(out.deep_view() =~= seq![command.deep_view()]);
        } else {
            assert(out.deep_view() =~= Seq::empty());
        }
        out
    }
}

impl LayoutSection for SectionSources {
    fn process_key(&mut self, key: Key) -> (r: Vec<Command>)
        ensures
            final(self).deep_view() == old(self).deep_view().after_key(key),
            r.deep_view() == old(self).deep_view().sent_by(key),
    {
        let mut out: Vec<Command> = Vec::new();
        assert(out.deep_view() =~= Seq::empty());
        match key {
            Key::Char('j') | Key::Down => {
                self.selected_source_idx = move_down(self.selected_source_idx, self.sources.len());
            },
            Key::Char('k') | Key::Up => {
                self.selected_source_idx = move_up(self.selected_source_idx);
            },
            Key::Home => {
                self.selected_source_idx = 0;
            },
            Key::End => {
                if !self.sources.is_empty() {
                    self.selected_source_idx = self.sources.len() - 1;
                }
            },
            Key::Char('c') => {
                out = self.on_selected(Request::Connect);
            },
            Key::Char('d') => {
                out = self.on_selected(Request::Disconnect);
            },
            Key::Char('r') => {
                out.push(Command::RefreshProbeInfo);
                assert(out.deep_view() =~= seq![CommandView::RefreshProbeInfo]);
            },
            Key::Char('R') => {
                out = self.on_selected(Request::Reset);
            },
            Key::Char('l') => {
                out = self.on_selected(Request::Reflash);
            },
            _ => {},
        }
        out
    }

    fn min_lines(&self) -> (r: usize)
        ensures
            r == framed_lines(self.deep_view().sources.len() as usize),
    {
        lines_framed(self.sources.len())
    }
}

} // verus!
