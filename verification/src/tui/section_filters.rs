//! The panel of the filters: the list as the dispatch loop reported it,
//! the selected filter, and the keys that move the selection or delete the
//! selected filter.

use vstd::prelude::*;

use crate::commander::clone_filters;
use crate::commander::Command;
use crate::commander::CommandView;
use crate::LogFilter;
use crate::LogFilterView;

use super::framed_lines;
use super::lines_framed;
use super::move_down;
use super::move_up;
use super::step_down;
use super::step_up;
use super::Key;
use super::LayoutSection;

verus! {

/// What the contracts say of a [`SectionFilters`].
pub struct SectionFiltersView {
    pub filters: Seq<LogFilterView>,
    /// The position of the selected filter
    pub selected: usize,
}

/// The commands that add the filters of a list, one after another.
pub open spec fn add_all(filters: Seq<LogFilterView>) -> Seq<CommandView> {
    filters.map_values(|f: LogFilterView| CommandView::AddFilter(f))
}

/// The commands that make the dispatch loop use this list of filters:
/// all filters are cleared, the filters of the list are added again one at
/// a time, and the list in force is asked for.
pub open spec fn replay(filters: Seq<LogFilterView>) -> Seq<CommandView> {
    seq![CommandView::ClearFilters] + add_all(filters) + seq![CommandView::GetFilters]
}

impl SectionFiltersView {
    /// The selection points at a filter.
    pub open spec fn can_delete(self) -> bool {
        self.selected < self.filters.len()
    }

    /// The panel after a key: `j` and `k`, or the arrows, move the
    /// selection, `Home` and `End` jump to the first and the last filter,
    /// `d` takes the selected filter out of the list and moves the selection
    /// one up.
    pub open spec fn after_key(self, key: Key) -> SectionFiltersView {
        let len = self.filters.len() as usize;
        match key {
            Key::Char('j') | Key::Down => SectionFiltersView {
                selected: step_down(self.selected, len),
                ..self
            },
            Key::Char('k') | Key::Up => SectionFiltersView {
                selected: step_up(self.selected),
                ..self
            },
            Key::Home => SectionFiltersView { selected: 0, ..self },
            Key::End => if len == 0 {
                self
            } else {
                SectionFiltersView { selected: (len - 1) as usize, ..self }
            },
            Key::Char('d') => if self.can_delete() {
                SectionFiltersView {
                    filters: self.filters.remove(self.selected as int),
                    selected: step_up(self.selected),
                }
            } else {
                self
            },
            _ => self,
        }
    }

    /// The commands that a key sends: after `d` took a filter out, the
    /// list that is left is replayed to the dispatch loop.
    pub open spec fn sent_by(self, key: Key) -> Seq<CommandView> {
        match key {
            Key::Char('d') => if self.can_delete() {
                replay(self.filters.remove(self.selected as int))
            } else {
                Seq::empty()
            },
            _ => Seq::empty(),
        }
    }
}

/// The panel of the filters.
pub struct SectionFilters {
    filters: Vec<LogFilter>,
    selected_filter: usize,
}

impl DeepView for SectionFilters {
    type V = SectionFiltersView;

    closed spec fn deep_view(&self) -> SectionFiltersView {
        SectionFiltersView { filters: self.filters.deep_view(), selected: self.selected_filter }
    }
}

impl SectionFilters {
    /// Makes a panel without filters.
    pub fn new() -> (r: SectionFilters)
        ensures
            r.deep_view() == (SectionFiltersView { filters: Seq::empty(), selected: 0 }),
    {
        let r = SectionFilters { filters: Vec::new(), selected_filter: 0 };
        assert(r.deep_view().filters =~= Seq::empty());
        r
    }

    /// Takes the list of filters that the dispatch loop reported.
    pub fn set_filters(&mut self, filters: Vec<LogFilter>)
        ensures
            final(self).deep_view() == (SectionFiltersView {
                filters: filters.deep_view(),
                ..old(self).deep_view()
            }),
    {
        self.filters = filters;
    }

    /// The filters shown.
    pub fn filters(&self) -> (r: &Vec<LogFilter>)
        ensures
            r.deep_view() == self.deep_view().filters,
    {
        &self.filters
    }

    /// The position of the selected filter.
    pub fn selected(&self) -> (r: usize)
        ensures
            r == self.deep_view().selected,
    {
        self.selected_filter
    }

    /// Makes the commands that replay the list of filters.
    fn replay(&self) -> (r: Vec<Command>)
        ensures
            r.deep_view() == replay(self.deep_view().filters),
    {
        let ghost list = self.filters.deep_view();
        let mut out: Vec<Command> = Vec::new();
        // Query a filter cleanup
        out.push(Command::ClearFilters);
        assert(out.deep_view() =~= seq![CommandView::ClearFilters] + add_all(list).take(0));
        // Send all of them again
        let mut i: usize = 0;
        while i < self.filters.len()
            invariant
                i <= self.filters.len(),
                list == self.filters.deep_view(),
                out.deep_view() == seq![CommandView::ClearFilters] + add_all(list).take(i as int),
            decreases self.filters.len() - i,
        {
            let ghost sent = out.deep_view();
            let filter = self.filters[i].clone();
            out.push(Command::AddFilter(filter));
            assert(out.deep_view() =~= sent.push(CommandView::AddFilter(list[i as int])));
            assert(sent.push(CommandView::AddFilter(list[i as int])) =~= seq![
                CommandView::ClearFilters,
            ] + add_all(list).take(i + 1));
            i += 1;
        }
        assert(add_all(list).take(i as int) =~= add_all(list));
        // Request list update
        let ghost sent = out.deep_view();
        out.push(Command::GetFilters);
        assert(out.deep_view() =~= sent.push(CommandView::GetFilters));
        assert(sent.push(CommandView::GetFilters) =~= replay(list));
        out
    }
}

impl LayoutSection for SectionFilters {
    fn process_key(&mut self, key: Key) -> (r: Vec<Command>)
        ensures
            final(self).deep_view() == old(self).deep_view().after_key(key),
            r.deep_view() == old(self).deep_view().sent_by(key),
    {
        let mut out: Vec<Command> = Vec::new();
        assert(out.deep_view() =~= Seq::empty());
        match key {
            Key::Char('j') | Key::Down => {
                self.selected_filter = move_down(self.selected_filter, self.filters.len());
            },
            Key::Char('k') | Key::Up => {
                self.selected_filter = move_up(self.selected_filter);
            },
            Key::Home => {
                self.selected_filter = 0;
            },
            Key::End => {
                if !self.filters.is_empty() {
                    self.selected_filter = self.filters.len() - 1;
                }
            },
            Key::Char('d') => {
                if self.selected_filter < self.filters.len() {
                    let ghost before = self.filters.deep_view();
                    // Remove selected filter
                    let _ = self.filters.remove(self.selected_filter);
                    assert(self.filters.deep_view() =~= before.remove(
                        self.selected_filter as int,
                    ));
                    out = self.replay();
                    // Update current index
                    self.selected_filter = move_up(self.selected_filter);
                }
            },
            _ => {},
        }
        out
    }

    fn min_lines(&self) -> (r: usize)
        ensures
            r == framed_lines(self.deep_view().filters.len() as usize),
    {
        lines_framed(self.filters.len())
    }
}

} // verus!
