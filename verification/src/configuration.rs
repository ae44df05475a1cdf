//! Target and application configuration, as the rest of the library reads
//! it. Loading it from disk is left to the application.

use vstd::prelude::*;
use vstd::string::StringExecFns;

verus! {

/// How a target hands out its logs.
#[derive(Debug, PartialEq)]
pub enum LogBackend {
    Uart { dev: String, baud: u32 },
    Rtt { elf_path: String },
}

/// What the contracts say of a [`LogBackend`].
pub enum LogBackendView {
    Uart { dev: Seq<char>, baud: u32 },
    Rtt { elf_path: Seq<char> },
}

impl DeepView for LogBackend {
    type V = LogBackendView;

    open spec fn deep_view(&self) -> LogBackendView {
        match *self {
            LogBackend::Uart { dev, baud } => LogBackendView::Uart { dev: dev@, baud },
            LogBackend::Rtt { elf_path } => LogBackendView::Rtt { elf_path: elf_path@ },
        }
    }
}

impl Clone for LogBackend {
    fn clone(&self) -> (r: LogBackend)
        ensures
            r == *self,
    {
        match self {
            LogBackend::Uart { dev, baud } => LogBackend::Uart { dev: dev.clone(), baud: *baud },
            LogBackend::Rtt { elf_path } => LogBackend::Rtt { elf_path: elf_path.clone() },
        }
    }
}

/// One configured target: the probe it hangs on, by serial number, its
/// display name, its processor and its log backend.
#[derive(Debug, PartialEq)]
pub struct Target {
    pub name: String,
    pub processor: String,
    pub log_backend: LogBackend,
    pub probe_id: String,
}

/// What the contracts say of a [`Target`].
pub struct TargetView {
    pub name: Seq<char>,
    pub processor: Seq<char>,
    pub log_backend: LogBackendView,
    pub probe_id: Seq<char>,
}

impl DeepView for Target {
    type V = TargetView;

    open spec fn deep_view(&self) -> TargetView {
        TargetView {
            name: self.name@,
            processor: self.processor@,
            log_backend: self.log_backend.deep_view(),
            probe_id: self.probe_id@,
        }
    }
}

impl Clone for Target {
    fn clone(&self) -> (r: Target)
        ensures
            r == *self,
    {
        Target {
            name: self.name.clone(),
            processor: self.processor.clone(),
            log_backend: self.log_backend.clone(),
            probe_id: self.probe_id.clone(),
        }
    }
}

/// The targets this host knows.
#[derive(Debug, PartialEq)]
pub struct TargetConfiguration {
    pub targets: Vec<Target>,
}

impl DeepView for TargetConfiguration {
    type V = Seq<TargetView>;

    open spec fn deep_view(&self) -> Seq<TargetView> {
        self.targets.deep_view()
    }
}

/// The first target in `targets` that is configured for the probe with the
/// given serial number, if there is one.
pub open spec fn target_for(targets: Seq<TargetView>, serial: Seq<char>) -> Option<int>
    decreases targets.len(),
{
    if targets.len() == 0 {
        None
    } else {
        match target_for(targets.drop_last(), serial) {
            Some(i) => Some(i),
            None => if targets.last().probe_id == serial {
                Some(targets.len() - 1)
            } else {
                None
            },
        }
    }
}

/// `target_for` finds the first target with the serial number, and finds
/// one whenever there is one.
pub proof fn law_target_for_is_the_first(targets: Seq<TargetView>, serial: Seq<char>)
    ensures
        match target_for(targets, serial) {
            Some(i) => 0 <= i < targets.len() && targets[i].probe_id == serial && forall|j: int|
                0 <= j < i ==> (#[trigger] targets[j]).probe_id != serial,
            None => forall|j: int|
                0 <= j < targets.len() ==> (#[trigger] targets[j]).probe_id != serial,
        },
    decreases targets.len(),
{
    if targets.len() > 0 {
        law_target_for_is_the_first(targets.drop_last(), serial);
        assert(forall|j: int|
            0 <= j < targets.len() - 1 ==> targets.drop_last()[j] == #[trigger] targets[j]);
    }
}

impl TargetConfiguration {
    /// Looks up the target configured for a probe serial number.
    pub fn find_target(&self, serial: &String) -> (r: Option<usize>)
        ensures
            match r {
                Some(i) => target_for(self.deep_view(), serial@) == Some(i as int),
                None => target_for(self.deep_view(), serial@) is None,
            },
            r matches Some(i) ==> i < self.targets.len(),
    {
        let mut i: usize = 0;
        let ghost all = self.targets.deep_view();
        proof {
            assert(all.take(0) =~= Seq::<TargetView>::empty());
        }
        while i < self.targets.len()
            invariant
                i <= self.targets.len(),
                all == self.targets.deep_view(),
                target_for(all.take(i as int), serial@) is None,
            decreases self.targets.len() - i,
        {
            proof {
                assert(all.take(i + 1).drop_last() =~= all.take(i as int));
                assert(all.take(i + 1).last() == self.targets[i as int].deep_view());
            }
            if self.targets[i].probe_id == *serial {
                proof {
                    lemma_target_for_prefix(all, i + 1, serial@);
                }
                return Some(i);
            }
            i += 1;
        }
        assert(all.take(self.targets.len() as int) =~= all);
        None
    }
}

/// A target found in a prefix of the list is the target found in the list.
pub proof fn lemma_target_for_prefix(targets: Seq<TargetView>, n: int, serial: Seq<char>)
    requires
        0 <= n <= targets.len(),
        target_for(targets.take(n), serial) is Some,
    ensures
        target_for(targets, serial) == target_for(targets.take(n), serial),
    decreases targets.len() - n,
{
    if n < targets.len() {
        assert(targets.take(n + 1).drop_last() =~= targets.take(n));
        lemma_target_for_prefix(targets, n + 1, serial);
    } else {
        assert(targets.take(n) =~= targets);
    }
}

/// A shorthand of the command line and what it stands for.
#[derive(Debug, PartialEq)]
pub struct Alias {
    pub alias: String,
    pub expanded: String,
}

/// What the contracts say of an [`Alias`].
pub struct AliasView {
    pub alias: Seq<char>,
    pub expanded: Seq<char>,
}

impl DeepView for Alias {
    type V = AliasView;

    open spec fn deep_view(&self) -> AliasView {
        AliasView { alias: self.alias@, expanded: self.expanded@ }
    }
}

impl Clone for Alias {
    fn clone(&self) -> (r: Alias)
        ensures
            r == *self,
    {
        Alias { alias: self.alias.clone(), expanded: self.expanded.clone() }
    }
}

/// Settings of the application itself.
#[derive(Debug, PartialEq)]
pub struct ApplicationConfiguration {
    /// Alias list
    pub alias_list: Vec<Alias>,
}

impl DeepView for ApplicationConfiguration {
    type V = Seq<AliasView>;

    open spec fn deep_view(&self) -> Seq<AliasView> {
        self.alias_list.deep_view()
    }
}

/// Copies a list of aliases.
pub fn clone_aliases(list: &Vec<Alias>) -> (r: Vec<Alias>)
    ensures
        r@ == list@,
{
    let mut out: Vec<Alias> = Vec::new();
    let mut i: usize = 0;
    while i < list.len()
        invariant
            i <= list.len(),
            out@ == list@.take(i as int),
        decreases list.len() - i,
    {
        out.push(list[i].clone());
        assert(out@ =~= list@.take(i + 1));
        i += 1;
    }
    assert(list@.take(list.len() as int) =~= list@);
    out
}

/// Copies a list of targets.
pub fn clone_targets(list: &Vec<Target>) -> (r: Vec<Target>)
    ensures
        r@ == list@,
{
    let mut out: Vec<Target> = Vec::new();
    let mut i: usize = 0;
    while i < list.len()
        invariant
            i <= list.len(),
            out@ == list@.take(i as int),
        decreases list.len() - i,
    {
        out.push(list[i].clone());
        assert(out@ =~= list@.take(i + 1));
        i += 1;
    }
    assert(list@.take(list.len() as int) =~= list@);
    out
}

impl Clone for ApplicationConfiguration {
    fn clone(&self) -> (r: ApplicationConfiguration)
        ensures
            r.alias_list@ == self.alias_list@,
    {
        ApplicationConfiguration { alias_list: clone_aliases(&self.alias_list) }
    }
}

impl Clone for TargetConfiguration {
    fn clone(&self) -> (r: TargetConfiguration)
        ensures
            r.targets@ == self.targets@,
    {
        TargetConfiguration { targets: clone_targets(&self.targets) }
    }
}

/// The aliases of a fresh installation: shorthands for the filter command.
pub open spec fn default_aliases() -> Seq<AliasView> {
    seq![
        AliasView { alias: ":fy"@, expanded: ":filter h yellow"@ },
        AliasView { alias: ":fr"@, expanded: ":filter h red"@ },
        AliasView { alias: ":fe"@, expanded: ":filter e"@ },
        AliasView { alias: ":fi"@, expanded: ":filter i"@ },
        AliasView { alias: ":fh"@, expanded: ":filter h"@ },
    ]
}

impl ApplicationConfiguration {
    /// The configuration that is written out where none exists yet.
    pub fn generate_default() -> (r: ApplicationConfiguration)
        ensures
            r.deep_view() == default_aliases(),
    {
        let mut alias_list: Vec<Alias> = Vec::new();
        alias_list.push(
            Alias {
                alias: String::from_str(":fy"),
                expanded: String::from_str(":filter h yellow"),
            },
        );
        alias_list.push(
            Alias { alias: String::from_str(":fr"), expanded: String::from_str(":filter h red") },
        );
        alias_list.push(
            Alias { alias: String::from_str(":fe"), expanded: String::from_str(":filter e") },
        );
        alias_list.push(
            Alias { alias: String::from_str(":fi"), expanded: String::from_str(":filter i") },
        );
        alias_list.push(
            Alias { alias: String::from_str(":fh"), expanded: String::from_str(":filter h") },
        );
        let r = ApplicationConfiguration { alias_list };
        assert(r.deep_view() =~= default_aliases());
        r
    }
}

} // verus!
