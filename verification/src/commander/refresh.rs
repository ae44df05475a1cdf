//! Keeping the registry in step with the debug probes that are plugged in:
//! probes that are new and configured become sources, and hardware sources
//! whose probe is gone are disconnected and removed.

use vstd::prelude::*;
use vstd::string::StringExecFns;

use crate::configuration::target_for;
use crate::configuration::LogBackend;
use crate::configuration::LogBackendView;
use crate::configuration::Target;
use crate::configuration::TargetView;
use crate::log_source::DisconnectAction;
use crate::log_source::LinkView;
use crate::log_source::LogSource;
use crate::log_source::LogSourceTrait;
use crate::log_source::RttSource;
use crate::log_source::SourceDetail;
use crate::log_source::SourceView;
use crate::log_source::UartSource;

use super::rtt_block::address_view;
use super::rtt_block::elf_symbols;
use super::rtt_block::rtt_address;
use super::text_message;
use super::Commander;
use super::CommanderView;
use super::Effect;
use super::EffectView;
use super::LogBackendInformation;
use super::LogBackendInformationView;
use super::ProbeInfo;
use super::ProbeInfoView;
use super::TargetMcu;
use super::TargetMcuView;
use super::UiCommand;
use super::UiCommandView;

verus! {

/// A probe as the driver found it when it listed the probes, together
/// with the ELF image of the target configured for it, where the target
/// logs over RTT and the driver could read the image.
#[derive(Debug)]
pub struct ProbeSighting {
    pub probe: ProbeInfo,
    pub elf_image: Option<Vec<u8>>,
}

/// What the contracts say of a [`ProbeSighting`].
pub struct ProbeSightingView {
    pub probe: ProbeInfoView,
    pub elf_image: Option<Seq<u8>>,
}

impl DeepView for ProbeSighting {
    type V = ProbeSightingView;

    open spec fn deep_view(&self) -> ProbeSightingView {
        ProbeSightingView {
            probe: self.probe.deep_view(),
            elf_image: crate::reassembly::storage_view(self.elf_image),
        }
    }
}

/// A probe with this serial number is among the sightings.
pub open spec fn sighted(sightings: Seq<ProbeSightingView>, serial: Seq<char>) -> bool {
    exists|i: int|
        0 <= i < sightings.len() && (#[trigger] sightings[i]).probe.serial_number == Some(serial)
}

/// The source survives a refresh with these sightings: it is no hardware
/// source, or its probe is still there.
pub open spec fn survives(source: SourceView, sightings: Seq<ProbeSightingView>) -> bool {
    !source.is_hardware() || (source.serial() matches Some(serial) && sighted(sightings, serial))
}

/// The sources of `sources` that survive a refresh, in their order.
pub open spec fn survivors(sources: Seq<SourceView>, sightings: Seq<ProbeSightingView>) -> Seq<
    SourceView,
>
    decreases sources.len(),
{
    if sources.len() == 0 {
        Seq::empty()
    } else if survives(sources.last(), sightings) {
        survivors(sources.drop_last(), sightings).push(sources.last())
    } else {
        survivors(sources.drop_last(), sightings)
    }
}

/// What the removal of one vanished source queues: the stop of its
/// acquisition thread if it is connected, and the news for the rendering
/// layer.
pub open spec fn removal_effects(source: SourceView) -> Seq<EffectView> {
    CommanderView::disconnect_effects(source).push(
        EffectView::Ui(UiCommandView::RemoveSource(source.id())),
    )
}

/// What the removal of the vanished sources among `sources` queues.
pub open spec fn removals(sources: Seq<SourceView>, sightings: Seq<ProbeSightingView>) -> Seq<
    EffectView,
>
    decreases sources.len(),
{
    if sources.len() == 0 {
        Seq::empty()
    } else if survives(sources.last(), sightings) {
        removals(sources.drop_last(), sightings)
    } else {
        removals(sources.drop_last(), sightings) + removal_effects(sources.last())
    }
}

/// The log backend of a target that is being set up. A UART backend is
/// taken from the configuration; for RTT the address of the control block
/// is looked up in the ELF image, and the set-up fails where the image is
/// missing or does not hold the block.
pub open spec fn backend_of(target: TargetView, image: Option<Seq<u8>>) -> Result<
    LogBackendInformationView,
    Seq<char>,
> {
    match target.log_backend {
        LogBackendView::Uart { dev, baud } => Ok(LogBackendInformationView::Uart(dev, baud)),
        LogBackendView::Rtt { elf_path } => match image {
            None => Err("Unable to read the elf file of target "@ + target.name),
            Some(image) => match rtt_address(elf_symbols(image)) {
                Ok(address) => Ok(LogBackendInformationView::Rtt(address)),
                Err(text) => Err(text),
            },
        },
    }
}

/// The source that stands for a target behind a probe.
pub open spec fn hardware_source(
    id: u32,
    target: TargetView,
    probe: ProbeInfoView,
    backend: LogBackendInformationView,
) -> SourceView {
    let mcu = TargetMcuView {
        name: target.name,
        probe_info: probe,
        mcu: target.processor,
        backend,
    };
    SourceView {
        link: LinkView::fresh(id),
        detail: match backend {
            LogBackendInformationView::Rtt(_) => SourceDetail::Rtt {
                mcu,
                target_name: target.name,
            },
            LogBackendInformationView::Uart(_, _) => SourceDetail::Uart { mcu },
        },
    }
}

impl CommanderView {
    /// A hardware source with this serial number is registered.
    pub open spec fn knows_serial(self, serial: Seq<char>) -> bool {
        exists|i: int|
            0 <= i < self.sources.len() && (#[trigger] self.sources[i]).is_hardware()
                && self.sources[i].serial() == Some(serial)
    }

    /// The target that a probe is to be set up for: the probe has a serial
    /// number, a target is configured for that number, and no source stands
    /// for the probe yet. A probe without these is passed over.
    pub open spec fn target_of(self, probe: ProbeInfoView) -> Option<TargetView> {
        match (self.targets, probe.serial_number) {
            (Some(targets), Some(serial)) => match target_for(targets, serial) {
                Some(at) => if self.knows_serial(serial) {
                    None
                } else {
                    Some(targets[at])
                },
                None => None,
            },
            _ => None,
        }
    }

    /// One probe of the list is looked at. A probe that is new and
    /// configured becomes a source at the end of the registry, under the next
    /// ID, and the rendering layer is told; where its set-up fails, or no ID
    /// is left, the user is told why and nothing is registered.
    pub open spec fn see_probe(self, sighting: ProbeSightingView) -> CommanderView {
        match self.target_of(sighting.probe) {
            None => self,
            Some(target) => match backend_of(target, sighting.elf_image) {
                Err(text) => self.emit(text_message(text)),
                Ok(backend) => if !self.can_register() {
                    self.emit(text_message("No source ID left"@))
                } else {
                    let source = hardware_source(self.next_id, target, sighting.probe, backend);
                    CommanderView {
                        sources: self.sources.push(source),
                        next_id: (self.next_id + 1) as u32,
                        ..self
                    }.tell(UiCommandView::AddNewSource(source.id(), source.label()))
                },
            },
        }
    }

    /// The probes of the list are looked at one after another.
    pub open spec fn see_probes(self, sightings: Seq<ProbeSightingView>) -> CommanderView
        decreases sightings.len(),
    {
        if sightings.len() == 0 {
            self
        } else {
            self.see_probes(sightings.drop_last()).see_probe(sightings.last())
        }
    }

    /// The hardware sources whose probe is not among the sightings are
    /// disconnected and leave the registry.
    pub open spec fn prune(self, sightings: Seq<ProbeSightingView>) -> CommanderView {
        CommanderView {
            sources: survivors(self.sources, sightings),
            effects: self.effects + removals(self.sources, sightings),
            ..self
        }
    }

    /// The registry is brought in step with the probes that the driver
    /// found. Without a target configuration nothing happens but a note to
    /// the user.
    pub open spec fn refresh(self, sightings: Seq<ProbeSightingView>) -> CommanderView {
        if self.targets is None {
            self.emit(text_message("No .gadget.yaml file provided"@))
        } else {
            self.see_probes(sightings).prune(sightings)
        }
    }
}

/// The survivors of a registry in order are in order.
pub proof fn lemma_survivors_in_order(
    sources: Seq<SourceView>,
    sightings: Seq<ProbeSightingView>,
    bound: u32,
)
    requires
        forall|i: int| 0 <= i < sources.len() ==> (#[trigger] sources[i]).id() < bound,
        forall|i: int, j: int|
            0 <= i < j < sources.len() ==> (#[trigger] sources[i]).id() < (
            #[trigger] sources[j]).id(),
    ensures
        forall|i: int|
            0 <= i < survivors(sources, sightings).len() ==> (#[trigger] survivors(
                sources,
                sightings,
            )[i]).id() < bound,
        forall|i: int, j: int|
            0 <= i < j < survivors(sources, sightings).len() ==> (#[trigger] survivors(
                sources,
                sightings,
            )[i]).id() < (#[trigger] survivors(sources, sightings)[j]).id(),
        forall|i: int|
            0 <= i < survivors(sources, sightings).len() ==> sources.contains(
                #[trigger] survivors(sources, sightings)[i],
            ),
    decreases sources.len(),
{
    if sources.len() > 0 {
        let earlier = sources.drop_last();
        lemma_survivors_in_order(earlier, sightings, sources.last().id());
        lemma_survivors_in_order(earlier, sightings, bound);
        let kept = survivors(earlier, sightings);
        assert forall|i: int| 0 <= i < kept.len() implies sources.contains(#[trigger] kept[i]) by {
            let j = choose|j: int| 0 <= j < earlier.len() && earlier[j] == kept[i];
            assert(sources[j] == kept[i]);
        }
        if survives(sources.last(), sightings) {
            assert(sources[sources.len() - 1] == sources.last());
        }
    }
}

impl Commander {
    /// Tells whether a hardware source with this serial number is
    /// registered.
    pub fn knows_serial(&self, serial: &String) -> (r: bool)
        ensures
            r == self.deep_view().knows_serial(serial@),
    {
        let mut i: usize = 0;
        let ghost all = self.log_sources.deep_view();
        while i < self.log_sources.len()
            invariant
                i <= self.log_sources.len(),
                all == self.log_sources.deep_view(),
                forall|j: int|
                    0 <= j < i ==> !((#[trigger] all[j]).is_hardware() && all[j].serial() == Some(
                        serial@,
                    )),
            decreases self.log_sources.len() - i,
        {
            let source = &self.log_sources[i];
            assert(all[i as int] == source.deep_view());
            if source.is_hardware() {
                match source.serial() {
                    Some(known) => {
                        if *known == *serial {
                            return true;
                        }
                    },
                    None => {},
                }
            }
            i += 1;
        }
        false
    }

    /// The ELF file that a refresh needs the image of to set up this
    /// probe: the path configured for the probe's target, where the probe
    /// is new, configured, and its target logs over RTT.
    pub fn elf_path_for(&self, probe: &ProbeInfo) -> (r: Option<String>)
        ensures
            r.deep_view() == match self.deep_view().target_of(probe.deep_view()) {
                Some(target) => match target.log_backend {
                    LogBackendView::Rtt { elf_path } => Some(elf_path),
                    LogBackendView::Uart { dev, baud } => None,
                },
                None => None,
            },
    {
        match self.new_target(probe) {
            Some(target) => match target.log_backend {
                LogBackend::Rtt { elf_path } => Some(elf_path),
                LogBackend::Uart { dev: _, baud: _ } => None,
            },
            None => None,
        }
    }

    /// The target that a probe is to be set up for, if any.
    fn new_target(&self, probe: &ProbeInfo) -> (r: Option<Target>)
        ensures
            r.deep_view() == self.deep_view().target_of(probe.deep_view()),
    {
        let cfg = match &self.target_cfg {
            Some(cfg) => cfg,
            None => {
                return None;
            },
        };
        let serial = match &probe.serial_number {
            Some(serial) => serial,
            None => {
                return None;
            },
        };
        match cfg.find_target(serial) {
            Some(at) => {
                if self.knows_serial(serial) {
                    None
                } else {
                    Some(cfg.targets[at].clone())
                }
            },
            None => None,
        }
    }

    /// Sets up the log backend of a target.
    fn backend_of(target: &Target, image: &Option<Vec<u8>>) -> (r: Result<
        LogBackendInformation,
        String,
    >)
        ensures
            match backend_of(target.deep_view(), crate::reassembly::storage_view(*image)) {
                Ok(backend) => r matches Ok(b) && b.deep_view() == backend,
                Err(text) => r matches Err(e) && e@ == text,
            },
    {
        match &target.log_backend {
            LogBackend::Uart { dev, baud } => Ok(LogBackendInformation::Uart(dev.clone(), *baud)),
            LogBackend::Rtt { elf_path: _ } => match image {
                None => {
                    let mut text = String::from_str("Unable to read the elf file of target ");
                    text.append(target.name.as_str());
                    Err(text)
                },
                Some(image) => match Commander::rtt_block_from_elf(image) {
                    Ok(address) => Ok(LogBackendInformation::Rtt(address)),
                    Err(text) => Err(text),
                },
            },
        }
    }

    /// Looks at one probe of the list.
    fn see_probe(&mut self, sighting: &ProbeSighting)
        ensures
            old(self).wf() ==> final(self).wf(),
            final(self).deep_view() == old(self).deep_view().see_probe(sighting.deep_view()),
    {
        let target = match self.new_target(&sighting.probe) {
            Some(target) => target,
            None => {
                return ;
            },
        };
        let backend = match Commander::backend_of(&target, &sighting.elf_image) {
            Ok(backend) => backend,
            Err(text) => {
                self.tell(UiCommand::TextMessage { message: text });
                return ;
            },
        };
        let id = match self.next_source_id() {
            Some(id) => id,
            None => {
                let message = String::from_str("No source ID left");
                self.tell(UiCommand::TextMessage { message });
                return ;
            },
        };
        let ghost before = self.deep_view();
        let ghost source = hardware_source(
            id,
            target.deep_view(),
            sighting.probe.deep_view(),
            backend.deep_view(),
        );
        let is_rtt = match &backend {
            LogBackendInformation::Rtt(_) => true,
            LogBackendInformation::Uart(_, _) => false,
        };
        let new_target = TargetMcu {
            name: target.name.clone(),
            mcu: target.processor.clone(),
            probe_info: sighting.probe.clone(),
            backend,
        };
        // Also add the log source
        let new_source = if is_rtt {
            LogSource::RttSource(RttSource::new(id, new_target, target.name.clone()))
        } else {
            LogSource::UartSource(UartSource::new(id, new_target))
        };
        assert(new_source.deep_view() == source);
        let label = new_source.id_string();
        self.log_sources.push(new_source);
        self.log_source_id = id + 1;
        assert(self.log_sources.deep_view() =~= before.sources.push(source));
        // Let UI know of the change
        self.tell(UiCommand::AddNewSource(id, label));
    }

    /// Tells whether a probe with this serial number was sighted.
    fn sighted(sightings: &Vec<ProbeSighting>, serial: &String) -> (r: bool)
        ensures
            r == sighted(sightings.deep_view(), serial@),
    {
        let mut i: usize = 0;
        let ghost all = sightings.deep_view();
        while i < sightings.len()
            invariant
                i <= sightings.len(),
                all == sightings.deep_view(),
                forall|j: int|
                    0 <= j < i ==> (#[trigger] all[j]).probe.serial_number != Some(serial@),
            decreases sightings.len() - i,
        {
            assert(all[i as int] == sightings[i as int].deep_view());
            match &sightings[i].probe.serial_number {
                Some(seen) => {
                    if *seen == *serial {
                        return true;
                    }
                },
                None => {},
            }
            i += 1;
        }
        false
    }

    /// Tells whether a source survives a refresh with these sightings.
    fn survives(source: &LogSource, sightings: &Vec<ProbeSighting>) -> (r: bool)
        ensures
            r == survives(source.deep_view(), sightings.deep_view()),
    {
        if !source.is_hardware() {
            true
        } else {
            match source.serial() {
                Some(serial) => Commander::sighted(sightings, serial),
                None => false,
            }
        }
    }

    /// Disconnects and removes the hardware sources whose probe is gone.
    fn prune(&mut self, sightings: &Vec<ProbeSighting>)
        ensures
            old(self).wf() ==> final(self).wf(),
            final(self).deep_view() == old(self).deep_view().prune(sightings.deep_view()),
    {
        let ghost before = self.deep_view();
        let ghost seen = sightings.deep_view();
        let ghost mut done: int = 0;
        let mut i: usize = 0;
        proof {
            assert(before.sources.take(0) =~= Seq::<SourceView>::empty());
            assert(survivors(before.sources.take(0), seen) + before.sources.skip(0)
                =~= before.sources);
            assert(before.effects + removals(before.sources.take(0), seen) =~= before.effects);
        }
        while i < self.log_sources.len()
            invariant
                0 <= done <= before.sources.len(),
                seen == sightings.deep_view(),
                i == survivors(before.sources.take(done), seen).len(),
                self.log_sources.len() == i + before.sources.len() - done,
                self.deep_view() == (CommanderView {
                    sources: survivors(before.sources.take(done), seen) + before.sources.skip(
                        done,
                    ),
                    effects: before.effects + removals(before.sources.take(done), seen),
                    ..before
                }),
            decreases before.sources.len() - done,
        {
            let ghost now = self.deep_view();
            let ghost current = before.sources[done];
            proof {
                assert(now.sources[i as int] == current);
                assert(before.sources.take(done + 1).drop_last() =~= before.sources.take(done));
                assert(before.sources.take(done + 1).last() == current);
            }
            if Commander::survives(&self.log_sources[i], sightings) {
                proof {
                    assert(survivors(before.sources.take(done + 1), seen) + before.sources.skip(
                        done + 1,
                    ) =~= now.sources);
                }
                i += 1;
            } else {
                let mut gone = self.log_sources.remove(i);
                proof {
                    let kept = survivors(before.sources.take(done), seen);
                    assert(self.log_sources.deep_view() =~= now.sources.remove(i as int));
                    assert(now.sources.remove(i as int) =~= kept + before.sources.skip(done + 1));
                    assert(gone.deep_view() == current);
                }
                assert(self.log_sources.deep_view() =~= survivors(
                    before.sources.take(done + 1),
                    seen,
                ) + before.sources.skip(done + 1));
                let id = gone.id();
                match gone.disconnect() {
                    DisconnectAction::Stop => {
                        self.emit(Effect::StopSource(id));
                    },
                    DisconnectAction::NotConnected => {},
                }
                self.tell(UiCommand::RemoveSource(id));
                assert(self.deep_view().effects =~= before.effects + removals(
                    before.sources.take(done + 1),
                    seen,
                ));
            }
            proof {
                done = done + 1;
            }
        }
        proof {
            assert(before.sources.take(done) =~= before.sources);
            assert(survivors(before.sources, seen) + before.sources.skip(done) =~= survivors(
                before.sources,
                seen,
            ));
            if before.wf() {
                lemma_survivors_in_order(before.sources, seen, before.next_id);
            }
        }
    }

    /// Implementation for Command::RefreshProbeInfo
    ///
    /// Takes the probes that the driver found when it listed them and
    /// brings the registry in step: new probes that are configured become
    /// sources, hardware sources whose probe is gone are disconnected and
    /// removed.
    pub fn cmd_refresh_probe_info(&mut self, sightings: Vec<ProbeSighting>) -> (r: Result<
        (),
        String,
    >)
        ensures
            r is Ok,
            old(self).wf() ==> final(self).wf(),
            final(self).deep_view() == old(self).deep_view().refresh(sightings.deep_view()),
    {
        if self.target_cfg.is_none() {
            let message = String::from_str("No .gadget.yaml file provided");
            self.tell(UiCommand::TextMessage { message });
            return Ok(());
        }
        let ghost before = self.deep_view();
        let ghost seen = sightings.deep_view();
        // Add new probes
        let mut i: usize = 0;
        proof {
            assert(seen.take(0) =~= Seq::<ProbeSightingView>::empty());
        }
        while i < sightings.len()
            invariant
                i <= sightings.len(),
                seen == sightings.deep_view(),
                before.wf() ==> self.wf(),
                self.deep_view() == before.see_probes(seen.take(i as int)),
            decreases sightings.len() - i,
        {
            proof {
                assert(seen.take(i + 1).drop_last() =~= seen.take(i as int));
                assert(seen.take(i + 1).last() == sightings[i as int].deep_view());
            }
            self.see_probe(&sightings[i]);
            i += 1;
        }
        assert(seen.take(sightings.len() as int) =~= seen);
        // And remove the log sources that are not available anymore
        self.prune(&sightings);
        Ok(())
    }
}

} // verus!
