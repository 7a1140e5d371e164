//! Composite profile updates through one session.

use vstd::pervasive::unreached;
use vstd::prelude::*;

use crate::device::DeviceId;
use crate::error::{profile_number, profile_text, viewed, ManagerError, ManagerErrorView};
use crate::manager::{not_found, DeviceManager};
use crate::operation::{
    BaselineSource, ProfileUpdate, ProfileUpdateBaseline, ProfileUpdateOutcome, UpdatePolicy,
    WriteOutcome,
};
use crate::operations::baseline::{
    missing_baseline, stored_baseline, stored_resource, BaselineChoice, DefaultImages,
};
use crate::operations::rate::{rate_begins, RateUpdate};
use crate::operations::update::{is_overlay, is_rebound};
use crate::protocol::{
    ButtonAssignment, ButtonsState, DpiState, PhysicalId, PollingRate, PreferencesState, ProfileId,
    TransportKind,
};
use crate::resources::buttons::{
    apply_slot_deltas, law_slots_are_distinct, rebound, ButtonSlotDelta,
};
use crate::resources::dpi::{
    is_merged_dpi, merge_dpi_delta, merge_refusal, stage_defect, DpiDelta,
};
use crate::resources::evidence::{
    buttons_of, buttons_on_record, dpi_of, dpi_on_record, is_put, is_reported, lemma_one_mouse,
    nothing_changes, only_mouse_changes, only_slot_changes, preferences_of, preferences_on_record,
    rate_of, starts_from,
};
use crate::resources::settings::{
    captured_preferences, merge_preferences_delta, merged_preferences, overlaid,
};
use crate::resources::state::{
    apply_write, finish_write, finished, outcome_of, resource_at, with_resource, written,
    ProfileResource,
};
use crate::session::{is_written_form, SessionReply, SessionRequest, SessionWrite, Step};
use crate::state::{profile_entry, DeviceState, StateFile, Timestamp};

verus! {

/// What is wrong with an update whatever the mouse is, if anything.
pub open spec fn update_refusal(update: ProfileUpdate) -> Option<ManagerErrorView> {
    if update.changes_nothing() {
        Some(ManagerErrorView::InvalidUpdate("profile update must provide at least one field"@))
    } else if update.polling_rate is Some && update.changes_non_rate() {
        Some(
            ManagerErrorView::InvalidUpdate(
                "polling rate cannot be combined with DPI/preferences/buttons; it must be set on its own"@,
            ),
        )
    } else if update.dpi is Some && update.dpi->0.names_nothing() {
        Some(ManagerErrorView::InvalidUpdate("DPI delta must provide at least one field"@))
    } else if update.preferences is Some && update.preferences->0.names_nothing() {
        Some(ManagerErrorView::InvalidUpdate("preferences delta must provide at least one field"@))
    } else {
        None
    }
}

/// Refuses an update that is wrong whatever the mouse is; to be asked before
/// the mouse is opened.
pub fn check_profile_update(update: &ProfileUpdate) -> (r: Result<(), ManagerError>)
    ensures
        viewed(r) == (match update_refusal(*update) {
            Some(refusal) => Err(refusal),
            None => Ok(()),
        }),
{
    if update.is_empty() {
        return Err(
            ManagerError::InvalidUpdate(
                "profile update must provide at least one field".to_owned(),
            ),
        );
    }
    if update.has_polling() && update.has_non_rate() {
        return Err(
            ManagerError::InvalidUpdate(
                "polling rate cannot be combined with DPI/preferences/buttons; it must be set on its own".to_owned(),
            ),
        );
    }
    if let Some(delta) = &update.dpi {
        if delta.is_empty() {
            return Err(
                ManagerError::InvalidUpdate("DPI delta must provide at least one field".to_owned()),
            );
        }
    }
    if let Some(delta) = update.preferences {
        if delta.is_empty() {
            return Err(
                ManagerError::InvalidUpdate(
                    "preferences delta must provide at least one field".to_owned(),
                ),
            );
        }
    }
    Ok(())
}

/// The held images target the profile.
pub open spec fn baseline_targets(baseline: ProfileUpdateBaseline, profile: ProfileId) -> bool {
    baseline.dpi.profile == profile && baseline.preferences.profile == profile
        && baseline.buttons.profile == profile
}

pub open spec fn wrong_baseline(profile: ProfileId) -> ManagerErrorView {
    ManagerErrorView::InvalidUpdate(
        "provided stored/profile copy does not target profile "@ + profile_number(profile),
    )
}

/// Refuses held images for another profile; to be asked before the mouse is
/// opened.
pub fn check_update_baseline(profile: ProfileId, baseline: &ProfileUpdateBaseline) -> (r: Result<
    (),
    ManagerError,
>)
    ensures
        viewed(r) == (if baseline_targets(*baseline, profile) {
            Ok(())
        } else {
            Err(wrong_baseline(profile))
        }),
{
    if baseline.dpi.profile != profile || baseline.preferences.profile != profile
        || baseline.buttons.profile != profile {
        let mut text = "provided stored/profile copy does not target profile ".to_owned();
        let number = profile_text(profile);
        text.append(number.as_str());
        return Err(ManagerError::InvalidUpdate(text));
    }
    Ok(())
}

/// Over BLE nothing can be read, so the record is all there is; over USB the
/// policy decides, and a composite update never starts from defaults there.
pub open spec fn sections_choice(transport: TransportKind, policy: UpdatePolicy) -> BaselineChoice {
    if transport is Ble {
        BaselineChoice::Stored { allow_explicit_defaults: policy.allow_explicit_defaults }
    } else if policy.baseline is Live {
        BaselineChoice::Live
    } else {
        BaselineChoice::Stored { allow_explicit_defaults: false }
    }
}

fn choose_sections_source(transport: TransportKind, policy: UpdatePolicy) -> (r: BaselineChoice)
    ensures
        r == sections_choice(transport, policy),
{
    match transport {
        TransportKind::Ble => BaselineChoice::Stored {
            allow_explicit_defaults: policy.allow_explicit_defaults,
        },
        TransportKind::Wired | TransportKind::Receiver => match policy.baseline {
            BaselineSource::Live => BaselineChoice::Live,
            BaselineSource::Stored => BaselineChoice::Stored { allow_explicit_defaults: false },
        },
    }
}

/// Where one section of the update starts from.
pub enum SectionSource<T> {
    /// The mouse is asked.
    Ask,
    Image(T),
    Refused(ManagerErrorView),
}

pub open spec fn section_source<T: ProfileResource>(
    choice: BaselineChoice,
    state: StateFile,
    device: Seq<char>,
    profile: ProfileId,
    held: Option<T>,
    default_image: T,
    name: Seq<char>,
) -> SectionSource<T> {
    match choice {
        BaselineChoice::Live => match held {
            Some(image) => SectionSource::Image(image),
            None => SectionSource::Ask,
        },
        BaselineChoice::Stored { allow_explicit_defaults } => match stored_baseline(
            stored_resource::<T>(state, device, profile),
            allow_explicit_defaults,
            default_image,
        ) {
            Some(image) => SectionSource::Image(image),
            None => SectionSource::Refused(missing_baseline(name, profile)),
        },
    }
}

/// How far a composite update has come.
#[derive(Clone, Copy, Debug, PartialEq, Eq)]
pub enum CompositeStage {
    ReadDpi,
    WriteDpi { sent: DpiState },
    ReadPreferences,
    WritePreferences { desired: PreferencesState },
    ReadButtons,
    WriteButtons { desired: ButtonsState },
}

/// What was sent for one section and what came of it.
pub type SectionWrite<T> = Option<(T, SessionWrite<T>)>;

/// An update of sensitivity, preferences and buttons under way. The sections
/// are written in this order, and all outcomes are recorded together.
#[derive(Debug, PartialEq, Eq)]
pub struct SectionsUpdate {
    pub device: DeviceId,
    pub profile: ProfileId,
    pub update: ProfileUpdate,
    pub policy: UpdatePolicy,
    pub transport: TransportKind,
    /// The token with which every sensitivity image is stamped.
    pub stamp: Option<PhysicalId>,
    /// Images that the caller has read already.
    pub held: Option<ProfileUpdateBaseline>,
    pub defaults: DefaultImages,
    pub dpi: SectionWrite<DpiState>,
    pub preferences: SectionWrite<PreferencesState>,
    pub stage: CompositeStage,
}

/// A device after the outcome of one section was recorded.
pub open spec fn section_recorded<T: ProfileResource>(
    device: DeviceState,
    profile: ProfileId,
    section: SectionWrite<T>,
    now: Timestamp,
) -> DeviceState {
    match section {
        None => device,
        Some((desired, write)) => with_resource::<T>(
            device,
            profile,
            written(resource_at::<T>(device, profile), desired, write, now),
        ),
    }
}

/// What the write of one section reports.
pub open spec fn section_outcome<T>(section: SectionWrite<T>) -> Option<WriteOutcome<T>> {
    match section {
        None => None,
        Some((desired, write)) => Some(outcome_of(desired, write)),
    }
}

fn record_section<T: ProfileResource>(
    device: &mut DeviceState,
    profile: ProfileId,
    section: SectionWrite<T>,
    now: Timestamp,
) -> (r: Option<WriteOutcome<T>>)
    ensures
        *final(device) == section_recorded(*old(device), profile, section, now),
        r == section_outcome(section),
{
    match section {
        None => None,
        Some((desired, write)) => {
            let mut profile_state = profile_entry(&device.profiles, profile);
            let mut resource = T::read_slot(&profile_state);
            let outcome = apply_write(&mut resource, desired, write, now);
            T::store_slot(&mut profile_state, resource);
            device.profiles.insert(profile, profile_state);
            Some(outcome)
        },
    }
}

/// What the outcome of one section amounts to.
pub open spec fn section_result<T>(
    outcome: Option<WriteOutcome<T>>,
    name: Seq<char>,
    profile: ProfileId,
) -> Result<Option<WriteOutcome<T>>, ManagerErrorView> {
    match outcome {
        None => Ok(None),
        Some(outcome) => match finished(outcome, name, profile) {
            Ok(outcome) => Ok(Some(outcome)),
            Err(error) => Err(error),
        },
    }
}

fn finish_section<T: Copy>(
    outcome: Option<WriteOutcome<T>>,
    name: &'static str,
    profile: ProfileId,
) -> (r: Result<Option<WriteOutcome<T>>, ManagerError>)
    ensures
        viewed(r) == section_result(outcome, name@, profile),
{
    match outcome {
        None => Ok(None),
        Some(outcome) => match finish_write(outcome, name, profile) {
            Ok(outcome) => Ok(Some(outcome)),
            Err(error) => Err(error),
        },
    }
}

/// What the outcomes of all sections amount to: the first mismatch, else all
/// of them.
pub open spec fn composite_result(
    dpi: SectionWrite<DpiState>,
    preferences: SectionWrite<PreferencesState>,
    buttons: SectionWrite<ButtonsState>,
    profile: ProfileId,
) -> Result<ProfileUpdateOutcome, ManagerErrorView> {
    match (
        section_result(section_outcome(dpi), "DPI"@, profile),
        section_result(section_outcome(preferences), "preferences"@, profile),
        section_result(section_outcome(buttons), "buttons"@, profile),
    ) {
        (Err(error), _, _) => Err(error),
        (_, Err(error), _) => Err(error),
        (_, _, Err(error)) => Err(error),
        (Ok(dpi), Ok(preferences), Ok(buttons)) => Ok(
            ProfileUpdateOutcome { dpi, preferences, buttons, polling_rate: None },
        ),
    }
}

/// A device after all outcomes were recorded. Buttons are recorded under the
/// profile that their table names.
pub open spec fn composite_recorded(
    device: DeviceState,
    profile: ProfileId,
    dpi: SectionWrite<DpiState>,
    preferences: SectionWrite<PreferencesState>,
    buttons: SectionWrite<ButtonsState>,
    now: Timestamp,
) -> DeviceState {
    section_recorded(
        section_recorded(
            section_recorded(device, profile, dpi, now),
            profile,
            preferences,
            now,
        ),
        match buttons {
            Some((desired, _)) => desired.profile,
            None => profile,
        },
        buttons,
        now,
    )
}

impl SectionsUpdate {
    pub open spec fn choice(self) -> BaselineChoice {
        sections_choice(self.transport, self.policy)
    }

    pub open spec fn dpi_source(self, state: StateFile) -> SectionSource<DpiState> {
        section_source::<DpiState>(
            self.choice(),
            state,
            self.device@,
            self.profile,
            match self.held {
                Some(held) => Some(held.dpi),
                None => None,
            },
            self.defaults.dpi,
            "DPI"@,
        )
    }

    pub open spec fn preferences_source(self, state: StateFile) -> SectionSource<PreferencesState> {
        section_source::<PreferencesState>(
            self.choice(),
            state,
            self.device@,
            self.profile,
            match self.held {
                Some(held) => Some(held.preferences),
                None => None,
            },
            captured_preferences(self.profile),
            "preferences"@,
        )
    }

    pub open spec fn buttons_source(self, state: StateFile) -> SectionSource<ButtonsState> {
        section_source::<ButtonsState>(
            self.choice(),
            state,
            self.device@,
            self.profile,
            match self.held {
                Some(held) => Some(held.buttons),
                None => None,
            },
            self.defaults.buttons,
            "buttons"@,
        )
    }

    /// The reply is one that the update waits for.
    pub open spec fn accepts(self, reply: SessionReply) -> bool {
        ||| reply is Failed
        ||| match self.stage {
            CompositeStage::ReadDpi => reply is Dpi,
            CompositeStage::WriteDpi { sent } => {
                &&& reply matches SessionReply::DpiWritten { desired, .. }
                &&& is_written_form(sent, self.stamp, desired)
            },
            CompositeStage::ReadPreferences => reply is Preferences,
            CompositeStage::WritePreferences { .. } => reply is PreferencesWritten,
            CompositeStage::ReadButtons => reply is Buttons,
            CompositeStage::WriteButtons { .. } => reply is ButtonsWritten,
        }
    }

    /// The step asks for something and waits for the reply in a stage.
    pub open spec fn at(self, request: SessionRequest, stage: CompositeStage) -> Step<
        SectionsUpdate,
        ProfileUpdateOutcome,
    > {
        Step::Ask { request, next: SectionsUpdate { stage, ..self } }
    }

    /// The step refuses the update.
    pub open spec fn refuses(
        step: Step<SectionsUpdate, ProfileUpdateOutcome>,
        refusal: ManagerErrorView,
    ) -> bool {
        step matches Step::Done(Err(error)) && error@ == refusal
    }

    /// The sensitivity image is laid over its baseline and sent.
    pub open spec fn sends_dpi(
        self,
        baseline: DpiState,
        delta: DpiDelta,
        step: Step<SectionsUpdate, ProfileUpdateOutcome>,
    ) -> bool {
        match stage_defect(
            delta.steps_over(baseline),
            overlaid(delta.active_stage, baseline.active_stage),
        ) {
            Some(source) => SectionsUpdate::refuses(step, merge_refusal(source)),
            None => {
                &&& step matches Step::Ask { request, next }
                &&& request matches SessionRequest::WriteDpi { state, stamp, verification }
                &&& is_merged_dpi(baseline, delta, state)
                &&& stamp == self.stamp
                &&& verification == self.policy.verification
                &&& next == (SectionsUpdate {
                    stage: CompositeStage::WriteDpi { sent: state },
                    ..self
                })
            },
        }
    }

    /// The preferences image is laid over its baseline and sent.
    pub open spec fn sends_preferences(
        self,
        baseline: PreferencesState,
        step: Step<SectionsUpdate, ProfileUpdateOutcome>,
    ) -> bool {
        let desired = merged_preferences(baseline, self.update.preferences->0);
        step == self.at(
            SessionRequest::WritePreferences {
                state: desired,
                verification: self.policy.verification,
            },
            CompositeStage::WritePreferences { desired },
        )
    }

    /// The button updates are applied to the baseline in order, and the table
    /// is sent.
    pub open spec fn sends_buttons(
        self,
        baseline: ButtonsState,
        step: Step<SectionsUpdate, ProfileUpdateOutcome>,
    ) -> bool {
        &&& step matches Step::Ask { request, next }
        &&& request matches SessionRequest::WriteButtons { state, verification }
        &&& is_rebound(baseline, self.update.buttons@, state)
        &&& verification == self.policy.verification
        &&& next == (SectionsUpdate {
            stage: CompositeStage::WriteButtons { desired: state },
            ..self
        })
    }

    /// All outcomes are recorded together and reported.
    pub open spec fn ends(
        self,
        before: StateFile,
        after: StateFile,
        buttons: SectionWrite<ButtonsState>,
        now: Timestamp,
        step: Step<SectionsUpdate, ProfileUpdateOutcome>,
    ) -> bool {
        &&& step matches Step::Done(outcome)
        &&& after.same_but_devices(before)
        &&& if before.devices@.dom().contains(self.device@) {
            &&& viewed(outcome) == composite_result(
                self.dpi,
                self.preferences,
                buttons,
                self.profile,
            )
            &&& after.devices@ == before.devices@.insert(
                self.device@,
                composite_recorded(
                    before.devices@[self.device@],
                    self.profile,
                    self.dpi,
                    self.preferences,
                    buttons,
                    now,
                ),
            )
        } else {
            &&& viewed(outcome) == Err::<ProfileUpdateOutcome, ManagerErrorView>(
                not_found(self.device@),
            )
            &&& after.devices@ == before.devices@
        }
    }

    /// The update goes on with the buttons, or ends where there are none.
    pub open spec fn buttons_next(
        self,
        before: StateFile,
        after: StateFile,
        now: Timestamp,
        step: Step<SectionsUpdate, ProfileUpdateOutcome>,
    ) -> bool {
        if self.update.buttons@.len() == 0 {
            self.ends(before, after, None, now, step)
        } else {
            &&& after == before
            &&& match self.buttons_source(before) {
                SectionSource::Ask => step == self.at(
                    SessionRequest::ReadButtons(self.profile),
                    CompositeStage::ReadButtons,
                ),
                SectionSource::Image(baseline) => self.sends_buttons(baseline, step),
                SectionSource::Refused(refusal) => SectionsUpdate::refuses(step, refusal),
            }
        }
    }

    /// The update goes on with the preferences, or with what comes after.
    pub open spec fn preferences_next(
        self,
        before: StateFile,
        after: StateFile,
        now: Timestamp,
        step: Step<SectionsUpdate, ProfileUpdateOutcome>,
    ) -> bool {
        if self.update.preferences is None {
            self.buttons_next(before, after, now, step)
        } else {
            &&& after == before
            &&& match self.preferences_source(before) {
                SectionSource::Ask => step == self.at(
                    SessionRequest::ReadPreferences(self.profile),
                    CompositeStage::ReadPreferences,
                ),
                SectionSource::Image(baseline) => self.sends_preferences(baseline, step),
                SectionSource::Refused(refusal) => SectionsUpdate::refuses(step, refusal),
            }
        }
    }

    /// The update begins with the sensitivity image, or with what comes after.
    pub open spec fn begins(
        self,
        before: StateFile,
        after: StateFile,
        now: Timestamp,
        step: Step<SectionsUpdate, ProfileUpdateOutcome>,
    ) -> bool {
        match self.update.dpi {
            None => self.preferences_next(before, after, now, step),
            Some(delta) => {
                &&& after == before
                &&& match self.dpi_source(before) {
                    SectionSource::Ask => step == self.at(
                        SessionRequest::ReadDpi(self.profile),
                        CompositeStage::ReadDpi,
                    ),
                    SectionSource::Image(baseline) => self.sends_dpi(baseline, delta, step),
                    SectionSource::Refused(refusal) => SectionsUpdate::refuses(step, refusal),
                }
            },
        }
    }

    /// How a reply takes the update on. A failure ends it with nothing
    /// recorded.
    pub open spec fn follows(
        self,
        before: StateFile,
        after: StateFile,
        reply: SessionReply,
        now: Timestamp,
        step: Step<SectionsUpdate, ProfileUpdateOutcome>,
    ) -> bool {
        match (self.stage, reply) {
            (_, SessionReply::Failed(error)) => {
                &&& step == Step::<SectionsUpdate, ProfileUpdateOutcome>::Done(Err(error))
                &&& after == before
            },
            (CompositeStage::ReadDpi, SessionReply::Dpi { state, .. }) => {
                &&& after == before
                &&& self.update.dpi is Some ==> self.sends_dpi(state, self.update.dpi->0, step)
            },
            (CompositeStage::WriteDpi { .. }, SessionReply::DpiWritten { desired, write, .. }) => (
            SectionsUpdate { dpi: Some((desired, write)), ..self }).preferences_next(
                before,
                after,
                now,
                step,
            ),
            (CompositeStage::ReadPreferences, SessionReply::Preferences(baseline)) => {
                &&& after == before
                &&& self.update.preferences is Some ==> self.sends_preferences(baseline, step)
            },
            (
                CompositeStage::WritePreferences { desired },
                SessionReply::PreferencesWritten(write),
            ) => (SectionsUpdate { preferences: Some((desired, write)), ..self }).buttons_next(
                before,
                after,
                now,
                step,
            ),
            (CompositeStage::ReadButtons, SessionReply::Buttons(baseline)) => {
                &&& after == before
                &&& self.sends_buttons(baseline, step)
            },
            (CompositeStage::WriteButtons { desired }, SessionReply::ButtonsWritten(write)) =>
                self.ends(before, after, Some((desired, write)), now, step),
            _ => true,
        }
    }

    fn ask(self, request: SessionRequest, stage: CompositeStage) -> (r: Step<
        SectionsUpdate,
        ProfileUpdateOutcome,
    >)
        ensures
            r == self.at(request, stage),
    {
        Step::Ask { request, next: SectionsUpdate { stage, ..self } }
    }

    fn send_dpi(self, baseline: DpiState) -> (r: Step<SectionsUpdate, ProfileUpdateOutcome>)
        requires
            self.update.dpi is Some,
        ensures
            self.sends_dpi(baseline, self.update.dpi->0, r),
    {
        let merged = match &self.update.dpi {
            Some(delta) => merge_dpi_delta(baseline, delta),
            None => unreached(),
        };
        match merged {
            Err(error) => Step::Done(Err(error)),
            Ok(desired) => {
                let request = SessionRequest::WriteDpi {
                    state: desired,
                    stamp: self.stamp,
                    verification: self.policy.verification,
                };
                self.ask(request, CompositeStage::WriteDpi { sent: desired })
            },
        }
    }

    fn send_preferences(self, baseline: PreferencesState) -> (r: Step<
        SectionsUpdate,
        ProfileUpdateOutcome,
    >)
        requires
            self.update.preferences is Some,
        ensures
            self.sends_preferences(baseline, r),
    {
        let desired = match self.update.preferences {
            Some(delta) => merge_preferences_delta(baseline, delta),
            None => unreached(),
        };
        let request = SessionRequest::WritePreferences {
            state: desired,
            verification: self.policy.verification,
        };
        self.ask(request, CompositeStage::WritePreferences { desired })
    }

    fn send_buttons(self, baseline: ButtonsState) -> (r: Step<SectionsUpdate, ProfileUpdateOutcome>)
        ensures
            self.sends_buttons(baseline, r),
    {
        let desired = apply_slot_deltas(baseline, &self.update.buttons);
        let request = SessionRequest::WriteButtons {
            state: desired,
            verification: self.policy.verification,
        };
        self.ask(request, CompositeStage::WriteButtons { desired })
    }

    fn finish(
        self,
        state: &mut StateFile,
        buttons: SectionWrite<ButtonsState>,
        now: Timestamp,
    ) -> (r: Step<SectionsUpdate, ProfileUpdateOutcome>)
        ensures
            self.ends(*old(state), *final(state), buttons, now, r),
    {
        let ghost before = state.devices@;
        match state.devices.remove(&self.device) {
            None => {
                assert(state.devices@ =~= before);
                Step::Done(Err(ManagerError::DeviceNotFound(self.device.clone())))
            },
            Some(mut device_state) => {
                let dpi = record_section(&mut device_state, self.profile, self.dpi, now);
                let preferences = record_section(
                    &mut device_state,
                    self.profile,
                    self.preferences,
                    now,
                );
                let buttons_profile = match buttons {
                    Some((desired, _)) => desired.profile,
                    None => self.profile,
                };
                let bound = record_section(&mut device_state, buttons_profile, buttons, now);
                let ghost recorded = device_state;
                state.devices.insert(self.device.clone(), device_state);
                assert(state.devices@ =~= before.insert(self.device@, recorded));
                let dpi = match finish_section(dpi, "DPI", self.profile) {
                    Ok(outcome) => outcome,
                    Err(error) => {
                        return Step::Done(Err(error));
                    },
                };
                let preferences = match finish_section(preferences, "preferences", self.profile) {
                    Ok(outcome) => outcome,
                    Err(error) => {
                        return Step::Done(Err(error));
                    },
                };
                let buttons = match finish_section(bound, "buttons", self.profile) {
                    Ok(outcome) => outcome,
                    Err(error) => {
                        return Step::Done(Err(error));
                    },
                };
                Step::Done(
                    Ok(ProfileUpdateOutcome { dpi, preferences, buttons, polling_rate: None }),
                )
            },
        }
    }

    fn go_on_with_buttons(self, manager: &mut DeviceManager, now: Timestamp) -> (r: Step<
        SectionsUpdate,
        ProfileUpdateOutcome,
    >)
        ensures
            final(manager).identity_cache == old(manager).identity_cache,
            self.buttons_next(old(manager).state, final(manager).state, now, r),
    {
        if self.update.buttons.len() == 0 {
            return self.finish(&mut manager.state, None, now);
        }
        match choose_sections_source(self.transport, self.policy) {
            BaselineChoice::Live => match self.held {
                Some(held) => self.send_buttons(held.buttons),
                None => {
                    let request = SessionRequest::ReadButtons(self.profile);
                    self.ask(request, CompositeStage::ReadButtons)
                },
            },
            BaselineChoice::Stored { allow_explicit_defaults } =>
                match manager.load_stored_buttons_baseline(
                &self.device,
                self.profile,
                allow_explicit_defaults,
                self.defaults.buttons,
            ) {
                Ok(baseline) => self.send_buttons(baseline),
                Err(error) => Step::Done(Err(error)),
            },
        }
    }

    fn go_on_with_preferences(self, manager: &mut DeviceManager, now: Timestamp) -> (r: Step<
        SectionsUpdate,
        ProfileUpdateOutcome,
    >)
        ensures
            final(manager).identity_cache == old(manager).identity_cache,
            self.preferences_next(old(manager).state, final(manager).state, now, r),
    {
        if self.update.preferences.is_none() {
            return self.go_on_with_buttons(manager, now);
        }
        match choose_sections_source(self.transport, self.policy) {
            BaselineChoice::Live => match self.held {
                Some(held) => self.send_preferences(held.preferences),
                None => {
                    let request = SessionRequest::ReadPreferences(self.profile);
                    self.ask(request, CompositeStage::ReadPreferences)
                },
            },
            BaselineChoice::Stored { allow_explicit_defaults } =>
                match manager.load_stored_preferences_baseline(
                &self.device,
                self.profile,
                allow_explicit_defaults,
            ) {
                Ok(baseline) => self.send_preferences(baseline),
                Err(error) => Step::Done(Err(error)),
            },
        }
    }

    fn begin(self, manager: &mut DeviceManager, now: Timestamp) -> (r: Step<
        SectionsUpdate,
        ProfileUpdateOutcome,
    >)
        ensures
            final(manager).identity_cache == old(manager).identity_cache,
            self.begins(old(manager).state, final(manager).state, now, r),
    {
        if self.update.dpi.is_none() {
            return self.go_on_with_preferences(manager, now);
        }
        match choose_sections_source(self.transport, self.policy) {
            BaselineChoice::Live => match self.held {
                Some(held) => self.send_dpi(held.dpi),
                None => {
                    let request = SessionRequest::ReadDpi(self.profile);
                    self.ask(request, CompositeStage::ReadDpi)
                },
            },
            BaselineChoice::Stored { allow_explicit_defaults } =>
                match manager.load_stored_dpi_baseline(
                &self.device,
                self.profile,
                allow_explicit_defaults,
                self.defaults.dpi,
            ) {
                Ok(baseline) => self.send_dpi(baseline),
                Err(error) => Step::Done(Err(error)),
            },
        }
    }

    /// The update waits only for what is part of it.
    pub open spec fn wf(self) -> bool {
        &&& self.stage is ReadDpi ==> self.update.dpi is Some
        &&& self.stage is ReadPreferences ==> self.update.preferences is Some
    }

    /// Goes on with the reply to the request that was handed out last.
    pub fn resume(self, manager: &mut DeviceManager, reply: SessionReply, now: Timestamp) -> (r: Step<
        SectionsUpdate,
        ProfileUpdateOutcome,
    >)
        requires
            self.wf(),
            self.accepts(reply),
        ensures
            final(manager).identity_cache == old(manager).identity_cache,
            self.follows(old(manager).state, final(manager).state, reply, now, r),
            r matches Step::Ask { next, .. } ==> next.wf(),
    {
        match (self.stage, reply) {
            (_, SessionReply::Failed(error)) => Step::Done(Err(error)),
            (CompositeStage::ReadDpi, SessionReply::Dpi { state, watermark: _ }) => self.send_dpi(
                state,
            ),
            (
                CompositeStage::WriteDpi { sent: _ },
                SessionReply::DpiWritten { desired, write, watermark: _ },
            ) => SectionsUpdate {
                dpi: Some((desired, write)),
                ..self
            }.go_on_with_preferences(manager, now),
            (CompositeStage::ReadPreferences, SessionReply::Preferences(baseline)) =>
                self.send_preferences(baseline),
            (
                CompositeStage::WritePreferences { desired },
                SessionReply::PreferencesWritten(write),
            ) => SectionsUpdate {
                preferences: Some((desired, write)),
                ..self
            }.go_on_with_buttons(manager, now),
            (CompositeStage::ReadButtons, SessionReply::Buttons(baseline)) => self.send_buttons(
                baseline,
            ),
            (CompositeStage::WriteButtons { desired }, SessionReply::ButtonsWritten(write)) =>
                self.finish(&mut manager.state, Some((desired, write)), now),
            _ => unreached(),
        }
    }
}

/// A composite update under way: a polling rate on its own, or the sections.
#[derive(Debug, PartialEq, Eq)]
pub enum ProfileUpdateRun {
    Rate(RateUpdate),
    Sections(SectionsUpdate),
}

/// The outcome of an update of the polling rate alone.
pub open spec fn rate_outcome(rate: WriteOutcome<PollingRate>) -> ProfileUpdateOutcome {
    ProfileUpdateOutcome { dpi: None, preferences: None, buttons: None, polling_rate: Some(rate) }
}

/// The step of a run read as a step of a polling-rate write.
pub open spec fn as_rate(step: Step<ProfileUpdateRun, ProfileUpdateOutcome>) -> Option<
    Step<RateUpdate, WriteOutcome<PollingRate>>,
> {
    match step {
        Step::Ask { request, next: ProfileUpdateRun::Rate(next) } => Some(
            Step::Ask { request, next },
        ),
        Step::Done(Ok(outcome)) => match outcome.polling_rate {
            Some(rate) => if outcome == rate_outcome(rate) {
                Some(Step::Done(Ok(rate)))
            } else {
                None
            },
            None => None,
        },
        Step::Done(Err(error)) => Some(Step::Done(Err(error))),
        _ => None,
    }
}

/// The step of a run read as a step of a sections update.
pub open spec fn as_sections(step: Step<ProfileUpdateRun, ProfileUpdateOutcome>) -> Option<
    Step<SectionsUpdate, ProfileUpdateOutcome>,
> {
    match step {
        Step::Ask { request, next: ProfileUpdateRun::Sections(next) } => Some(
            Step::Ask { request, next },
        ),
        Step::Done(outcome) => Some(Step::Done(outcome)),
        _ => None,
    }
}

fn run_rate(step: Step<RateUpdate, WriteOutcome<PollingRate>>) -> (r: Step<
    ProfileUpdateRun,
    ProfileUpdateOutcome,
>)
    ensures
        as_rate(r) == Some(step),
{
    match step {
        Step::Ask { request, next } => Step::Ask { request, next: ProfileUpdateRun::Rate(next) },
        Step::Done(Ok(rate)) => Step::Done(
            Ok(
                ProfileUpdateOutcome {
                    dpi: None,
                    preferences: None,
                    buttons: None,
                    polling_rate: Some(rate),
                },
            ),
        ),
        Step::Done(Err(error)) => Step::Done(Err(error)),
    }
}

fn run_sections(step: Step<SectionsUpdate, ProfileUpdateOutcome>) -> (r: Step<
    ProfileUpdateRun,
    ProfileUpdateOutcome,
>)
    ensures
        as_sections(r) == Some(step),
{
    match step {
        Step::Ask { request, next } => Step::Ask {
            request,
            next: ProfileUpdateRun::Sections(next),
        },
        Step::Done(outcome) => Step::Done(outcome),
    }
}

impl ProfileUpdateRun {
    pub open spec fn wf(self) -> bool {
        match self {
            ProfileUpdateRun::Rate(_) => true,
            ProfileUpdateRun::Sections(update) => update.wf(),
        }
    }

    /// The reply is one that the update waits for.
    pub open spec fn accepts(self, reply: SessionReply) -> bool {
        match self {
            ProfileUpdateRun::Rate(update) => reply.fits(update.request()),
            ProfileUpdateRun::Sections(update) => update.accepts(reply),
        }
    }

    /// How a reply takes the update on.
    pub open spec fn follows(
        self,
        before: StateFile,
        after: StateFile,
        reply: SessionReply,
        now: Timestamp,
        step: Step<ProfileUpdateRun, ProfileUpdateOutcome>,
    ) -> bool {
        match self {
            ProfileUpdateRun::Rate(update) => as_rate(step) matches Some(inner) && update.follows(
                before,
                after,
                reply,
                now,
                inner,
            ),
            ProfileUpdateRun::Sections(update) => as_sections(step) matches Some(inner)
                && update.follows(before, after, reply, now, inner),
        }
    }

    /// Goes on with the reply to the request that was handed out last.
    pub fn resume(self, manager: &mut DeviceManager, reply: SessionReply, now: Timestamp) -> (r: Step<
        ProfileUpdateRun,
        ProfileUpdateOutcome,
    >)
        requires
            self.wf(),
            self.accepts(reply),
        ensures
            final(manager).identity_cache == old(manager).identity_cache,
            self.follows(old(manager).state, final(manager).state, reply, now, r),
            r matches Step::Ask { next, .. } ==> next.wf(),
    {
        match self {
            ProfileUpdateRun::Rate(update) => run_rate(update.resume(manager, reply, now)),
            ProfileUpdateRun::Sections(update) => run_sections(update.resume(manager, reply, now)),
        }
    }
}

/// Where and how a composite update is applied.
#[derive(Clone, Copy, Debug, PartialEq, Eq)]
pub struct UpdateSetting {
    pub policy: UpdatePolicy,
    pub transport: TransportKind,
    pub defaults: DefaultImages,
}

/// How a composite update begins.
pub open spec fn update_begins(
    before: StateFile,
    after: StateFile,
    device: DeviceId,
    profile: ProfileId,
    update: ProfileUpdate,
    setting: UpdateSetting,
    held: Option<ProfileUpdateBaseline>,
    now: Timestamp,
    step: Step<ProfileUpdateRun, ProfileUpdateOutcome>,
) -> bool {
    match (update_refusal(update), update.polling_rate) {
        (Some(refusal), _) => {
            &&& step matches Step::Done(Err(error))
            &&& error@ == refusal
            &&& after == before
        },
        (None, _) if !before.devices@.dom().contains(device@) => {
            &&& step matches Step::Done(Err(error))
            &&& error@ == not_found(device@)
            &&& after == before
        },
        (None, Some(rate)) => {
            &&& as_rate(step) matches Some(inner)
            &&& rate_begins(
                before,
                device,
                profile,
                rate,
                setting.policy,
                setting.transport,
                true,
                inner,
            )
            &&& after == before
        },
        (None, None) => {
            &&& as_sections(step) matches Some(inner)
            &&& (SectionsUpdate {
                device,
                profile,
                update,
                policy: setting.policy,
                transport: setting.transport,
                stamp: before.devices@[device@].identity.physical_id,
                held,
                defaults: setting.defaults,
                dpi: None,
                preferences: None,
                stage: CompositeStage::ReadDpi,
            }).begins(before, after, now, inner)
        },
    }
}

impl DeviceManager {
    fn apply_profile_update_inner(
        &mut self,
        device: &DeviceId,
        profile: ProfileId,
        update: ProfileUpdate,
        setting: UpdateSetting,
        held: Option<ProfileUpdateBaseline>,
        now: Timestamp,
    ) -> (r: Step<ProfileUpdateRun, ProfileUpdateOutcome>)
        ensures
            final(self).identity_cache == old(self).identity_cache,
            update_begins(
                old(self).state,
                final(self).state,
                *device,
                profile,
                update,
                setting,
                held,
                now,
                r,
            ),
            r matches Step::Ask { next, .. } ==> next.wf(),
    {
        if let Err(error) = check_profile_update(&update) {
            return Step::Done(Err(error));
        }
        let stamp = match self.own_marker(device) {
            Ok(stamp) => stamp,
            Err(error) => {
                return Step::Done(Err(error));
            },
        };
        if let Some(rate) = update.polling_rate {
            return run_rate(
                self.begin_rate_update(
                    device,
                    profile,
                    rate,
                    setting.policy,
                    setting.transport,
                    true,
                ),
            );
        }
        run_sections(
            SectionsUpdate {
                device: device.clone(),
                profile,
                update,
                policy: setting.policy,
                transport: setting.transport,
                stamp,
                held,
                defaults: setting.defaults,
                dpi: None,
                preferences: None,
                stage: CompositeStage::ReadDpi,
            }.begin(self, now),
        )
    }

    /// Begins a composite profile update.
    pub fn apply_profile_update(
        &mut self,
        device: &DeviceId,
        profile: ProfileId,
        update: ProfileUpdate,
        setting: UpdateSetting,
        now: Timestamp,
    ) -> (r: Step<ProfileUpdateRun, ProfileUpdateOutcome>)
        ensures
            final(self).identity_cache == old(self).identity_cache,
            update_begins(
                old(self).state,
                final(self).state,
                *device,
                profile,
                update,
                setting,
                None,
                now,
                r,
            ),
            r matches Step::Ask { next, .. } ==> next.wf(),
    {
        self.apply_profile_update_inner(device, profile, update, setting, None, now)
    }

    /// Begins a composite profile update against the complete images from
    /// which a draft was made; they stand in for live reads.
    pub fn apply_profile_update_from_snapshot(
        &mut self,
        device: &DeviceId,
        profile: ProfileId,
        update: ProfileUpdate,
        setting: UpdateSetting,
        baseline: ProfileUpdateBaseline,
        now: Timestamp,
    ) -> (r: Step<ProfileUpdateRun, ProfileUpdateOutcome>)
        ensures
            final(self).identity_cache == old(self).identity_cache,
            if baseline_targets(baseline, profile) {
                update_begins(
                    old(self).state,
                    final(self).state,
                    *device,
                    profile,
                    update,
                    setting,
                    Some(baseline),
                    now,
                    r,
                )
            } else {
                &&& r matches Step::Done(Err(error))
                &&& error@ == wrong_baseline(profile)
                &&& final(self).state == old(self).state
            },
            r matches Step::Ask { next, .. } ==> next.wf(),
    {
        if let Err(error) = check_update_baseline(profile, &baseline) {
            return Step::Done(Err(error));
        }
        self.apply_profile_update_inner(device, profile, update, setting, Some(baseline), now)
    }
}

/// An update of the sections never writes the polling rate, records nothing
/// until its last write is over, and ends with nothing recorded when a request
/// fails.
pub proof fn law_sections_are_recorded_together(
    update: SectionsUpdate,
    before: StateFile,
    after: StateFile,
    reply: SessionReply,
    now: Timestamp,
    step: Step<SectionsUpdate, ProfileUpdateOutcome>,
)
    requires
        update.wf(),
        update.accepts(reply),
        update.follows(before, after, reply, now, step),
    ensures
        step matches Step::Ask { request, .. } ==> {
            &&& !(request is WritePollingRate)
            &&& !(request is WriteProfileMetadata)
            &&& after == before
        },
        reply is Failed ==> after == before && step is Done,
{
}

/// Whatever is sent as a sensitivity image of an update carries the token of
/// the mouse and keeps the profile and the tail of the image it started from.
pub proof fn law_update_keeps_the_stamp(
    update: SectionsUpdate,
    baseline: DpiState,
    delta: DpiDelta,
    step: Step<SectionsUpdate, ProfileUpdateOutcome>,
)
    requires
        update.sends_dpi(baseline, delta, step),
    ensures
        step matches Step::Ask { request, next } ==> {
            &&& request matches SessionRequest::WriteDpi { state, stamp, .. }
            &&& stamp == update.stamp
            &&& next.stamp == update.stamp
            &&& state.profile == baseline.profile
            &&& state.preserved_tail == baseline.preserved_tail
            &&& state.wf()
        },
{
}

/// A composite update stamps with the token that the stored mouse has when the
/// update begins: no foreign or missing marker reaches the wire.
pub proof fn law_updates_begin_with_the_own_marker(
    before: StateFile,
    after: StateFile,
    device: DeviceId,
    profile: ProfileId,
    update: ProfileUpdate,
    setting: UpdateSetting,
    held: Option<ProfileUpdateBaseline>,
    now: Timestamp,
    step: Step<ProfileUpdateRun, ProfileUpdateOutcome>,
)
    requires
        update_begins(before, after, device, profile, update, setting, held, now, step),
    ensures
        step matches Step::Ask { request, next } ==> {
            let own = before.devices@[device@].identity.physical_id;
            &&& before.devices@.dom().contains(device@)
            &&& request matches SessionRequest::WriteDpi { stamp, .. } ==> stamp == own
            &&& next matches ProfileUpdateRun::Sections(run) ==> run.stamp == own
        },
{
}

/// An update under way never changes the token that it stamps with, and every
/// sensitivity image that it sends is stamped with that token.
pub proof fn law_updates_keep_their_marker(
    update: SectionsUpdate,
    before: StateFile,
    after: StateFile,
    reply: SessionReply,
    now: Timestamp,
    step: Step<SectionsUpdate, ProfileUpdateOutcome>,
)
    requires
        update.wf(),
        update.accepts(reply),
        update.follows(before, after, reply, now, step),
    ensures
        step matches Step::Ask { request, next } ==> {
            &&& next.stamp == update.stamp
            &&& request matches SessionRequest::WriteDpi { stamp, .. } ==> stamp == update.stamp
        },
{
}

/// What an update records as wanted is what it sent, but for the marker.
pub proof fn law_recorded_image_is_the_sent_one(
    update: SectionsUpdate,
    before: StateFile,
    after: StateFile,
    reply: SessionReply,
    now: Timestamp,
    step: Step<SectionsUpdate, ProfileUpdateOutcome>,
)
    requires
        update.stage is WriteDpi,
        update.accepts(reply),
        update.follows(before, after, reply, now, step),
        !(reply is Failed),
    ensures
        step matches Step::Ask { next, .. } ==> {
            &&& next.dpi matches Some((desired, _))
            &&& desired == (DpiState {
                preserved_tail: desired.preserved_tail,
                ..update.stage->sent
            })
            &&& update.stamp is None ==> desired == update.stage->sent
        },
{
}

/// With held images and a live baseline nothing is read from the mouse before
/// the writes.
pub proof fn law_held_images_replace_reads(
    update: SectionsUpdate,
    before: StateFile,
    after: StateFile,
    now: Timestamp,
    step: Step<SectionsUpdate, ProfileUpdateOutcome>,
)
    requires
        update.held is Some,
        update.begins(before, after, now, step) || update.preferences_next(before, after, now, step)
            || update.buttons_next(before, after, now, step),
    ensures
        step matches Step::Ask { request, .. } ==> request is WriteDpi || request is WritePreferences
            || request is WriteButtons,
{
}

/// A polling rate is never combined with anything else, and every accepted
/// update changes something.
pub proof fn law_rate_stays_on_its_own(update: ProfileUpdate)
    requires
        update_refusal(update) is None,
    ensures
        update.polling_rate is Some <==> !update.changes_non_rate(),
        update.dpi matches Some(delta) ==> !delta.names_nothing(),
        update.preferences matches Some(delta) ==> !delta.names_nothing(),
{
}

/// Recording an update touches the one profile alone, as long as the button
/// table names that profile.
pub proof fn law_update_touches_one_profile(
    device: DeviceState,
    profile: ProfileId,
    dpi: SectionWrite<DpiState>,
    preferences: SectionWrite<PreferencesState>,
    buttons: SectionWrite<ButtonsState>,
    now: Timestamp,
    other: ProfileId,
)
    requires
        buttons matches Some((desired, _)) ==> desired.profile == profile,
    ensures
        ({
            let after = composite_recorded(device, profile, dpi, preferences, buttons, now);
            &&& other != profile ==> after.profiles.at(other) == device.profiles.at(other)
            &&& after.identity == device.identity
            &&& after.profile_metadata == device.profile_metadata
            &&& after.profile_names == device.profile_names
            &&& resource_at::<PollingRate>(after, profile) == resource_at::<PollingRate>(
                device,
                profile,
            )
        }),
{
}

/// What a step asks for or fails with; nothing where it succeeds.
pub open spec fn asked<M, T>(step: Step<M, T>) -> Option<Result<SessionRequest, ManagerErrorView>> {
    match step {
        Step::Ask { request, .. } => Some(Ok(request)),
        Step::Done(Err(error)) => Some(Err(error@)),
        Step::Done(Ok(_)) => None,
    }
}

/// The image has each part that the update names as the update says and every
/// other one as the baseline has it; its active step is one of its steps.
pub open spec fn is_dpi_overlay(baseline: DpiState, delta: DpiDelta, image: DpiState) -> bool {
    &&& image.profile == baseline.profile
    &&& image.preserved_tail == baseline.preserved_tail
    &&& image.stages.steps() == (if delta.stages is Some {
        delta.stages->0@
    } else {
        baseline.stages.steps()
    })
    &&& image.active_stage == (if delta.active_stage is Some {
        delta.active_stage->0
    } else {
        baseline.active_stage
    })
    &&& delta.sensor is None ==> image.sensor == baseline.sensor
    &&& delta.sensor matches Some(sensor) ==> {
        &&& image.sensor.lift_off_distance == (if sensor.lift_off_distance is Some {
            sensor.lift_off_distance->0
        } else {
            baseline.sensor.lift_off_distance
        })
        &&& image.sensor.ripple_control == (if sensor.ripple_control is Some {
            sensor.ripple_control->0
        } else {
            baseline.sensor.ripple_control
        })
        &&& image.sensor.angle_snap == (if sensor.angle_snap is Some {
            sensor.angle_snap->0
        } else {
            baseline.sensor.angle_snap
        })
        &&& image.sensor.motion_sync == (if sensor.motion_sync is Some {
            sensor.motion_sync->0
        } else {
            baseline.sensor.motion_sync
        })
    }
}

/// The sensitivity image is sent with the update laid over the baseline and
/// with the token of the mouse, unless the update leaves no step or too many,
/// or an active step that is not one of them.
pub open spec fn lays_dpi(
    run: SectionsUpdate,
    baseline: DpiState,
    turn: Option<Result<SessionRequest, ManagerErrorView>>,
) -> bool {
    let delta = run.update.dpi->0;
    let count = if delta.stages is Some {
        delta.stages->0@.len()
    } else {
        baseline.stages.steps().len()
    };
    let active = if delta.active_stage is Some {
        delta.active_stage->0
    } else {
        baseline.active_stage
    };
    if 1 <= active.value <= count && count <= 8 {
        &&& turn matches Some(Ok(SessionRequest::WriteDpi { state, stamp, verification }))
        &&& is_dpi_overlay(baseline, delta, state)
        &&& stamp == run.stamp
        &&& verification == run.policy.verification
    } else {
        turn matches Some(Err(error)) && error is Protocol
    }
}

/// The preferences are sent with the update laid over the baseline.
pub open spec fn lays_preferences(
    run: SectionsUpdate,
    baseline: PreferencesState,
    turn: Option<Result<SessionRequest, ManagerErrorView>>,
) -> bool {
    &&& turn matches Some(Ok(SessionRequest::WritePreferences { state, verification }))
    &&& is_overlay(baseline, run.update.preferences->0, state)
    &&& verification == run.policy.verification
}

/// Every slot is bound as the last update that names it says, and stays as it
/// was where none does.
pub open spec fn binds_all(
    before: Seq<ButtonAssignment>,
    deltas: Seq<ButtonSlotDelta>,
    after: Seq<ButtonAssignment>,
) -> bool {
    &&& after.len() == before.len()
    &&& forall|i: int|
        #![trigger deltas[i]]
        0 <= i < deltas.len() && !names_slot(
            deltas,
            i + 1,
            deltas[i].target().position() as int,
        ) ==> after[deltas[i].target().position() as int] == deltas[i].bound().triplet()
    &&& forall|at: int|
        #![trigger after[at]]
        0 <= at < before.len() && !names_slot(deltas, 0, at) ==> after[at] == before[at]
}

/// Some update from a place on names the slot.
pub open spec fn names_slot(deltas: Seq<ButtonSlotDelta>, from: int, at: int) -> bool {
    exists|j: int|
        #![trigger deltas[j]]
        from <= j < deltas.len() && deltas[j].target().position() == at
}

/// The button table is sent with every slot as the last update that names it
/// says, and as the baseline has it where none does.
pub open spec fn lays_buttons(
    run: SectionsUpdate,
    baseline: ButtonsState,
    turn: Option<Result<SessionRequest, ManagerErrorView>>,
) -> bool {
    &&& turn matches Some(Ok(SessionRequest::WriteButtons { state, verification }))
    &&& verification == run.policy.verification
    &&& state.profile == baseline.profile
    &&& binds_all(baseline.slots@, run.update.buttons@, state.slots@)
}

/// Live images are used over USB where the policy asks for them.
pub open spec fn uses_live(run: SectionsUpdate) -> bool {
    !(run.transport is Ble) && run.policy.baseline is Live
}

/// Defaults are authorized over BLE only, and there by the policy.
pub open spec fn uses_defaults(run: SectionsUpdate) -> bool {
    run.transport is Ble && run.policy.allow_explicit_defaults
}

/// The sensitivity image has its turn: it is read from the mouse, or laid over
/// the image that the caller holds or that is on record.
pub open spec fn dpi_turn(
    run: SectionsUpdate,
    state: StateFile,
    turn: Option<Result<SessionRequest, ManagerErrorView>>,
) -> bool {
    if uses_live(run) {
        match run.held {
            None => turn == Some(
                Ok::<SessionRequest, ManagerErrorView>(SessionRequest::ReadDpi(run.profile)),
            ),
            Some(held) => lays_dpi(run, held.dpi, turn),
        }
    } else {
        exists|image: Option<DpiState>| #[trigger]
            starts_from(
                dpi_on_record(state, run.device@, run.profile),
                uses_defaults(run),
                run.defaults.dpi,
                image,
            ) && match image {
                Some(baseline) => lays_dpi(run, baseline, turn),
                None => turn matches Some(
                    Err(ManagerErrorView::MissingBaseline { resource, profile }),
                ) && profile == Some(run.profile) && resource == "DPI"@,
            }
    }
}

/// The preferences have their turn.
pub open spec fn preferences_turn(
    run: SectionsUpdate,
    state: StateFile,
    turn: Option<Result<SessionRequest, ManagerErrorView>>,
) -> bool {
    if uses_live(run) {
        match run.held {
            None => turn == Some(
                Ok::<SessionRequest, ManagerErrorView>(
                    SessionRequest::ReadPreferences(run.profile),
                ),
            ),
            Some(held) => lays_preferences(run, held.preferences, turn),
        }
    } else {
        exists|image: Option<PreferencesState>| #[trigger]
            starts_from(
                preferences_on_record(state, run.device@, run.profile),
                uses_defaults(run),
                captured_preferences(run.profile),
                image,
            ) && match image {
                Some(baseline) => lays_preferences(run, baseline, turn),
                None => turn matches Some(
                    Err(ManagerErrorView::MissingBaseline { resource, profile }),
                ) && profile == Some(run.profile) && resource == "preferences"@,
            }
    }
}

/// The buttons have their turn.
pub open spec fn buttons_turn(
    run: SectionsUpdate,
    state: StateFile,
    turn: Option<Result<SessionRequest, ManagerErrorView>>,
) -> bool {
    if uses_live(run) {
        match run.held {
            None => turn == Some(
                Ok::<SessionRequest, ManagerErrorView>(SessionRequest::ReadButtons(run.profile)),
            ),
            Some(held) => lays_buttons(run, held.buttons, turn),
        }
    } else {
        exists|image: Option<ButtonsState>| #[trigger]
            starts_from(
                buttons_on_record(state, run.device@, run.profile),
                uses_defaults(run),
                run.defaults.buttons,
                image,
            ) && match image {
                Some(baseline) => lays_buttons(run, baseline, turn),
                None => turn matches Some(
                    Err(ManagerErrorView::MissingBaseline { resource, profile }),
                ) && profile == Some(run.profile) && resource == "buttons"@,
            }
    }
}

/// The run goes on as it was, and remembers what it asked for.
pub open spec fn keeps_running(
    run: SectionsUpdate,
    step: Step<SectionsUpdate, ProfileUpdateOutcome>,
) -> bool {
    step matches Step::Ask { request, next } ==> {
        &&& next == (SectionsUpdate { stage: next.stage, ..run })
        &&& match request {
            SessionRequest::ReadDpi(_) => next.stage is ReadDpi,
            SessionRequest::WriteDpi { state, .. } => next.stage == (CompositeStage::WriteDpi {
                sent: state,
            }),
            SessionRequest::ReadPreferences(_) => next.stage is ReadPreferences,
            SessionRequest::WritePreferences { state, .. } => next.stage
                == (CompositeStage::WritePreferences { desired: state }),
            SessionRequest::ReadButtons(_) => next.stage is ReadButtons,
            SessionRequest::WriteButtons { state, .. } => next.stage
                == (CompositeStage::WriteButtons { desired: state }),
            _ => false,
        }
    }
}

proof fn lemma_lays_dpi(
    run: SectionsUpdate,
    baseline: DpiState,
    step: Step<SectionsUpdate, ProfileUpdateOutcome>,
)
    requires
        run.update.dpi is Some,
        run.sends_dpi(baseline, run.update.dpi->0, step),
    ensures
        lays_dpi(run, baseline, asked(step)),
        keeps_running(run, step),
{
    if let Step::Ask { request, next } = step {
        if let SessionRequest::WriteDpi { state, .. } = request {
            crate::resources::dpi::law_named_dpi_fields_are_applied(
                baseline,
                run.update.dpi->0,
                state,
            );
        }
    }
}

proof fn lemma_lays_buttons(
    run: SectionsUpdate,
    baseline: ButtonsState,
    step: Step<SectionsUpdate, ProfileUpdateOutcome>,
)
    requires
        run.sends_buttons(baseline, step),
    ensures
        lays_buttons(run, baseline, asked(step)),
        keeps_running(run, step),
{
    lemma_binds_all(baseline.slots@, run.update.buttons@);
}

proof fn lemma_binds_all(slots: Seq<ButtonAssignment>, deltas: Seq<ButtonSlotDelta>)
    requires
        slots.len() == 18,
    ensures
        binds_all(slots, deltas, rebound(slots, deltas)),
    decreases deltas.len(),
{
    if deltas.len() > 0 {
        let front = deltas.drop_last();
        let last = deltas.last();
        let n = deltas.len() - 1;
        lemma_binds_all(slots, front);
        law_slots_are_distinct(last.target(), last.target());
        let at = last.target().position() as int;
        let held = rebound(slots, front);
        let after = rebound(slots, deltas);
        assert(deltas[n] == last);
        assert(after == held.update(at, last.bound().triplet()));
        assert forall|i: int|
            #![trigger deltas[i]]
            0 <= i < deltas.len() && !names_slot(
                deltas,
                i + 1,
                deltas[i].target().position() as int,
            ) implies after[deltas[i].target().position() as int] == deltas[i].bound().triplet() by {
            if i < n {
                let place = deltas[i].target().position() as int;
                assert(front[i] == deltas[i]);
                assert(deltas[n].target().position() != place);
                if names_slot(front, i + 1, place) {
                    let j = choose|j: int|
                        #![trigger front[j]]
                        i + 1 <= j < front.len() && front[j].target().position() == place;
                    assert(deltas[j] == front[j]);
                }
            }
        }
        assert forall|place: int|
            #![trigger after[place]]
            0 <= place < slots.len() && !names_slot(deltas, 0, place) implies after[place]
            == slots[place] by {
            assert(deltas[n].target().position() != place);
            assert(held[place] == after[place]);
            if names_slot(front, 0, place) {
                let j = choose|j: int|
                    #![trigger front[j]]
                    0 <= j < front.len() && front[j].target().position() == place;
                assert(deltas[j] == front[j]);
            }
        }
    }
}

proof fn lemma_buttons_turn(
    run: SectionsUpdate,
    before: StateFile,
    after: StateFile,
    now: Timestamp,
    step: Step<SectionsUpdate, ProfileUpdateOutcome>,
)
    requires
        run.update.buttons@.len() > 0,
        run.buttons_next(before, after, now, step),
    ensures
        buttons_turn(run, before, asked(step)),
        keeps_running(run, step),
{
    let record = buttons_on_record(before, run.device@, run.profile);
    assert(record == stored_resource::<ButtonsState>(before, run.device@, run.profile));
    let image = stored_baseline(record, uses_defaults(run), run.defaults.buttons);
    assert(starts_from(record, uses_defaults(run), run.defaults.buttons, image));
    match run.buttons_source(before) {
        SectionSource::Image(baseline) => {
            lemma_lays_buttons(run, baseline, step);
        },
        _ => {},
    }
}

proof fn lemma_preferences_turn(
    run: SectionsUpdate,
    before: StateFile,
    after: StateFile,
    now: Timestamp,
    step: Step<SectionsUpdate, ProfileUpdateOutcome>,
)
    requires
        run.update.preferences is Some,
        run.preferences_next(before, after, now, step),
    ensures
        preferences_turn(run, before, asked(step)),
        keeps_running(run, step),
{
    let record = preferences_on_record(before, run.device@, run.profile);
    assert(record == stored_resource::<PreferencesState>(before, run.device@, run.profile));
    let image = stored_baseline(record, uses_defaults(run), captured_preferences(run.profile));
    assert(starts_from(record, uses_defaults(run), captured_preferences(run.profile), image));
}

proof fn lemma_dpi_turn(
    run: SectionsUpdate,
    before: StateFile,
    after: StateFile,
    now: Timestamp,
    step: Step<SectionsUpdate, ProfileUpdateOutcome>,
)
    requires
        run.update.dpi is Some,
        run.begins(before, after, now, step),
    ensures
        dpi_turn(run, before, asked(step)),
        keeps_running(run, step),
{
    let record = dpi_on_record(before, run.device@, run.profile);
    assert(record == stored_resource::<DpiState>(before, run.device@, run.profile));
    let image = stored_baseline(record, uses_defaults(run), run.defaults.dpi);
    assert(starts_from(record, uses_defaults(run), run.defaults.dpi, image));
    match run.dpi_source(before) {
        SectionSource::Image(baseline) => {
            lemma_lays_dpi(run, baseline, step);
        },
        _ => {},
    }
}

/// An update is accepted exactly where it changes something, does not combine
/// the rate with a section, and names a field in each partial image it holds.
pub proof fn law_updates_are_checked_first(update: &ProfileUpdate, r: Result<(), ManagerError>)
    requires
        call_ensures(check_profile_update, (update,), r),
    ensures
        ({
            let sections = update.dpi is Some || update.preferences is Some || update.buttons@.len()
                > 0;
            &&& r is Ok <==> {
                &&& sections != (update.polling_rate is Some)
                &&& update.dpi matches Some(delta) ==> delta.stages is Some || delta.active_stage
                    is Some || (delta.sensor matches Some(change) && (change.lift_off_distance
                    is Some || change.ripple_control is Some || change.angle_snap is Some
                    || change.motion_sync is Some))
                &&& update.preferences matches Some(delta) ==> delta.light_mode is Some
                    || delta.configuration is Some || delta.deep_sleep is Some || delta.host_color
                    is Some || delta.sleep_timer is Some || delta.debounce is Some
            }
            &&& r is Err ==> (viewed(r) matches Err(error) && error is InvalidUpdate)
        }),
{
}

/// Held images are accepted exactly where all three are for the profile.
pub proof fn law_held_images_are_for_the_profile(
    profile: ProfileId,
    baseline: &ProfileUpdateBaseline,
    r: Result<(), ManagerError>,
)
    requires
        call_ensures(check_update_baseline, (profile, baseline), r),
    ensures
        r is Ok <==> baseline.dpi.profile == profile && baseline.preferences.profile == profile
            && baseline.buttons.profile == profile,
        r is Err ==> (viewed(r) matches Err(error) && error is InvalidUpdate),
{
}

/// An update of sections begins with the sensitivity image where it has one,
/// else with the preferences, else with the buttons, and it changes nothing on
/// record. It stamps with the token of the mouse.
pub proof fn law_updates_begin_with_their_first_section(
    manager: &mut DeviceManager,
    device: &DeviceId,
    profile: ProfileId,
    update: ProfileUpdate,
    setting: UpdateSetting,
    held: ProfileUpdateBaseline,
    from_held: bool,
    now: Timestamp,
    checked: Result<(), ManagerError>,
    r: Step<ProfileUpdateRun, ProfileUpdateOutcome>,
)
    requires
        call_ensures(check_profile_update, (&update,), checked),
        checked is Ok,
        update.polling_rate is None,
        !from_held ==> call_ensures(
            DeviceManager::apply_profile_update,
            (manager, device, profile, update, setting, now),
            r,
        ),
        from_held ==> call_ensures(
            DeviceManager::apply_profile_update_from_snapshot,
            (manager, device, profile, update, setting, held, now),
            r,
        ),
        from_held ==> held.dpi.profile == profile && held.preferences.profile == profile
            && held.buttons.profile == profile,
    ensures
        ({
            let stored = old(manager).state.devices@.dom().contains(device@);
            let run = SectionsUpdate {
                device: *device,
                profile,
                update,
                policy: setting.policy,
                transport: setting.transport,
                stamp: old(manager).state.devices@[device@].identity.physical_id,
                held: if from_held {
                    Some(held)
                } else {
                    None
                },
                defaults: setting.defaults,
                dpi: None,
                preferences: None,
                stage: CompositeStage::ReadDpi,
            };
            &&& nothing_changes(old(manager).state, final(manager).state)
            &&& !stored ==> (r matches Step::Done(Err(error)) && error@
                == ManagerErrorView::DeviceNotFound(device@))
            &&& stored && update.dpi is Some ==> dpi_turn(run, old(manager).state, asked(r))
            &&& stored && update.dpi is None && update.preferences is Some ==> preferences_turn(
                run,
                old(manager).state,
                asked(r),
            )
            &&& stored && update.dpi is None && update.preferences is None ==> buttons_turn(
                run,
                old(manager).state,
                asked(r),
            )
            &&& r matches Step::Ask { request, next } ==> (
            next matches ProfileUpdateRun::Sections(begun) && keeps_running(
                run,
                Step::Ask { request, next: begun },
            ))
        }),
{
    let before = old(manager).state;
    let after = final(manager).state;
    if before.devices@.dom().contains(device@) {
        let run = SectionsUpdate {
            device: *device,
            profile,
            update,
            policy: setting.policy,
            transport: setting.transport,
            stamp: before.devices@[device@].identity.physical_id,
            held: if from_held {
                Some(held)
            } else {
                None
            },
            defaults: setting.defaults,
            dpi: None,
            preferences: None,
            stage: CompositeStage::ReadDpi,
        };
        let step = as_sections(r)->0;
        assert(run.begins(before, after, now, step));
        if update.dpi is Some {
            lemma_dpi_turn(run, before, after, now, step);
        } else if update.preferences is Some {
            lemma_preferences_turn(run, before, after, now, step);
        } else {
            lemma_buttons_turn(run, before, after, now, step);
        }
    }
}

/// An update of the rate alone reads the profile first, as every safe rate write
/// does, and asks the mouse itself to name the profile as the current one.
pub proof fn law_rate_updates_require_the_current_profile(
    manager: &mut DeviceManager,
    device: &DeviceId,
    profile: ProfileId,
    update: ProfileUpdate,
    setting: UpdateSetting,
    now: Timestamp,
    checked: Result<(), ManagerError>,
    r: Step<ProfileUpdateRun, ProfileUpdateOutcome>,
)
    requires
        call_ensures(check_profile_update, (&update,), checked),
        call_ensures(
            DeviceManager::apply_profile_update,
            (manager, device, profile, update, setting, now),
            r,
        ),
        update.polling_rate is Some || checked is Err,
    ensures
        nothing_changes(old(manager).state, final(manager).state),
        checked matches Err(refusal) ==> (r matches Step::Done(Err(error)) && error@ == refusal@),
        checked is Ok && setting.transport is Ble ==> r matches Step::Done(Err(_)),
        r matches Step::Ask { request, next } ==> {
            &&& request == SessionRequest::ReadProfile(profile)
            &&& next matches ProfileUpdateRun::Rate(run)
            &&& run.device == *device
            &&& run.profile == profile
            &&& Some(run.desired) == update.polling_rate
            &&& run.verification == setting.policy.verification
            &&& run.require_current
        },
        r matches Step::Done(outcome) ==> outcome is Err,
{
}

/// What was read for a section is the baseline of that section, and nothing is
/// recorded meanwhile.
pub proof fn law_read_sections_are_laid_over(
    run: SectionsUpdate,
    manager: &mut DeviceManager,
    reply: SessionReply,
    now: Timestamp,
    r: Step<SectionsUpdate, ProfileUpdateOutcome>,
)
    requires
        call_ensures(SectionsUpdate::resume, (run, manager, reply, now), r),
        (run.stage is ReadDpi && reply is Dpi && run.update.dpi is Some) || (run.stage
            is ReadPreferences && reply is Preferences && run.update.preferences is Some) || (
        run.stage is ReadButtons && reply is Buttons) || reply is Failed,
    ensures
        nothing_changes(old(manager).state, final(manager).state),
        keeps_running(run, r),
        reply matches SessionReply::Failed(error) ==> r == Step::<
            SectionsUpdate,
            ProfileUpdateOutcome,
        >::Done(Err(error)),
        reply matches SessionReply::Dpi { state, watermark } ==> lays_dpi(run, state, asked(r)),
        reply matches SessionReply::Preferences(state) ==> lays_preferences(run, state, asked(r)),
        reply matches SessionReply::Buttons(state) ==> lays_buttons(run, state, asked(r)),
{
    match reply {
        SessionReply::Dpi { state, watermark } => {
            lemma_lays_dpi(run, state, r);
        },
        SessionReply::Buttons(state) => {
            lemma_lays_buttons(run, state, r);
        },
        _ => {},
    }
}

/// After the sensitivity image the preferences have their turn, after those the
/// buttons, as far as the update has them; what was written is remembered and
/// nothing is recorded yet.
pub proof fn law_sections_follow_in_order(
    run: SectionsUpdate,
    manager: &mut DeviceManager,
    reply: SessionReply,
    now: Timestamp,
    r: Step<SectionsUpdate, ProfileUpdateOutcome>,
)
    requires
        call_ensures(SectionsUpdate::resume, (run, manager, reply, now), r),
        (run.stage is WriteDpi && reply is DpiWritten) || (run.stage is WritePreferences
            && reply is PreferencesWritten),
        run.update.buttons@.len() > 0 || (run.stage is WriteDpi && run.update.preferences is Some),
    ensures
        nothing_changes(old(manager).state, final(manager).state),
        ({
            let passed = match reply {
                SessionReply::DpiWritten { desired, write, .. } => SectionsUpdate {
                    dpi: Some((desired, write)),
                    ..run
                },
                SessionReply::PreferencesWritten(write) => SectionsUpdate {
                    preferences: Some((run.stage->WritePreferences_desired, write)),
                    ..run
                },
                _ => run,
            };
            &&& keeps_running(passed, r)
            &&& if run.stage is WriteDpi && run.update.preferences is Some {
                preferences_turn(passed, old(manager).state, asked(r))
            } else {
                buttons_turn(passed, old(manager).state, asked(r))
            }
        }),
{
    let before = old(manager).state;
    let after = final(manager).state;
    match reply {
        SessionReply::DpiWritten { desired, write, .. } => {
            let passed = SectionsUpdate { dpi: Some((desired, write)), ..run };
            if run.update.preferences is Some {
                lemma_preferences_turn(passed, before, after, now, r);
            } else {
                lemma_buttons_turn(passed, before, after, now, r);
            }
        },
        SessionReply::PreferencesWritten(write) => {
            let passed = SectionsUpdate {
                preferences: Some((run.stage->WritePreferences_desired, write)),
                ..run
            };
            lemma_buttons_turn(passed, before, after, now, r);
        },
        _ => {},
    }
}

/// The write of a section was read back as something else.
pub open spec fn went_wrong<T>(section: SectionWrite<T>) -> bool {
    section matches Some((desired, SessionWrite::ReadbackVerified(seen))) && seen != desired
}

/// What the report says of one section: nothing where it was not written.
pub open spec fn reports_section<T>(
    section: SectionWrite<T>,
    name: Seq<char>,
    profile: ProfileId,
    reported: Option<WriteOutcome<T>>,
) -> bool {
    match section {
        None => reported is None,
        Some((desired, write)) => reported matches Some(outcome) && is_reported(
            desired,
            write,
            name,
            profile,
            Ok(outcome),
        ),
    }
}

/// At the end of an update each section that was written is recorded with what
/// came of it, all of them together and whatever came of any; a section that
/// was not written and the rate keep their evidence. The update fails exactly
/// where some section was read back as something else, and reports each section
/// otherwise.
pub proof fn law_sections_are_all_recorded(
    run: SectionsUpdate,
    manager: &mut DeviceManager,
    desired: ButtonsState,
    write: SessionWrite<ButtonsState>,
    now: Timestamp,
    r: Step<SectionsUpdate, ProfileUpdateOutcome>,
)
    requires
        run.stage == (CompositeStage::WriteButtons { desired }),
        desired.profile == run.profile,
        call_ensures(
            SectionsUpdate::resume,
            (run, manager, SessionReply::ButtonsWritten(write), now),
            r,
        ),
    ensures
        only_mouse_changes(old(manager).state, final(manager).state, run.device@),
        old(manager).state.devices@.dom().contains(run.device@) ==> ends_recorded(
            run,
            old(manager).state.devices@[run.device@],
            final(manager).state.devices@[run.device@],
            Some((desired, write)),
            now,
            r,
        ),
        !old(manager).state.devices@.dom().contains(run.device@) ==> (r matches Step::Done(
            Err(error),
        ) && error@ == ManagerErrorView::DeviceNotFound(run.device@)),
{
    if old(manager).state.devices@.dom().contains(run.device@) {
        lemma_one_mouse(
            old(manager).state.devices@,
            run.device@,
            final(manager).state.devices@[run.device@],
        );
        lemma_ends(run, old(manager).state, final(manager).state, Some((desired, write)), now, r);
    }
}

/// An update without buttons ends with the last of its other sections, in the
/// same way.
pub proof fn law_updates_without_buttons_are_recorded(
    run: SectionsUpdate,
    manager: &mut DeviceManager,
    reply: SessionReply,
    now: Timestamp,
    r: Step<SectionsUpdate, ProfileUpdateOutcome>,
)
    requires
        run.update.buttons@.len() == 0,
        (run.stage is WriteDpi && reply is DpiWritten && run.update.preferences is None) || (
        run.stage is WritePreferences && reply is PreferencesWritten),
        call_ensures(SectionsUpdate::resume, (run, manager, reply, now), r),
    ensures
        only_mouse_changes(old(manager).state, final(manager).state, run.device@),
        ({
            let passed = match reply {
                SessionReply::DpiWritten { desired, write, .. } => SectionsUpdate {
                    dpi: Some((desired, write)),
                    ..run
                },
                SessionReply::PreferencesWritten(write) => SectionsUpdate {
                    preferences: Some((run.stage->WritePreferences_desired, write)),
                    ..run
                },
                _ => run,
            };
            old(manager).state.devices@.dom().contains(run.device@) ==> ends_recorded(
                passed,
                old(manager).state.devices@[run.device@],
                final(manager).state.devices@[run.device@],
                None,
                now,
                r,
            )
        }),
{
    if old(manager).state.devices@.dom().contains(run.device@) {
        lemma_one_mouse(
            old(manager).state.devices@,
            run.device@,
            final(manager).state.devices@[run.device@],
        );
        let passed = match reply {
            SessionReply::DpiWritten { desired, write, .. } => SectionsUpdate {
                dpi: Some((desired, write)),
                ..run
            },
            SessionReply::PreferencesWritten(write) => SectionsUpdate {
                preferences: Some((run.stage->WritePreferences_desired, write)),
                ..run
            },
            _ => run,
        };
        lemma_ends(passed, old(manager).state, final(manager).state, None, now, r);
    }
}

/// The end of an update: every section that was written is on record.
pub open spec fn ends_recorded(
    run: SectionsUpdate,
    before: DeviceState,
    after: DeviceState,
    buttons: SectionWrite<ButtonsState>,
    now: Timestamp,
    step: Step<SectionsUpdate, ProfileUpdateOutcome>,
) -> bool {
    let profile = run.profile;
    &&& run.dpi matches Some((desired, write)) ==> is_put(
        dpi_of(before, profile),
        desired,
        write,
        now,
        dpi_of(after, profile),
    )
    &&& run.dpi is None ==> dpi_of(after, profile) == dpi_of(before, profile)
    &&& run.preferences matches Some((desired, write)) ==> is_put(
        preferences_of(before, profile),
        desired,
        write,
        now,
        preferences_of(after, profile),
    )
    &&& run.preferences is None ==> preferences_of(after, profile) == preferences_of(
        before,
        profile,
    )
    &&& buttons matches Some((desired, write)) ==> is_put(
        buttons_of(before, profile),
        desired,
        write,
        now,
        buttons_of(after, profile),
    )
    &&& buttons is None ==> buttons_of(after, profile) == buttons_of(before, profile)
    &&& rate_of(after, profile) == rate_of(before, profile)
    &&& after.profile_metadata == before.profile_metadata
    &&& only_slot_changes(before, after, profile)
    &&& step matches Step::Done(outcome)
    &&& outcome is Err <==> went_wrong(run.dpi) || went_wrong(run.preferences) || went_wrong(
        buttons,
    )
    &&& outcome matches Err(error) ==> (error matches ManagerError::VerificationMismatch {
        resource,
        profile: of,
    } && of == Some(profile) && resource@ == (if went_wrong(run.dpi) {
        "DPI"@
    } else if went_wrong(run.preferences) {
        "preferences"@
    } else {
        "buttons"@
    }))
    &&& outcome matches Ok(report) ==> {
        &&& reports_section(run.dpi, "DPI"@, profile, report.dpi)
        &&& reports_section(
            run.preferences,
            "preferences"@,
            profile,
            report.preferences,
        )
        &&& reports_section(buttons, "buttons"@, profile, report.buttons)
        &&& report.polling_rate is None
    }
}

proof fn lemma_ends(
    run: SectionsUpdate,
    before: StateFile,
    after: StateFile,
    buttons: SectionWrite<ButtonsState>,
    now: Timestamp,
    step: Step<SectionsUpdate, ProfileUpdateOutcome>,
)
    requires
        run.ends(before, after, buttons, now, step),
        before.devices@.dom().contains(run.device@),
        buttons matches Some((desired, _)) ==> desired.profile == run.profile,
    ensures
        ends_recorded(
            run,
            before.devices@[run.device@],
            after.devices@[run.device@],
            buttons,
            now,
            step,
        ),
{
    let had = before.devices@[run.device@];
    let has = after.devices@[run.device@];
    law_update_touches_one_profile(
        had,
        run.profile,
        run.dpi,
        run.preferences,
        buttons,
        now,
        ProfileId::One,
    );
    law_update_touches_one_profile(
        had,
        run.profile,
        run.dpi,
        run.preferences,
        buttons,
        now,
        ProfileId::Two,
    );
    law_update_touches_one_profile(
        had,
        run.profile,
        run.dpi,
        run.preferences,
        buttons,
        now,
        ProfileId::Three,
    );
    law_update_touches_one_profile(
        had,
        run.profile,
        run.dpi,
        run.preferences,
        buttons,
        now,
        ProfileId::Four,
    );
    law_update_touches_one_profile(
        had,
        run.profile,
        run.dpi,
        run.preferences,
        buttons,
        now,
        ProfileId::Five,
    );
    lemma_sections(had, run.profile, run.dpi, run.preferences, buttons, now, has);
}

proof fn lemma_sections(
    had: DeviceState,
    profile: ProfileId,
    dpi: SectionWrite<DpiState>,
    preferences: SectionWrite<PreferencesState>,
    buttons: SectionWrite<ButtonsState>,
    now: Timestamp,
    has: DeviceState,
)
    requires
        has == composite_recorded(had, profile, dpi, preferences, buttons, now),
        buttons matches Some((desired, _)) ==> desired.profile == profile,
    ensures
        dpi_of(has, profile) == (match dpi {
            Some((desired, write)) => written(dpi_of(had, profile), desired, write, now),
            None => dpi_of(had, profile),
        }),
        preferences_of(has, profile) == (match preferences {
            Some((desired, write)) => written(preferences_of(had, profile), desired, write, now),
            None => preferences_of(had, profile),
        }),
        buttons_of(has, profile) == (match buttons {
            Some((desired, write)) => written(buttons_of(had, profile), desired, write, now),
            None => buttons_of(had, profile),
        }),
        rate_of(has, profile) == rate_of(had, profile),
{
    let one = section_recorded(had, profile, dpi, now);
    let two = section_recorded(one, profile, preferences, now);
    assert(has == section_recorded(two, profile, buttons, now));
}

/// Held images for another profile are refused before anything is asked, and
/// nothing changes.
pub proof fn law_foreign_images_are_refused(
    manager: &mut DeviceManager,
    device: &DeviceId,
    profile: ProfileId,
    update: ProfileUpdate,
    setting: UpdateSetting,
    baseline: ProfileUpdateBaseline,
    now: Timestamp,
    r: Step<ProfileUpdateRun, ProfileUpdateOutcome>,
)
    requires
        call_ensures(
            DeviceManager::apply_profile_update_from_snapshot,
            (manager, device, profile, update, setting, baseline, now),
            r,
        ),
        baseline.dpi.profile != profile || baseline.preferences.profile != profile
            || baseline.buttons.profile != profile,
    ensures
        r matches Step::Done(Err(error)) && error@ is InvalidUpdate,
        final(manager).state == old(manager).state,
{
}

/// An update of the rate alone goes on as the rate write does; it reports that
/// write and nothing else.
pub proof fn law_rate_runs_report_the_rate(
    update: RateUpdate,
    manager: &mut DeviceManager,
    reply: SessionReply,
    now: Timestamp,
    r: Step<ProfileUpdateRun, ProfileUpdateOutcome>,
)
    requires
        call_ensures(
            ProfileUpdateRun::resume,
            (ProfileUpdateRun::Rate(update), manager, reply, now),
            r,
        ),
        reply is PollingRateWritten,
        update.stage is Write,
    ensures
        r matches Step::Done(outcome) && {
            &&& outcome matches Ok(report) ==> {
                &&& report.dpi is None && report.preferences is None && report.buttons is None
                &&& report.polling_rate matches Some(rate)
                &&& is_reported(
                    update.desired,
                    reply->PollingRateWritten_0,
                    "polling rate"@,
                    update.profile,
                    Ok(rate),
                )
            }
            &&& old(manager).state.devices@.dom().contains(update.device@) ==> (outcome is Err <==> (
            reply->PollingRateWritten_0 matches SessionWrite::ReadbackVerified(seen) && seen
                != update.desired))
        },
{
}

/// An update of sections goes on as its sections do.
pub proof fn law_section_runs_stay_with_their_sections(
    update: SectionsUpdate,
    manager: &mut DeviceManager,
    error: ManagerError,
    now: Timestamp,
    r: Step<ProfileUpdateRun, ProfileUpdateOutcome>,
)
    requires
        call_ensures(
            ProfileUpdateRun::resume,
            (ProfileUpdateRun::Sections(update), manager, SessionReply::Failed(error), now),
            r,
        ),
    ensures
        r == Step::<ProfileUpdateRun, ProfileUpdateOutcome>::Done(Err(error)),
        final(manager).state == old(manager).state,
{
}

/// Applying several slot updates binds each slot as the last update that names
/// it says, and leaves every other slot and the profile alone.
pub proof fn law_slot_updates_bind_the_last(
    baseline: ButtonsState,
    deltas: &Vec<ButtonSlotDelta>,
    r: ButtonsState,
)
    requires
        call_ensures(apply_slot_deltas, (baseline, deltas), r),
    ensures
        r.profile == baseline.profile,
        binds_all(baseline.slots@, deltas@, r.slots@),
{
    lemma_binds_all(baseline.slots@, deltas@);
}

} // verus!
