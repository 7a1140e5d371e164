//! Preferences.

use vstd::prelude::*;

use crate::protocol::{PreferencesState, ProfileId};

verus! {

/// Partial profile preferences to merge into a complete image.
///
/// Every field is optional. Omitted fields remain exactly as the complete
/// baseline has them.
#[derive(Clone, Copy, Debug, PartialEq, Eq)]
pub struct PreferencesDelta {
    pub light_mode: Option<u8>,
    pub configuration: Option<u8>,
    pub deep_sleep: Option<u8>,
    pub host_color: Option<[u8; 3]>,
    pub sleep_timer: Option<u8>,
    pub debounce: Option<u8>,
}

impl Default for PreferencesDelta {
    fn default() -> (r: Self)
        ensures
            r.names_nothing(),
    {
        PreferencesDelta {
            light_mode: None,
            configuration: None,
            deep_sleep: None,
            host_color: None,
            sleep_timer: None,
            debounce: None,
        }
    }
}

impl PreferencesDelta {
    pub open spec fn names_nothing(self) -> bool {
        &&& self.light_mode is None
        &&& self.configuration is None
        &&& self.deep_sleep is None
        &&& self.host_color is None
        &&& self.sleep_timer is None
        &&& self.debounce is None
    }

    pub fn is_empty(self) -> (r: bool)
        ensures
            r == self.names_nothing(),
    {
        self.light_mode.is_none() && self.configuration.is_none() && self.deep_sleep.is_none()
            && self.host_color.is_none() && self.sleep_timer.is_none() && self.debounce.is_none()
    }
}

/// The named value, or the value that was there.
pub open spec fn overlaid<T>(change: Option<T>, before: T) -> T {
    match change {
        Some(value) => value,
        None => before,
    }
}

/// The complete image after a partial update.
pub open spec fn merged_preferences(
    baseline: PreferencesState,
    delta: PreferencesDelta,
) -> PreferencesState {
    PreferencesState {
        profile: baseline.profile,
        light_mode: overlaid(delta.light_mode, baseline.light_mode),
        configuration: overlaid(delta.configuration, baseline.configuration),
        deep_sleep: overlaid(delta.deep_sleep, baseline.deep_sleep),
        host_color: overlaid(delta.host_color, baseline.host_color),
        sleep_timer: overlaid(delta.sleep_timer, baseline.sleep_timer),
        debounce: overlaid(delta.debounce, baseline.debounce),
    }
}

pub fn merge_preferences_delta(
    baseline: PreferencesState,
    delta: PreferencesDelta,
) -> (r: PreferencesState)
    ensures
        r == merged_preferences(baseline, delta),
{
    PreferencesState::new(
        baseline.profile,
        delta.light_mode.unwrap_or(baseline.light_mode),
        delta.configuration.unwrap_or(baseline.configuration),
        delta.deep_sleep.unwrap_or(baseline.deep_sleep),
        delta.host_color.unwrap_or(baseline.host_color),
        delta.sleep_timer.unwrap_or(baseline.sleep_timer),
        delta.debounce.unwrap_or(baseline.debounce),
    )
}

/// A partial update never changes the profile, an empty one changes nothing,
/// applying it again changes nothing more, and what it does not name stays.
pub proof fn law_preferences_merge(baseline: PreferencesState, delta: PreferencesDelta)
    ensures
        merged_preferences(baseline, delta).profile == baseline.profile,
        delta.names_nothing() ==> merged_preferences(baseline, delta) == baseline,
        merged_preferences(merged_preferences(baseline, delta), delta) == merged_preferences(
            baseline,
            delta,
        ),
        delta.light_mode is None ==> merged_preferences(baseline, delta).light_mode
            == baseline.light_mode,
        delta.configuration is None ==> merged_preferences(baseline, delta).configuration
            == baseline.configuration,
        delta.deep_sleep is None ==> merged_preferences(baseline, delta).deep_sleep
            == baseline.deep_sleep,
        delta.host_color is None ==> merged_preferences(baseline, delta).host_color
            == baseline.host_color,
        delta.sleep_timer is None ==> merged_preferences(baseline, delta).sleep_timer
            == baseline.sleep_timer,
        delta.debounce is None ==> merged_preferences(baseline, delta).debounce
            == baseline.debounce,
{
}

pub const CAPTURED_EVIDENCE_LIGHT_MODE: u8 = 0x02;

pub const CAPTURED_EVIDENCE_CONFIGURATION: u8 = 0x01;

pub const CAPTURED_EVIDENCE_DEEP_SLEEP: u8 = 0x00;

pub const CAPTURED_EVIDENCE_SLEEP_TIMER: u8 = 5;

pub const CAPTURED_EVIDENCE_DEBOUNCE: u8 = 0x00;

/// The preferences image that was captured from a mouse as delivered; used
/// only with explicit authorization.
pub open spec fn captured_preferences(profile: ProfileId) -> PreferencesState {
    PreferencesState {
        profile,
        light_mode: CAPTURED_EVIDENCE_LIGHT_MODE,
        configuration: CAPTURED_EVIDENCE_CONFIGURATION,
        deep_sleep: CAPTURED_EVIDENCE_DEEP_SLEEP,
        host_color: [0xffu8, 0x00, 0x00],
        sleep_timer: CAPTURED_EVIDENCE_SLEEP_TIMER,
        debounce: CAPTURED_EVIDENCE_DEBOUNCE,
    }
}

pub fn captured_evidence_preferences(profile: ProfileId) -> (r: PreferencesState)
    ensures
        r == captured_preferences(profile),
{
    PreferencesState::new(
        profile,
        CAPTURED_EVIDENCE_LIGHT_MODE,
        CAPTURED_EVIDENCE_CONFIGURATION,
        CAPTURED_EVIDENCE_DEEP_SLEEP,
        [0xff, 0x00, 0x00],
        CAPTURED_EVIDENCE_SLEEP_TIMER,
        CAPTURED_EVIDENCE_DEBOUNCE,
    )
}

/// What a partial update names is what the merged image has in that field,
/// whatever the image was before.
pub proof fn law_named_preferences_are_applied(baseline: PreferencesState, delta: PreferencesDelta)
    ensures
        delta.light_mode matches Some(value) ==> merged_preferences(baseline, delta).light_mode
            == value,
        delta.configuration matches Some(value) ==> merged_preferences(
            baseline,
            delta,
        ).configuration == value,
        delta.deep_sleep matches Some(value) ==> merged_preferences(baseline, delta).deep_sleep
            == value,
        delta.host_color matches Some(value) ==> merged_preferences(baseline, delta).host_color
            == value,
        delta.sleep_timer matches Some(value) ==> merged_preferences(baseline, delta).sleep_timer
            == value,
        delta.debounce matches Some(value) ==> merged_preferences(baseline, delta).debounce
            == value,
{
}

/// An update counts as empty exactly when it names none of the six fields, and
/// one that names any of them changes some image.
pub proof fn law_empty_preferences_change_nothing(baseline: PreferencesState, delta: PreferencesDelta)
    ensures
        (forall|image: PreferencesState| #[trigger] merged_preferences(image, delta) == image)
            <==> delta.names_nothing(),
        delta.light_mode is Some || delta.configuration is Some || delta.deep_sleep is Some
            || delta.host_color is Some || delta.sleep_timer is Some || delta.debounce is Some
            <==> !delta.names_nothing(),
{
    if forall|image: PreferencesState| #[trigger] merged_preferences(image, delta) == image {
        let low = PreferencesState {
            profile: baseline.profile,
            light_mode: 0,
            configuration: 0,
            deep_sleep: 0,
            host_color: [0u8, 0, 0],
            sleep_timer: 0,
            debounce: 0,
        };
        let high = PreferencesState {
            profile: baseline.profile,
            light_mode: 1,
            configuration: 1,
            deep_sleep: 1,
            host_color: [1u8, 0, 0],
            sleep_timer: 1,
            debounce: 1,
        };
        assert(merged_preferences(low, delta) == low);
        assert(merged_preferences(high, delta) == high);
        assert([0u8, 0, 0][0] == 0);
        assert([1u8, 0, 0][0] == 1);
        assert(low.host_color[0] != high.host_color[0]);
    }
}

/// The image of a mouse as delivered is the same for every profile but for the
/// profile that it names.
pub proof fn law_captured_preferences_name_their_profile(a: ProfileId, b: ProfileId)
    ensures
        captured_preferences(a).profile == a,
        captured_preferences(b) == (PreferencesState { profile: b, ..captured_preferences(a) }),
{
}

/// Laying an update over an image gives each field that the update names the
/// value of the update, and leaves every other field and the profile alone.
pub proof fn law_merges_change_what_is_named(
    baseline: PreferencesState,
    delta: PreferencesDelta,
    r: PreferencesState,
)
    requires
        call_ensures(merge_preferences_delta, (baseline, delta), r),
    ensures
        r.profile == baseline.profile,
        delta.light_mode matches Some(value) ==> r.light_mode == value,
        delta.light_mode is None ==> r.light_mode == baseline.light_mode,
        delta.configuration matches Some(value) ==> r.configuration == value,
        delta.configuration is None ==> r.configuration == baseline.configuration,
        delta.deep_sleep matches Some(value) ==> r.deep_sleep == value,
        delta.deep_sleep is None ==> r.deep_sleep == baseline.deep_sleep,
        delta.host_color matches Some(value) ==> r.host_color == value,
        delta.host_color is None ==> r.host_color == baseline.host_color,
        delta.sleep_timer matches Some(value) ==> r.sleep_timer == value,
        delta.sleep_timer is None ==> r.sleep_timer == baseline.sleep_timer,
        delta.debounce matches Some(value) ==> r.debounce == value,
        delta.debounce is None ==> r.debounce == baseline.debounce,
{
}

/// A mouse as delivered glows red in its second light mode, sleeps after five
/// units, and has every other preference at its lowest setting but for the
/// configuration, which is the first.
pub proof fn law_delivered_preferences(profile: ProfileId, r: PreferencesState)
    requires
        call_ensures(captured_evidence_preferences, (profile,), r),
    ensures
        r.profile == profile,
        r.light_mode == 2,
        r.configuration == 1,
        r.deep_sleep == 0,
        r.host_color@[0] == 255 && r.host_color@[1] == 0 && r.host_color@[2] == 0,
        r.sleep_timer == 5,
        r.debounce == 0,
{
}

} // verus!
