//! The values that the mouse protocol speaks of, as plain data.

use vstd::prelude::*;

use crate::exact::{same_array, SameValue};

verus! {

/// How a mouse is reached.
#[derive(Clone, Copy, Debug, PartialEq, Eq, PartialOrd, Ord, Hash, Structural)]
pub enum TransportKind {
    Wired,
    Receiver,
    Ble,
}

impl TransportKind {
    /// A wired mouse or a 2.4 GHz receiver.
    pub open spec fn is_usb(self) -> bool {
        self is Wired || self is Receiver
    }
}

/// Tells whether a transport is a USB one.
pub fn is_usb_transport(transport: TransportKind) -> (r: bool)
    ensures
        r == transport.is_usb(),
{
    match transport {
        TransportKind::Wired | TransportKind::Receiver => true,
        TransportKind::Ble => false,
    }
}

/// A failure to build a protocol value.
#[derive(Clone, Copy, Debug, PartialEq, Eq, Structural)]
pub enum ProtocolError {
    InvalidProfile { value: u8 },
    InvalidProfileRange { current: u8, maximum: u8 },
    InvalidPollingRate { value: u16 },
    InvalidStageCount { count: usize },
    InvalidActiveStage { stage: u8, count: usize },
}

/// One of the five hardware profile slots.
#[derive(Clone, Copy, Debug, PartialEq, Eq, PartialOrd, Ord, Hash, Structural)]
pub enum ProfileId {
    One,
    Two,
    Three,
    Four,
    Five,
}

impl ProfileId {
    pub const MIN: u8 = 1;

    pub const MAX: u8 = 5;

    pub const MIN_ID: ProfileId = ProfileId::One;

    pub const MAX_ID: ProfileId = ProfileId::Five;

    /// The slot's number, counted from one.
    pub open spec fn index(self) -> u8 {
        match self {
            ProfileId::One => 1,
            ProfileId::Two => 2,
            ProfileId::Three => 3,
            ProfileId::Four => 4,
            ProfileId::Five => 5,
        }
    }

    /// The slot with a given number.
    pub open spec fn of_index(value: u8) -> Option<ProfileId> {
        if value == 1 {
            Some(ProfileId::One)
        } else if value == 2 {
            Some(ProfileId::Two)
        } else if value == 3 {
            Some(ProfileId::Three)
        } else if value == 4 {
            Some(ProfileId::Four)
        } else if value == 5 {
            Some(ProfileId::Five)
        } else {
            None
        }
    }

    /// The slot with number `value`, which exists for one to five.
    pub fn new(value: u8) -> (r: Option<ProfileId>)
        ensures
            r == ProfileId::of_index(value),
            r is Some <==> 1 <= value <= 5,
            r matches Some(p) ==> p.index() == value,
    {
        if value == 1 {
            Some(ProfileId::One)
        } else if value == 2 {
            Some(ProfileId::Two)
        } else if value == 3 {
            Some(ProfileId::Three)
        } else if value == 4 {
            Some(ProfileId::Four)
        } else if value == 5 {
            Some(ProfileId::Five)
        } else {
            None
        }
    }

    /// The slot's number, counted from one.
    pub fn get(self) -> (r: u8)
        ensures
            r == self.index(),
    {
        match self {
            ProfileId::One => 1,
            ProfileId::Two => 2,
            ProfileId::Three => 3,
            ProfileId::Four => 4,
            ProfileId::Five => 5,
        }
    }
}

/// The larger of two slots.
pub open spec fn later_profile(a: ProfileId, b: ProfileId) -> ProfileId {
    if a.index() < b.index() {
        b
    } else {
        a
    }
}

pub fn max_profile(a: ProfileId, b: ProfileId) -> (r: ProfileId)
    ensures
        r == later_profile(a, b),
{
    if a.get() < b.get() {
        b
    } else {
        a
    }
}

/// Which profile is active and how many are enabled.
#[derive(Clone, Copy, Debug, PartialEq, Eq, Hash, Structural)]
pub struct ProfileMetadata {
    pub current_profile: ProfileId,
    pub maximum_profile: ProfileId,
}

impl ProfileMetadata {
    /// The active profile is enabled.
    pub open spec fn wf(self) -> bool {
        self.current_profile.index() <= self.maximum_profile.index()
    }

    /// The outcome of building metadata from its two parts.
    pub open spec fn built(current: ProfileId, maximum: ProfileId) -> Result<
        ProfileMetadata,
        ProtocolError,
    > {
        if current.index() <= maximum.index() {
            Ok(ProfileMetadata { current_profile: current, maximum_profile: maximum })
        } else {
            Err(
                ProtocolError::InvalidProfileRange {
                    current: current.index(),
                    maximum: maximum.index(),
                },
            )
        }
    }

    /// Builds metadata; the active profile must be among the enabled ones.
    pub fn new(current: ProfileId, maximum: ProfileId) -> (r: Result<ProfileMetadata, ProtocolError>)
        ensures
            r == ProfileMetadata::built(current, maximum),
            r matches Ok(m) ==> m.wf(),
    {
        if current.get() <= maximum.get() {
            Ok(ProfileMetadata { current_profile: current, maximum_profile: maximum })
        } else {
            Err(
                ProtocolError::InvalidProfileRange {
                    current: current.get(),
                    maximum: maximum.get(),
                },
            )
        }
    }

    pub fn current(self) -> (r: ProfileId)
        ensures
            r == self.current_profile,
    {
        self.current_profile
    }

    pub fn maximum(self) -> (r: ProfileId)
        ensures
            r == self.maximum_profile,
    {
        self.maximum_profile
    }
}

impl SameValue for ProfileMetadata {
    fn same(&self, other: &Self) -> (r: bool) {
        *self == *other
    }
}

/// A supported polling rate.
#[derive(Clone, Copy, Debug, PartialEq, Eq, Hash, Structural)]
pub enum PollingRate {
    Hz125,
    Hz250,
    Hz500,
    Hz1000,
}

impl SameValue for PollingRate {
    fn same(&self, other: &Self) -> (r: bool) {
        *self == *other
    }
}

/// One sensitivity step.
#[derive(Clone, Copy, Debug, PartialEq, Eq, Hash, Structural)]
pub struct DpiValue {
    pub value: u16,
}

impl SameValue for DpiValue {
    fn same(&self, other: &Self) -> (r: bool) {
        *self == *other
    }
}

/// The position of a sensitivity step, counted from one.
#[derive(Clone, Copy, Debug, PartialEq, Eq, Hash, Structural)]
pub struct StageIndex {
    pub value: u8,
}

/// The number of sensitivity steps that one profile can hold.
pub const MAX_STAGES: usize = 8;

/// Between one and eight sensitivity steps; unused places hold zero.
#[derive(Clone, Copy, Debug, PartialEq, Eq)]
pub struct DpiStages {
    count: usize,
    values: [DpiValue; 8],
}

impl DpiStages {
    #[verifier::type_invariant]
    pub closed spec fn wf(self) -> bool {
        &&& 1 <= self.count <= MAX_STAGES
        &&& forall|i: int| self.count <= i < 8 ==> self.values[i] == (DpiValue { value: 0 })
    }

    /// The steps in order.
    pub closed spec fn steps(self) -> Seq<DpiValue> {
        self.values@.subrange(0, self.count as int)
    }

    /// Takes over one to eight steps; any other number is refused.
    pub fn new(stages: &Vec<DpiValue>) -> (r: Option<DpiStages>)
        ensures
            r is Some <==> 1 <= stages@.len() <= MAX_STAGES,
            r matches Some(s) ==> s.wf() && s.steps() == stages@,
    {
        let count: usize = stages.len();
        if count == 0 || count > MAX_STAGES {
            return None;
        }
        let mut values: [DpiValue; 8] = [DpiValue { value: 0 };8];
        let mut i: usize = 0;
        while i < count
            invariant
                i <= count <= 8,
                count == stages@.len(),
                forall|j: int| 0 <= j < i ==> values[j] == stages@[j],
                forall|j: int| i <= j < 8 ==> values[j] == (DpiValue { value: 0 }),
            decreases count - i,
        {
            values[i] = stages[i];
            i = i + 1;
        }
        let r = DpiStages { count, values };
        assert(r.steps() =~= stages@);
        Some(r)
    }

    /// The step at a position, counted from zero.
    pub fn get(&self, index: usize) -> (r: Option<DpiValue>)
        ensures
            r == (if index < self.steps().len() {
                Some(self.steps()[index as int])
            } else {
                None
            }),
    {
        proof {
            use_type_invariant(self);
        }
        if index < self.count {
            Some(self.values[index])
        } else {
            None
        }
    }

    pub fn len(&self) -> (r: usize)
        ensures
            self.wf(),
            r == self.steps().len(),
            1 <= r <= MAX_STAGES,
    {
        proof {
            use_type_invariant(self);
        }
        self.count
    }
}

/// Two well-formed step lists with the same steps are the same.
pub proof fn lemma_stages_determined(a: DpiStages, b: DpiStages)
    requires
        a.wf(),
        b.wf(),
        a.steps() == b.steps(),
    ensures
        a == b,
{
    assert(a.count == a.steps().len());
    assert(b.count == b.steps().len());
    assert forall|i: int| 0 <= i < 8 implies a.values[i] == b.values[i] by {
        if i < a.count {
            assert(a.values[i] == a.steps()[i]);
            assert(b.values[i] == b.steps()[i]);
        }
    }
    assert(a.values =~= b.values);
}

impl SameValue for DpiStages {
    fn same(&self, other: &Self) -> (r: bool) {
        self.count == other.count && same_array(&self.values, &other.values)
    }
}

#[derive(Clone, Copy, Debug, PartialEq, Eq, Hash, Structural)]
pub enum LiftOffDistance {
    OneMillimeter,
    TwoMillimeters,
}

#[derive(Clone, Copy, Debug, PartialEq, Eq, Hash, Structural)]
pub struct SensorOptions {
    pub lift_off_distance: LiftOffDistance,
    pub ripple_control: bool,
    pub angle_snap: bool,
    pub motion_sync: bool,
}

/// One profile's complete sensitivity image.
///
/// The tail is kept byte for byte: it carries the physical-identity
/// watermark among other things.
#[derive(Clone, Copy, Debug, PartialEq, Eq)]
pub struct DpiState {
    pub profile: ProfileId,
    pub stages: DpiStages,
    pub active_stage: StageIndex,
    pub sensor: SensorOptions,
    pub preserved_tail: [u8; 25],
}

impl DpiState {
    /// The active step is one of the steps.
    pub open spec fn wf(self) -> bool {
        &&& self.stages.wf()
        &&& 1 <= self.active_stage.value <= self.stages.steps().len()
    }

    /// Builds an image; the first defect found is reported.
    pub fn new(
        profile: ProfileId,
        stages: Vec<DpiValue>,
        active_stage: StageIndex,
        sensor: SensorOptions,
        preserved_tail: [u8; 25],
    ) -> (r: Result<DpiState, ProtocolError>)
        ensures
            match r {
                Ok(dpi) => {
                    &&& dpi.wf()
                    &&& dpi.profile == profile
                    &&& dpi.stages.steps() == stages@
                    &&& dpi.active_stage == active_stage
                    &&& dpi.sensor == sensor
                    &&& dpi.preserved_tail == preserved_tail
                },
                Err(ProtocolError::InvalidStageCount { count }) => {
                    &&& count == stages@.len()
                    &&& !(1 <= stages@.len() <= MAX_STAGES)
                },
                Err(ProtocolError::InvalidActiveStage { stage, count }) => {
                    &&& stage == active_stage.value
                    &&& count == stages@.len()
                    &&& 1 <= stages@.len() <= MAX_STAGES
                    &&& !(1 <= active_stage.value <= stages@.len())
                },
                Err(_) => false,
            },
    {
        match DpiStages::new(&stages) {
            None => Err(ProtocolError::InvalidStageCount { count: stages.len() }),
            Some(built) => {
                proof {
                    assert(built.count == built.steps().len());
                }
                if active_stage.value >= 1 && active_stage.value as usize <= built.count {
                    Ok(DpiState { profile, stages: built, active_stage, sensor, preserved_tail })
                } else {
                    Err(
                        ProtocolError::InvalidActiveStage {
                            stage: active_stage.value,
                            count: built.count,
                        },
                    )
                }
            },
        }
    }
}

impl SameValue for DpiState {
    fn same(&self, other: &Self) -> (r: bool) {
        self.profile == other.profile && self.stages.same(&other.stages) && self.active_stage
            == other.active_stage && self.sensor == other.sensor && same_array(
            &self.preserved_tail,
            &other.preserved_tail,
        )
    }
}

/// One profile's complete preferences image.
#[derive(Clone, Copy, Debug, PartialEq, Eq)]
pub struct PreferencesState {
    pub profile: ProfileId,
    pub light_mode: u8,
    pub configuration: u8,
    pub deep_sleep: u8,
    pub host_color: [u8; 3],
    pub sleep_timer: u8,
    pub debounce: u8,
}

impl PreferencesState {
    pub fn new(
        profile: ProfileId,
        light_mode: u8,
        configuration: u8,
        deep_sleep: u8,
        host_color: [u8; 3],
        sleep_timer: u8,
        debounce: u8,
    ) -> (r: PreferencesState)
        ensures
            r == (PreferencesState {
                profile,
                light_mode,
                configuration,
                deep_sleep,
                host_color,
                sleep_timer,
                debounce,
            }),
    {
        PreferencesState {
            profile,
            light_mode,
            configuration,
            deep_sleep,
            host_color,
            sleep_timer,
            debounce,
        }
    }
}

impl SameValue for PreferencesState {
    fn same(&self, other: &Self) -> (r: bool) {
        self.profile == other.profile && self.light_mode == other.light_mode && self.configuration
            == other.configuration && self.deep_sleep == other.deep_sleep && same_array(
            &self.host_color,
            &other.host_color,
        ) && self.sleep_timer == other.sleep_timer && self.debounce == other.debounce
    }
}

/// What one button does: a firmware action with modifiers and a key code.
#[derive(Clone, Copy, Debug, PartialEq, Eq, Hash, Structural)]
pub struct ButtonAssignment {
    pub action: u8,
    pub modifiers: u8,
    pub key_code: u8,
}

impl ButtonAssignment {
    pub fn new(action: u8, modifiers: u8, key_code: u8) -> (r: ButtonAssignment)
        ensures
            r == (ButtonAssignment { action, modifiers, key_code }),
    {
        ButtonAssignment { action, modifiers, key_code }
    }
}

impl Default for ButtonAssignment {
    fn default() -> (r: Self)
        ensures
            r == (ButtonAssignment { action: 0, modifiers: 0, key_code: 0 }),
    {
        ButtonAssignment { action: 0, modifiers: 0, key_code: 0 }
    }
}

impl SameValue for ButtonAssignment {
    fn same(&self, other: &Self) -> (r: bool) {
        *self == *other
    }
}

/// One profile's complete button table.
#[derive(Clone, Copy, Debug, PartialEq, Eq)]
pub struct ButtonsState {
    pub profile: ProfileId,
    pub slots: [ButtonAssignment; 18],
}

impl ButtonsState {
    pub fn new(profile: ProfileId, slots: [ButtonAssignment; 18]) -> (r: ButtonsState)
        ensures
            r == (ButtonsState { profile, slots }),
    {
        ButtonsState { profile, slots }
    }
}

impl SameValue for ButtonsState {
    fn same(&self, other: &Self) -> (r: bool) {
        self.profile == other.profile && same_array(&self.slots, &other.slots)
    }
}

/// The random token that marks one physical mouse.
#[derive(Clone, Copy, Debug, PartialEq, Eq, PartialOrd, Ord, Hash)]
pub struct PhysicalId {
    pub token: [u8; 16],
}

impl PhysicalId {
    pub fn from_token_bytes(token: [u8; 16]) -> (r: PhysicalId)
        ensures
            r == (PhysicalId { token }),
    {
        PhysicalId { token }
    }

    pub fn token_bytes(self) -> (r: [u8; 16])
        ensures
            r == self.token,
    {
        self.token
    }

    /// The all-zero token is never assigned to a mouse.
    pub open spec fn is_reserved(self) -> bool {
        forall|i: int| 0 <= i < 16 ==> self.token[i] == 0
    }
}

impl SameValue for PhysicalId {
    fn same(&self, other: &Self) -> (r: bool) {
        same_array(&self.token, &other.token)
    }
}

/// What the tail of a sensitivity image says about the mouse's identity.
#[derive(Clone, Copy, Debug, PartialEq, Eq)]
pub enum WatermarkDecode {
    Absent,
    Malformed,
    UnsupportedVersion { version: u8 },
    Valid(PhysicalId),
}

impl SameValue for WatermarkDecode {
    fn same(&self, other: &Self) -> (r: bool) {
        match (self, other) {
            (WatermarkDecode::Absent, WatermarkDecode::Absent) => true,
            (WatermarkDecode::Malformed, WatermarkDecode::Malformed) => true,
            (
                WatermarkDecode::UnsupportedVersion { version: a },
                WatermarkDecode::UnsupportedVersion { version: b },
            ) => *a == *b,
            (WatermarkDecode::Valid(a), WatermarkDecode::Valid(b)) => a.same(b),
            _ => false,
        }
    }
}

/// One complete read of a loaded profile.
#[derive(Clone, Copy, Debug, PartialEq, Eq)]
pub struct ProfileSnapshot {
    pub persistent_metadata: ProfileMetadata,
    pub target_profile: ProfileId,
    pub dpi: DpiState,
    pub preferences: PreferencesState,
    pub buttons: ButtonsState,
}

/// Framing of a sensitivity report.
#[derive(Clone, Copy, Debug, PartialEq, Eq, Structural)]
pub enum DpiFraming {
    Compact,
    Full,
}

/// Framing of a preferences report.
#[derive(Clone, Copy, Debug, PartialEq, Eq, Structural)]
pub enum PreferencesFraming {
    Compact,
    Full,
}

#[derive(Clone, Copy, Debug, PartialEq, Eq)]
pub struct BatteryEvent {
    pub raw_report: [u8; 5],
    pub level: u8,
}

#[derive(Clone, Copy, Debug, PartialEq, Eq)]
pub struct DpiButtonEvent {
    pub raw_report: [u8; 5],
    pub stage: u8,
}

#[derive(Clone, Copy, Debug, PartialEq, Eq)]
pub struct ProfileChangedEvent {
    pub raw_report: [u8; 5],
    pub profile: u8,
}

#[derive(Clone, Copy, Debug, PartialEq, Eq)]
pub struct ConnectionChangedEvent {
    pub raw_report: [u8; 5],
    pub connected: bool,
}

#[derive(Clone, Copy, Debug, PartialEq, Eq)]
pub struct DpiIndexChangedEvent {
    pub raw_report: [u8; 5],
    pub index: u8,
}

#[derive(Clone, Copy, Debug, PartialEq, Eq)]
pub struct LedModeChangedEvent {
    pub raw_report: [u8; 5],
    pub mode: u8,
}

/// One decoded input report.
#[derive(Clone, Copy, Debug, PartialEq, Eq)]
pub enum InputEvent {
    ActiveDpiStageChanged(DpiButtonEvent),
    ProfileChanged(ProfileChangedEvent),
    SecondaryProfileChanged(ProfileChangedEvent),
    BatteryChanged(BatteryEvent),
    ConnectionChanged(ConnectionChangedEvent),
    DpiIndexChanged(DpiIndexChangedEvent),
    LedModeChanged(LedModeChangedEvent),
    ProfileSync(ProfileChangedEvent),
}

/// The slots are numbered from one to five without gaps, each number belongs
/// to one slot, and a slot is found by its number.
pub proof fn law_profiles_are_numbered(profile: ProfileId, other: ProfileId, value: u8)
    ensures
        ProfileId::of_index(profile.index()) == Some(profile),
        profile.index() == other.index() ==> profile == other,
        1 <= profile.index() <= 5,
        1 <= value <= 5 ==> ProfileId::of_index(value) is Some && ProfileId::of_index(
            value,
        )->0.index() == value,
        !(1 <= value <= 5) ==> ProfileId::of_index(value) is None,
{
}

/// Of two slots the later one is one of them and not before either.
pub proof fn law_later_profile_is_the_larger(a: ProfileId, b: ProfileId)
    ensures
        later_profile(a, b) == a || later_profile(a, b) == b,
        later_profile(a, b).index() >= a.index(),
        later_profile(a, b).index() >= b.index(),
        later_profile(a, b) == later_profile(b, a),
{
}

/// Metadata can be built exactly where the active profile is enabled; it names
/// the two profiles that it was built from, and a refusal names their numbers.
pub proof fn law_metadata_names_its_parts(current: ProfileId, maximum: ProfileId)
    ensures
        ProfileMetadata::built(current, maximum) is Ok <==> current.index() <= maximum.index(),
        ProfileMetadata::built(current, maximum) matches Ok(metadata) ==> metadata.current_profile
            == current && metadata.maximum_profile == maximum && metadata.wf(),
        ProfileMetadata::built(current, maximum) matches Err(error) ==> error == (
        ProtocolError::InvalidProfileRange { current: current.index(), maximum: maximum.index() }),
{
}

/// A wired mouse and a receiver are reached over USB, a BLE mouse is not.
pub proof fn law_usb_is_all_but_ble(transport: TransportKind)
    ensures
        transport.is_usb() <==> !(transport is Ble),
{
}

/// A token is reserved exactly when it has no byte that differs from zero.
pub proof fn law_only_the_zero_token_is_reserved(token: PhysicalId, i: int)
    requires
        0 <= i < 16,
    ensures
        token.token[i] != 0 ==> !token.is_reserved(),
        token.token@ == Seq::new(16, |j: int| 0u8) ==> token.is_reserved(),
{
    if token.token@ == Seq::new(16, |j: int| 0u8) {
        assert forall|j: int| 0 <= j < 16 implies token.token[j] == 0 by {
            assert(token.token@[j] == 0);
        }
    }
}

/// The slots have the numbers that their names say.
pub proof fn law_slots_have_their_own_numbers(profile: ProfileId, r: u8)
    requires
        call_ensures(ProfileId::get, (profile,), r),
    ensures
        profile is One ==> r == 1,
        profile is Two ==> r == 2,
        profile is Three ==> r == 3,
        profile is Four ==> r == 4,
        profile is Five ==> r == 5,
{
}

} // verus!
