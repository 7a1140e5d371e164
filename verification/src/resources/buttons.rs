//! Button slots and the actions that may safely be bound to them.

use vstd::prelude::*;

use crate::protocol::{ButtonAssignment, ButtonsState};

verus! {

/// A button slot that the public API may rebind.
#[derive(Clone, Copy, Debug, PartialEq, Eq, Hash, Structural)]
pub enum SafeButtonSlot {
    Left,
    Right,
    Middle,
    Dpi,
    Forward,
    Backward,
}

impl SafeButtonSlot {
    pub open spec fn position(self) -> usize {
        match self {
            SafeButtonSlot::Left => 0,
            SafeButtonSlot::Right => 1,
            SafeButtonSlot::Middle => 2,
            SafeButtonSlot::Dpi => 3,
            SafeButtonSlot::Forward => 6,
            SafeButtonSlot::Backward => 7,
        }
    }

    /// The zero-based slot index within the 18-slot button table.
    pub fn index(self) -> (r: usize)
        ensures
            r == self.position(),
            r < 18,
    {
        match self {
            SafeButtonSlot::Left => 0,
            SafeButtonSlot::Right => 1,
            SafeButtonSlot::Middle => 2,
            SafeButtonSlot::Dpi => 3,
            SafeButtonSlot::Forward => 6,
            SafeButtonSlot::Backward => 7,
        }
    }
}

/// Firmware action exposed by the safe public API.
///
/// Parameterless actions map to a firmware byte with zero modifier and key
/// code; shortcut presets map to keyboard-shortcut triplets.
#[derive(Clone, Copy, Debug, PartialEq, Eq, Hash, Structural)]
pub enum SafeButtonAction {
    Disable,
    LeftClick,
    RightClick,
    MiddleClick,
    Backward,
    Forward,
    DoubleClick,
    FireButton,
    ScrollUp,
    ScrollDown,
    DpiCycle,
    DpiPlus,
    DpiMinus,
    ProfileCycle,
    ProfilePlus,
    ProfileMinus,
    MediaPlayer,
    PreviousTrack,
    NextTrack,
    PlayPause,
    Stop,
    Mute,
    VolumeUp,
    VolumeDown,
    Calculator,
    Email,
    BrowserForward,
    BrowserBackward,
    BrowserStop,
    MyComputer,
    BrowserRefresh,
    BrowserHome,
    BrowserSearch,
    BrowserFavorites,
    Cut,
    Copy,
    Paste,
    Open,
    Save,
    Find,
    Redo,
    SelectAll,
    Print,
    CloseWindow,
    SwapWindows,
    ShowDesktop,
    RunCommand,
    LockPc,
    ScreenCapture,
}

/// The firmware action that keyboard shortcuts share.
pub const SHORTCUT_ACTION: u8 = 0x11;

impl SafeButtonAction {
    /// The modifiers and key code of a shortcut preset.
    pub open spec fn shortcut(self) -> Option<(u8, u8)> {
        match self {
            SafeButtonAction::Cut => Some((0x01, 0x1b)),
            SafeButtonAction::Copy => Some((0x01, 0x06)),
            SafeButtonAction::Paste => Some((0x01, 0x19)),
            SafeButtonAction::Open => Some((0x01, 0x12)),
            SafeButtonAction::Save => Some((0x01, 0x16)),
            SafeButtonAction::Find => Some((0x01, 0x09)),
            SafeButtonAction::Redo => Some((0x01, 0x1c)),
            SafeButtonAction::SelectAll => Some((0x01, 0x04)),
            SafeButtonAction::Print => Some((0x01, 0x13)),
            SafeButtonAction::CloseWindow => Some((0x04, 0x3d)),
            SafeButtonAction::SwapWindows => Some((0x04, 0x2b)),
            SafeButtonAction::ShowDesktop => Some((0x08, 0x07)),
            SafeButtonAction::RunCommand => Some((0x08, 0x15)),
            SafeButtonAction::LockPc => Some((0x08, 0x0f)),
            SafeButtonAction::ScreenCapture => Some((0x0a, 0x16)),
            SafeButtonAction::BrowserFavorites => Some((0x03, 0x12)),
            _ => None,
        }
    }

    /// The firmware byte of an action.
    pub open spec fn action_byte(self) -> u8 {
        match self {
            SafeButtonAction::Disable => 0x01,
            SafeButtonAction::LeftClick => 0x02,
            SafeButtonAction::RightClick => 0x03,
            SafeButtonAction::MiddleClick => 0x04,
            SafeButtonAction::Backward => 0x05,
            SafeButtonAction::Forward => 0x06,
            SafeButtonAction::DoubleClick => 0x07,
            SafeButtonAction::FireButton => 0x08,
            SafeButtonAction::ScrollUp => 0x09,
            SafeButtonAction::ScrollDown => 0x0a,
            SafeButtonAction::DpiCycle => 0x0d,
            SafeButtonAction::DpiPlus => 0x0e,
            SafeButtonAction::DpiMinus => 0x0f,
            SafeButtonAction::ProfileCycle => 0x34,
            SafeButtonAction::ProfilePlus => 0x35,
            SafeButtonAction::ProfileMinus => 0x36,
            SafeButtonAction::MediaPlayer => 0x15,
            SafeButtonAction::PreviousTrack => 0x16,
            SafeButtonAction::NextTrack => 0x17,
            SafeButtonAction::PlayPause => 0x18,
            SafeButtonAction::Stop => 0x19,
            SafeButtonAction::Mute => 0x1a,
            SafeButtonAction::VolumeUp => 0x1b,
            SafeButtonAction::VolumeDown => 0x1c,
            SafeButtonAction::Calculator => 0x1d,
            SafeButtonAction::Email => 0x1e,
            SafeButtonAction::BrowserForward => 0x20,
            SafeButtonAction::BrowserBackward => 0x21,
            SafeButtonAction::BrowserStop => 0x22,
            SafeButtonAction::MyComputer => 0x23,
            SafeButtonAction::BrowserRefresh => 0x24,
            SafeButtonAction::BrowserHome => 0x25,
            SafeButtonAction::BrowserSearch => 0x26,
            _ => SHORTCUT_ACTION,
        }
    }

    /// The triplet that an action is written as.
    pub open spec fn triplet(self) -> ButtonAssignment {
        match self.shortcut() {
            Some((modifiers, key_code)) => ButtonAssignment {
                action: SHORTCUT_ACTION,
                modifiers,
                key_code,
            },
            None => ButtonAssignment { action: self.action_byte(), modifiers: 0, key_code: 0 },
        }
    }

    /// The firmware action byte for this action.
    pub fn firmware_byte(self) -> (r: u8)
        ensures
            r == self.action_byte(),
    {
        match self {
            SafeButtonAction::Disable => 0x01,
            SafeButtonAction::LeftClick => 0x02,
            SafeButtonAction::RightClick => 0x03,
            SafeButtonAction::MiddleClick => 0x04,
            SafeButtonAction::Backward => 0x05,
            SafeButtonAction::Forward => 0x06,
            SafeButtonAction::DoubleClick => 0x07,
            SafeButtonAction::FireButton => 0x08,
            SafeButtonAction::ScrollUp => 0x09,
            SafeButtonAction::ScrollDown => 0x0a,
            SafeButtonAction::DpiCycle => 0x0d,
            SafeButtonAction::DpiPlus => 0x0e,
            SafeButtonAction::DpiMinus => 0x0f,
            SafeButtonAction::ProfileCycle => 0x34,
            SafeButtonAction::ProfilePlus => 0x35,
            SafeButtonAction::ProfileMinus => 0x36,
            SafeButtonAction::MediaPlayer => 0x15,
            SafeButtonAction::PreviousTrack => 0x16,
            SafeButtonAction::NextTrack => 0x17,
            SafeButtonAction::PlayPause => 0x18,
            SafeButtonAction::Stop => 0x19,
            SafeButtonAction::Mute => 0x1a,
            SafeButtonAction::VolumeUp => 0x1b,
            SafeButtonAction::VolumeDown => 0x1c,
            SafeButtonAction::Calculator => 0x1d,
            SafeButtonAction::Email => 0x1e,
            SafeButtonAction::BrowserForward => 0x20,
            SafeButtonAction::BrowserBackward => 0x21,
            SafeButtonAction::BrowserStop => 0x22,
            SafeButtonAction::MyComputer => 0x23,
            SafeButtonAction::BrowserRefresh => 0x24,
            SafeButtonAction::BrowserHome => 0x25,
            SafeButtonAction::BrowserSearch => 0x26,
            SafeButtonAction::BrowserFavorites
            | SafeButtonAction::Cut
            | SafeButtonAction::Copy
            | SafeButtonAction::Paste
            | SafeButtonAction::Open
            | SafeButtonAction::Save
            | SafeButtonAction::Find
            | SafeButtonAction::Redo
            | SafeButtonAction::SelectAll
            | SafeButtonAction::Print
            | SafeButtonAction::CloseWindow
            | SafeButtonAction::SwapWindows
            | SafeButtonAction::ShowDesktop
            | SafeButtonAction::RunCommand
            | SafeButtonAction::LockPc
            | SafeButtonAction::ScreenCapture => 0x11,
        }
    }

    /// Converts to the triplet that the button table holds.
    pub fn to_assignment(self) -> (r: ButtonAssignment)
        ensures
            r == self.triplet(),
    {
        match self {
            SafeButtonAction::Cut => ButtonAssignment::new(0x11, 0x01, 0x1b),
            SafeButtonAction::Copy => ButtonAssignment::new(0x11, 0x01, 0x06),
            SafeButtonAction::Paste => ButtonAssignment::new(0x11, 0x01, 0x19),
            SafeButtonAction::Open => ButtonAssignment::new(0x11, 0x01, 0x12),
            SafeButtonAction::Save => ButtonAssignment::new(0x11, 0x01, 0x16),
            SafeButtonAction::Find => ButtonAssignment::new(0x11, 0x01, 0x09),
            SafeButtonAction::Redo => ButtonAssignment::new(0x11, 0x01, 0x1c),
            SafeButtonAction::SelectAll => ButtonAssignment::new(0x11, 0x01, 0x04),
            SafeButtonAction::Print => ButtonAssignment::new(0x11, 0x01, 0x13),
            SafeButtonAction::CloseWindow => ButtonAssignment::new(0x11, 0x04, 0x3d),
            SafeButtonAction::SwapWindows => ButtonAssignment::new(0x11, 0x04, 0x2b),
            SafeButtonAction::ShowDesktop => ButtonAssignment::new(0x11, 0x08, 0x07),
            SafeButtonAction::RunCommand => ButtonAssignment::new(0x11, 0x08, 0x15),
            SafeButtonAction::LockPc => ButtonAssignment::new(0x11, 0x08, 0x0f),
            SafeButtonAction::ScreenCapture => ButtonAssignment::new(0x11, 0x0a, 0x16),
            SafeButtonAction::BrowserFavorites => ButtonAssignment::new(0x11, 0x03, 0x12),
            _ => ButtonAssignment::new(self.firmware_byte(), 0, 0),
        }
    }
}

/// A bounded update to one safe button slot.
#[derive(Clone, Copy, Debug, PartialEq, Eq, Structural)]
pub struct ButtonSlotDelta {
    slot: SafeButtonSlot,
    action: SafeButtonAction,
}

impl ButtonSlotDelta {
    pub closed spec fn target(self) -> SafeButtonSlot {
        self.slot
    }

    pub closed spec fn bound(self) -> SafeButtonAction {
        self.action
    }

    /// Creates a safe slot delta.
    pub fn new(slot: SafeButtonSlot, action: SafeButtonAction) -> (r: Self)
        ensures
            r.target() == slot,
            r.bound() == action,
    {
        ButtonSlotDelta { slot, action }
    }

    /// The safe button slot.
    pub fn slot(self) -> (r: SafeButtonSlot)
        ensures
            r == self.target(),
    {
        self.slot
    }

    /// The safe button action.
    pub fn action(self) -> (r: SafeButtonAction)
        ensures
            r == self.bound(),
    {
        self.action
    }

    /// The zero-based slot index within the 18-slot table.
    pub fn slot_index(self) -> (r: usize)
        ensures
            r == self.target().position(),
            r < 18,
    {
        self.slot.index()
    }

    /// The firmware-level assignment.
    pub fn assignment(self) -> (r: ButtonAssignment)
        ensures
            r == self.bound().triplet(),
    {
        self.action.to_assignment()
    }
}

/// The button table after slot updates, the later ones on top.
pub open spec fn rebound(
    slots: Seq<ButtonAssignment>,
    deltas: Seq<ButtonSlotDelta>,
) -> Seq<ButtonAssignment>
    decreases deltas.len(),
{
    if deltas.len() == 0 {
        slots
    } else {
        let last = deltas.last();
        rebound(slots, deltas.drop_last()).update(
            last.target().position() as int,
            last.bound().triplet(),
        )
    }
}

/// Applies one slot update to a complete button table.
pub fn apply_slot_delta(baseline: ButtonsState, delta: ButtonSlotDelta) -> (r: ButtonsState)
    ensures
        r.profile == baseline.profile,
        r.slots@ == baseline.slots@.update(
            delta.target().position() as int,
            delta.bound().triplet(),
        ),
{
    let mut slots = baseline.slots;
    slots[delta.slot_index()] = delta.assignment();
    ButtonsState { profile: baseline.profile, slots }
}

/// Applies slot updates in order to a complete button table.
pub fn apply_slot_deltas(baseline: ButtonsState, deltas: &Vec<ButtonSlotDelta>) -> (r: ButtonsState)
    ensures
        r.profile == baseline.profile,
        r.slots@ == rebound(baseline.slots@, deltas@),
{
    let mut desired = baseline;
    let mut i: usize = 0;
    proof {
        assert(deltas@.subrange(0, 0) =~= Seq::<ButtonSlotDelta>::empty());
        assert(deltas@.subrange(0, deltas@.len() as int) =~= deltas@);
    }
    while i < deltas.len()
        invariant
            i <= deltas@.len(),
            desired.profile == baseline.profile,
            desired.slots@ == rebound(baseline.slots@, deltas@.subrange(0, i as int)),
        decreases deltas@.len() - i,
    {
        proof {
            assert(deltas@.subrange(0, i + 1).drop_last() =~= deltas@.subrange(0, i as int));
            assert(deltas@.subrange(0, i + 1).last() == deltas@[i as int]);
        }
        desired = apply_slot_delta(desired, deltas[i]);
        i = i + 1;
    }
    desired
}

/// A slot that no update names keeps its assignment; a slot that one update
/// names and no later one does holds that update's action.
pub proof fn law_slot_updates_are_isolated(
    slots: Seq<ButtonAssignment>,
    deltas: Seq<ButtonSlotDelta>,
    position: int,
)
    requires
        slots.len() == 18,
        0 <= position < slots.len(),
    ensures
        rebound(slots, deltas).len() == slots.len(),
        (forall|i: int|
            0 <= i < deltas.len() ==> (#[trigger] deltas[i]).target().position() != position)
            ==> rebound(slots, deltas)[position] == slots[position],
        forall|k: int|
            #![trigger deltas[k]]
            0 <= k < deltas.len() && deltas[k].target().position() == position && (forall|j: int|
                k < j < deltas.len() ==> (#[trigger] deltas[j]).target().position() != position)
                ==> rebound(slots, deltas)[position] == deltas[k].bound().triplet(),
    decreases deltas.len(),
{
    if deltas.len() > 0 {
        let front = deltas.drop_last();
        law_slot_updates_are_isolated(slots, front, position);
        let last = deltas.last();
        assert forall|k: int|
            #![trigger deltas[k]]
            0 <= k < deltas.len() && deltas[k].target().position() == position && (forall|j: int|
                k < j < deltas.len() ==> (#[trigger] deltas[j]).target().position()
                    != position) implies rebound(slots, deltas)[position]
            == deltas[k].bound().triplet() by {
            if k == deltas.len() - 1 {
            } else {
                assert(deltas[deltas.len() - 1].target().position() != position);
                assert(front[k] == deltas[k]);
                assert forall|j: int| k < j < front.len() implies (
                #[trigger] front[j]).target().position() != position by {
                    assert(front[j] == deltas[j]);
                }
            }
        }
        if forall|i: int|
            0 <= i < deltas.len() ==> (#[trigger] deltas[i]).target().position() != position {
            assert(deltas[deltas.len() - 1].target().position() != position);
            assert forall|i: int| 0 <= i < front.len() implies (
            #[trigger] front[i]).target().position() != position by {
                assert(front[i] == deltas[i]);
            }
        }
    }
}

/// Distinct actions are written as distinct triplets.
pub proof fn law_actions_are_distinct(a: SafeButtonAction, b: SafeButtonAction)
    ensures
        a.triplet() == b.triplet() ==> a == b,
        a.shortcut() is Some <==> a.action_byte() == SHORTCUT_ACTION,
        a.triplet().action == a.action_byte(),
{
}

/// Every safe slot has a place of its own in the table, and an update names
/// the place and the action that it was made for.
pub proof fn law_slots_are_distinct(a: SafeButtonSlot, b: SafeButtonSlot)
    ensures
        a.position() == b.position() ==> a == b,
        a.position() < 18,
{
}

/// An update is found in the table where its slot is and nowhere else: the
/// last one that names a slot decides what the slot does.
pub proof fn law_last_binding_wins(
    slots: Seq<ButtonAssignment>,
    deltas: Seq<ButtonSlotDelta>,
    last: ButtonSlotDelta,
    other: int,
)
    requires
        slots.len() == 18,
        0 <= other < 18,
        other != last.target().position(),
    ensures
        rebound(slots, deltas.push(last))[last.target().position() as int] == last.bound().triplet(),
        rebound(slots, deltas.push(last))[other] == rebound(slots, deltas)[other],
        rebound(slots, Seq::<ButtonSlotDelta>::empty()) == slots,
{
    law_slot_updates_are_isolated(slots, deltas, other);
    assert(deltas.push(last).drop_last() =~= deltas);
    assert(deltas.push(last).last() == last);
}

/// A shortcut carries modifiers or a key, and every other action carries
/// neither.
pub proof fn law_only_shortcuts_carry_keys(action: SafeButtonAction)
    ensures
        action.triplet().action == SHORTCUT_ACTION ==> action.triplet().key_code != 0
            && action.triplet().modifiers != 0,
        action.triplet().action != SHORTCUT_ACTION ==> action.triplet().key_code == 0
            && action.triplet().modifiers == 0,
        action.triplet().action != 0,
{
}

/// The key code that a keyboard sends for a letter.
pub open spec fn letter_key(letter: char) -> int {
    4 + (letter as int - 'a' as int)
}

/// A shortcut preset is the chord that a keyboard would send: the letter of the
/// command with the modifiers that go with it, which are the bits of control,
/// shift, alt and the system key.
pub proof fn law_shortcuts_are_keyboard_chords(action: SafeButtonAction, r: ButtonAssignment)
    requires
        call_ensures(SafeButtonAction::to_assignment, (action,), r),
    ensures
        ({
            let control = 1int;
            let shift = 2int;
            let alt = 4int;
            let system = 8int;
            let chord = |modifiers: int, key: int| r.action == 0x11 && r.modifiers == modifiers
                && r.key_code == key;
            &&& action is Cut ==> chord(control, letter_key('x'))
            &&& action is Copy ==> chord(control, letter_key('c'))
            &&& action is Paste ==> chord(control, letter_key('v'))
            &&& action is Open ==> chord(control, letter_key('o'))
            &&& action is Save ==> chord(control, letter_key('s'))
            &&& action is Find ==> chord(control, letter_key('f'))
            &&& action is Redo ==> chord(control, letter_key('y'))
            &&& action is SelectAll ==> chord(control, letter_key('a'))
            &&& action is Print ==> chord(control, letter_key('p'))
            &&& action is CloseWindow ==> chord(alt, 0x3d)
            &&& action is SwapWindows ==> chord(alt, 0x2b)
            &&& action is ShowDesktop ==> chord(system, letter_key('d'))
            &&& action is RunCommand ==> chord(system, letter_key('r'))
            &&& action is LockPc ==> chord(system, letter_key('l'))
            &&& action is ScreenCapture ==> chord(system + shift, letter_key('s'))
            &&& action is BrowserFavorites ==> chord(control + shift, letter_key('o'))
        }),
{
}

/// The firmware numbers the other actions in groups: clicks and scrolling from
/// one, sensitivity from thirteen, media keys and applications from twenty-one,
/// the browser from thirty-two, and profiles from fifty-two.
pub proof fn law_firmware_actions_are_numbered(action: SafeButtonAction, r: u8)
    requires
        call_ensures(SafeButtonAction::firmware_byte, (action,), r),
    ensures
        action is Disable ==> r == 1,
        action is LeftClick ==> r == 2,
        action is RightClick ==> r == 3,
        action is MiddleClick ==> r == 4,
        action is Backward ==> r == 5,
        action is Forward ==> r == 6,
        action is DoubleClick ==> r == 7,
        action is FireButton ==> r == 8,
        action is ScrollUp ==> r == 9,
        action is ScrollDown ==> r == 10,
        action is DpiCycle ==> r == 13,
        action is DpiPlus ==> r == 14,
        action is DpiMinus ==> r == 15,
        action is MediaPlayer ==> r == 21,
        action is PreviousTrack ==> r == 22,
        action is NextTrack ==> r == 23,
        action is PlayPause ==> r == 24,
        action is Stop ==> r == 25,
        action is Mute ==> r == 26,
        action is VolumeUp ==> r == 27,
        action is VolumeDown ==> r == 28,
        action is Calculator ==> r == 29,
        action is Email ==> r == 30,
        action is BrowserForward ==> r == 32,
        action is BrowserBackward ==> r == 33,
        action is BrowserStop ==> r == 34,
        action is MyComputer ==> r == 35,
        action is BrowserRefresh ==> r == 36,
        action is BrowserHome ==> r == 37,
        action is BrowserSearch ==> r == 38,
        action is ProfileCycle ==> r == 52,
        action is ProfilePlus ==> r == 53,
        action is ProfileMinus ==> r == 54,
{
}

/// The table starts with the left, right, middle and sensitivity buttons; the
/// two side buttons stand behind two places that cannot be rebound.
pub proof fn law_slots_have_their_places(slot: SafeButtonSlot, r: usize)
    requires
        call_ensures(SafeButtonSlot::index, (slot,), r),
    ensures
        slot is Left ==> r == 0,
        slot is Right ==> r == 1,
        slot is Middle ==> r == 2,
        slot is Dpi ==> r == 3,
        slot is Forward ==> r == 3 + 2 + 1,
        slot is Backward ==> r == 3 + 2 + 2,
{
}

} // verus!
