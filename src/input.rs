use vstd::prelude::*;
use crate::report::{ControllerState, STICK_CENTER, STICK_DEFLECTION};

verus! {

/// How many keys can be held at once.
pub const KEY_SLOTS: usize = 6;
/// Key events taken from the source in one tick.
pub const KEY_EVENTS_PER_TICK: usize = 6;
/// Mouse events taken from the source in one tick.
pub const MOUSE_EVENTS_PER_TICK: usize = 1000;
/// Ticks without motion after which accumulated motion is dropped.
pub const MOTION_IDLE_TICKS: u32 = 4;
/// Ticks without wheel movement after which the accumulated wheel is dropped.
pub const WHEEL_IDLE_TICKS: u32 = 10;
/// Bound of the accumulated wheel movement, either way.
pub const WHEEL_LIMIT: i32 = 127;
/// The buttons that are always reported as held.
pub const BASE_BUTTONS: u32 = 0x008000;

/// A key went down or up.
#[derive(Debug, Clone, Copy, PartialEq, Eq, Structural)]
pub struct KeyEvent {
    pub scancode: u32,
    pub pressed: bool,
}

/// Mouse buttons and motion since the previous mouse event.
#[derive(Debug, Clone, Copy, PartialEq, Eq, Structural)]
pub struct MouseEvent {
    /// Bitmask of the buttons the event is about.
    pub button: u8,
    pub pressed: bool,
    pub dx: i16,
    pub dy: i16,
    pub wheel_dx: i8,
    pub wheel_dy: i8,
}

/// The slot code of a key: the low byte of its scancode.
pub open spec fn key_code(scancode: u32) -> u8 {
    (scancode & 0xff) as u8
}

/// The keys held in the slots; zero marks a free slot.
pub open spec fn held_keys(slots: Seq<u8>) -> Set<u8> {
    Set::new(|k: u8| k != 0 && slots.contains(k))
}

/// Every key occupies at most one slot.
pub open spec fn slots_wf(slots: Seq<u8>) -> bool {
    &&& slots.len() == KEY_SLOTS
    &&& forall|i: int, j: int|
        0 <= i < slots.len() && 0 <= j < slots.len() && i != j && slots[i] != 0 ==> slots[i]
            != slots[j]
}

/// `i` is the first free slot.
pub open spec fn is_first_free(slots: Seq<u8>, i: int) -> bool {
    &&& 0 <= i < slots.len()
    &&& slots[i] == 0
    &&& forall|j: int| 0 <= j < i ==> slots[j] != 0
}

/// A press takes the first free slot, unless the key already holds one or
/// every slot is taken.
pub open spec fn press_spec(slots: Seq<u8>, k: u8) -> Seq<u8> {
    if slots.contains(k) {
        slots
    } else {
        Seq::new(slots.len(), |i: int| if is_first_free(slots, i) { k } else { slots[i] })
    }
}

/// A release frees every slot that holds the key.
pub open spec fn release_spec(slots: Seq<u8>, k: u8) -> Seq<u8> {
    Seq::new(slots.len(), |i: int| if slots[i] == k { 0u8 } else { slots[i] })
}

pub open spec fn key_event_spec(slots: Seq<u8>, e: KeyEvent) -> Seq<u8> {
    if e.pressed {
        press_spec(slots, key_code(e.scancode))
    } else {
        release_spec(slots, key_code(e.scancode))
    }
}

/// The slots after a run of key events.
pub open spec fn key_events_spec(slots: Seq<u8>, events: Seq<KeyEvent>) -> Seq<u8>
    decreases events.len(),
{
    if events.len() == 0 {
        slots
    } else {
        key_event_spec(key_events_spec(slots, events.drop_last()), events.last())
    }
}

/// The keys physically held after a run of key events: those whose latest
/// event was a press.
pub open spec fn keys_down(down: Set<u8>, events: Seq<KeyEvent>) -> Set<u8>
    decreases events.len(),
{
    if events.len() == 0 {
        down
    } else {
        let before = keys_down(down, events.drop_last());
        let k = key_code(events.last().scancode);
        if events.last().pressed {
            before.insert(k)
        } else {
            before.remove(k)
        }
    }
}

proof fn lemma_press_at(slots: Seq<u8>, k: u8, f: int)
    requires
        !slots.contains(k),
        is_first_free(slots, f),
    ensures
        press_spec(slots, k) == slots.update(f, k),
{
    assert forall|i: int| 0 <= i < slots.len() implies #[trigger] is_first_free(slots, i) == (i == f) by {
        if i < f {
            assert(slots[i] != 0);
        } else if f < i {
            assert(!(forall|j: int| 0 <= j < i ==> slots[j] != 0)) by {
                assert(slots[f] == 0);
            }
        }
    }
    assert(press_spec(slots, k) =~= slots.update(f, k));
}

proof fn lemma_press_full(slots: Seq<u8>, k: u8)
    requires
        !slots.contains(0u8),
    ensures
        press_spec(slots, k) == slots,
{
    if !slots.contains(k) {
        assert forall|i: int| 0 <= i < slots.len() implies !#[trigger] is_first_free(slots, i) by {
            if slots[i] == 0 {
                assert(slots.contains(0u8));
            }
        }
        assert(press_spec(slots, k) =~= slots);
    }
}

proof fn lemma_first_free_exists(slots: Seq<u8>, z: int) -> (f: int)
    requires
        0 <= z < slots.len(),
        slots[z] == 0,
    ensures
        is_first_free(slots, f),
    decreases z,
{
    if forall|j: int| 0 <= j < z ==> slots[j] != 0 {
        z
    } else {
        let j = choose|j: int| 0 <= j < z && slots[j] == 0;
        lemma_first_free_exists(slots, j)
    }
}

proof fn lemma_press_held(slots: Seq<u8>, k: u8)
    requires
        slots_wf(slots),
    ensures
        slots_wf(press_spec(slots, k)),
        held_keys(press_spec(slots, k)) <= held_keys(slots).insert(k),
        held_keys(slots) <= held_keys(press_spec(slots, k)),
{
    if !slots.contains(0u8) {
        lemma_press_full(slots, k);
    } else if !slots.contains(k) {
        let z = choose|i: int| 0 <= i < slots.len() && slots[i] == 0u8;
        let f = lemma_first_free_exists(slots, z);
        lemma_press_at(slots, k, f);
        let s2 = press_spec(slots, k);
        assert(s2 == slots.update(f, k));
        assert forall|x: u8| held_keys(s2).contains(x) implies held_keys(slots).insert(k).contains(x) by {
            let i = choose|i: int| 0 <= i < s2.len() && s2[i] == x;
            if i != f {
                assert(slots[i] == x);
            }
        }
        assert forall|x: u8| held_keys(slots).contains(x) implies held_keys(s2).contains(x) by {
            let i = choose|i: int| 0 <= i < slots.len() && slots[i] == x;
            assert(s2[i] == x);
        }
    }
}

proof fn lemma_release_held(slots: Seq<u8>, k: u8)
    requires
        slots_wf(slots),
    ensures
        slots_wf(release_spec(slots, k)),
        held_keys(release_spec(slots, k)) == held_keys(slots).remove(k),
{
    let s2 = release_spec(slots, k);
    assert forall|x: u8| held_keys(s2).contains(x) <==> held_keys(slots).remove(k).contains(x) by {
        if held_keys(s2).contains(x) {
            let i = choose|i: int| 0 <= i < s2.len() && s2[i] == x;
            assert(slots[i] == x);
        }
        if held_keys(slots).remove(k).contains(x) {
            let i = choose|i: int| 0 <= i < slots.len() && slots[i] == x;
            assert(s2[i] == x);
        }
    }
    assert(held_keys(s2) =~= held_keys(slots).remove(k));
}

/// The number of occupied slots.
pub open spec fn occupied(slots: Seq<u8>) -> nat
    decreases slots.len(),
{
    if slots.len() == 0 {
        0
    } else {
        occupied(slots.drop_last()) + if slots.last() != 0 {
            1nat
        } else {
            0nat
        }
    }
}

proof fn lemma_held_count(slots: Seq<u8>)
    requires
        forall|i: int, j: int|
            0 <= i < slots.len() && 0 <= j < slots.len() && i != j && slots[i] != 0 ==> slots[i]
                != slots[j],
    ensures
        held_keys(slots).finite(),
        held_keys(slots).len() == occupied(slots),
    decreases slots.len(),
{
    if slots.len() == 0 {
        assert(held_keys(slots) =~= Set::empty());
    } else {
        let p = slots.drop_last();
        let k = slots.last();
        lemma_held_count(p);
        if k != 0 {
            assert forall|x: u8| held_keys(slots).contains(x) <==> held_keys(p).insert(k).contains(x) by {
                if held_keys(slots).contains(x) && x != k {
                    let i = choose|i: int| 0 <= i < slots.len() && slots[i] == x;
                    assert(p[i] == x);
                }
                if held_keys(p).contains(x) {
                    let i = choose|i: int| 0 <= i < p.len() && p[i] == x;
                    assert(slots[i] == x);
                }
                if x == k {
                    assert(slots[slots.len() - 1] == x);
                }
            }
            assert(held_keys(slots) =~= held_keys(p).insert(k));
            if held_keys(p).contains(k) {
                let i = choose|i: int| 0 <= i < p.len() && p[i] == k;
                assert(slots[i] == slots[slots.len() - 1]);
            }
        } else {
            assert forall|x: u8| held_keys(slots).contains(x) <==> held_keys(p).contains(x) by {
                if held_keys(slots).contains(x) {
                    let i = choose|i: int| 0 <= i < slots.len() && slots[i] == x;
                    assert(p[i] == x);
                }
                if held_keys(p).contains(x) {
                    let i = choose|i: int| 0 <= i < p.len() && p[i] == x;
                    assert(slots[i] == x);
                }
            }
            assert(held_keys(slots) =~= held_keys(p));
        }
    }
}

proof fn lemma_keys_down_finite(down: Set<u8>, events: Seq<KeyEvent>)
    requires
        down.finite(),
    ensures
        keys_down(down, events).finite(),
    decreases events.len(),
{
    if events.len() > 0 {
        lemma_keys_down_finite(down, events.drop_last());
    }
}

/// Starting from free slots, however keys go down and up, every key holds
/// at most one slot and only keys that are physically held hold one, so
/// the occupied slots never outnumber the distinct keys held down; and a
/// release frees exactly the slots of its key.
pub proof fn lemma_slots_follow_keys(events: Seq<KeyEvent>)
    ensures
        slots_wf(key_events_spec(Seq::new(6, |i: int| 0u8), events)),
        held_keys(key_events_spec(Seq::new(6, |i: int| 0u8), events)) <= keys_down(
            Set::empty(),
            events,
        ),
        occupied(key_events_spec(Seq::new(6, |i: int| 0u8), events)) == held_keys(
            key_events_spec(Seq::new(6, |i: int| 0u8), events),
        ).len(),
        occupied(key_events_spec(Seq::new(6, |i: int| 0u8), events)) <= keys_down(
            Set::empty(),
            events,
        ).len(),
        events.len() > 0 && !events.last().pressed ==> ({
            let before = key_events_spec(Seq::new(6, |i: int| 0u8), events.drop_last());
            let after = key_events_spec(Seq::new(6, |i: int| 0u8), events);
            let k = key_code(events.last().scancode);
            forall|i: int|
                0 <= i < 6 ==> #[trigger] after[i] == if before[i] == k {
                    0u8
                } else {
                    before[i]
                }
        }),
    decreases events.len(),
{
    let empty = Seq::new(6, |i: int| 0u8);
    if events.len() == 0 {
        assert(held_keys(empty) =~= Set::empty());
    } else {
        lemma_slots_follow_keys(events.drop_last());
        let before = key_events_spec(empty, events.drop_last());
        let k = key_code(events.last().scancode);
        if events.last().pressed {
            lemma_press_held(before, k);
        } else {
            lemma_release_held(before, k);
        }
    }
    let after = key_events_spec(empty, events);
    lemma_held_count(after);
    lemma_keys_down_finite(Set::empty(), events);
    vstd::set_lib::lemma_len_subset(held_keys(after), keys_down(Set::empty(), events));
}

/// The controller buttons a key is mapped to.
pub open spec fn button_of(k: u8) -> u32 {
    if k == 0x50 {
        0x000008
    } else if k == 0x4f {
        0x000004
    } else if k == 0x52 {
        0x000002
    } else if k == 0x51 {
        0x000001
    } else if k == 0x16 || k == 0x38 {
        0x080000
    } else if k == 0x04 || k == 0x37 {
        0x040000
    } else if k == 0x34 || k == 0x1b {
        0x020000
    } else if k == 0x33 || k == 0x1d {
        0x010000
    } else if k == 0x1e {
        0x100000
    } else if k == 0x1f {
        0x200000
    } else if k == 0x20 {
        0x000800
    } else if k == 0x21 {
        0x000400
    } else if k == 0x14 {
        0x000040
    } else if k == 0x08 {
        0x400000
    } else if k == 0x28 || k == 0x2e {
        0x000200
    } else if k == 0x31 {
        0x001000
    } else if k == 0x27 {
        0x002000
    } else if k == 0x15 {
        0x000080
    } else if k == 0x09 {
        0x800000
    } else if k == 0x2d {
        0x000100
    } else {
        0
    }
}

/// Maps a key to its controller buttons.
pub fn button_for_key(k: u8) -> (r: u32)
    ensures
        r == button_of(k),
        r < 0x100_0000,
{
    if k == 0x50 {
        0x000008
    } else if k == 0x4f {
        0x000004
    } else if k == 0x52 {
        0x000002
    } else if k == 0x51 {
        0x000001
    } else if k == 0x16 || k == 0x38 {
        0x080000
    } else if k == 0x04 || k == 0x37 {
        0x040000
    } else if k == 0x34 || k == 0x1b {
        0x020000
    } else if k == 0x33 || k == 0x1d {
        0x010000
    } else if k == 0x1e {
        0x100000
    } else if k == 0x1f {
        0x200000
    } else if k == 0x20 {
        0x000800
    } else if k == 0x21 {
        0x000400
    } else if k == 0x14 {
        0x000040
    } else if k == 0x08 {
        0x400000
    } else if k == 0x28 || k == 0x2e {
        0x000200
    } else if k == 0x31 {
        0x001000
    } else if k == 0x27 {
        0x002000
    } else if k == 0x15 {
        0x000080
    } else if k == 0x09 {
        0x800000
    } else if k == 0x2d {
        0x000100
    } else {
        0
    }
}

/// Left stick X, left stick Y, right stick X, right stick Y.
pub type Sticks = (u16, u16, u16, u16);

pub open spec fn stick_low() -> u16 {
    (STICK_CENTER - STICK_DEFLECTION) as u16
}

pub open spec fn stick_high() -> u16 {
    (STICK_CENTER + STICK_DEFLECTION) as u16
}

/// What a held key does to the sticks.
pub open spec fn stick_key(k: u8, s: Sticks) -> Sticks {
    if k == 0x36 {
        (stick_high(), s.1, s.2, s.3)
    } else if k == 0x06 {
        (stick_low(), s.1, s.2, s.3)
    } else if k == 0x2c {
        (stick_low(), s.1, stick_high(), s.3)
    } else if k == 0x0c {
        (s.0, s.1, s.2, stick_high())
    } else if k == 0x0d {
        (s.0, s.1, stick_low(), s.3)
    } else if k == 0x0e {
        (s.0, s.1, s.2, stick_low())
    } else if k == 0x0f {
        (s.0, s.1, stick_high(), s.3)
    } else {
        s
    }
}

fn apply_stick_key(k: u8, s: Sticks) -> (r: Sticks)
    ensures
        r == stick_key(k, s),
{
    let low = STICK_CENTER - STICK_DEFLECTION;
    let high = STICK_CENTER + STICK_DEFLECTION;
    if k == 0x36 {
        (high, s.1, s.2, s.3)
    } else if k == 0x06 {
        (low, s.1, s.2, s.3)
    } else if k == 0x2c {
        (low, s.1, high, s.3)
    } else if k == 0x0c {
        (s.0, s.1, s.2, high)
    } else if k == 0x0d {
        (s.0, s.1, low, s.3)
    } else if k == 0x0e {
        (s.0, s.1, s.2, low)
    } else if k == 0x0f {
        (s.0, s.1, high, s.3)
    } else {
        s
    }
}

/// The buttons of the held keys, together.
pub open spec fn buttons_of(slots: Seq<u8>) -> u32
    decreases slots.len(),
{
    if slots.len() == 0 {
        0
    } else {
        buttons_of(slots.drop_last()) | button_of(slots.last())
    }
}

/// The sticks after the held keys, in slot order, each acted on them.
pub open spec fn sticks_of(slots: Seq<u8>) -> Sticks
    decreases slots.len(),
{
    if slots.len() == 0 {
        (STICK_CENTER, STICK_CENTER, STICK_CENTER, STICK_CENTER)
    } else {
        stick_key(slots.last(), sticks_of(slots.drop_last()))
    }
}

/// Everything the aggregator keeps between ticks.
pub struct InputView {
    pub slots: Seq<u8>,
    pub mouse_buttons: u8,
    pub dx: i32,
    pub dy: i32,
    pub wheel_dx: i32,
    pub wheel_dy: i32,
    pub motion_idle: u32,
    pub wheel_idle: u32,
}

/// `v` held within the range of `i32`.
pub open spec fn saturating(v: int) -> i32 {
    if v > i32::MAX {
        i32::MAX
    } else if v < i32::MIN {
        i32::MIN
    } else {
        v as i32
    }
}

/// `v` held within the wheel's bound.
pub open spec fn clamp_wheel(v: int) -> i32 {
    if v > WHEEL_LIMIT {
        WHEEL_LIMIT
    } else if v < -WHEEL_LIMIT {
        (-WHEEL_LIMIT) as i32
    } else {
        v as i32
    }
}

/// The aggregator after one mouse event.
pub open spec fn mouse_event_spec(v: InputView, e: MouseEvent) -> InputView {
    InputView {
        mouse_buttons: if e.pressed {
            v.mouse_buttons | e.button
        } else {
            v.mouse_buttons & !e.button
        },
        dx: saturating(v.dx + e.dx),
        dy: saturating(v.dy + e.dy),
        motion_idle: if e.dx != 0 || e.dy != 0 {
            0
        } else {
            v.motion_idle
        },
        wheel_dx: clamp_wheel(v.wheel_dx + e.wheel_dx),
        wheel_dy: clamp_wheel(v.wheel_dy + e.wheel_dy),
        wheel_idle: if e.wheel_dx != 0 || e.wheel_dy != 0 {
            0
        } else {
            v.wheel_idle
        },
        ..v
    }
}

pub open spec fn mouse_events_spec(v: InputView, events: Seq<MouseEvent>) -> InputView
    decreases events.len(),
{
    if events.len() == 0 {
        v
    } else {
        mouse_event_spec(mouse_events_spec(v, events.drop_last()), events.last())
    }
}

/// One tick of the mouse: both idle counts go up, the events are folded in,
/// and motion or wheel movement that has been idle long enough is dropped.
pub open spec fn mouse_tick_spec(v: InputView, events: Seq<MouseEvent>) -> InputView {
    let started = InputView {
        motion_idle: if v.motion_idle < u32::MAX {
            (v.motion_idle + 1) as u32
        } else {
            v.motion_idle
        },
        wheel_idle: if v.wheel_idle < u32::MAX {
            (v.wheel_idle + 1) as u32
        } else {
            v.wheel_idle
        },
        ..v
    };
    let m = mouse_events_spec(started, events);
    let m2 = if m.motion_idle >= MOTION_IDLE_TICKS {
        InputView { dx: 0, dy: 0, ..m }
    } else {
        m
    };
    if m2.wheel_idle >= WHEEL_IDLE_TICKS {
        InputView { wheel_dx: 0, wheel_dy: 0, ..m2 }
    } else {
        m2
    }
}

/// The controller state the aggregator reports.
pub open spec fn state_of(v: InputView) -> ControllerState {
    let keyed = sticks_of(v.slots);
    let after_motion = if v.dx < 0 {
        (stick_low(), keyed.1, keyed.2, keyed.3)
    } else if v.dx > 0 {
        (stick_high(), keyed.1, keyed.2, keyed.3)
    } else {
        keyed
    };
    let sticks = if v.wheel_dy < 0 {
        (stick_low(), after_motion.1, stick_high(), after_motion.3)
    } else if v.wheel_dy > 0 {
        (stick_high(), after_motion.1, stick_low(), after_motion.3)
    } else {
        after_motion
    };
    ControllerState {
        buttons: BASE_BUTTONS | buttons_of(v.slots),
        left_x: sticks.0,
        left_y: sticks.1,
        right_x: sticks.2,
        right_y: sticks.3,
        accel_x: -688i16,
        accel_y: -100i16,
        accel_z: 4038,
        gyro_x: 16,
        gyro_y: 16,
        gyro_z: 0,
    }
}

proof fn lemma_or_24(a: u32, b: u32)
    requires
        a < 0x100_0000,
        b < 0x100_0000,
    ensures
        a | b < 0x100_0000,
{
    assert(a | b < 0x100_0000) by (bit_vector)
        requires
            a < 0x100_0000,
            b < 0x100_0000,
    ;
}

proof fn lemma_state_wf(slots: Seq<u8>)
    ensures
        buttons_of(slots) < 0x100_0000,
        sticks_of(slots).0 < 0x1000,
        sticks_of(slots).1 < 0x1000,
        sticks_of(slots).2 < 0x1000,
        sticks_of(slots).3 < 0x1000,
    decreases slots.len(),
{
    if slots.len() > 0 {
        lemma_state_wf(slots.drop_last());
        lemma_or_24(buttons_of(slots.drop_last()), button_of(slots.last()));
    }
}

/// Folds raw input events into one controller-state snapshot per tick.
pub struct InputAggregator {
    slots: Vec<u8>,
    mouse_buttons: u8,
    dx: i32,
    dy: i32,
    wheel_dx: i32,
    wheel_dy: i32,
    motion_idle: u32,
    wheel_idle: u32,
}

impl View for InputAggregator {
    type V = InputView;

    closed spec fn view(&self) -> InputView {
        InputView {
            slots: self.slots@,
            mouse_buttons: self.mouse_buttons,
            dx: self.dx,
            dy: self.dy,
            wheel_dx: self.wheel_dx,
            wheel_dy: self.wheel_dy,
            motion_idle: self.motion_idle,
            wheel_idle: self.wheel_idle,
        }
    }
}

impl InputAggregator {
    /// Free slots and accumulated movement within the wheel's bound.
    pub open spec fn wf(&self) -> bool {
        &&& slots_wf(self@.slots)
        &&& -WHEEL_LIMIT <= self@.wheel_dx <= WHEEL_LIMIT
        &&& -WHEEL_LIMIT <= self@.wheel_dy <= WHEEL_LIMIT
    }

    /// No key held, no motion.
    pub fn new() -> (r: InputAggregator)
        ensures
            r.wf(),
            r@.slots == Seq::new(6, |i: int| 0u8),
            r@.mouse_buttons == 0,
            r@.dx == 0 && r@.dy == 0 && r@.wheel_dx == 0 && r@.wheel_dy == 0,
            r@.motion_idle == 0 && r@.wheel_idle == 0,
    {
        let mut slots: Vec<u8> = Vec::new();
        let mut i: usize = 0;
        while i < KEY_SLOTS
            invariant
                i <= KEY_SLOTS,
                slots@ == Seq::new(i as nat, |j: int| 0u8),
            decreases KEY_SLOTS - i,
        {
            slots.push(0);
            i = i + 1;
            assert(slots@ =~= Seq::new(i as nat, |j: int| 0u8));
        }
        InputAggregator {
            slots,
            mouse_buttons: 0,
            dx: 0,
            dy: 0,
            wheel_dx: 0,
            wheel_dy: 0,
            motion_idle: 0,
            wheel_idle: 0,
        }
    }

    /// The key held in each slot, zero where the slot is free.
    pub fn slots(&self) -> (r: Vec<u8>)
        ensures
            r@ == self@.slots,
    {
        self.slots.clone()
    }

    /// A key went down: it takes the first free slot unless it already
    /// holds one or every slot is taken.
    pub fn press(&mut self, scancode: u32)
        requires
            old(self).wf(),
        ensures
            final(self).wf(),
            final(self)@ == (InputView { slots: press_spec(old(self)@.slots, key_code(scancode)), ..old(self)@ }),
    {
        proof {
            assert(scancode & 0xff < 256) by (bit_vector);
        }
        let k = (scancode & 0xff) as u8;
        let ghost s = self.slots@;
        let mut already = false;
        let mut free: usize = KEY_SLOTS;
        let mut i: usize = 0;
        while i < KEY_SLOTS
            invariant
                self.slots@ == s,
                s.len() == KEY_SLOTS,
                i <= KEY_SLOTS,
                already == exists|j: int| 0 <= j < i && s[j] == k,
                free <= KEY_SLOTS,
                free == KEY_SLOTS ==> forall|j: int| 0 <= j < i ==> s[j] != 0,
                free < KEY_SLOTS ==> is_first_free(s, free as int),
            decreases KEY_SLOTS - i,
        {
            if self.slots[i] == k {
                already = true;
            }
            if free == KEY_SLOTS && self.slots[i] == 0 {
                free = i;
            }
            i = i + 1;
        }
        proof {
            lemma_press_held(s, k);
            if free < KEY_SLOTS {
                if !already {
                    lemma_press_at(s, k, free as int);
                }
            } else {
                assert(!s.contains(0u8));
                lemma_press_full(s, k);
            }
        }
        if !already && free < KEY_SLOTS {
            self.slots.set(free, k);
        }
    }

    /// A key went up: every slot that holds it is freed.
    pub fn release(&mut self, scancode: u32)
        requires
            old(self).wf(),
        ensures
            final(self).wf(),
            final(self)@ == (InputView { slots: release_spec(old(self)@.slots, key_code(scancode)), ..old(self)@ }),
    {
        proof {
            assert(scancode & 0xff < 256) by (bit_vector);
        }
        let k = (scancode & 0xff) as u8;
        let ghost s = self.slots@;
        let ghost v0 = self@;
        let mut i: usize = 0;
        while i < KEY_SLOTS
            invariant
                self@ == (InputView { slots: self@.slots, ..v0 }),
                s == v0.slots,
                s.len() == KEY_SLOTS,
                self.slots@.len() == KEY_SLOTS,
                i <= KEY_SLOTS,
                forall|j: int| 0 <= j < i ==> self.slots@[j] == (if s[j] == k { 0u8 } else { s[j] }),
                forall|j: int| i <= j < KEY_SLOTS ==> self.slots@[j] == s[j],
            decreases KEY_SLOTS - i,
        {
            if self.slots[i] == k {
                self.slots.set(i, 0);
            }
            i = i + 1;
        }
        assert(self.slots@ =~= release_spec(s, k));
        proof {
            lemma_release_held(s, k);
        }
    }

    /// Applies one key event.
    pub fn key_event(&mut self, e: KeyEvent)
        requires
            old(self).wf(),
        ensures
            final(self).wf(),
            final(self)@ == (InputView { slots: key_event_spec(old(self)@.slots, e), ..old(self)@ }),
    {
        if e.pressed {
            self.press(e.scancode);
        } else {
            self.release(e.scancode);
        }
    }

    /// Applies a run of key events in order.
    pub fn key_events(&mut self, events: &[KeyEvent])
        requires
            old(self).wf(),
        ensures
            final(self).wf(),
            final(self)@ == (InputView { slots: key_events_spec(old(self)@.slots, events@), ..old(self)@ }),
    {
        let ghost start = self@;
        let mut i: usize = 0;
        while i < events.len()
            invariant
                self.wf(),
                i <= events@.len(),
                self@ == (InputView { slots: key_events_spec(start.slots, events@.subrange(0, i as int)), ..start }),
            decreases events@.len() - i,
        {
            assert(events@.subrange(0, i + 1).drop_last() =~= events@.subrange(0, i as int));
            self.key_event(events[i]);
            i = i + 1;
        }
        assert(events@.subrange(0, events@.len() as int) =~= events@);
    }

    /// Applies one mouse event.
    pub fn mouse_event(&mut self, e: MouseEvent)
        requires
            old(self).wf(),
        ensures
            final(self).wf(),
            final(self)@ == mouse_event_spec(old(self)@, e),
    {
        if e.pressed {
            self.mouse_buttons = self.mouse_buttons | e.button;
        } else {
            self.mouse_buttons = self.mouse_buttons & !e.button;
        }
        self.dx = add_motion(self.dx, e.dx);
        self.dy = add_motion(self.dy, e.dy);
        if e.dx != 0 || e.dy != 0 {
            self.motion_idle = 0;
        }
        self.wheel_dx = clamp_wheel_exec(self.wheel_dx + e.wheel_dx as i32);
        self.wheel_dy = clamp_wheel_exec(self.wheel_dy + e.wheel_dy as i32);
        if e.wheel_dx != 0 || e.wheel_dy != 0 {
            self.wheel_idle = 0;
        }
    }

    /// One tick of mouse input: counts the tick as idle, folds the events
    /// in, and drops motion or wheel movement that has been idle long enough.
    pub fn mouse_tick(&mut self, events: &[MouseEvent])
        requires
            old(self).wf(),
        ensures
            final(self).wf(),
            final(self)@ == mouse_tick_spec(old(self)@, events@),
    {
        self.motion_idle = count_idle(self.motion_idle);
        self.wheel_idle = count_idle(self.wheel_idle);
        let ghost started = self@;
        let mut i: usize = 0;
        while i < events.len()
            invariant
                self.wf(),
                i <= events@.len(),
                self@ == mouse_events_spec(started, events@.subrange(0, i as int)),
            decreases events@.len() - i,
        {
            assert(events@.subrange(0, i + 1).drop_last() =~= events@.subrange(0, i as int));
            self.mouse_event(events[i]);
            i = i + 1;
        }
        assert(events@.subrange(0, events@.len() as int) =~= events@);
        if self.motion_idle >= MOTION_IDLE_TICKS {
            self.dx = 0;
            self.dy = 0;
        }
        if self.wheel_idle >= WHEEL_IDLE_TICKS {
            self.wheel_dx = 0;
            self.wheel_dy = 0;
        }
    }

    /// The controller state that the held keys and recent motion give.
    pub fn snapshot(&self) -> (r: ControllerState)
        ensures
            r == state_of(self@),
            r.wf(),
    {
        let mut buttons: u32 = 0;
        let mut sticks: Sticks = (STICK_CENTER, STICK_CENTER, STICK_CENTER, STICK_CENTER);
        let mut i: usize = 0;
        while i < self.slots.len()
            invariant
                i <= self.slots@.len(),
                buttons == buttons_of(self.slots@.subrange(0, i as int)),
                sticks == sticks_of(self.slots@.subrange(0, i as int)),
            decreases self.slots@.len() - i,
        {
            assert(self.slots@.subrange(0, i + 1).drop_last() =~= self.slots@.subrange(0, i as int));
            buttons = buttons | button_for_key(self.slots[i]);
            sticks = apply_stick_key(self.slots[i], sticks);
            i = i + 1;
        }
        assert(self.slots@.subrange(0, self.slots@.len() as int) =~= self.slots@);
        proof {
            lemma_state_wf(self.slots@);
            lemma_or_24(BASE_BUTTONS, buttons);
        }
        let low = STICK_CENTER - STICK_DEFLECTION;
        let high = STICK_CENTER + STICK_DEFLECTION;
        if self.dx < 0 {
            sticks.0 = low;
        } else if self.dx > 0 {
            sticks.0 = high;
        }
        if self.wheel_dy < 0 {
            sticks.0 = low;
            sticks.2 = high;
        } else if self.wheel_dy > 0 {
            sticks.0 = high;
            sticks.2 = low;
        }
        ControllerState {
            buttons: BASE_BUTTONS | buttons,
            left_x: sticks.0,
            left_y: sticks.1,
            right_x: sticks.2,
            right_y: sticks.3,
            accel_x: -688,
            accel_y: -100,
            accel_z: 4038,
            gyro_x: 16,
            gyro_y: 16,
            gyro_z: 0,
        }
    }
}

fn add_motion(acc: i32, d: i16) -> (r: i32)
    ensures
        r == saturating(acc + d),
{
    let v: i64 = acc as i64 + d as i64;
    if v > i32::MAX as i64 {
        i32::MAX
    } else if v < i32::MIN as i64 {
        i32::MIN
    } else {
        v as i32
    }
}

fn count_idle(n: u32) -> (r: u32)
    ensures
        r == if n < u32::MAX { (n + 1) as u32 } else { n },
{
    if n < u32::MAX {
        n + 1
    } else {
        n
    }
}

fn clamp_wheel_exec(v: i32) -> (r: i32)
    ensures
        r == clamp_wheel(v as int),
{
    if v > WHEEL_LIMIT {
        WHEEL_LIMIT
    } else if v < -WHEEL_LIMIT {
        -WHEEL_LIMIT
    } else {
        v
    }
}

} // verus!
