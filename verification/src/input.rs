//! Turning raw key presses into stopwatch actions, and choosing the keyboard
//! device to listen to.

use crate::bpm::{next_multiplier_index, recent_taps, BpmTracker};
use crate::config::{scheme_parse, Config};
use crate::panel::{rebound, BindingAction};
use crate::stopwatch::Stopwatch;
use crate::keymap_win::{rdev_to_win_vk, vk_of, Key};
use crate::text::to_owned_string;
use vstd::prelude::*;

verus! {

/// An action that a bound key asks for.
#[derive(Clone, Copy, Debug, PartialEq, Eq, Structural)]
pub enum AppKey {
    /// Start or stop the stopwatch.
    Reset,
    /// Record a footstep for the tempo.
    Tap,
    /// Move to the next speed multiplier.
    Mult,
    /// Toggle blood-moon mode.
    Bm,
}

/// The action bound to a key code: the bindings are tried in the order reset,
/// tap, multiplier, blood moon, and the first whose code matches wins.
pub open spec fn action_for_code(code: u16, c: Config) -> Option<AppKey> {
    if code == c.reset_code {
        Some(AppKey::Reset)
    } else if code == c.tap_code {
        Some(AppKey::Tap)
    } else if code == c.cycle_multiplier_code {
        Some(AppKey::Mult)
    } else if code == c.blood_moon_code {
        Some(AppKey::Bm)
    } else {
        None
    }
}

/// The action bound to a key code, if any.
pub fn key_action(code: u16, config: &Config) -> (action: Option<AppKey>)
    ensures
        action == action_for_code(code, *config),
{
    if code == config.reset_code {
        Some(AppKey::Reset)
    } else if code == config.tap_code {
        Some(AppKey::Tap)
    } else if code == config.cycle_multiplier_code {
        Some(AppKey::Mult)
    } else if code == config.blood_moon_code {
        Some(AppKey::Bm)
    } else {
        None
    }
}

/// The action for an evdev input event: only key events whose value is 1 (a
/// press, not a release or a repeat) can trigger one.
pub fn evdev_event_action(is_key_event: bool, value: i32, code: u16, config: &Config) -> (action:
    Option<AppKey>)
    ensures
        action == (if is_key_event && value == 1 {
            action_for_code(code, *config)
        } else {
            None
        }),
{
    if is_key_event && value == 1 {
        key_action(code, config)
    } else {
        None
    }
}

/// The action for a key reported by the Windows keyboard hook: the key's
/// virtual-key code is looked up among the bindings.
pub fn windows_key_action(key: Key, config: &Config) -> (action: Option<AppKey>)
    ensures
        action == action_for_code(vk_of(key), *config),
{
    key_action(rdev_to_win_vk(key), config)
}

/// What an input device offers, as far as choosing a keyboard goes.
pub struct InputDevice {
    pub path: String,
    /// The device reports key events.
    pub has_key_events: bool,
    /// The device has the A key.
    pub has_key_a: bool,
    /// The device has the space bar.
    pub has_key_space: bool,
}

/// A device looks like a keyboard: it reports keys and has A and space.
pub open spec fn looks_like_keyboard(d: InputDevice) -> bool {
    d.has_key_events && d.has_key_a && d.has_key_space
}

/// The path of the first device, in the order given, that looks like a
/// keyboard; `None` when none does.
pub fn auto_detect_keyboard(devices: &Vec<InputDevice>) -> (path: Option<String>)
    ensures
        match path {
            Some(p) => exists|i: int|
                0 <= i < devices@.len() && looks_like_keyboard(devices@[i]) && p@
                    == devices@[i].path@ && forall|j: int|
                    0 <= j < i ==> !looks_like_keyboard(#[trigger] devices@[j]),
            None => forall|j: int|
                0 <= j < devices@.len() ==> !looks_like_keyboard(#[trigger] devices@[j]),
        },
{
    let mut i: usize = 0;
    while i < devices.len()
        invariant
            i <= devices@.len(),
            forall|j: int| 0 <= j < i ==> !looks_like_keyboard(#[trigger] devices@[j]),
        decreases devices@.len() - i,
    {
        let d = &devices[i];
        if d.has_key_events && d.has_key_a && d.has_key_space {
            return Some(to_owned_string(d.path.as_str()));
        }
        i = i + 1;
    }
    None
}

/// The device path to open: the configured one, or when none is configured
/// the detected keyboard, or `/dev/input/event0` when none was detected.
pub fn device_path(configured: &str, detected: Option<String>) -> (path: String)
    ensures
        path@ == (if configured@.len() == 0 {
            match detected {
                Some(d) => d@,
                None => "/dev/input/event0"@,
            }
        } else {
            configured@
        }),
{
    if configured.is_empty() {
        match detected {
            Some(d) => d,
            None => to_owned_string("/dev/input/event0"),
        }
    } else {
        to_owned_string(configured)
    }
}

/// `sw1` and `bpm1` are what an action leaves of `sw0` and `bpm0`: reset
/// starts or stops the stopwatch at a fresh clock reading, tap records a
/// footstep at a fresh reading of the tracker's clock (no earlier than its
/// latest, and becoming it), multiplier moves to the next multiplier, blood
/// moon toggles that mode. The other component is left as it was, and taps in
/// time order stay so.
pub open spec fn key_applied(
    key: AppKey,
    sw0: Stopwatch,
    bpm0: BpmTracker,
    sw1: Stopwatch,
    bpm1: BpmTracker,
) -> bool {
    &&& key == AppKey::Reset ==> exists|now: u64| #[trigger] sw0.reset_outcome(sw1, now)
    &&& key != AppKey::Reset ==> sw1 == sw0
    &&& key == AppKey::Tap ==> exists|now: u64|
        now >= bpm0.clock_latest() && bpm1.clock_latest() == now && bpm1.taps()
            == #[trigger] recent_taps(bpm0.taps(), now)
    &&& key != AppKey::Tap ==> bpm1.taps() == bpm0.taps() && bpm1.clock_latest()
        == bpm0.clock_latest()
    &&& bpm0.taps_in_order() ==> bpm1.taps_in_order()
    &&& bpm1.multiplier_index() == (if key == AppKey::Mult {
        next_multiplier_index(bpm0.multiplier_index())
    } else {
        bpm0.multiplier_index()
    })
    &&& bpm1.blood_mode() == (if key == AppKey::Bm {
        !bpm0.blood_mode()
    } else {
        bpm0.blood_mode()
    })
    &&& bpm1.offset() == bpm0.offset()
}

/// Carries out an action on the stopwatch and the tempo tracker.
pub fn apply_app_key(key: AppKey, stopwatch: &mut Stopwatch, bpm: &mut BpmTracker)
    ensures
        key_applied(key, *old(stopwatch), *old(bpm), *final(stopwatch), *final(bpm)),
{
    match key {
        AppKey::Reset => stopwatch.reset(),
        AppKey::Tap => bpm.tap(),
        AppKey::Mult => bpm.cycle_multiplier(),
        AppKey::Bm => bpm.toggle_blood_moon(),
    }
}

/// `sws` and `bpms` are the states that the actions `keys` pass through, one
/// after another, in the order given.
pub open spec fn frame_run(keys: Seq<AppKey>, sws: Seq<Stopwatch>, bpms: Seq<BpmTracker>) -> bool {
    &&& sws.len() == keys.len() + 1
    &&& bpms.len() == keys.len() + 1
    &&& forall|i: int|
        #![trigger keys[i]]
        0 <= i < keys.len() ==> key_applied(keys[i], sws[i], bpms[i], sws[i + 1], bpms[i + 1])
}

/// What one frame of the window leaves: every action of `keys` carried out
/// once, in order, then one stopwatch tick at a fresh reading and one
/// tracker tick (which changes nothing).
pub open spec fn frame_handled(
    keys: Seq<AppKey>,
    sw0: Stopwatch,
    bpm0: BpmTracker,
    sw1: Stopwatch,
    bpm1: BpmTracker,
) -> bool {
    exists|sws: Seq<Stopwatch>, bpms: Seq<BpmTracker>|
        #[trigger] frame_run(keys, sws, bpms) && sws[0] == sw0 && bpms[0] == bpm0 && (exists|
            now: u64,
        | #[trigger] sws.last().tick_outcome(sw1, now)) && bpm1.taps() == bpms.last().taps()
            && bpm1.multiplier_index() == bpms.last().multiplier_index() && bpm1.blood_mode()
            == bpms.last().blood_mode() && bpm1.offset() == bpms.last().offset()
            && bpm1.clock_latest() == bpms.last().clock_latest()
}

/// One frame of the window: the actions received since the last frame are
/// carried out in the order they came, then both components tick.
pub fn process_frame(keys: &Vec<AppKey>, stopwatch: &mut Stopwatch, bpm: &mut BpmTracker)
    ensures
        frame_handled(keys@, *old(stopwatch), *old(bpm), *final(stopwatch), *final(bpm)),
{
    let ghost mut sws: Seq<Stopwatch> = seq![*stopwatch];
    let ghost mut bpms: Seq<BpmTracker> = seq![*bpm];
    let mut i: usize = 0;
    while i < keys.len()
        invariant
            i <= keys@.len(),
            frame_run(keys@.take(i as int), sws, bpms),
            sws[0] == *old(stopwatch),
            bpms[0] == *old(bpm),
            sws.last() == *stopwatch,
            bpms.last() == *bpm,
        decreases keys@.len() - i,
    {
        apply_app_key(keys[i], stopwatch, bpm);
        proof {
            let ks = keys@.take(i as int + 1);
            assert forall|j: int| #![trigger ks[j]] 0 <= j < ks.len() implies key_applied(
                ks[j],
                sws.push(*stopwatch)[j],
                bpms.push(*bpm)[j],
                sws.push(*stopwatch)[j + 1],
                bpms.push(*bpm)[j + 1],
            ) by {
                if j < i {
                    assert(keys@.take(i as int)[j] == ks[j]);
                }
            }
            sws = sws.push(*stopwatch);
            bpms = bpms.push(*bpm);
        }
        i = i + 1;
    }
    assert(keys@.take(keys@.len() as int) =~= keys@);
    stopwatch.tick();
    bpm.tick();
    assert(frame_run(keys@, sws, bpms));
}

/// How many of `keys` are `k`.
pub open spec fn count_key(keys: Seq<AppKey>, k: AppKey) -> nat
    decreases keys.len(),
{
    if keys.len() == 0 {
        0
    } else {
        count_key(keys.drop_last(), k) + (if keys.last() == k { 1nat } else { 0nat })
    }
}

/// `b` flipped `n` times.
pub open spec fn flipped(b: bool, n: nat) -> bool {
    if n % 2 == 1 { !b } else { b }
}

/// The multiplier position after `n` moves on from `index`.
pub open spec fn cycled(index: nat, n: nat) -> nat {
    if n == 0 { index } else { (index + n) % 5 }
}

/// What a run of actions adds up to, counted action by action.
proof fn lemma_run_effects(keys: Seq<AppKey>, sws: Seq<Stopwatch>, bpms: Seq<BpmTracker>)
    requires
        frame_run(keys, sws, bpms),
    ensures
        sws.last().is_running == flipped(sws[0].is_running, count_key(keys, AppKey::Reset)),
        bpms.last().multiplier_index() == cycled(
            bpms[0].multiplier_index(),
            count_key(keys, AppKey::Mult),
        ),
        bpms.last().blood_mode() == flipped(bpms[0].blood_mode(), count_key(keys, AppKey::Bm)),
        bpms.last().offset() == bpms[0].offset(),
        count_key(keys, AppKey::Reset) == 0 ==> sws.last() == sws[0],
        count_key(keys, AppKey::Tap) == 0 ==> bpms.last().taps() == bpms[0].taps(),
        bpms[0].taps_in_order() ==> bpms.last().taps_in_order(),
    decreases keys.len(),
{
    if keys.len() > 0 {
        let n = keys.len() - 1;
        let ks = keys.drop_last();
        let ss = sws.drop_last();
        let bs = bpms.drop_last();
        assert forall|i: int| #![trigger ks[i]] 0 <= i < ks.len() implies key_applied(
            ks[i],
            ss[i],
            bs[i],
            ss[i + 1],
            bs[i + 1],
        ) by {
            assert(keys[i] == ks[i]);
        }
        lemma_run_effects(ks, ss, bs);
        assert(keys[n] == keys.last());
        assert(key_applied(keys[n], sws[n], bpms[n], sws[n + 1], bpms[n + 1]));
        let m = bpms[0].multiplier_index();
        let c = count_key(ks, AppKey::Mult);
        assert(next_multiplier_index(cycled(m, c)) == cycled(m, c + 1)) by {
            if c > 0 {
                assert(((m + c) % 5 + 1) % 5 == (m + c + 1) % 5) by (nonlinear_arith);
            }
        }
    }
}

/// A frame carries out each action it received once: the stopwatch was
/// started or stopped once for each reset, the multiplier moved on once for
/// each multiplier key, blood-moon mode was toggled once for each blood-moon
/// key, and the offset is kept; without a reset the stopwatch only ticked,
/// without a tap the tap window is kept, and taps in time order stay so.
pub proof fn lemma_frame_effects(
    keys: Seq<AppKey>,
    sw0: Stopwatch,
    bpm0: BpmTracker,
    sw1: Stopwatch,
    bpm1: BpmTracker,
)
    requires
        frame_handled(keys, sw0, bpm0, sw1, bpm1),
    ensures
        sw1.is_running == flipped(sw0.is_running, count_key(keys, AppKey::Reset)),
        bpm1.multiplier_index() == cycled(bpm0.multiplier_index(), count_key(keys, AppKey::Mult)),
        bpm1.blood_mode() == flipped(bpm0.blood_mode(), count_key(keys, AppKey::Bm)),
        bpm1.offset() == bpm0.offset(),
        count_key(keys, AppKey::Reset) == 0 ==> exists|now: u64| #[trigger]
            sw0.tick_outcome(sw1, now),
        count_key(keys, AppKey::Tap) == 0 ==> bpm1.taps() == bpm0.taps(),
        bpm0.taps_in_order() ==> bpm1.taps_in_order(),
{
    let (sws, bpms) = choose|sws: Seq<Stopwatch>, bpms: Seq<BpmTracker>|
        #[trigger] frame_run(keys, sws, bpms) && sws[0] == sw0 && bpms[0] == bpm0 && (exists|
            now: u64,
        | #[trigger] sws.last().tick_outcome(sw1, now)) && bpm1.taps() == bpms.last().taps()
            && bpm1.multiplier_index() == bpms.last().multiplier_index() && bpm1.blood_mode()
            == bpms.last().blood_mode() && bpm1.offset() == bpms.last().offset()
            && bpm1.clock_latest() == bpms.last().clock_latest();
    lemma_run_effects(keys, sws, bpms);
}

/// The action a binding of the settings panel stands for.
pub open spec fn app_key_for(action: BindingAction) -> AppKey {
    match action {
        BindingAction::Reset => AppKey::Reset,
        BindingAction::Tap => AppKey::Tap,
        BindingAction::CycleMultipliers => AppKey::Mult,
        BindingAction::BloodMoon => AppKey::Bm,
    }
}

/// The codes of the bindings tried before `action` when a key is looked up.
pub open spec fn earlier_codes(c: Config, action: BindingAction) -> Seq<u16> {
    match action {
        BindingAction::Reset => seq![],
        BindingAction::Tap => seq![c.reset_code],
        BindingAction::CycleMultipliers => seq![c.reset_code, c.tap_code],
        BindingAction::BloodMoon => seq![c.reset_code, c.tap_code, c.cycle_multiplier_code],
    }
}

/// After a binding is rebound to a key name, a key with the code that name
/// stands for triggers some action, and it triggers that binding's action
/// unless a binding tried before it has the same code.
pub proof fn lemma_rebound_key_triggers(
    c: Config,
    action: BindingAction,
    name: String,
    next: Config,
)
    requires
        rebound(c, action, name, next),
    ensures
        action_for_code(scheme_parse(next.scheme, name@), next) is Some,
        !earlier_codes(next, action).contains(scheme_parse(next.scheme, name@)) ==> action_for_code(
            scheme_parse(next.scheme, name@),
            next,
        ) == Some(app_key_for(action)),
{
    let code = scheme_parse(next.scheme, name@);
    match action {
        BindingAction::Reset => {},
        BindingAction::Tap => {
            assert(earlier_codes(next, action)[0] == next.reset_code);
        },
        BindingAction::CycleMultipliers => {
            assert(earlier_codes(next, action)[0] == next.reset_code);
            assert(earlier_codes(next, action)[1] == next.tap_code);
        },
        BindingAction::BloodMoon => {
            assert(earlier_codes(next, action)[0] == next.reset_code);
            assert(earlier_codes(next, action)[1] == next.tap_code);
            assert(earlier_codes(next, action)[2] == next.cycle_multiplier_code);
        },
    }
}

} // verus!
