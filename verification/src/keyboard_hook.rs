//! Layout-change detection logic.
//!
//! Two independent platform trigger sources (foreground-window change and
//! modifier-key release) both lead to a re-check: sample the active layout,
//! pass it through the debounce filter, and forward a change event only when
//! the sampled name differs from the last known one and the filter accepts
//! the moment. The sampling and the trigger plumbing live outside the
//! library; this module holds the decision logic and the mapping from a raw
//! language identifier to a layout description.

use vstd::prelude::*;
use vstd::string::StrSliceExecFns;
use vstd::string::StringExecFns;

verus! {

/// Language identifier of the United States English layout.
pub const LANG_EN_US: u32 = 0x409;

/// Language identifier of the Russian layout.
pub const LANG_RU: u32 = 0x419;

/// Minimum interval between accepted change events, in milliseconds.
pub const DEBOUNCE_MS: u64 = 100;

pub const VK_SHIFT: u32 = 0x10;

pub const VK_CONTROL: u32 = 0x11;

pub const VK_MENU: u32 = 0x12;

pub const VK_LSHIFT: u32 = 0xA0;

pub const VK_RSHIFT: u32 = 0xA1;

pub const VK_LCONTROL: u32 = 0xA2;

pub const VK_RCONTROL: u32 = 0xA3;

pub const VK_LMENU: u32 = 0xA4;

pub const VK_RMENU: u32 = 0xA5;

/// A sampled layout: its display name and whether it is the secondary
/// (Russian) layout.
#[derive(Debug, Clone, PartialEq)]
pub struct LayoutInfo {
    /// Layout name ("EN", "RU", or an uppercase hexadecimal code).
    pub name: String,
    /// Whether this is the Russian layout.
    pub is_russian: bool,
}

/// Whether a virtual-key code is one of the modifier keys whose release may
/// complete a layout switch.
pub open spec fn spec_is_modifier_key(vk_code: u32) -> bool {
    ||| vk_code == VK_SHIFT
    ||| vk_code == VK_CONTROL
    ||| vk_code == VK_MENU
    ||| vk_code == VK_LSHIFT
    ||| vk_code == VK_RSHIFT
    ||| vk_code == VK_LCONTROL
    ||| vk_code == VK_RCONTROL
    ||| vk_code == VK_LMENU
    ||| vk_code == VK_RMENU
}

/// Checks whether a virtual-key code is a modifier key.
pub fn is_modifier_key(vk_code: u32) -> (r: bool)
    ensures
        r == spec_is_modifier_key(vk_code),
{
    vk_code == VK_SHIFT || vk_code == VK_CONTROL || vk_code == VK_MENU || vk_code == VK_LSHIFT
        || vk_code == VK_RSHIFT || vk_code == VK_LCONTROL || vk_code == VK_RCONTROL
        || vk_code == VK_LMENU || vk_code == VK_RMENU
}

/// The uppercase hexadecimal digit for a value below sixteen.
pub open spec fn spec_hex_digit_char(v: int) -> char {
    if v == 0 {
        '0'
    } else if v == 1 {
        '1'
    } else if v == 2 {
        '2'
    } else if v == 3 {
        '3'
    } else if v == 4 {
        '4'
    } else if v == 5 {
        '5'
    } else if v == 6 {
        '6'
    } else if v == 7 {
        '7'
    } else if v == 8 {
        '8'
    } else if v == 9 {
        '9'
    } else if v == 10 {
        'A'
    } else if v == 11 {
        'B'
    } else if v == 12 {
        'C'
    } else if v == 13 {
        'D'
    } else if v == 14 {
        'E'
    } else {
        'F'
    }
}

/// The uppercase hexadecimal rendering of a value, without leading zeros
/// (a single "0" for zero itself).
pub open spec fn spec_hex_name(v: nat) -> Seq<char>
    decreases v,
{
    if v < 16 {
        seq![spec_hex_digit_char(v as int)]
    } else {
        spec_hex_name(v / 16) + seq![spec_hex_digit_char((v % 16) as int)]
    }
}

fn hex_digit_str(v: u32) -> (s: &'static str)
    requires
        v < 16,
    ensures
        s@ == seq![spec_hex_digit_char(v as int)],
{
    proof {
        reveal_strlit("0");
        reveal_strlit("1");
        reveal_strlit("2");
        reveal_strlit("3");
        reveal_strlit("4");
        reveal_strlit("5");
        reveal_strlit("6");
        reveal_strlit("7");
        reveal_strlit("8");
        reveal_strlit("9");
        reveal_strlit("A");
        reveal_strlit("B");
        reveal_strlit("C");
        reveal_strlit("D");
        reveal_strlit("E");
        reveal_strlit("F");
    }
    match v {
        0 => "0",
        1 => "1",
        2 => "2",
        3 => "3",
        4 => "4",
        5 => "5",
        6 => "6",
        7 => "7",
        8 => "8",
        9 => "9",
        10 => "A",
        11 => "B",
        12 => "C",
        13 => "D",
        14 => "E",
        _ => "F",
    }
}

/// Renders a language identifier as an uppercase hexadecimal name.
pub fn hex_name(v: u32) -> (s: String)
    ensures
        s@ == spec_hex_name(v as nat),
    decreases v,
{
    if v < 16 {
        hex_digit_str(v).to_owned()
    } else {
        let mut s = hex_name(v / 16);
        s.append(hex_digit_str(v % 16));
        s
    }
}

/// The layout description for a raw language identifier: only the low
/// sixteen bits matter; known identifiers map to "EN" and "RU", anything
/// else keeps its hexadecimal code as its name.
pub fn layout_from_lang_id(lang_id: u32) -> (l: LayoutInfo)
    ensures
        ({
            let id = lang_id & 0xFFFF;
            &&& id == LANG_EN_US ==> l.name@ == "EN"@ && !l.is_russian
            &&& id == LANG_RU ==> l.name@ == "RU"@ && l.is_russian
            &&& id != LANG_EN_US && id != LANG_RU ==> l.name@ == spec_hex_name(id as nat)
                && !l.is_russian
        }),
{
    let id = lang_id & 0xFFFF;
    if id == LANG_EN_US {
        LayoutInfo { name: "EN".to_owned(), is_russian: false }
    } else if id == LANG_RU {
        LayoutInfo { name: "RU".to_owned(), is_russian: true }
    } else {
        LayoutInfo { name: hex_name(id), is_russian: false }
    }
}

/// The debounce filter: a candidate moment is accepted when nothing was
/// accepted before, or when at least the configured interval passed since
/// the last accepted moment.
pub open spec fn spec_accept(now_ms: u64, last_accepted_ms: Option<u64>, interval_ms: u64) -> bool {
    match last_accepted_ms {
        Option::Some(last) => now_ms - last >= interval_ms,
        Option::None => true,
    }
}

/// Decides whether a candidate change at `now_ms` passes the debounce
/// filter. Pure: the caller records `now_ms` as the new last-accepted moment
/// only when the answer is yes.
pub fn accept(now_ms: u64, last_accepted_ms: Option<u64>, interval_ms: u64) -> (a: bool)
    ensures
        a == spec_accept(now_ms, last_accepted_ms, interval_ms),
{
    match last_accepted_ms {
        Option::Some(last) => now_ms >= last && now_ms - last >= interval_ms,
        Option::None => true,
    }
}

/// State of the change detector: the last known layout name (seeded at
/// startup so no spurious event fires), the moment of the last accepted
/// change, and the debounce interval.
pub struct DetectorState {
    /// The last layout name that was forwarded (or the initial one).
    pub last_layout: String,
    /// When a change was last accepted, if ever.
    pub last_accepted_ms: Option<u64>,
    /// Minimum interval between accepted changes, in milliseconds.
    pub interval_ms: u64,
}

/// One debounced re-check of the detector: the sampled layout is forwarded
/// exactly when its name differs from the last known one and the debounce
/// filter accepts the moment; only then does the state record the new name
/// and the acceptance time.
pub open spec fn spec_detector_step(st: DetectorState, now_ms: u64, layout: LayoutInfo) -> (
    DetectorState,
    bool,
) {
    if layout.name@ != st.last_layout@ && spec_accept(now_ms, st.last_accepted_ms, st.interval_ms) {
        (
            DetectorState {
                last_layout: layout.name,
                last_accepted_ms: Option::Some(now_ms),
                interval_ms: st.interval_ms,
            },
            true,
        )
    } else {
        (st, false)
    }
}

impl DetectorState {
    /// Creates a detector seeded with the layout active at startup.
    pub fn new(initial_layout: String, interval_ms: u64) -> (st: Self)
        ensures
            st.last_layout@ == initial_layout@,
            st.last_accepted_ms is None,
            st.interval_ms == interval_ms,
    {
        DetectorState { last_layout: initial_layout, last_accepted_ms: Option::None, interval_ms }
    }

    /// Undebounced re-check, used once at startup: records and reports a
    /// change whenever the sampled name differs from the last known one.
    pub fn check_layout_change(&mut self, layout: &LayoutInfo) -> (changed: bool)
        ensures
            changed == (layout.name@ != old(self).last_layout@),
            final(self).last_layout@ == layout.name@,
            final(self).last_accepted_ms == old(self).last_accepted_ms,
            final(self).interval_ms == old(self).interval_ms,
    {
        if !string_eq(&layout.name, &self.last_layout) {
            self.last_layout = layout.name.clone();
            true
        } else {
            false
        }
    }

    /// Debounced re-check, used for every trigger after startup. Reports a
    /// change exactly when the sampled name differs from the last known one
    /// and the debounce filter accepts `now_ms`.
    pub fn check_layout_change_debounced(&mut self, now_ms: u64, layout: &LayoutInfo) -> (changed:
        bool)
        ensures
            (*final(self), changed) == spec_detector_step(*old(self), now_ms, *layout),
    {
        if !string_eq(&layout.name, &self.last_layout) && accept(
            now_ms,
            self.last_accepted_ms,
            self.interval_ms,
        ) {
            self.last_layout = layout.name.clone();
            self.last_accepted_ms = Option::Some(now_ms);
            true
        } else {
            false
        }
    }
}

fn string_eq(a: &String, b: &String) -> (r: bool)
    ensures
        r == (a@ == b@),
{
    (*a).eq(b)
}

/// The moments a run of the debounce filter accepts, starting from a given
/// last-accepted moment: each accepted moment becomes the reference for the
/// candidates after it.
pub open spec fn spec_accepted_times(
    times: Seq<u64>,
    last_accepted_ms: Option<u64>,
    interval_ms: u64,
) -> Seq<u64>
    decreases times.len(),
{
    if times.len() == 0 {
        Seq::empty()
    } else if spec_accept(times[0], last_accepted_ms, interval_ms) {
        seq![times[0]] + spec_accepted_times(
            times.drop_first(),
            Option::Some(times[0]),
            interval_ms,
        )
    } else {
        spec_accepted_times(times.drop_first(), last_accepted_ms, interval_ms)
    }
}

proof fn lemma_accepted_times_gaps(times: Seq<u64>, last_accepted_ms: Option<u64>, interval_ms: u64)
    ensures
        ({
            let r = spec_accepted_times(times, last_accepted_ms, interval_ms);
            &&& forall|k: int| 0 <= k && k + 1 < r.len() ==> (#[trigger] r[k]) + interval_ms <= r[k + 1]
            &&& (last_accepted_ms matches Option::Some(l) ==> (r.len() > 0 ==> l + interval_ms
                <= r[0]))
        }),
    decreases times.len(),
{
    if times.len() > 0 {
        let rest = times.drop_first();
        if spec_accept(times[0], last_accepted_ms, interval_ms) {
            lemma_accepted_times_gaps(rest, Option::Some(times[0]), interval_ms);
            let tail = spec_accepted_times(rest, Option::Some(times[0]), interval_ms);
            let r = spec_accepted_times(times, last_accepted_ms, interval_ms);
            assert(r == seq![times[0]] + tail);
            assert(forall|k: int| 0 <= k < tail.len() ==> r[k + 1] == tail[k]);
        } else {
            lemma_accepted_times_gaps(rest, last_accepted_ms, interval_ms);
        }
    }
}

/// Debounce monotonicity: for any sequence of candidate-change moments, any
/// two adjacent accepted moments lie at least the configured interval apart.
/// Only the first accepted moment is unconstrained.
pub proof fn lemma_debounce_monotonic(times: Seq<u64>, interval_ms: u64)
    ensures
        ({
            let accepted = spec_accepted_times(times, Option::None, interval_ms);
            forall|k: int|
                0 <= k && k + 1 < accepted.len() ==> (#[trigger] accepted[k]) + interval_ms
                    <= accepted[k + 1]
        }),
{
    lemma_accepted_times_gaps(times, Option::None, interval_ms);
}

/// Runs the debounce filter over a whole sequence of candidate moments and
/// returns the accepted ones.
pub fn debounce_filter_run(times: &Vec<u64>, interval_ms: u64) -> (accepted: Vec<u64>)
    ensures
        accepted@ == spec_accepted_times(times@, Option::None, interval_ms),
{
    let mut result: Vec<u64> = Vec::new();
    let mut last: Option<u64> = Option::None;
    let mut i: usize = 0;
    proof {
        assert(times@.skip(0) =~= times@);
        assert(Seq::<u64>::empty() + spec_accepted_times(times@, Option::None, interval_ms)
            =~= spec_accepted_times(times@, Option::None, interval_ms));
    }
    while i < times.len()
        invariant
            i <= times.len(),
            spec_accepted_times(times@, Option::None, interval_ms) == result@
                + spec_accepted_times(times@.skip(i as int), last, interval_ms),
        decreases times.len() - i,
    {
        let t = times[i];
        proof {
            let tail = times@.skip(i as int);
            assert(tail.len() > 0);
            assert(tail[0] == times@[i as int]);
            assert(tail.drop_first() =~= times@.skip(i as int + 1));
            if spec_accept(t, last, interval_ms) {
                assert(result@ + (seq![t] + spec_accepted_times(
                    times@.skip(i as int + 1),
                    Option::Some(t),
                    interval_ms,
                )) =~= (result@ + seq![t]) + spec_accepted_times(
                    times@.skip(i as int + 1),
                    Option::Some(t),
                    interval_ms,
                ));
            }
        }
        if accept(t, last, interval_ms) {
            result.push(t);
            last = Option::Some(t);
        }
        i = i + 1;
    }
    proof {
        assert(times@.skip(times@.len() as int) =~= Seq::<u64>::empty());
        assert(result@ + Seq::<u64>::empty() =~= result@);
    }
    result
}

/// No duplicate notification: when a single true layout change fires two
/// triggers in a row, the first re-check forwards the change and records the
/// new name, so the second re-check, sampling the same layout, forwards
/// nothing — whether or not the debounce filter would accept its moment.
pub proof fn lemma_no_duplicate_notification(
    st: DetectorState,
    t1: u64,
    t2: u64,
    layout: LayoutInfo,
)
    requires
        layout.name@ != st.last_layout@,
        spec_accept(t1, st.last_accepted_ms, st.interval_ms),
    ensures
        spec_detector_step(st, t1, layout).1,
        !spec_detector_step(spec_detector_step(st, t1, layout).0, t2, layout).1,
{
}

} // verus!
