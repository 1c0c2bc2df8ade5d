//! The coordinator: the single-threaded loop logic that owns the indicator
//! windows.
//!
//! Each tick the host loop asks the coordinator, in a fixed order, to react
//! to one drained layout-change event, to the externally toggled visibility
//! flag, to the auto-hide deadline, and to advance every fade animation.
//! The coordinator holds the timing state (when indicators were last shown
//! or hidden, the post-hide cooldown, the auto-hide delay) and mutates the
//! window set; the host applies the returned surface effects and plays the
//! sound when a change is reported.

use crate::config::AppConfig;
use crate::indicator::FADE_STEP;
use crate::indicator::IndicatorWindow;
use crate::indicator::SurfaceEffects;
use crate::indicator::spec_fade_next;
use crate::indicator::spec_hide;
use crate::indicator::spec_no_effects;
use crate::indicator::spec_show;
use crate::indicator::spec_show_effects;
use crate::keyboard_hook::LayoutInfo;
use vstd::prelude::*;

verus! {

/// How long after a hide transition detected layout changes are dropped as
/// false triggers, in milliseconds.
pub const HIDE_COOLDOWN_MS: u64 = 500;

/// How often the configuration file's modification time is polled, in
/// milliseconds.
pub const CONFIG_CHECK_INTERVAL_MS: u64 = 2000;

/// The coordinator's timing and visibility state. Owned by the single
/// thread that also owns every indicator window.
pub struct CoordinatorState {
    /// The externally toggled visibility flag as last observed.
    pub visible: bool,
    /// The layout name the indicators currently display.
    pub last_layout: String,
    /// When the indicators were last shown, on the monotonic clock.
    pub last_show_at_ms: u64,
    /// When the indicators were last hidden, if ever.
    pub last_hide_at_ms: Option<u64>,
    /// Whether the indicator set is currently shown.
    pub indicators_shown: bool,
    /// Post-hide grace period during which change events are dropped.
    pub hide_cooldown_ms: u64,
    /// How long after the last show the indicators auto-hide.
    pub hide_delay_ms: u64,
}

/// The recorded moments never lie in the future of the current tick.
pub open spec fn spec_times_le(st: CoordinatorState, now_ms: u64) -> bool {
    &&& st.last_show_at_ms <= now_ms
    &&& (st.last_hide_at_ms matches Some(h) ==> h <= now_ms)
}

/// Whether the post-hide cooldown is still running at `now_ms`: less than
/// `hide_cooldown_ms` passed since the last hide transition (and there was
/// one).
pub open spec fn spec_in_cooldown(st: CoordinatorState, now_ms: u64) -> bool {
    match st.last_hide_at_ms {
        Option::Some(h) => now_ms - h < st.hide_cooldown_ms,
        Option::None => false,
    }
}

/// What a drained layout-change event led to.
#[derive(Debug, Clone, Copy, PartialEq, Eq, Structural)]
pub enum LayoutEventOutcome {
    /// The event arrived within the post-hide cooldown and was dropped.
    DroppedCooldown,
    /// The event repeats the currently displayed layout; nothing happened.
    NoChange,
    /// A true layout change: the indicators were updated (and shown when
    /// visible), and the caller plays the layout sound.
    Changed,
}

/// A window after a layout change was applied to it: new text and color,
/// fading in when the indicators are visible, everything else untouched.
pub open spec fn spec_changed_window(
    wn: IndicatorWindow,
    wo: IndicatorWindow,
    name: Seq<char>,
    is_russian: bool,
    shown: bool,
) -> bool {
    &&& wn.text@ == name
    &&& wn.is_russian == is_russian
    &&& wn.target_alpha == (if shown {
        wo.max_alpha
    } else {
        wo.target_alpha
    })
    &&& wn == (IndicatorWindow {
        text: wn.text,
        is_russian: wn.is_russian,
        target_alpha: wn.target_alpha,
        ..wo
    })
}

/// The surface effects a layout change requests per window: always a
/// redraw; reveal and raise only when the indicators are visible.
pub open spec fn spec_changed_effects(shown: bool) -> SurfaceEffects {
    SurfaceEffects {
        reveal: shown,
        raise_topmost: shown,
        redraw: true,
        apply_alpha: Option::None,
        conceal: false,
    }
}

impl CoordinatorState {
    /// The coordinator state at startup: visible and shown, displaying the
    /// initial layout, with no hide on record.
    pub fn new(now_ms: u64, initial_layout: String, config: &AppConfig) -> (st: Self)
        ensures
            st.visible,
            st.last_layout@ == initial_layout@,
            st.last_show_at_ms == now_ms,
            st.last_hide_at_ms is None,
            st.indicators_shown,
            st.hide_cooldown_ms == HIDE_COOLDOWN_MS,
            st.hide_delay_ms == config.hide_delay_ms as u64,
    {
        CoordinatorState {
            visible: true,
            last_layout: initial_layout,
            last_show_at_ms: now_ms,
            last_hide_at_ms: Option::None,
            indicators_shown: true,
            hide_cooldown_ms: HIDE_COOLDOWN_MS,
            hide_delay_ms: config.hide_delay_ms as u64,
        }
    }

    /// Reacts to one drained layout-change event. Within the post-hide
    /// cooldown the event is dropped: no timer is reset and no text is
    /// updated. An event repeating the displayed layout does nothing. A
    /// true change records the new name, resets the show moment, updates
    /// every window's text, and — when the indicators are visible — starts
    /// their fade-in and marks them shown; the caller then plays the sound.
    pub fn handle_layout_event(
        &mut self,
        windows: &mut Vec<IndicatorWindow>,
        now_ms: u64,
        layout: &LayoutInfo,
    ) -> (r: (LayoutEventOutcome, Vec<SurfaceEffects>))
        requires
            spec_times_le(*old(self), now_ms),
        ensures
            final(windows)@.len() == old(windows)@.len(),
            r.1@.len() == old(windows)@.len(),
            spec_in_cooldown(*old(self), now_ms) ==> ({
                &&& r.0 == LayoutEventOutcome::DroppedCooldown
                &&& *final(self) == *old(self)
                &&& final(windows)@ == old(windows)@
                &&& forall|i: int| 0 <= i < r.1@.len() ==> r.1@[i] == spec_no_effects()
            }),
            !spec_in_cooldown(*old(self), now_ms) && layout.name@ == old(self).last_layout@ ==> ({
                &&& r.0 == LayoutEventOutcome::NoChange
                &&& *final(self) == *old(self)
                &&& final(windows)@ == old(windows)@
                &&& forall|i: int| 0 <= i < r.1@.len() ==> r.1@[i] == spec_no_effects()
            }),
            !spec_in_cooldown(*old(self), now_ms) && layout.name@ != old(self).last_layout@ ==> ({
                &&& r.0 == LayoutEventOutcome::Changed
                &&& final(self).last_layout@ == layout.name@
                &&& final(self).last_show_at_ms == now_ms
                &&& final(self).indicators_shown == (old(self).visible || old(
                    self,
                ).indicators_shown)
                &&& final(self).visible == old(self).visible
                &&& final(self).last_hide_at_ms == old(self).last_hide_at_ms
                &&& final(self).hide_cooldown_ms == old(self).hide_cooldown_ms
                &&& final(self).hide_delay_ms == old(self).hide_delay_ms
                &&& forall|i: int|
                    0 <= i < old(windows)@.len() ==> spec_changed_window(
                        #[trigger] final(windows)@[i],
                        old(windows)@[i],
                        layout.name@,
                        layout.is_russian,
                        old(self).visible,
                    )
                &&& forall|i: int|
                    0 <= i < r.1@.len() ==> r.1@[i] == spec_changed_effects(old(self).visible)
            }),
    {
        let in_cooldown = match self.last_hide_at_ms {
            Option::Some(h) => now_ms - h < self.hide_cooldown_ms,
            Option::None => false,
        };
        if in_cooldown {
            let effects = no_effects_for(windows.len());
            return (LayoutEventOutcome::DroppedCooldown, effects);
        }
        if layout.name.eq(&self.last_layout) {
            let effects = no_effects_for(windows.len());
            return (LayoutEventOutcome::NoChange, effects);
        }
        self.last_layout = layout.name.clone();
        self.last_show_at_ms = now_ms;
        let vis = self.visible;
        if vis {
            self.indicators_shown = true;
        }
        let mut effects: Vec<SurfaceEffects> = Vec::new();
        let mut i: usize = 0;
        while i < windows.len()
            invariant
                i <= windows@.len(),
                windows@.len() == old(windows)@.len(),
                effects@.len() == i,
                forall|j: int| i <= j < windows@.len() ==> windows@[j] == old(windows)@[j],
                forall|j: int|
                    0 <= j < i ==> spec_changed_window(
                        #[trigger] windows@[j],
                        old(windows)@[j],
                        layout.name@,
                        layout.is_russian,
                        vis,
                    ),
                forall|j: int| 0 <= j < i ==> effects@[j] == spec_changed_effects(vis),
            decreases windows@.len() - i,
        {
            windows[i].update_text(layout.name.as_str(), layout.is_russian);
            if vis {
                windows[i].show();
            }
            effects.push(
                SurfaceEffects {
                    reveal: vis,
                    raise_topmost: vis,
                    redraw: true,
                    apply_alpha: None,
                    conceal: false,
                },
            );
            i = i + 1;
        }
        (LayoutEventOutcome::Changed, effects)
    }

    /// Applies a freshly read visibility flag. When it differs from the
    /// last observed value the whole window set starts fading in (and the
    /// show moment resets) or fading out (and the hide moment and cooldown
    /// start); otherwise nothing happens.
    pub fn apply_visibility(
        &mut self,
        windows: &mut Vec<IndicatorWindow>,
        now_ms: u64,
        visible_flag: bool,
    ) -> (effects: Vec<SurfaceEffects>)
        ensures
            final(windows)@.len() == old(windows)@.len(),
            effects@.len() == old(windows)@.len(),
            visible_flag == old(self).visible ==> *final(self) == *old(self) && final(windows)@
                == old(windows)@ && (forall|i: int|
                0 <= i < effects@.len() ==> effects@[i] == spec_no_effects()),
            visible_flag != old(self).visible && visible_flag ==> ({
                &&& *final(self) == (CoordinatorState {
                    visible: true,
                    last_show_at_ms: now_ms,
                    indicators_shown: true,
                    ..*old(self)
                })
                &&& forall|i: int|
                    0 <= i < old(windows)@.len() ==> #[trigger] final(windows)@[i] == spec_show(
                        old(windows)@[i],
                    )
                &&& forall|i: int|
                    0 <= i < effects@.len() ==> effects@[i] == spec_show_effects()
            }),
            visible_flag != old(self).visible && !visible_flag ==> ({
                &&& *final(self) == (CoordinatorState {
                    visible: false,
                    last_hide_at_ms: Option::Some(now_ms),
                    indicators_shown: false,
                    ..*old(self)
                })
                &&& forall|i: int|
                    0 <= i < old(windows)@.len() ==> #[trigger] final(windows)@[i] == spec_hide(
                        old(windows)@[i],
                    )
                &&& forall|i: int|
                    0 <= i < effects@.len() ==> effects@[i] == spec_no_effects()
            }),
    {
        if visible_flag == self.visible {
            return no_effects_for(windows.len());
        }
        let mut effects: Vec<SurfaceEffects> = Vec::new();
        let mut i: usize = 0;
        if visible_flag {
            while i < windows.len()
                invariant
                    i <= windows@.len(),
                    windows@.len() == old(windows)@.len(),
                    effects@.len() == i,
                    forall|j: int| i <= j < windows@.len() ==> windows@[j] == old(windows)@[j],
                    forall|j: int|
                        0 <= j < i ==> #[trigger] windows@[j] == spec_show(old(windows)@[j]),
                    forall|j: int| 0 <= j < i ==> effects@[j] == spec_show_effects(),
                decreases windows@.len() - i,
            {
                let fx = windows[i].show();
                effects.push(fx);
                i = i + 1;
            }
            self.visible = true;
            self.last_show_at_ms = now_ms;
            self.indicators_shown = true;
        } else {
            while i < windows.len()
                invariant
                    i <= windows@.len(),
                    windows@.len() == old(windows)@.len(),
                    effects@.len() == i,
                    forall|j: int| i <= j < windows@.len() ==> windows@[j] == old(windows)@[j],
                    forall|j: int|
                        0 <= j < i ==> #[trigger] windows@[j] == spec_hide(old(windows)@[j]),
                    forall|j: int| 0 <= j < i ==> effects@[j] == spec_no_effects(),
                decreases windows@.len() - i,
            {
                windows[i].hide_window();
                effects.push(
                    SurfaceEffects {
                        reveal: false,
                        raise_topmost: false,
                        redraw: false,
                        apply_alpha: None,
                        conceal: false,
                    },
                );
                i = i + 1;
            }
            self.visible = false;
            self.indicators_shown = false;
            self.last_hide_at_ms = Option::Some(now_ms);
        }
        effects
    }

    /// The auto-hide check: the indicator set starts hiding exactly when it
    /// is shown and at least `hide_delay_ms` passed since the last show; a
    /// set that is already hidden never re-hides (and the cooldown moment
    /// is not touched).
    pub fn auto_hide(&mut self, windows: &mut Vec<IndicatorWindow>, now_ms: u64) -> (hid: bool)
        requires
            spec_times_le(*old(self), now_ms),
        ensures
            final(windows)@.len() == old(windows)@.len(),
            hid == (old(self).indicators_shown && now_ms - old(self).last_show_at_ms >= old(
                self,
            ).hide_delay_ms),
            !hid ==> *final(self) == *old(self) && final(windows)@ == old(windows)@,
            hid ==> ({
                &&& *final(self) == (CoordinatorState {
                    indicators_shown: false,
                    last_hide_at_ms: Option::Some(now_ms),
                    ..*old(self)
                })
                &&& forall|i: int|
                    0 <= i < old(windows)@.len() ==> #[trigger] final(windows)@[i] == spec_hide(
                        old(windows)@[i],
                    )
            }),
    {
        if !(self.indicators_shown && now_ms - self.last_show_at_ms >= self.hide_delay_ms) {
            return false;
        }
        let mut i: usize = 0;
        while i < windows.len()
            invariant
                i <= windows@.len(),
                windows@.len() == old(windows)@.len(),
                forall|j: int| i <= j < windows@.len() ==> windows@[j] == old(windows)@[j],
                forall|j: int|
                    0 <= j < i ==> #[trigger] windows@[j] == spec_hide(old(windows)@[j]),
            decreases windows@.len() - i,
        {
            windows[i].hide_window();
            i = i + 1;
        }
        self.indicators_shown = false;
        self.last_hide_at_ms = Option::Some(now_ms);
        true
    }

    /// Takes the timing values derived from a (re)loaded configuration:
    /// indicators shown after this point auto-hide after the new
    /// `hide_delay_ms`.
    pub fn apply_config(&mut self, config: &AppConfig)
        ensures
            *final(self) == (CoordinatorState {
                hide_delay_ms: config.hide_delay_ms as u64,
                ..*old(self)
            }),
    {
        self.hide_delay_ms = config.hide_delay_ms as u64;
    }

    /// Re-seeds a freshly rebuilt window set after a configuration reload:
    /// every window gets the current layout's text, the set is shown when
    /// the visibility flag says so, and the show moment resets.
    pub fn reseed_after_reload(
        &mut self,
        windows: &mut Vec<IndicatorWindow>,
        now_ms: u64,
        layout: &LayoutInfo,
        visible_flag: bool,
    ) -> (effects: Vec<SurfaceEffects>)
        ensures
            final(windows)@.len() == old(windows)@.len(),
            effects@.len() == old(windows)@.len(),
            final(self).last_layout@ == layout.name@,
            final(self).last_show_at_ms == now_ms,
            final(self).indicators_shown == visible_flag,
            final(self).visible == old(self).visible,
            final(self).last_hide_at_ms == old(self).last_hide_at_ms,
            final(self).hide_cooldown_ms == old(self).hide_cooldown_ms,
            final(self).hide_delay_ms == old(self).hide_delay_ms,
            forall|i: int|
                0 <= i < old(windows)@.len() ==> spec_changed_window(
                    #[trigger] final(windows)@[i],
                    old(windows)@[i],
                    layout.name@,
                    layout.is_russian,
                    visible_flag,
                ),
            forall|i: int|
                0 <= i < effects@.len() ==> effects@[i] == spec_changed_effects(visible_flag),
    {
        self.last_layout = layout.name.clone();
        self.last_show_at_ms = now_ms;
        self.indicators_shown = visible_flag;
        let mut effects: Vec<SurfaceEffects> = Vec::new();
        let mut i: usize = 0;
        while i < windows.len()
            invariant
                i <= windows@.len(),
                windows@.len() == old(windows)@.len(),
                effects@.len() == i,
                forall|j: int| i <= j < windows@.len() ==> windows@[j] == old(windows)@[j],
                forall|j: int|
                    0 <= j < i ==> spec_changed_window(
                        #[trigger] windows@[j],
                        old(windows)@[j],
                        layout.name@,
                        layout.is_russian,
                        visible_flag,
                    ),
                forall|j: int| 0 <= j < i ==> effects@[j] == spec_changed_effects(visible_flag),
            decreases windows@.len() - i,
        {
            windows[i].update_text(layout.name.as_str(), layout.is_russian);
            if visible_flag {
                windows[i].show();
            }
            effects.push(
                SurfaceEffects {
                    reveal: visible_flag,
                    raise_topmost: visible_flag,
                    redraw: true,
                    apply_alpha: None,
                    conceal: false,
                },
            );
            i = i + 1;
        }
        effects
    }
}

/// Advances every window's fade animation by one tick and collects the
/// surface effects to apply; animation progresses every tick regardless of
/// the other branches.
pub fn advance_fades(windows: &mut Vec<IndicatorWindow>) -> (effects: Vec<SurfaceEffects>)
    ensures
        final(windows)@.len() == old(windows)@.len(),
        effects@.len() == old(windows)@.len(),
        forall|i: int|
            0 <= i < old(windows)@.len() ==> ({
                let wo = old(windows)@[i];
                let wn = #[trigger] final(windows)@[i];
                &&& wn.alpha as int == spec_fade_next(
                    wo.alpha as int,
                    wo.target_alpha as int,
                    FADE_STEP as int,
                )
                &&& wn == (IndicatorWindow { alpha: wn.alpha, ..wo })
                &&& effects@[i] == (if wo.alpha != wo.target_alpha {
                    (SurfaceEffects {
                        apply_alpha: Option::Some(wn.alpha),
                        conceal: wn.alpha == 0,
                        ..spec_no_effects()
                    })
                } else {
                    spec_no_effects()
                })
            }),
{
    let mut effects: Vec<SurfaceEffects> = Vec::new();
    let mut i: usize = 0;
    while i < windows.len()
        invariant
            i <= windows@.len(),
            windows@.len() == old(windows)@.len(),
            effects@.len() == i,
            forall|j: int| i <= j < windows@.len() ==> windows@[j] == old(windows)@[j],
            forall|j: int|
                0 <= j < i ==> ({
                    let wo = old(windows)@[j];
                    let wn = #[trigger] windows@[j];
                    &&& wn.alpha as int == spec_fade_next(
                        wo.alpha as int,
                        wo.target_alpha as int,
                        FADE_STEP as int,
                    )
                    &&& wn == (IndicatorWindow { alpha: wn.alpha, ..wo })
                    &&& effects@[j] == (if wo.alpha != wo.target_alpha {
                        (SurfaceEffects {
                            apply_alpha: Option::Some(wn.alpha),
                            conceal: wn.alpha == 0,
                            ..spec_no_effects()
                        })
                    } else {
                        spec_no_effects()
                    })
                }),
        decreases windows@.len() - i,
    {
        let r = windows[i].update_fade();
        effects.push(r.1);
        i = i + 1;
    }
    effects
}

/// Whether the coarse configuration poll is due.
pub fn should_check_config(now_ms: u64, last_check_ms: u64, interval_ms: u64) -> (due: bool)
    requires
        last_check_ms <= now_ms,
    ensures
        due == (now_ms - last_check_ms >= interval_ms),
{
    now_ms - last_check_ms >= interval_ms
}

fn no_effects_for(n: usize) -> (effects: Vec<SurfaceEffects>)
    ensures
        effects@.len() == n,
        forall|i: int| 0 <= i < n ==> effects@[i] == spec_no_effects(),
{
    let mut effects: Vec<SurfaceEffects> = Vec::new();
    let mut i: usize = 0;
    while i < n
        invariant
            i <= n,
            effects@.len() == i,
            forall|j: int| 0 <= j < i ==> effects@[j] == spec_no_effects(),
        decreases n - i,
    {
        effects.push(
            SurfaceEffects {
                reveal: false,
                raise_topmost: false,
                redraw: false,
                apply_alpha: None,
                conceal: false,
            },
        );
        i = i + 1;
    }
    effects
}

} // verus!
