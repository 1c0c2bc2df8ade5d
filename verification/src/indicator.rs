//! Indicator window state machines.
//!
//! Each indicator window is a small animation state machine: an opacity
//! (`alpha`) that moves in fixed steps toward a target, a text with a layout
//! color, and a screen position computed from a monitor's work area. The
//! native surface itself lives outside the library; every mutating step
//! returns the surface effects (reveal, raise, redraw, apply an alpha,
//! conceal) that the caller must apply to it, so the decision logic here is
//! verified while the drawing stays a thin interpreter.

use crate::config::AppConfig;
use crate::config::PositionsConfig;
use crate::monitors::MonitorInfo;
use vstd::prelude::*;

verus! {

/// Where an indicator sits on a monitor.
#[derive(Debug, Clone, Copy, PartialEq, Eq, Structural)]
pub enum Position {
    TopLeft,
    TopRight,
    BottomLeft,
    BottomRight,
    Center,
}

/// Opacity change per animation tick (higher = faster fade).
pub const FADE_STEP: u8 = 25;

/// The fully opaque alpha value a shown window fades toward.
pub const MAX_ALPHA: u8 = 255;

/// The surface operations one state-machine step asks the caller to apply
/// to the native surface, in field order: reveal the surface, raise it to
/// the top, force a redraw, apply a new alpha, conceal the surface.
#[derive(Debug, Clone, Copy)]
pub struct SurfaceEffects {
    /// Make the surface visible.
    pub reveal: bool,
    /// Raise the surface above other windows.
    pub raise_topmost: bool,
    /// Force a redraw of the surface.
    pub redraw: bool,
    /// Apply this alpha to the surface.
    pub apply_alpha: Option<u8>,
    /// Hide the surface completely.
    pub conceal: bool,
}

/// No surface operation at all.
pub open spec fn spec_no_effects() -> SurfaceEffects {
    SurfaceEffects {
        reveal: false,
        raise_topmost: false,
        redraw: false,
        apply_alpha: Option::None,
        conceal: false,
    }
}

/// The effects of showing a window: reveal, raise and redraw, performed on
/// every call whether or not the state changes.
pub open spec fn spec_show_effects() -> SurfaceEffects {
    SurfaceEffects {
        reveal: true,
        raise_topmost: true,
        redraw: true,
        apply_alpha: Option::None,
        conceal: false,
    }
}

/// A coordinate or size small enough that position arithmetic stays far
/// from the integer limits.
pub open spec fn spec_coord_bounded(v: int) -> bool {
    -16_000_000 <= v <= 16_000_000
}

/// A monitor whose work-area values are bounded and whose work-area size is
/// not negative.
pub open spec fn spec_monitor_bounded(m: MonitorInfo) -> bool {
    &&& spec_coord_bounded(m.work_x as int)
    &&& spec_coord_bounded(m.work_y as int)
    &&& 0 <= m.work_width <= 16_000_000
    &&& 0 <= m.work_height <= 16_000_000
}

/// The top-left corner of an indicator surface: corners sit a margin inside
/// the work-area edges; the center is centered within the work area.
pub open spec fn spec_position_xy(
    position: Position,
    m: MonitorInfo,
    width: int,
    height: int,
    margin: int,
) -> (int, int) {
    match position {
        Position::TopLeft => (m.work_x + margin, m.work_y + margin),
        Position::TopRight => (m.work_x + m.work_width - width - margin, m.work_y + margin),
        Position::BottomLeft => (m.work_x + margin, m.work_y + m.work_height - height - margin),
        Position::BottomRight => (
            m.work_x + m.work_width - width - margin,
            m.work_y + m.work_height - height - margin,
        ),
        Position::Center => (
            m.work_x + (m.work_width - width) / 2,
            m.work_y + (m.work_height - height) / 2,
        ),
    }
}

/// Computes where an indicator surface of the given size goes on a monitor.
pub fn calculate_position(
    position: Position,
    monitor: &MonitorInfo,
    width: i32,
    height: i32,
    margin: i32,
) -> (r: (i32, i32))
    requires
        spec_monitor_bounded(*monitor),
        0 <= width <= 16_000_000,
        0 <= height <= 16_000_000,
        spec_coord_bounded(margin as int),
        position == Position::Center ==> width <= monitor.work_width && height
            <= monitor.work_height,
    ensures
        (r.0 as int, r.1 as int) == spec_position_xy(
            position,
            *monitor,
            width as int,
            height as int,
            margin as int,
        ),
{
    match position {
        Position::TopLeft => (monitor.work_x + margin, monitor.work_y + margin),
        Position::TopRight => (
            monitor.work_x + monitor.work_width - width - margin,
            monitor.work_y + margin,
        ),
        Position::BottomLeft => (
            monitor.work_x + margin,
            monitor.work_y + monitor.work_height - height - margin,
        ),
        Position::BottomRight => (
            monitor.work_x + monitor.work_width - width - margin,
            monitor.work_y + monitor.work_height - height - margin,
        ),
        Position::Center => (
            monitor.work_x + (monitor.work_width - width) / 2,
            monitor.work_y + (monitor.work_height - height) / 2,
        ),
    }
}

/// The font size an indicator at a position uses.
pub open spec fn spec_font_size_for(position: Position, c: AppConfig) -> u32 {
    if position == Position::Center {
        c.font_size_center
    } else {
        c.font_size_corner
    }
}

/// Surface width derived from the font size.
pub open spec fn spec_window_width(font_size: u32) -> int {
    3 * font_size
}

/// Surface height derived from the font size.
pub open spec fn spec_window_height(font_size: u32) -> int {
    3 * font_size / 2
}

/// Everything window creation needs of the configuration and the monitor:
/// bounded sizes, and for the center position a surface that fits inside
/// the work area (so centering arithmetic stays exact).
pub open spec fn spec_indicator_geometry_ok(
    position: Position,
    c: AppConfig,
    m: MonitorInfo,
) -> bool {
    let fs = spec_font_size_for(position, c);
    &&& 0 < fs <= 1_000_000
    &&& spec_coord_bounded(c.margin as int)
    &&& spec_monitor_bounded(m)
    &&& position == Position::Center ==> spec_window_width(fs) <= m.work_width
        && spec_window_height(fs) <= m.work_height
}

/// Tests at run time what window creation demands of the configuration and
/// the monitor, so a caller can skip a pairing the geometry cannot carry.
pub fn indicator_geometry_ok(position: Position, config: &AppConfig, monitor: &MonitorInfo) -> (b:
    bool)
    ensures
        b == spec_indicator_geometry_ok(position, *config, *monitor),
{
    let fs = if matches!(position, Position::Center) {
        config.font_size_center
    } else {
        config.font_size_corner
    };
    if !(0 < fs && fs <= 1_000_000) {
        return false;
    }
    if !(-16_000_000 <= config.margin && config.margin <= 16_000_000) {
        return false;
    }
    if !(-16_000_000 <= monitor.work_x && monitor.work_x <= 16_000_000) {
        return false;
    }
    if !(-16_000_000 <= monitor.work_y && monitor.work_y <= 16_000_000) {
        return false;
    }
    if !(0 <= monitor.work_width && monitor.work_width <= 16_000_000) {
        return false;
    }
    if !(0 <= monitor.work_height && monitor.work_height <= 16_000_000) {
        return false;
    }
    if matches!(position, Position::Center) {
        let w: u32 = 3 * fs;
        let h: u32 = w / 2;
        if !(w <= monitor.work_width as u32 && h <= monitor.work_height as u32) {
            return false;
        }
    }
    true
}

/// One indicator window: its placement, its text, and its fade state. The
/// opacity `alpha` moves in `FADE_STEP` increments toward `target_alpha`
/// and both stay at or below `max_alpha`.
pub struct IndicatorWindow {
    /// Which corner (or the center) this window occupies.
    pub position: Position,
    /// The monitor this window sits on.
    pub monitor: MonitorInfo,
    /// Font size used for the text.
    pub font_size: u32,
    /// Surface width in pixels.
    pub width: i32,
    /// Surface height in pixels.
    pub height: i32,
    /// X coordinate of the surface's top-left corner.
    pub x: i32,
    /// Y coordinate of the surface's top-left corner.
    pub y: i32,
    /// The displayed layout name.
    pub text: String,
    /// Whether the Russian layout color applies.
    pub is_russian: bool,
    /// Current opacity.
    pub alpha: u8,
    /// The opacity the fade animation moves toward.
    pub target_alpha: u8,
    /// The opacity of a fully shown window.
    pub max_alpha: u8,
}

/// The window state invariant: the current and target opacity never exceed
/// the configured maximum.
pub open spec fn spec_window_wf(w: IndicatorWindow) -> bool {
    w.alpha <= w.max_alpha && w.target_alpha <= w.max_alpha
}

/// One fade tick: the opacity steps toward the target without overshooting
/// and stops exactly on it.
pub open spec fn spec_fade_next(alpha: int, target: int, step: int) -> int {
    if alpha == target {
        alpha
    } else if alpha < target {
        if alpha + step < target {
            alpha + step
        } else {
            target
        }
    } else {
        if alpha - step > target {
            alpha - step
        } else {
            target
        }
    }
}

/// Showing a window sets the fade target to the maximum opacity and touches
/// nothing else.
pub open spec fn spec_show(w: IndicatorWindow) -> IndicatorWindow {
    IndicatorWindow { target_alpha: w.max_alpha, ..w }
}

/// Hiding a window sets the fade target to zero and touches nothing else;
/// the surface is concealed only when the fade later reaches zero.
pub open spec fn spec_hide(w: IndicatorWindow) -> IndicatorWindow {
    IndicatorWindow { target_alpha: 0, ..w }
}

impl IndicatorWindow {
    /// Creates the state of a fresh indicator window: sized from the font,
    /// placed on the monitor's work area, fully transparent, showing the
    /// initial "EN" text.
    pub fn new(position: Position, config: &AppConfig, monitor: MonitorInfo) -> (w: Self)
        requires
            spec_indicator_geometry_ok(position, *config, monitor),
        ensures
            w.position == position,
            w.monitor == monitor,
            w.font_size == spec_font_size_for(position, *config),
            w.width as int == spec_window_width(w.font_size),
            w.height as int == spec_window_height(w.font_size),
            (w.x as int, w.y as int) == spec_position_xy(
                position,
                monitor,
                w.width as int,
                w.height as int,
                config.margin as int,
            ),
            w.text@ == "EN"@,
            !w.is_russian,
            w.alpha == 0,
            w.target_alpha == 0,
            w.max_alpha == MAX_ALPHA,
            spec_window_wf(w),
    {
        let font_size = if matches!(position, Position::Center) {
            config.font_size_center
        } else {
            config.font_size_corner
        };
        let width: i32 = (font_size * 3) as i32;
        let height: i32 = (font_size * 3 / 2) as i32;
        let (x, y) = calculate_position(position, &monitor, width, height, config.margin);
        IndicatorWindow {
            position,
            monitor,
            font_size,
            width,
            height,
            x,
            y,
            text: "EN".to_owned(),
            is_russian: false,
            alpha: 0,
            target_alpha: 0,
            max_alpha: MAX_ALPHA,
        }
    }

    /// Starts a fade toward full opacity. Idempotent in the state: the
    /// current opacity is untouched; the reveal, raise and redraw surface
    /// effects are requested on every call.
    pub fn show(&mut self) -> (fx: SurfaceEffects)
        ensures
            *final(self) == spec_show(*old(self)),
            fx == spec_show_effects(),
            spec_window_wf(*old(self)) ==> spec_window_wf(*final(self)),
    {
        self.target_alpha = self.max_alpha;
        SurfaceEffects {
            reveal: true,
            raise_topmost: true,
            redraw: true,
            apply_alpha: None,
            conceal: false,
        }
    }

    /// Starts a fade toward zero opacity. The surface stays revealed until
    /// the fade reaches zero, so no surface effect is requested here.
    pub fn hide_window(&mut self)
        ensures
            *final(self) == spec_hide(*old(self)),
            spec_window_wf(*old(self)) ==> spec_window_wf(*final(self)),
    {
        self.target_alpha = 0;
    }

    /// Replaces the displayed text and layout color; takes effect on the
    /// next redraw regardless of the animation phase.
    pub fn update_text(&mut self, text: &str, is_russian: bool) -> (fx: SurfaceEffects)
        ensures
            *final(self) == (IndicatorWindow {
                text: final(self).text,
                is_russian,
                ..*old(self)
            }),
            final(self).text@ == text@,
            fx == (SurfaceEffects { redraw: true, ..spec_no_effects() }),
            spec_window_wf(*old(self)) ==> spec_window_wf(*final(self)),
    {
        self.text = text.to_owned();
        self.is_russian = is_russian;
        SurfaceEffects {
            reveal: false,
            raise_topmost: false,
            redraw: true,
            apply_alpha: None,
            conceal: false,
        }
    }

    /// Advances the fade by one tick. Reports whether the animation was
    /// still in progress when called; when it was, the new opacity is
    /// applied to the surface, and a surface that reached zero is
    /// concealed.
    pub fn update_fade(&mut self) -> (r: (bool, SurfaceEffects))
        ensures
            r.0 == (old(self).alpha != old(self).target_alpha),
            final(self).alpha as int == spec_fade_next(
                old(self).alpha as int,
                old(self).target_alpha as int,
                FADE_STEP as int,
            ),
            *final(self) == (IndicatorWindow { alpha: final(self).alpha, ..*old(self) }),
            r.1 == if r.0 {
                (SurfaceEffects {
                    apply_alpha: Option::Some(final(self).alpha),
                    conceal: final(self).alpha == 0,
                    ..spec_no_effects()
                })
            } else {
                spec_no_effects()
            },
            spec_window_wf(*old(self)) ==> spec_window_wf(*final(self)),
    {
        let current = self.alpha;
        let target = self.target_alpha;
        if current == target {
            return (
                false,
                SurfaceEffects {
                    reveal: false,
                    raise_topmost: false,
                    redraw: false,
                    apply_alpha: None,
                    conceal: false,
                },
            );
        }
        let new_alpha: u8 = if current < target {
            if target - current < FADE_STEP {
                target
            } else {
                current + FADE_STEP
            }
        } else {
            if current - target < FADE_STEP {
                target
            } else {
                current - FADE_STEP
            }
        };
        self.alpha = new_alpha;
        (
            true,
            SurfaceEffects {
                reveal: false,
                raise_topmost: false,
                redraw: false,
                apply_alpha: Some(new_alpha),
                conceal: new_alpha == 0,
            },
        )
    }

    /// Jumps the opacity to a value directly, bypassing the animation; the
    /// surface is revealed or concealed according to the new value.
    pub fn set_alpha(&mut self, alpha: u8) -> (fx: SurfaceEffects)
        requires
            alpha <= old(self).max_alpha,
        ensures
            *final(self) == (IndicatorWindow { alpha, target_alpha: alpha, ..*old(self) }),
            fx == (SurfaceEffects {
                reveal: alpha > 0,
                apply_alpha: Option::Some(alpha),
                conceal: alpha == 0,
                ..spec_no_effects()
            }),
            spec_window_wf(*old(self)) ==> spec_window_wf(*final(self)),
    {
        self.alpha = alpha;
        self.target_alpha = alpha;
        SurfaceEffects {
            reveal: alpha > 0,
            raise_topmost: false,
            redraw: false,
            apply_alpha: Some(alpha),
            conceal: alpha == 0,
        }
    }

    /// The current opacity.
    pub fn get_alpha(&self) -> (a: u8)
        ensures
            a == self.alpha,
    {
        self.alpha
    }

    /// The opacity the fade moves toward.
    pub fn get_target_alpha(&self) -> (a: u8)
        ensures
            a == self.target_alpha,
    {
        self.target_alpha
    }

    /// Whether a fade is in progress.
    pub fn is_animating(&self) -> (b: bool)
        ensures
            b == (self.alpha != self.target_alpha),
    {
        self.alpha != self.target_alpha
    }
}

/// The opacity after `n` fade ticks from `alpha` toward `target`.
pub open spec fn spec_fade_iter(alpha: int, target: int, step: int, n: nat) -> int
    decreases n,
{
    if n == 0 {
        alpha
    } else {
        spec_fade_next(spec_fade_iter(alpha, target, step, (n - 1) as nat), target, step)
    }
}

/// Fade convergence, exactly: starting at or below the target, `n` ticks
/// put the opacity at `alpha + n * step`, capped at the target. So the
/// opacity grows monotonically, never exceeds the target, and reaches it
/// within `ceil((target - alpha) / step)` ticks, after which it stays.
pub proof fn lemma_fade_convergence(alpha: int, target: int, step: int, n: nat)
    requires
        0 <= alpha <= target,
        step >= 1,
    ensures
        spec_fade_iter(alpha, target, step, n) == if alpha + n * step < target {
            alpha + n * step
        } else {
            target
        },
    decreases n,
{
    if n > 0 {
        let m = (n - 1) as nat;
        let prev = spec_fade_iter(alpha, target, step, m);
        lemma_fade_convergence(alpha, target, step, m);
        assert(m * step + step == n * step) by (nonlinear_arith)
            requires
                m == n - 1,
        ;
        assert(0 <= m * step <= n * step) by (nonlinear_arith)
            requires
                m >= 0 && step >= 1 && m == n - 1,
        ;
        assert(spec_fade_iter(alpha, target, step, n) == spec_fade_next(prev, target, step));
        if alpha + m * step < target {
            assert(prev == alpha + m * step);
        } else {
            assert(prev == target);
        }
    } else {
        assert(n * step == 0) by (nonlinear_arith)
            requires
                n == 0,
        ;
        assert(spec_fade_iter(alpha, target, step, n) == alpha);
    }
}

/// Fade convergence, arrival: starting from zero, the opacity sits exactly
/// on the target from tick `ceil(target / step)` on.
pub proof fn lemma_fade_reaches_target(target: int, step: int, n: nat)
    requires
        0 <= target,
        step >= 1,
        n >= (target + step - 1) / step,
    ensures
        spec_fade_iter(0, target, step, n) == target,
{
    assert(((target + step - 1) / step) * step >= target) by (nonlinear_arith)
        requires
            0 <= target,
            step >= 1,
    ;
    assert(n * step >= ((target + step - 1) / step) * step) by (nonlinear_arith)
        requires
            step >= 1,
            n >= (target + step - 1) / step,
    ;
    lemma_fade_convergence(0, target, step, n);
}

/// Fade monotonicity: one more tick never lowers the opacity and never
/// pushes it past the target.
pub proof fn lemma_fade_monotonic(alpha: int, target: int, step: int, n: nat)
    requires
        0 <= alpha <= target,
        step >= 1,
    ensures
        spec_fade_iter(alpha, target, step, n) <= spec_fade_iter(alpha, target, step, n + 1),
        spec_fade_iter(alpha, target, step, n) <= target,
{
    lemma_fade_convergence(alpha, target, step, n);
    lemma_fade_convergence(alpha, target, step, n + 1);
    assert((n + 1) * step >= n * step) by (nonlinear_arith)
        requires
            step >= 1,
    ;
}

/// Show idempotence: showing an already-showing window changes nothing in
/// the state — in particular the opacity — while the `show` contract still
/// requests the reveal, raise and redraw surface effects on every call.
pub proof fn lemma_show_idempotent(w: IndicatorWindow)
    ensures
        spec_show(spec_show(w)) == spec_show(w),
        spec_show(w).alpha == w.alpha,
{
}

/// The positions enabled by the configuration, in their fixed order.
pub open spec fn spec_enabled_positions(p: PositionsConfig) -> Seq<Position> {
    (if p.top_left {
        seq![Position::TopLeft]
    } else {
        Seq::empty()
    }) + (if p.top_right {
        seq![Position::TopRight]
    } else {
        Seq::empty()
    }) + (if p.bottom_left {
        seq![Position::BottomLeft]
    } else {
        Seq::empty()
    }) + (if p.bottom_right {
        seq![Position::BottomRight]
    } else {
        Seq::empty()
    }) + (if p.center {
        seq![Position::Center]
    } else {
        Seq::empty()
    })
}

/// Lists the positions the configuration enables.
pub fn get_enabled_positions(config: &AppConfig) -> (positions: Vec<Position>)
    ensures
        positions@ == spec_enabled_positions(config.positions),
{
    let mut positions: Vec<Position> = Vec::new();
    if config.positions.top_left {
        positions.push(Position::TopLeft);
    }
    if config.positions.top_right {
        positions.push(Position::TopRight);
    }
    if config.positions.bottom_left {
        positions.push(Position::BottomLeft);
    }
    if config.positions.bottom_right {
        positions.push(Position::BottomRight);
    }
    if config.positions.center {
        positions.push(Position::Center);
    }
    proof {
        assert(positions@ =~= spec_enabled_positions(config.positions));
    }
    positions
}

/// The (monitor, position) pairs the indicator set is built from: for each
/// monitor in order, one pair per enabled position.
pub open spec fn spec_indicator_grid(
    monitors: Seq<MonitorInfo>,
    positions: Seq<Position>,
) -> Seq<(MonitorInfo, Position)>
    decreases monitors.len(),
{
    if monitors.len() == 0 {
        Seq::empty()
    } else {
        spec_indicator_grid(monitors.drop_last(), positions) + Seq::new(
            positions.len(),
            |j: int| (monitors.last(), positions[j]),
        )
    }
}

/// Whether `w` is exactly the state `IndicatorWindow::new` builds for this
/// position, configuration and monitor.
pub open spec fn spec_is_new_indicator(
    w: IndicatorWindow,
    position: Position,
    c: AppConfig,
    m: MonitorInfo,
) -> bool {
    &&& w.position == position
    &&& w.monitor == m
    &&& w.font_size == spec_font_size_for(position, c)
    &&& w.width as int == spec_window_width(w.font_size)
    &&& w.height as int == spec_window_height(w.font_size)
    &&& (w.x as int, w.y as int) == spec_position_xy(
        position,
        m,
        w.width as int,
        w.height as int,
        c.margin as int,
    )
    &&& w.text@ == "EN"@
    &&& !w.is_russian
    &&& w.alpha == 0
    &&& w.target_alpha == 0
    &&& w.max_alpha == MAX_ALPHA
}

/// Builds one indicator window per (monitor, enabled position) pair, in
/// grid order: all positions of the first monitor, then of the next.
pub fn create_indicators(config: &AppConfig, monitors: &Vec<MonitorInfo>) -> (windows: Vec<
    IndicatorWindow,
>)
    requires
        forall|mi: int, pj: int|
            0 <= mi < monitors@.len() && 0 <= pj < spec_enabled_positions(config.positions).len()
                ==> spec_indicator_geometry_ok(
                #[trigger] spec_enabled_positions(config.positions)[pj],
                *config,
                #[trigger] monitors@[mi],
            ),
    ensures
        ({
            let grid = spec_indicator_grid(monitors@, spec_enabled_positions(config.positions));
            &&& windows@.len() == grid.len()
            &&& windows@.len() == monitors@.len() * spec_enabled_positions(
                config.positions,
            ).len()
            &&& forall|k: int|
                0 <= k < grid.len() ==> spec_is_new_indicator(
                    #[trigger] windows@[k],
                    grid[k].1,
                    *config,
                    grid[k].0,
                )
        }),
{
    let positions = get_enabled_positions(config);
    let ghost pseq = spec_enabled_positions(config.positions);
    let mut windows: Vec<IndicatorWindow> = Vec::new();
    let mut mi: usize = 0;
    proof {
        assert(monitors@.take(0) =~= Seq::<MonitorInfo>::empty());
    }
    while mi < monitors.len()
        invariant
            mi <= monitors@.len(),
            positions@ == pseq,
            forall|a: int, b: int|
                0 <= a < monitors@.len() && 0 <= b < pseq.len() ==> spec_indicator_geometry_ok(
                    #[trigger] pseq[b],
                    *config,
                    #[trigger] monitors@[a],
                ),
            ({
                let grid = spec_indicator_grid(monitors@.take(mi as int), pseq);
                &&& windows@.len() == grid.len()
                &&& forall|k: int|
                    0 <= k < grid.len() ==> spec_is_new_indicator(
                        #[trigger] windows@[k],
                        grid[k].1,
                        *config,
                        grid[k].0,
                    )
            }),
        decreases monitors@.len() - mi,
    {
        let monitor = monitors[mi];
        let ghost base = windows@.len() as int;
        let mut pj: usize = 0;
        while pj < positions.len()
            invariant
                pj <= pseq.len(),
                positions@ == pseq,
                mi < monitors@.len(),
                monitor == monitors@[mi as int],
                forall|a: int, b: int|
                    0 <= a < monitors@.len() && 0 <= b < pseq.len() ==> spec_indicator_geometry_ok(
                        #[trigger] pseq[b],
                        *config,
                        #[trigger] monitors@[a],
                    ),
                base == spec_indicator_grid(monitors@.take(mi as int), pseq).len(),
                windows@.len() == base + pj,
                ({
                    let grid = spec_indicator_grid(monitors@.take(mi as int), pseq);
                    forall|k: int|
                        0 <= k < grid.len() ==> spec_is_new_indicator(
                            #[trigger] windows@[k],
                            grid[k].1,
                            *config,
                            grid[k].0,
                        )
                }),
                forall|j: int|
                    0 <= j < pj ==> spec_is_new_indicator(
                        #[trigger] windows@[base + j],
                        pseq[j],
                        *config,
                        monitors@[mi as int],
                    ),
            decreases pseq.len() - pj,
        {
            let w = IndicatorWindow::new(positions[pj], config, monitor);
            windows.push(w);
            pj = pj + 1;
        }
        proof {
            let taken = monitors@.take(mi as int + 1);
            assert(taken.drop_last() =~= monitors@.take(mi as int));
            assert(taken.last() == monitors@[mi as int]);
            let grid_old = spec_indicator_grid(monitors@.take(mi as int), pseq);
            let grid_new = spec_indicator_grid(taken, pseq);
            assert(grid_new == grid_old + Seq::new(
                pseq.len(),
                |j: int| (monitors@[mi as int], pseq[j]),
            ));
            assert forall|k: int| 0 <= k < grid_new.len() implies spec_is_new_indicator(
                #[trigger] windows@[k],
                grid_new[k].1,
                *config,
                grid_new[k].0,
            ) by {
                if k >= grid_old.len() {
                    assert(grid_new[k] == (monitors@[mi as int], pseq[k - base]));
                    assert(spec_is_new_indicator(
                        windows@[base + (k - base)],
                        pseq[k - base],
                        *config,
                        monitors@[mi as int],
                    ));
                }
            }
        }
        mi = mi + 1;
    }
    proof {
        assert(monitors@.take(monitors@.len() as int) =~= monitors@);
        lemma_indicator_grid_len(monitors@, pseq);
    }
    windows
}

/// The indicator grid holds one entry per (monitor, enabled position)
/// pair.
pub proof fn lemma_indicator_grid_len(monitors: Seq<MonitorInfo>, positions: Seq<Position>)
    ensures
        spec_indicator_grid(monitors, positions).len() == monitors.len() * positions.len(),
    decreases monitors.len(),
{
    if monitors.len() > 0 {
        lemma_indicator_grid_len(monitors.drop_last(), positions);
        assert((monitors.len() - 1) * positions.len() + positions.len() == monitors.len()
            * positions.len()) by (nonlinear_arith);
    }
}

} // verus!
