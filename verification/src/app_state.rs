//! The application state: how the machine is kept awake, whether the display
//! is kept awake too, and the icon frame last shown. Every update of the
//! menu bar derives from it.

use vstd::prelude::*;

use crate::awake::AwakeError;
use crate::duration::{saturating_diff, Duration, MAX_NANOS, NANOS_PER_SEC};
use crate::icons::{frame_for, frame_for_remaining, frame_index, law_more_time_left_never_emptier, IconFrame};
use crate::text::{lemma_two_digits_injective, lemma_two_digits_len, push_two_digits, two_digits};
use crate::timer::TimerState;
use crate::tray::TrayCommand;

verus! {

/// How the machine is kept awake. `Expired` is a resting state after a
/// timed session ran out; it differs from `Inactive` only in the text it
/// shows.
#[derive(Debug)]
pub enum AwakeMode {
    /// Nothing is kept awake.
    Inactive,
    /// Kept awake with no time limit.
    Indefinite,
    /// Kept awake for the timer's length.
    Timed(TimerState),
    /// A timed session ran out and its assertion was released.
    Expired,
}

impl AwakeMode {
    /// True while a session keeps the machine awake.
    pub fn is_active(&self) -> (b: bool)
        ensures
            b == (self is Indefinite || self is Timed),
    {
        match self {
            AwakeMode::Indefinite | AwakeMode::Timed(_) => true,
            _ => false,
        }
    }
}

/// The tooltip of a timed session with `remaining` nanoseconds left:
/// minutes and seconds, each at least two digits.
pub open spec fn timed_tooltip_text(remaining: nat) -> Seq<char> {
    let secs = remaining / (NANOS_PER_SEC as nat);
    "KeepAwake: "@ + two_digits(secs / 60) + ":"@ + two_digits(secs % 60) + " van hátra"@
}

/// `text` is a tooltip that `mode` can show: a fixed text for each mode but
/// a timed one, whose text shows some time left no longer than its length.
pub open spec fn tooltip_fits(mode: AwakeMode, text: Seq<char>) -> bool {
    match mode {
        AwakeMode::Inactive => text == "KeepAwake: inaktív"@,
        AwakeMode::Indefinite => text == "KeepAwake: aktív"@,
        AwakeMode::Timed(t) => exists|r: nat| r <= t@ && text == #[trigger] timed_tooltip_text(r),
        AwakeMode::Expired => text == "KeepAwake: lejárt"@,
    }
}

/// `frame` is an icon frame that `mode` can show: the empty cup when
/// nothing is kept awake, the full cup without a time limit, and for a timed
/// session the frame of some time left no longer than its length.
pub open spec fn frame_fits(mode: AwakeMode, frame: IconFrame) -> bool {
    match mode {
        AwakeMode::Inactive => frame == IconFrame::Empty,
        AwakeMode::Expired => frame == IconFrame::Empty,
        AwakeMode::Indefinite => frame == IconFrame::Full,
        AwakeMode::Timed(t) => exists|r: nat| r <= t@ && frame == #[trigger] frame_for(r, t@),
    }
}

/// The tooltip of `mode` when `elapsed` nanoseconds of a timed session have
/// passed.
pub open spec fn tooltip_text_at(mode: AwakeMode, elapsed: nat) -> Seq<char> {
    match mode {
        AwakeMode::Inactive => "KeepAwake: inaktív"@,
        AwakeMode::Indefinite => "KeepAwake: aktív"@,
        AwakeMode::Timed(t) => timed_tooltip_text(saturating_diff(t@, elapsed)),
        AwakeMode::Expired => "KeepAwake: lejárt"@,
    }
}

/// The icon frame of `mode` when `elapsed` nanoseconds of a timed session
/// have passed.
pub open spec fn frame_at(mode: AwakeMode, elapsed: nat) -> IconFrame {
    match mode {
        AwakeMode::Inactive => IconFrame::Empty,
        AwakeMode::Expired => IconFrame::Empty,
        AwakeMode::Indefinite => IconFrame::Full,
        AwakeMode::Timed(t) => frame_for(saturating_diff(t@, elapsed), t@),
    }
}

/// The mode after a tick that read `elapsed`: a timed session whose time is
/// up becomes `Expired`; every other mode stays.
pub open spec fn expires_at(mode: AwakeMode, elapsed: nat) -> bool {
    mode matches AwakeMode::Timed(t) && elapsed >= t@
}

/// What the power controller is to do for a menu command.
#[derive(Debug, Clone, Copy, PartialEq, Eq, Structural)]
pub enum PowerRequest {
    /// Start keeping awake, with the display too where set.
    Start { keep_display_awake: bool },
    /// Release everything.
    Stop,
    /// Turn the display assertion on or off.
    SetKeepDisplayAwake(bool),
    /// Release everything and leave the event loop.
    StopAndQuit,
}

/// The tooltip of a timed session with `remaining` left, such as
/// `KeepAwake: 24:13 van hátra`.
pub fn timed_tooltip(remaining: Duration) -> (s: String)
    ensures
        s@ == timed_tooltip_text(remaining@),
{
    let secs = remaining.as_secs();
    let mut s = String::from_str("KeepAwake: ");
    push_two_digits(&mut s, secs / 60);
    s.append(":");
    push_two_digits(&mut s, secs % 60);
    s.append(" van hátra");
    s
}

/// The whole state of the application.
pub struct AppState {
    pub awake_mode: AwakeMode,
    pub keep_display_awake: bool,
    /// The frame last set on the tray icon, so that the icon is set only
    /// when the frame changes.
    pub current_icon_frame: IconFrame,
}

/// What the tray last showed: the tooltip (also the status line of the
/// menu) and whether the stop and the no-limit items were enabled, `None`
/// before the first update.
pub struct TrayShown {
    pub tooltip: String,
    pub stop_enabled: Option<bool>,
    pub indefinite_enabled: Option<bool>,
}

impl TrayShown {
    /// Nothing shown yet.
    pub fn new() -> (shown: TrayShown)
        ensures
            shown.tooltip@ == Seq::<char>::empty(),
            shown.stop_enabled is None,
            shown.indefinite_enabled is None,
    {
        TrayShown { tooltip: String::new(), stop_enabled: None, indefinite_enabled: None }
    }
}

/// The changes of one tick: each `Some` is a value to set on the tray.
pub struct TickUpdate {
    /// The timed session ran out in this tick: its assertions are to be
    /// released.
    pub expired: bool,
    /// The new icon frame.
    pub frame: Option<IconFrame>,
    /// The new tooltip and menu status line.
    pub tooltip: Option<String>,
    /// Whether the stop item is now enabled.
    pub stop_enabled: Option<bool>,
    /// Whether the no-limit item is now enabled.
    pub indefinite_enabled: Option<bool>,
}

/// The new value of something shown, `Some` only where it changed.
pub open spec fn changed<T>(old_value: Option<T>, new_value: T) -> Option<T> {
    if old_value == Some(new_value) {
        None
    } else {
        Some(new_value)
    }
}

impl AppState {
    /// Nothing kept awake, the display option off, the empty cup shown.
    pub fn new() -> (s: Self)
        ensures
            s.awake_mode is Inactive,
            !s.keep_display_awake,
            s.current_icon_frame == IconFrame::Empty,
    {
        AppState {
            awake_mode: AwakeMode::Inactive,
            keep_display_awake: false,
            current_icon_frame: IconFrame::Empty,
        }
    }

    /// True while a session keeps the machine awake.
    pub fn is_active(&self) -> (b: bool)
        ensures
            b == (self.awake_mode is Indefinite || self.awake_mode is Timed),
    {
        self.awake_mode.is_active()
    }

    /// One reading of the clock for the current mode: the time since a timed
    /// session began, zero in every other mode.
    fn clock_reading(&self) -> (d: Duration)
        ensures
            d@ <= MAX_NANOS,
    {
        match &self.awake_mode {
            AwakeMode::Timed(t) => t.elapsed(),
            _ => Duration::zero(),
        }
    }

    /// The tooltip of the current mode once `elapsed` of a timed session has
    /// passed.
    pub fn tooltip_at(&self, elapsed: Duration) -> (s: String)
        ensures
            s@ == tooltip_text_at(self.awake_mode, elapsed@),
    {
        match &self.awake_mode {
            AwakeMode::Inactive => String::from_str("KeepAwake: inaktív"),
            AwakeMode::Indefinite => String::from_str("KeepAwake: aktív"),
            AwakeMode::Timed(t) => timed_tooltip(t.remaining_at(elapsed)),
            AwakeMode::Expired => String::from_str("KeepAwake: lejárt"),
        }
    }

    /// The status line at the top of the menu once `elapsed` of a timed
    /// session has passed: the same text as the tooltip for that reading.
    pub fn status_text_at(&self, elapsed: Duration) -> (s: String)
        ensures
            s@ == tooltip_text_at(self.awake_mode, elapsed@),
    {
        self.tooltip_at(elapsed)
    }

    /// The icon frame that the current mode calls for once `elapsed` of a
    /// timed session has passed.
    pub fn desired_frame_at(&self, elapsed: Duration) -> (frame: IconFrame)
        ensures
            frame == frame_at(self.awake_mode, elapsed@),
    {
        match &self.awake_mode {
            AwakeMode::Inactive | AwakeMode::Expired => IconFrame::Empty,
            AwakeMode::Indefinite => IconFrame::Full,
            AwakeMode::Timed(t) => frame_for_remaining(t.remaining_at(elapsed), t.total()),
        }
    }

    /// The tooltip of the current mode, by one reading of the clock.
    pub fn tooltip(&self) -> (s: String)
        ensures
            tooltip_fits(self.awake_mode, s@),
    {
        let elapsed = self.clock_reading();
        let s = self.tooltip_at(elapsed);
        proof {
            if let AwakeMode::Timed(t) = &self.awake_mode {
                let r = saturating_diff(t@, elapsed@);
                assert(r <= t@ && s@ == timed_tooltip_text(r));
            }
        }
        s
    }

    /// The status line at the top of the menu: the same text as the
    /// tooltip.
    pub fn status_text(&self) -> (s: String)
        ensures
            tooltip_fits(self.awake_mode, s@),
    {
        self.tooltip()
    }

    /// The icon frame that the current mode calls for, by one reading of the
    /// clock.
    pub fn desired_frame(&self) -> (frame: IconFrame)
        ensures
            frame_fits(self.awake_mode, frame),
    {
        let elapsed = self.clock_reading();
        let frame = self.desired_frame_at(elapsed);
        proof {
            if let AwakeMode::Timed(t) = &self.awake_mode {
                let r = saturating_diff(t@, elapsed@);
                assert(r <= t@ && frame == frame_for(r, t@));
            }
        }
        frame
    }

    /// The time left and the length of a timed session; `None` in every
    /// other mode.
    pub fn timed_window(&self) -> (w: Option<(Duration, Duration)>)
        ensures
            match self.awake_mode {
                AwakeMode::Timed(t) => w matches Some((r, total)) && total@ == t@ && r@ <= t@,
                _ => w is None,
            },
    {
        match &self.awake_mode {
            AwakeMode::Timed(t) => Some((t.remaining(), t.total())),
            _ => None,
        }
    }

    /// One tick of the menu bar for one reading `elapsed` of the clock: a
    /// timed session whose time is up becomes `Expired`; then the icon
    /// frame, the tooltip and the enabled state of the stop and no-limit
    /// items are derived from the mode and that reading, and each is
    /// reported only where it differs from what was last shown.
    pub fn tick_at(&mut self, shown: &mut TrayShown, elapsed: Duration) -> (u: TickUpdate)
        ensures
            final(self).keep_display_awake == old(self).keep_display_awake,
            // expiry
            u.expired == expires_at(old(self).awake_mode, elapsed@),
            u.expired ==> final(self).awake_mode is Expired,
            !u.expired ==> final(self).awake_mode == old(self).awake_mode,
            // the icon
            final(self).current_icon_frame == frame_at(final(self).awake_mode, elapsed@),
            u.frame == changed(Some(old(self).current_icon_frame), final(self).current_icon_frame),
            // the tooltip
            final(shown).tooltip@ == tooltip_text_at(final(self).awake_mode, elapsed@),
            u.tooltip is Some <==> final(shown).tooltip@ != old(shown).tooltip@,
            u.tooltip matches Some(t) ==> t@ == final(shown).tooltip@,
            // the menu items
            final(shown).stop_enabled == Some(
                final(self).awake_mode is Indefinite || final(self).awake_mode is Timed,
            ),
            u.stop_enabled == changed(old(shown).stop_enabled, final(shown).stop_enabled->0),
            final(shown).indefinite_enabled == Some(!(final(self).awake_mode is Indefinite)),
            u.indefinite_enabled == changed(
                old(shown).indefinite_enabled,
                final(shown).indefinite_enabled->0,
            ),
    {
        let finished = match &self.awake_mode {
            AwakeMode::Timed(t) => t.is_finished_at(elapsed),
            _ => false,
        };
        if finished {
            self.awake_mode = AwakeMode::Expired;
        }
        let desired = self.desired_frame_at(elapsed);
        let frame = if desired != self.current_icon_frame {
            self.current_icon_frame = desired;
            Some(desired)
        } else {
            None
        };
        let tip = self.tooltip_at(elapsed);
        let tooltip = if tip != shown.tooltip {
            shown.tooltip = tip.clone();
            Some(tip)
        } else {
            None
        };
        let stop = self.is_active();
        let stop_enabled = if shown.stop_enabled != Some(stop) {
            shown.stop_enabled = Some(stop);
            Some(stop)
        } else {
            None
        };
        let indefinite = match &self.awake_mode {
            AwakeMode::Indefinite => false,
            _ => true,
        };
        let indefinite_enabled = if shown.indefinite_enabled != Some(indefinite) {
            shown.indefinite_enabled = Some(indefinite);
            Some(indefinite)
        } else {
            None
        };
        TickUpdate { expired: finished, frame, tooltip, stop_enabled, indefinite_enabled }
    }

    /// One tick of the menu bar, by one reading of the clock (see `tick_at`).
    pub fn tick(&mut self, shown: &mut TrayShown) -> (u: TickUpdate)
        ensures
            // expiry, icon and tooltip all follow one reading of the clock
            exists|e: nat|
                e <= MAX_NANOS && #[trigger] expires_at(old(self).awake_mode, e) == u.expired
                    && final(self).current_icon_frame == frame_at(final(self).awake_mode, e)
                    && final(shown).tooltip@ == tooltip_text_at(final(self).awake_mode, e),
            final(self).keep_display_awake == old(self).keep_display_awake,
            // only a timed session can run out, and it becomes `Expired`
            u.expired ==> old(self).awake_mode is Timed && final(self).awake_mode is Expired,
            !u.expired ==> final(self).awake_mode == old(self).awake_mode,
            // the icon
            frame_fits(final(self).awake_mode, final(self).current_icon_frame),
            u.frame == changed(Some(old(self).current_icon_frame), final(self).current_icon_frame),
            // the tooltip
            tooltip_fits(final(self).awake_mode, final(shown).tooltip@),
            u.tooltip is Some <==> final(shown).tooltip@ != old(shown).tooltip@,
            u.tooltip matches Some(t) ==> t@ == final(shown).tooltip@,
            // the menu items
            final(shown).stop_enabled == Some(
                final(self).awake_mode is Indefinite || final(self).awake_mode is Timed,
            ),
            u.stop_enabled == changed(old(shown).stop_enabled, final(shown).stop_enabled->0),
            final(shown).indefinite_enabled == Some(!(final(self).awake_mode is Indefinite)),
            u.indefinite_enabled == changed(
                old(shown).indefinite_enabled,
                final(shown).indefinite_enabled->0,
            ),
    {
        let elapsed = self.clock_reading();
        let u = self.tick_at(shown, elapsed);
        proof {
            assert(expires_at(old(self).awake_mode, elapsed@) == u.expired);
            if let AwakeMode::Timed(t) = &self.awake_mode {
                let r = saturating_diff(t@, elapsed@);
                assert(r <= t@ && self.current_icon_frame == frame_for(r, t@));
                assert(r <= t@ && shown.tooltip@ == timed_tooltip_text(r));
            }
        }
        u
    }

    /// What the power controller is to do for a menu command: start with
    /// the current display option, stop, switch the display assertion to
    /// the flipped option, or stop and quit.
    pub fn power_request(&self, cmd: TrayCommand) -> (r: PowerRequest)
        ensures
            r == match cmd {
                TrayCommand::StartIndefinite => PowerRequest::Start {
                    keep_display_awake: self.keep_display_awake,
                },
                TrayCommand::StartTimed(_) => PowerRequest::Start {
                    keep_display_awake: self.keep_display_awake,
                },
                TrayCommand::Stop => PowerRequest::Stop,
                TrayCommand::ToggleDisplayAwake => PowerRequest::SetKeepDisplayAwake(
                    !self.keep_display_awake,
                ),
                TrayCommand::Quit => PowerRequest::StopAndQuit,
            },
    {
        match cmd {
            TrayCommand::StartIndefinite | TrayCommand::StartTimed(_) => PowerRequest::Start {
                keep_display_awake: self.keep_display_awake,
            },
            TrayCommand::Stop => PowerRequest::Stop,
            TrayCommand::ToggleDisplayAwake => PowerRequest::SetKeepDisplayAwake(
                !self.keep_display_awake,
            ),
            TrayCommand::Quit => PowerRequest::StopAndQuit,
        }
    }

    /// Applies a menu command once its power request was carried out with
    /// `result`: a start that succeeded enters its mode (a failed one
    /// changes nothing), stop becomes inactive, the display option flips,
    /// and quit changes nothing.
    pub fn on_command(&mut self, cmd: TrayCommand, result: Result<(), AwakeError>)
        ensures
            final(self).current_icon_frame == old(self).current_icon_frame,
            match cmd {
                TrayCommand::StartIndefinite => {
                    &&& final(self).keep_display_awake == old(self).keep_display_awake
                    &&& result is Ok ==> final(self).awake_mode is Indefinite
                    &&& result is Err ==> final(self).awake_mode == old(self).awake_mode
                },
                TrayCommand::StartTimed(total) => {
                    &&& final(self).keep_display_awake == old(self).keep_display_awake
                    &&& result is Ok ==> (final(self).awake_mode matches AwakeMode::Timed(t)
                        && t@ == total@)
                    &&& result is Err ==> final(self).awake_mode == old(self).awake_mode
                },
                TrayCommand::Stop => {
                    &&& final(self).keep_display_awake == old(self).keep_display_awake
                    &&& final(self).awake_mode is Inactive
                },
                TrayCommand::ToggleDisplayAwake => {
                    &&& final(self).keep_display_awake == !old(self).keep_display_awake
                    &&& final(self).awake_mode == old(self).awake_mode
                },
                TrayCommand::Quit => {
                    &&& final(self).keep_display_awake == old(self).keep_display_awake
                    &&& final(self).awake_mode == old(self).awake_mode
                },
            },
    {
        match cmd {
            TrayCommand::StartIndefinite => {
                if result.is_ok() {
                    self.awake_mode = AwakeMode::Indefinite;
                }
            },
            TrayCommand::StartTimed(total) => {
                if result.is_ok() {
                    self.awake_mode = AwakeMode::Timed(TimerState::new(total));
                }
            },
            TrayCommand::Stop => {
                self.awake_mode = AwakeMode::Inactive;
            },
            TrayCommand::ToggleDisplayAwake => {
                self.keep_display_awake = !self.keep_display_awake;
            },
            TrayCommand::Quit => {},
        }
    }
}

impl Default for AppState {
    fn default() -> (s: Self)
        ensures
            s.awake_mode is Inactive,
            !s.keep_display_awake,
            s.current_icon_frame == IconFrame::Empty,
    {
        AppState::new()
    }
}

/// Equal timed tooltips show the same whole seconds left.
proof fn lemma_timed_tooltip_injective(r1: nat, r2: nat)
    requires
        timed_tooltip_text(r1) == timed_tooltip_text(r2),
    ensures
        r1 / (NANOS_PER_SEC as nat) == r2 / (NANOS_PER_SEC as nat),
{
    let secs1 = r1 / (NANOS_PER_SEC as nat);
    let secs2 = r2 / (NANOS_PER_SEC as nat);
    let head = "KeepAwake: "@;
    let tail = " van hátra"@;
    reveal_strlit("KeepAwake: ");
    reveal_strlit(":");
    reveal_strlit(" van hátra");
    lemma_two_digits_len(secs1 % 60);
    lemma_two_digits_len(secs2 % 60);
    let x1 = two_digits(secs1 / 60) + ":"@ + two_digits(secs1 % 60);
    let x2 = two_digits(secs2 / 60) + ":"@ + two_digits(secs2 % 60);
    let t1 = timed_tooltip_text(r1);
    assert(t1 =~= head + x1 + tail);
    assert(timed_tooltip_text(r2) =~= head + x2 + tail);
    assert(x1 =~= t1.subrange(head.len() as int, t1.len() - tail.len()));
    assert(x2 =~= t1.subrange(head.len() as int, t1.len() - tail.len()));
    assert(two_digits(secs1 % 60) =~= x1.subrange(x1.len() - 2, x1.len() as int));
    assert(two_digits(secs2 % 60) =~= x2.subrange(x2.len() - 2, x2.len() as int));
    lemma_two_digits_injective(secs1 % 60, secs2 % 60);
    assert(two_digits(secs1 / 60) =~= x1.subrange(0, x1.len() - 3));
    assert(two_digits(secs2 / 60) =~= x2.subrange(0, x2.len() - 3));
    lemma_two_digits_injective(secs1 / 60, secs2 / 60);
    assert(secs1 == 60 * (secs1 / 60) + secs1 % 60);
    assert(secs2 == 60 * (secs2 / 60) + secs2 % 60);
}

/// A timed session expires exactly at a reading that covers its length; once
/// expired, no later reading expires it again, and it shows the empty cup and
/// the expired text whatever the clock reads.
pub proof fn law_tick_expires_when_time_is_up(timer: TimerState, e: nat, later: nat)
    ensures
        expires_at(AwakeMode::Timed(timer), e) == (e >= timer@),
        !expires_at(AwakeMode::Expired, later),
        frame_at(AwakeMode::Expired, later) == IconFrame::Empty,
        tooltip_text_at(AwakeMode::Expired, later) == "KeepAwake: lejárt"@,
        !expires_at(AwakeMode::Inactive, e) && !expires_at(AwakeMode::Indefinite, e),
{
}

/// The cup of a timed session never fills up as the clock runs on: it is
/// full at the start, and empty once four fifths of the length have passed.
pub proof fn law_cup_empties_as_time_passes(timer: TimerState, e1: nat, e2: nat)
    ensures
        e1 <= e2 ==> frame_index(frame_at(AwakeMode::Timed(timer), e2)) <= frame_index(
            frame_at(AwakeMode::Timed(timer), e1),
        ),
        frame_at(AwakeMode::Timed(timer), 0) == IconFrame::Full,
        timer@ > 0 && 5 * e1 >= 4 * timer@ ==> frame_at(AwakeMode::Timed(timer), e1)
            == IconFrame::Empty,
{
    if e1 <= e2 {
        law_more_time_left_never_emptier(
            saturating_diff(timer@, e2),
            saturating_diff(timer@, e1),
            timer@,
        );
    }
}

/// The tooltip of a timed session tells apart any two readings that leave
/// different whole seconds, and the time it shows falls as the clock runs:
/// at the start it shows the whole length.
pub proof fn law_tooltip_counts_down(timer: TimerState, e1: nat, e2: nat)
    ensures
        saturating_diff(timer@, e1) / (NANOS_PER_SEC as nat) != saturating_diff(timer@, e2) / (
        NANOS_PER_SEC as nat) ==> tooltip_text_at(AwakeMode::Timed(timer), e1)
            != tooltip_text_at(AwakeMode::Timed(timer), e2),
        tooltip_text_at(AwakeMode::Timed(timer), 0) == timed_tooltip_text(timer@),
{
    if tooltip_text_at(AwakeMode::Timed(timer), e1) == tooltip_text_at(AwakeMode::Timed(timer), e2) {
        lemma_timed_tooltip_injective(saturating_diff(timer@, e1), saturating_diff(timer@, e2));
    }
}

} // verus!
