//! The flashing of the tray icon: which icon to show at each step, and when
//! the flashing ends.

use vstd::prelude::*;

verus! {

/// How often the icon changes in one run of flashing.
pub const FLASH_STEPS: u32 = 10;

/// Milliseconds between two changes of the icon.
pub const FLASH_INTERVAL_MILLIS: u64 = 400;

/// The share of its size, in hundredths, to which the small icon is drawn.
pub const SMALL_ICON_PERCENT: u32 = 60;

/// Whether the tray icon is flashing.
#[derive(Debug, Clone, Copy, PartialEq, Eq, Structural)]
pub struct FlashFlag {
    pub flashing: bool,
}

/// Asks for the tray icon to flash. Returns whether a run of flashing is to
/// be started: it is not where one is under way.
pub fn start_tray_flash(flag: &mut FlashFlag) -> (start: bool)
    ensures
        final(flag).flashing,
        start == !old(flag).flashing,
{
    let was = flag.flashing;
    flag.flashing = true;
    !was
}

/// Asks for the flashing of the tray icon to stop.
pub fn stop_tray_flash(flag: &mut FlashFlag)
    ensures
        !final(flag).flashing,
{
    flag.flashing = false;
}

/// An icon of the tray.
#[derive(Debug, Clone, Copy, PartialEq, Eq, Structural)]
pub enum TrayIcon {
    /// The icon drawn small.
    Small,
    /// The icon as it is.
    Original,
}

/// What to do at a step of a run of flashing.
#[derive(Debug, Clone, Copy, PartialEq, Eq, Structural)]
pub enum FlashStep {
    /// Show this icon and wait for the next step.
    Show(TrayIcon),
    /// There is no tray icon to change: wait for the next step.
    Skip,
    /// The run is over: show the icon as it is and lower the flag.
    Finish,
}

/// A run of flashing: the steps taken, and the icon that comes next.
#[derive(Debug, Clone, Copy, PartialEq, Eq, Structural)]
pub struct FlashRun {
    pub steps: u32,
    pub show_small: bool,
}

impl FlashRun {
    pub open spec fn wf(self) -> bool {
        self.steps <= FLASH_STEPS
    }

    /// The run goes on: steps are left and nobody asked for the flashing to
    /// stop.
    pub open spec fn goes_on(self, flag: FlashFlag) -> bool {
        self.steps < FLASH_STEPS && flag.flashing
    }

    /// A run begins with the small icon.
    pub fn new() -> (run: FlashRun)
        ensures
            run == (FlashRun { steps: 0, show_small: true }),
            run.wf(),
    {
        FlashRun { steps: 0, show_small: true }
    }

    /// Whether the run goes on.
    pub fn continues(&self, flag: &FlashFlag) -> (b: bool)
        ensures
            b == self.goes_on(*flag),
    {
        self.steps < FLASH_STEPS && flag.flashing
    }

    /// Takes a step. While the run goes on, the step shows the small icon and
    /// the icon as it is in turn, where there is a tray icon to change, and
    /// counts. Else the run finishes and the flag is lowered.
    pub fn step(&mut self, flag: &mut FlashFlag, tray_present: bool) -> (what: FlashStep)
        requires
            old(self).wf(),
        ensures
            final(self).wf(),
            old(self).goes_on(*old(flag)) ==> {
                &&& final(self).steps == old(self).steps + 1
                &&& *final(flag) == *old(flag)
                &&& tray_present ==> what == FlashStep::Show(
                    if old(self).show_small {
                        TrayIcon::Small
                    } else {
                        TrayIcon::Original
                    },
                ) && final(self).show_small == !old(self).show_small
                &&& !tray_present ==> what == FlashStep::Skip && final(self).show_small == old(
                    self,
                ).show_small
            },
            !old(self).goes_on(*old(flag)) ==> {
                &&& what == FlashStep::Finish
                &&& *final(self) == *old(self)
                &&& !final(flag).flashing
            },
    {
        if self.steps < FLASH_STEPS && flag.flashing {
            self.steps = self.steps + 1;
            if tray_present {
                let icon = if self.show_small {
                    TrayIcon::Small
                } else {
                    TrayIcon::Original
                };
                self.show_small = !self.show_small;
                FlashStep::Show(icon)
            } else {
                FlashStep::Skip
            }
        } else {
            flag.flashing = false;
            FlashStep::Finish
        }
    }
}

/// A run that nobody stops finishes at its step number `FLASH_STEPS + 1`, and
/// not before.
pub proof fn law_flash_run_ends(run: FlashRun, flag: FlashFlag)
    requires
        run.wf(),
        flag.flashing,
    ensures
        run.goes_on(flag) <==> run.steps < FLASH_STEPS,
{
}

} // verus!
