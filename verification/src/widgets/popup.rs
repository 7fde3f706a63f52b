//! **AlertPopup**: a centered alert box that can flash.
//!
//! A double-bordered box on the panel background with an optional centered
//! title and a centered message. [`AlertPopupState::flash`] makes the border
//! blink for a number of ticks.

use vstd::prelude::*;

use crate::theme::Theme;

verus! {

/// An alert popup.
#[derive(Debug, Clone)]
pub struct AlertPopup {
    /// Optional title on the top border.
    pub title: Option<String>,
    /// The message.
    pub message: String,
    /// Theme whose palette drives colors.
    pub theme: Theme,
}

impl AlertPopup {
    /// A popup showing `message`, no title, default theme.
    pub fn new(message: &str) -> (p: AlertPopup)
        ensures
            p.title is None,
            p.message@ == message@,
            p.theme == Theme::Cyberpunk,
    {
        AlertPopup { title: None, message: String::from_str(message), theme: Theme::Cyberpunk }
    }

    /// Set the title.
    pub fn title(self, title: &str) -> (p: AlertPopup)
        ensures
            p.title matches Some(t) && t@ == title@,
            p.message == self.message,
            p.theme == self.theme,
    {
        AlertPopup { title: Some(String::from_str(title)), ..self }
    }

    /// Set the theme.
    pub fn theme(self, theme: Theme) -> (p: AlertPopup)
        ensures
            p == (AlertPopup { theme, ..self }),
    {
        AlertPopup { theme, ..self }
    }
}

/// How the popup border is drawn in a given tick.
#[derive(Debug, Clone, Copy, PartialEq, Eq, Structural)]
pub enum FlashPhase {
    /// Not flashing: alert border on the panel.
    Steady,
    /// Flashing, bright half: inverted border on the alert color.
    On,
    /// Flashing, dim half: muted border on the panel.
    Off,
}

/// Mutable state for [`AlertPopup`]: the remaining flash ticks.
#[derive(Debug, Clone, Copy)]
pub struct AlertPopupState {
    /// Ticks of flashing left (0 = steady).
    pub flash_remaining: u32,
}

impl Default for AlertPopupState {
    fn default() -> (s: AlertPopupState)
        ensures
            s.flash_remaining == 0,
    {
        AlertPopupState { flash_remaining: 0 }
    }
}

/// The flash ticks left after one tick.
pub open spec fn flash_ticked(remaining: u32) -> u32 {
    if remaining > 0 {
        (remaining - 1) as u32
    } else {
        0
    }
}

/// The flash ticks left after `k` ticks.
pub open spec fn flash_after(remaining: u32, k: nat) -> u32
    decreases k,
{
    if k == 0 {
        remaining
    } else {
        flash_ticked(flash_after(remaining, (k - 1) as nat))
    }
}

/// A flash of `n` ticks lasts exactly `n` ticks: after `k < n` ticks the
/// popup still flashes, after `n` it is steady (and stays so).
pub proof fn lemma_flash_lasts(n: u32, k: nat)
    ensures
        k < n ==> flash_after(n, k) == n - k,
        k >= n ==> flash_after(n, k) == 0,
    decreases k,
{
    if k > 0 {
        lemma_flash_lasts(n, (k - 1) as nat);
    }
}

impl AlertPopupState {
    /// Start flashing for `ticks` ticks.
    pub fn flash(&mut self, ticks: u32)
        ensures
            final(self).flash_remaining == ticks,
    {
        self.flash_remaining = ticks;
    }

    /// Count one tick of the flash down (never below zero); returns whether
    /// the popup is still flashing.
    pub fn tick(&mut self) -> (still: bool)
        ensures
            final(self).flash_remaining == flash_ticked(old(self).flash_remaining),
            still == (final(self).flash_remaining > 0),
    {
        if self.flash_remaining > 0 {
            self.flash_remaining = self.flash_remaining - 1;
        }
        self.flash_remaining > 0
    }

    /// The border phase: steady when not flashing, otherwise bright on an odd
    /// remaining count and dim on an even one.
    pub fn phase(&self) -> (p: FlashPhase)
        ensures
            self.flash_remaining == 0 ==> p == FlashPhase::Steady,
            self.flash_remaining > 0 && self.flash_remaining % 2 == 1 ==> p == FlashPhase::On,
            self.flash_remaining > 0 && self.flash_remaining % 2 == 0 ==> p == FlashPhase::Off,
    {
        if self.flash_remaining == 0 {
            FlashPhase::Steady
        } else if self.flash_remaining % 2 == 1 {
            FlashPhase::On
        } else {
            FlashPhase::Off
        }
    }
}

} // verus!
