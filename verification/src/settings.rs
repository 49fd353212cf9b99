//! The settings record that the shell publishes once at start-up.

use vstd::prelude::*;

verus! {

/// Smallest bit pattern that is no longer a finite positive binary64 number:
/// the pattern of positive infinity.
pub const SCALE_BITS_END: u64 = 0x7FF0_0000_0000_0000;

/// Default settings of the user interface.
///
/// The scale is kept as the bit pattern of an IEEE 754 binary64 number. The
/// record is compared and copied bit for bit, so that no scale is rounded or
/// lost between the settings resource and the user interface.
#[derive(Debug, PartialEq, Eq)]
pub struct Settings {
    /// Name of the display theme.
    pub theme: String,
    /// Bit pattern of the scale factor of the user interface.
    pub ui_scale_bits: u64,
}

/// Mathematical value of a [`Settings`] record.
pub struct SettingsView {
    pub theme: Seq<char>,
    pub ui_scale_bits: u64,
}

impl View for Settings {
    type V = SettingsView;

    open spec fn view(&self) -> SettingsView {
        SettingsView { theme: self.theme@, ui_scale_bits: self.ui_scale_bits }
    }
}

/// Whether `bits` is the pattern of a number that is finite and greater than
/// zero: the sign bit is clear, the exponent is not all ones, and the pattern
/// is not that of zero.
pub open spec fn is_positive_finite(bits: u64) -> bool {
    0 < bits < SCALE_BITS_END
}

impl Settings {
    /// Builds a record from a theme name and the bit pattern of a scale.
    pub fn new(theme: String, ui_scale_bits: u64) -> (settings: Settings)
        ensures
            settings@ == (SettingsView { theme: theme@, ui_scale_bits }),
    {
        Settings { theme, ui_scale_bits }
    }

    /// Tells whether the scale is a finite number greater than zero, which is
    /// what the user interface expects of it.
    pub fn has_usable_scale(&self) -> (usable: bool)
        ensures
            usable == is_positive_finite(self.ui_scale_bits),
    {
        0 < self.ui_scale_bits && self.ui_scale_bits < SCALE_BITS_END
    }
}

impl Clone for Settings {
    fn clone(&self) -> (copy: Settings)
        ensures
            copy@ == self@,
    {
        Settings { theme: self.theme.clone(), ui_scale_bits: self.ui_scale_bits }
    }
}

} // verus!
