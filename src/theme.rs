use vstd::prelude::*;

use crate::button::{ButtonStyle, ButtonStyleSheet};
use crate::display::{Color, Font};

verus! {

/// Foreground color of the monochrome display.
pub const FG: Color = 0xFFFF;

/// Background color of the monochrome display.
pub const BG: Color = 0x0000;

pub const FONT_NORMAL: Font = -1;

pub const FONT_BOLD: Font = -2;

pub const FONT_MONO: Font = -3;

/// Styles of the default buttons.
pub open spec fn default_styles() -> ButtonStyleSheet {
    ButtonStyleSheet {
        normal: ButtonStyle { font: FONT_BOLD, text_color: BG, background_color: FG, border_horiz: true },
        active: ButtonStyle { font: FONT_BOLD, text_color: FG, background_color: BG, border_horiz: true },
        disabled: ButtonStyle { font: FONT_BOLD, text_color: FG, background_color: BG, border_horiz: true },
    }
}

/// Styles of the cancel buttons.
pub open spec fn cancel_styles() -> ButtonStyleSheet {
    ButtonStyleSheet {
        normal: ButtonStyle { font: FONT_BOLD, text_color: FG, background_color: BG, border_horiz: false },
        active: ButtonStyle { font: FONT_BOLD, text_color: BG, background_color: FG, border_horiz: false },
        disabled: ButtonStyle { font: FONT_BOLD, text_color: FG, background_color: BG, border_horiz: false },
    }
}

/// Inverted, framed buttons that turn plain while pressed.
pub fn button_default() -> (r: ButtonStyleSheet)
    ensures
        r == default_styles(),
{
    ButtonStyleSheet {
        normal: ButtonStyle { font: FONT_BOLD, text_color: BG, background_color: FG, border_horiz: true },
        active: ButtonStyle { font: FONT_BOLD, text_color: FG, background_color: BG, border_horiz: true },
        disabled: ButtonStyle { font: FONT_BOLD, text_color: FG, background_color: BG, border_horiz: true },
    }
}

/// Plain buttons that turn inverted while pressed.
pub fn button_cancel() -> (r: ButtonStyleSheet)
    ensures
        r == cancel_styles(),
{
    ButtonStyleSheet {
        normal: ButtonStyle { font: FONT_BOLD, text_color: FG, background_color: BG, border_horiz: false },
        active: ButtonStyle { font: FONT_BOLD, text_color: BG, background_color: FG, border_horiz: false },
        disabled: ButtonStyle { font: FONT_BOLD, text_color: FG, background_color: BG, border_horiz: false },
    }
}

} // verus!
