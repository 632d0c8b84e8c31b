//! Appearance options. Every field is optional; whoever reads a field
//! applies the default that belongs to it.

use vstd::prelude::*;

verus! {

/// The global palette. Each entry is a color token: `#RRGGBB` or a color name.
#[derive(Debug)]
pub struct ColorsConfig {
    pub text: Option<String>,
    pub background: Option<String>,
    pub status_bar_text: Option<String>,
    pub status_bar_background: Option<String>,
    pub command_box_text: Option<String>,
    pub command_box_background: Option<String>,
    pub command_box_border: Option<String>,
    pub message_text: Option<String>,
}

/// The mode bar at the bottom of the screen.
#[derive(Debug)]
pub struct ModeBarConfig {
    pub show_mode: Option<bool>,
    pub show_filename: Option<bool>,
    pub show_dirty_indicator: Option<bool>,
    pub primary_color: Option<String>,
    pub secondary_color: Option<String>,
    pub text_color: Option<String>,
    pub height: Option<u16>,
    pub width: Option<u16>,
}

/// The box that hosts the command prompt.
#[derive(Debug)]
pub struct CommandBoxConfig {
    pub primary_color: Option<String>,
    pub secondary_color: Option<String>,
    pub text_color: Option<String>,
    pub height: Option<u16>,
    pub width: Option<u16>,
    pub text: Option<String>,
}

/// All appearance options.
#[derive(Debug)]
pub struct Config {
    pub colors: ColorsConfig,
    pub mode_bar: ModeBarConfig,
    pub command_box: CommandBoxConfig,
}

impl ColorsConfig {
    /// No entry is set.
    pub open spec fn is_unset(self) -> bool {
        &&& self.text is None
        &&& self.background is None
        &&& self.status_bar_text is None
        &&& self.status_bar_background is None
        &&& self.command_box_text is None
        &&& self.command_box_background is None
        &&& self.command_box_border is None
        &&& self.message_text is None
    }
}

impl ModeBarConfig {
    /// No entry is set.
    pub open spec fn is_unset(self) -> bool {
        &&& self.show_mode is None
        &&& self.show_filename is None
        &&& self.show_dirty_indicator is None
        &&& self.primary_color is None
        &&& self.secondary_color is None
        &&& self.text_color is None
        &&& self.height is None
        &&& self.width is None
    }

    /// Rows the mode bar takes when none are configured.
    pub open spec fn default_height() -> u16 {
        2
    }

    /// Rows the mode bar takes.
    pub open spec fn rows(self) -> u16 {
        match self.height {
            Some(h) => h,
            None => Self::default_height(),
        }
    }
}

impl CommandBoxConfig {
    /// No entry is set.
    pub open spec fn is_unset(self) -> bool {
        &&& self.primary_color is None
        &&& self.secondary_color is None
        &&& self.text_color is None
        &&& self.height is None
        &&& self.width is None
        &&& self.text is None
    }
}

impl Config {
    /// No entry of any group is set.
    pub open spec fn is_unset(self) -> bool {
        &&& self.colors.is_unset()
        &&& self.mode_bar.is_unset()
        &&& self.command_box.is_unset()
    }

    /// Rows left for text on a terminal of `height` rows, above the mode bar.
    pub open spec fn text_rows(self, height: u16) -> u16 {
        if height >= self.mode_bar.rows() {
            (height - self.mode_bar.rows()) as u16
        } else {
            0
        }
    }

    /// Rows left for text on a terminal of `height` rows, above the mode bar.
    pub fn text_area_height(&self, height: u16) -> (rows: u16)
        ensures
            rows == self.text_rows(height),
    {
        let bar: u16 = match self.mode_bar.height {
            Some(h) => h,
            None => 2,
        };
        if height >= bar {
            height - bar
        } else {
            0
        }
    }
}

impl Default for ColorsConfig {
    fn default() -> (config: Self)
        ensures
            config.is_unset(),
    {
        ColorsConfig {
            text: None,
            background: None,
            status_bar_text: None,
            status_bar_background: None,
            command_box_text: None,
            command_box_background: None,
            command_box_border: None,
            message_text: None,
        }
    }
}

impl Default for ModeBarConfig {
    fn default() -> (config: Self)
        ensures
            config.is_unset(),
    {
        ModeBarConfig {
            show_mode: None,
            show_filename: None,
            show_dirty_indicator: None,
            primary_color: None,
            secondary_color: None,
            text_color: None,
            height: None,
            width: None,
        }
    }
}

impl Default for CommandBoxConfig {
    fn default() -> (config: Self)
        ensures
            config.is_unset(),
    {
        CommandBoxConfig {
            primary_color: None,
            secondary_color: None,
            text_color: None,
            height: None,
            width: None,
            text: None,
        }
    }
}

impl Default for Config {
    fn default() -> (config: Self)
        ensures
            config.is_unset(),
    {
        Config {
            colors: ColorsConfig::default(),
            mode_bar: ModeBarConfig::default(),
            command_box: CommandBoxConfig::default(),
        }
    }
}

} // verus!
