//! Application configuration: a builder with defaults and a finished,
//! always-valid configuration whose window sizes are never zero.

use vstd::prelude::*;
use crate::config_file::{
    file_settings, lemma_file_values, parse_config, stated_height, stated_maximized, stated_width,
};

verus! {

/// What an [`AppConfigBuilder`] holds: the values set so far.
pub struct AppConfigBuilderModel {
    pub window_inner_width: Option<u32>,
    pub window_inner_height: Option<u32>,
    pub window_starts_maximized: bool,
}

/// What an [`ApplicationConfig`] holds.
pub struct ApplicationConfigModel {
    pub window_inner_width: u32,
    pub window_inner_height: u32,
    pub window_starts_maximized: bool,
}

/// A window size in physical pixels.
#[derive(Clone, Copy, Debug, PartialEq, Eq, Structural)]
pub struct PhysicalSize {
    pub width: u32,
    pub height: u32,
}

/// The value a width setter stores: zero falls back to the default.
pub open spec fn width_setting(w: u32) -> u32 {
    if w == 0 { AppConfigBuilder::DEFAULT_WINDOW_INNER_WIDTH } else { w }
}

/// The value a height setter stores: zero falls back to the default.
pub open spec fn height_setting(h: u32) -> u32 {
    if h == 0 { AppConfigBuilder::DEFAULT_WINDOW_INNER_HEIGHT } else { h }
}

impl AppConfigBuilderModel {
    /// The model of a fresh builder from [`AppConfigBuilder::new`].
    pub open spec fn fresh() -> Self {
        AppConfigBuilderModel {
            window_inner_width: None,
            window_inner_height: None,
            window_starts_maximized: AppConfigBuilder::DEFAULT_WINDOW_STARTS_MAXIMIZED,
        }
    }

    /// The model of [`AppConfigBuilder::default`].
    pub open spec fn defaults() -> Self {
        AppConfigBuilderModel {
            window_inner_width: Some(AppConfigBuilder::DEFAULT_WINDOW_INNER_WIDTH),
            window_inner_height: Some(AppConfigBuilder::DEFAULT_WINDOW_INNER_HEIGHT),
            window_starts_maximized: AppConfigBuilder::DEFAULT_WINDOW_STARTS_MAXIMIZED,
        }
    }

    pub open spec fn set_width(self, w: u32) -> Self {
        AppConfigBuilderModel { window_inner_width: Some(width_setting(w)), ..self }
    }

    pub open spec fn set_height(self, h: u32) -> Self {
        AppConfigBuilderModel { window_inner_height: Some(height_setting(h)), ..self }
    }

    pub open spec fn set_maximized(self, m: bool) -> Self {
        AppConfigBuilderModel { window_starts_maximized: m, ..self }
    }

    /// Every width or height this builder holds is nonzero.
    pub open spec fn valid(self) -> bool {
        &&& (self.window_inner_width matches Some(w) ==> w > 0)
        &&& (self.window_inner_height matches Some(h) ==> h > 0)
    }

    /// The configuration [`AppConfigBuilder::build`] makes of these settings.
    pub open spec fn build(self) -> ApplicationConfigModel {
        ApplicationConfigModel {
            window_inner_width: match self.window_inner_width {
                Some(w) => w,
                None => AppConfigBuilder::DEFAULT_WINDOW_INNER_WIDTH,
            },
            window_inner_height: match self.window_inner_height {
                Some(h) => h,
                None => AppConfigBuilder::DEFAULT_WINDOW_INNER_HEIGHT,
            },
            window_starts_maximized: self.window_starts_maximized,
        }
    }
}

impl ApplicationConfigModel {
    /// The model of [`ApplicationConfig::default`].
    pub open spec fn defaults() -> Self {
        ApplicationConfigModel {
            window_inner_width: AppConfigBuilder::DEFAULT_WINDOW_INNER_WIDTH,
            window_inner_height: AppConfigBuilder::DEFAULT_WINDOW_INNER_HEIGHT,
            window_starts_maximized: AppConfigBuilder::DEFAULT_WINDOW_STARTS_MAXIMIZED,
        }
    }

    pub open spec fn valid(self) -> bool {
        self.window_inner_width > 0 && self.window_inner_height > 0
    }
}

/// Building never yields a zero window size: every valid builder (and every
/// builder this module hands out is valid) builds a valid configuration,
/// and the setters keep a builder valid.
pub proof fn lemma_build_valid(b: AppConfigBuilderModel, w: u32, h: u32, m: bool)
    requires
        b.valid(),
    ensures
        b.build().valid(),
        b.set_width(w).valid(),
        b.set_height(h).valid(),
        b.set_maximized(m).valid(),
        AppConfigBuilderModel::fresh().valid(),
        AppConfigBuilderModel::defaults().valid(),
{
}

/// A width given to the builder is the width of the built configuration,
/// unless it is zero, in which case the default width is; the height and
/// the maximized flag are untouched. Likewise for the height.
pub proof fn lemma_setting_reaches_config(b: AppConfigBuilderModel, w: u32, h: u32)
    ensures
        b.set_width(w).build().window_inner_width == (if w == 0 {
            AppConfigBuilder::DEFAULT_WINDOW_INNER_WIDTH
        } else {
            w
        }),
        b.set_width(w).build().window_inner_height == b.build().window_inner_height,
        b.set_width(w).build().window_starts_maximized == b.build().window_starts_maximized,
        b.set_height(h).build().window_inner_height == (if h == 0 {
            AppConfigBuilder::DEFAULT_WINDOW_INNER_HEIGHT
        } else {
            h
        }),
        b.set_height(h).build().window_inner_width == b.build().window_inner_width,
{
}

/// The last value set wins, and setters of different fields commute.
pub proof fn lemma_last_setting_wins(b: AppConfigBuilderModel, w1: u32, w2: u32, h: u32, m: bool)
    ensures
        b.set_width(w1).set_width(w2) == b.set_width(w2),
        b.set_height(w1).set_height(w2) == b.set_height(w2),
        b.set_width(w1).set_height(h) == b.set_height(h).set_width(w1),
        b.set_width(w1).set_maximized(m) == b.set_maximized(m).set_width(w1),
{
}

/// A fresh builder and a default builder both build the default configuration.
pub proof fn lemma_defaults_agree()
    ensures
        AppConfigBuilderModel::fresh().build() == ApplicationConfigModel::defaults(),
        AppConfigBuilderModel::defaults().build() == ApplicationConfigModel::defaults(),
{
}

/// Build a new [`ApplicationConfig`] with wanted values.
#[derive(Clone, Copy, Debug)]
pub struct AppConfigBuilder {
    window_inner_width: Option<u32>,
    window_inner_height: Option<u32>,
    window_starts_maximized: bool,
}

impl View for AppConfigBuilder {
    type V = AppConfigBuilderModel;

    closed spec fn view(&self) -> AppConfigBuilderModel {
        AppConfigBuilderModel {
            window_inner_width: self.window_inner_width,
            window_inner_height: self.window_inner_height,
            window_starts_maximized: self.window_starts_maximized,
        }
    }
}

impl AppConfigBuilder {
    /// Inner width used when none (or zero) is given.
    pub const DEFAULT_WINDOW_INNER_WIDTH: u32 = 1920 / 2;
    /// Inner height used when none (or zero) is given.
    pub const DEFAULT_WINDOW_INNER_HEIGHT: u32 = 1080 / 2;
    /// Whether the window starts maximized unless told otherwise.
    pub const DEFAULT_WINDOW_STARTS_MAXIMIZED: bool = true;

    #[verifier::type_invariant]
    closed spec fn inv(self) -> bool {
        self@.valid()
    }

    /// Create it to build a new [`ApplicationConfig`]: no size is set yet.
    pub fn new() -> (r: Self)
        ensures
            r@ == AppConfigBuilderModel::fresh(),
    {
        AppConfigBuilder {
            window_inner_width: None,
            window_inner_height: None,
            window_starts_maximized: AppConfigBuilder::DEFAULT_WINDOW_STARTS_MAXIMIZED,
        }
    }

    /// Set the window inner width; zero sets the default width instead.
    pub fn with_window_inner_width(self, window_inner_width: u32) -> (r: Self)
        ensures
            r@ == self@.set_width(window_inner_width),
    {
        let w: u32 = if window_inner_width == 0 {
            AppConfigBuilder::DEFAULT_WINDOW_INNER_WIDTH
        } else {
            window_inner_width
        };
        proof {
            use_type_invariant(&self);
        }
        AppConfigBuilder { window_inner_width: Some(w), ..self }
    }

    /// Set the window inner height; zero sets the default height instead.
    pub fn with_window_inner_height(self, window_inner_height: u32) -> (r: Self)
        ensures
            r@ == self@.set_height(window_inner_height),
    {
        let h: u32 = if window_inner_height == 0 {
            AppConfigBuilder::DEFAULT_WINDOW_INNER_HEIGHT
        } else {
            window_inner_height
        };
        proof {
            use_type_invariant(&self);
        }
        AppConfigBuilder { window_inner_height: Some(h), ..self }
    }

    /// Set whether the window starts maximized.
    pub fn with_window_starts_maximized(self, window_starts_maximized: bool) -> (r: Self)
        ensures
            r@ == self@.set_maximized(window_starts_maximized),
    {
        proof {
            use_type_invariant(&self);
        }
        AppConfigBuilder { window_starts_maximized, ..self }
    }

    /// Build a new [`ApplicationConfig`]; unset sizes take their defaults.
    pub fn build(self) -> (r: ApplicationConfig)
        ensures
            r@ == self@.build(),
    {
        proof {
            use_type_invariant(&self);
        }
        let w: u32 = match self.window_inner_width {
            Some(w) => w,
            None => AppConfigBuilder::DEFAULT_WINDOW_INNER_WIDTH,
        };
        let h: u32 = match self.window_inner_height {
            Some(h) => h,
            None => AppConfigBuilder::DEFAULT_WINDOW_INNER_HEIGHT,
        };
        ApplicationConfig {
            window_inner_width: w,
            window_inner_height: h,
            window_starts_maximized: self.window_starts_maximized,
        }
    }
}

impl Default for AppConfigBuilder {
    fn default() -> (r: Self)
        ensures
            r@ == AppConfigBuilderModel::defaults(),
    {
        AppConfigBuilder {
            window_inner_width: Some(AppConfigBuilder::DEFAULT_WINDOW_INNER_WIDTH),
            window_inner_height: Some(AppConfigBuilder::DEFAULT_WINDOW_INNER_HEIGHT),
            window_starts_maximized: AppConfigBuilder::DEFAULT_WINDOW_STARTS_MAXIMIZED,
        }
    }
}

/// The application configuration. Its window sizes are never zero, which
/// keeps the display aspect ratio free of a division by zero.
#[derive(Clone, Copy, Debug)]
pub struct ApplicationConfig {
    window_inner_width: u32,
    window_inner_height: u32,
    window_starts_maximized: bool,
}

impl View for ApplicationConfig {
    type V = ApplicationConfigModel;

    closed spec fn view(&self) -> ApplicationConfigModel {
        ApplicationConfigModel {
            window_inner_width: self.window_inner_width,
            window_inner_height: self.window_inner_height,
            window_starts_maximized: self.window_starts_maximized,
        }
    }
}

impl Default for ApplicationConfig {
    fn default() -> (r: Self)
        ensures
            r@ == ApplicationConfigModel::defaults(),
    {
        ApplicationConfig {
            window_inner_width: AppConfigBuilder::DEFAULT_WINDOW_INNER_WIDTH,
            window_inner_height: AppConfigBuilder::DEFAULT_WINDOW_INNER_HEIGHT,
            window_starts_maximized: AppConfigBuilder::DEFAULT_WINDOW_STARTS_MAXIMIZED,
        }
    }
}

impl ApplicationConfig {
    #[verifier::type_invariant]
    closed spec fn inv(self) -> bool {
        self@.valid()
    }

    /// Create a configuration by reading the values from the contents of a
    /// configuration file (its format is described in
    /// [`crate::config_file`]): each value is the one the last line stating
    /// it gives, and a value no line states is its default.
    pub fn new(contents: &[u8]) -> (r: Self)
        ensures
            r@ == file_settings(contents@).build(),
            r@.window_inner_width == match stated_width(contents@) {
                Some(w) => width_setting(w),
                None => AppConfigBuilder::DEFAULT_WINDOW_INNER_WIDTH,
            },
            r@.window_inner_height == match stated_height(contents@) {
                Some(h) => height_setting(h),
                None => AppConfigBuilder::DEFAULT_WINDOW_INNER_HEIGHT,
            },
            r@.window_starts_maximized == match stated_maximized(contents@) {
                Some(m) => m,
                None => AppConfigBuilder::DEFAULT_WINDOW_STARTS_MAXIMIZED,
            },
    {
        proof {
            lemma_file_values(contents@);
        }
        parse_config(contents).build()
    }

    /// The window inner width (used when the window is not maximized); never zero.
    pub fn window_inner_width(&self) -> (r: u32)
        ensures
            r == self@.window_inner_width,
            r > 0,
    {
        proof {
            use_type_invariant(self);
        }
        self.window_inner_width
    }

    /// The window inner height (used when the window is not maximized); never zero.
    pub fn window_inner_height(&self) -> (r: u32)
        ensures
            r == self@.window_inner_height,
            r > 0,
    {
        proof {
            use_type_invariant(self);
        }
        self.window_inner_height
    }

    /// Whether the window starts maximized.
    pub fn window_starts_maximized(&self) -> (r: bool)
        ensures
            r == self@.window_starts_maximized,
    {
        self.window_starts_maximized
    }

    /// The window inner size.
    pub fn window_inner_size(&self) -> (r: PhysicalSize)
        ensures
            r.width == self@.window_inner_width,
            r.height == self@.window_inner_height,
            r.width > 0 && r.height > 0,
    {
        proof {
            use_type_invariant(self);
        }
        PhysicalSize { width: self.window_inner_width, height: self.window_inner_height }
    }

    /// The minimum window inner size: half the inner size, rounded down.
    /// The window cannot be resized below it.
    pub fn window_min_inner_size(&self) -> (r: PhysicalSize)
        ensures
            r.width == self@.window_inner_width / 2,
            r.height == self@.window_inner_height / 2,
    {
        PhysicalSize { width: self.window_inner_width / 2, height: self.window_inner_height / 2 }
    }
}

} // verus!
