//! What is kept of the window from one run to the next.

use crate::geometry::{Point, Scalar, Size};
use vstd::prelude::*;

verus! {

/// The theme the user asked for.
#[derive(Clone, Copy, Debug, PartialEq, Eq, Structural)]
pub enum AppTheme {
    FollowSystem,
    DarkMode,
    LightMode,
}

/// The theme the window system reported.
#[derive(Clone, Copy, Debug, PartialEq, Eq, Structural)]
pub enum SystemTheme {
    Light,
    Dark,
}

/// The user's choice of theme, beside the system's theme as it was seen
/// when the state was made. The latter is a record only.
#[derive(Clone, Copy, Debug, PartialEq, Eq, Structural)]
pub struct AppThemeState {
    pub system: SystemTheme,
    pub theme: AppTheme,
}

/// The persisted state: where the window was, how large, and how themed.
#[derive(Clone, Copy, Debug, PartialEq, Eq, Structural)]
pub struct AppConfig {
    pub position: Point,
    pub size: Size,
    pub app_theme: AppThemeState,
    pub sliders_on: bool,
}

/// The pattern of 500.
pub const DEFAULT_X: u64 = 0x407f_4000_0000_0000;

/// The pattern of 500.
pub const DEFAULT_Y: u64 = 0x407f_4000_0000_0000;

/// The pattern of 350.
pub const DEFAULT_WIDTH: u64 = 0x4075_e000_0000_0000;

/// The pattern of 650.
pub const DEFAULT_HEIGHT: u64 = 0x4084_5000_0000_0000;

impl AppConfig {
    /// The state of a first run: a window of 350 by 650 at (500, 500) that
    /// follows the system's theme, taken to be dark, with sliders on.
    pub open spec fn initial() -> AppConfig {
        AppConfig {
            position: Point { x: Scalar { bits: DEFAULT_X }, y: Scalar { bits: DEFAULT_Y } },
            size: Size {
                width: Scalar { bits: DEFAULT_WIDTH },
                height: Scalar { bits: DEFAULT_HEIGHT },
            },
            app_theme: AppThemeState { system: SystemTheme::Dark, theme: AppTheme::FollowSystem },
            sliders_on: true,
        }
    }

    /// This state with the window at `position`.
    pub open spec fn moved_to(self, position: Point) -> AppConfig {
        AppConfig { position, ..self }
    }

    /// This state with a window of `size`.
    pub open spec fn resized_to(self, size: Size) -> AppConfig {
        AppConfig { size, ..self }
    }
}

impl Default for AppConfig {
    fn default() -> (config: AppConfig)
        ensures
            config == AppConfig::initial(),
    {
        AppConfig {
            position: Point::new(Scalar::from_bits(DEFAULT_X), Scalar::from_bits(DEFAULT_Y)),
            size: Size::new(Scalar::from_bits(DEFAULT_WIDTH), Scalar::from_bits(DEFAULT_HEIGHT)),
            app_theme: AppThemeState { system: SystemTheme::Dark, theme: AppTheme::FollowSystem },
            sliders_on: true,
        }
    }
}

/// What a read of the state's file came to.
#[derive(Clone, Copy, Debug, PartialEq, Eq, Structural)]
pub enum Stored {
    /// There is no file.
    Missing,
    /// There is a file, and it does not hold a complete state: it cannot be
    /// read, does not parse, or lacks a field.
    Corrupt,
    /// The file holds this state.
    Valid(AppConfig),
}

impl Stored {
    /// The state to start from: the file's, where it holds one whole;
    /// otherwise the first run's, with nothing taken from the file.
    pub open spec fn loaded(self) -> AppConfig {
        match self {
            Stored::Valid(config) => config,
            _ => AppConfig::initial(),
        }
    }

    /// What a read finds after `snapshot` has been written through.
    pub open spec fn written(snapshot: AppConfig) -> Stored {
        Stored::Valid(snapshot)
    }
}

/// Chooses the state to start from. This never fails: a missing or corrupt
/// file gives the first run's state.
pub fn load(stored: Stored) -> (config: AppConfig)
    ensures
        config == stored.loaded(),
{
    match stored {
        Stored::Valid(config) => config,
        _ => AppConfig::default(),
    }
}

/// What a later read finds once `snapshot` has been written through.
pub fn store(snapshot: AppConfig) -> (stored: Stored)
    ensures
        stored == Stored::written(snapshot),
{
    Stored::Valid(snapshot)
}

/// The first run's window is 350 by 650 and stands at (500, 500).
pub proof fn law_initial_geometry()
    ensures
        AppConfig::initial().position.x.is_whole(500),
        AppConfig::initial().position.y.is_whole(500),
        AppConfig::initial().size.width.is_whole(350),
        AppConfig::initial().size.height.is_whole(650),
        AppConfig::initial().app_theme.theme == AppTheme::FollowSystem,
{
    assert(Scalar { bits: 0x407f_4000_0000_0000 }.is_whole(500)) by (bit_vector);
    assert(Scalar { bits: 0x4075_e000_0000_0000 }.is_whole(350)) by (bit_vector);
    assert(Scalar { bits: 0x4084_5000_0000_0000 }.is_whole(650)) by (bit_vector);
}

/// Without a whole state in the file, loading gives exactly the first
/// run's state.
pub proof fn law_load_falls_back(stored: Stored)
    requires
        stored !is Valid,
    ensures
        stored.loaded() == AppConfig::initial(),
{
}

/// A state that has been written through is the state that loading gives
/// back, field for field and bit for bit.
pub proof fn law_store_then_load(snapshot: AppConfig)
    ensures
        Stored::written(snapshot).loaded() == snapshot,
{
}

} // verus!
