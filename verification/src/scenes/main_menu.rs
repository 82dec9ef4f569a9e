//! The main menu: the game logo and buttons over a rotating wallpaper.
//!
//! The widget tree itself is drawn by the UI toolkit outside this crate;
//! what the menu decides — which of the twelve wallpapers to show at a
//! given time — is here.

use vstd::prelude::*;

verus! {

/// How many seconds each wallpaper stays up before the next one.
pub const WALLPAPER_DELAY: u32 = 15;

/// How many wallpapers the menu cycles through.
pub const WALLPAPER_COUNT: u32 = 12;

/// Which wallpaper is up at `time` seconds: the cycle advances one step
/// every `WALLPAPER_DELAY` seconds and wraps after `WALLPAPER_COUNT` steps.
pub open spec fn wallpaper_index_at(time: u32) -> int {
    time as int / WALLPAPER_DELAY as int % WALLPAPER_COUNT as int + 1
}

/// The asset name of the `i`th wallpaper, for `i` between 1 and 12.
pub open spec fn wallpaper_name_of(i: int) -> Seq<char> {
    if i == 1 {
        "menu_1"@
    } else if i == 2 {
        "menu_2"@
    } else if i == 3 {
        "menu_3"@
    } else if i == 4 {
        "menu_4"@
    } else if i == 5 {
        "menu_5"@
    } else if i == 6 {
        "menu_6"@
    } else if i == 7 {
        "menu_7"@
    } else if i == 8 {
        "menu_8"@
    } else if i == 9 {
        "menu_9"@
    } else if i == 10 {
        "menu_10"@
    } else if i == 11 {
        "menu_11"@
    } else {
        "menu_12"@
    }
}

/// The scene that shows the game logo over a rotating wallpaper.
pub struct MainMenu;

impl MainMenu {
    pub fn new() -> (r: Self)
        ensures
            r == (MainMenu {}),
    {
        MainMenu {}
    }

    /// The number, between 1 and 12, of the wallpaper to show at `time`
    /// seconds since the client started.
    pub fn wallpaper_index(time: u32) -> (r: u32)
        ensures
            r == wallpaper_index_at(time),
            1 <= r <= WALLPAPER_COUNT,
    {
        time / WALLPAPER_DELAY % WALLPAPER_COUNT + 1
    }

    /// The asset name of the wallpaper to show at `time` seconds since the
    /// client started.
    pub fn wallpaper_name(time: u32) -> (r: &'static str)
        ensures
            r@ == wallpaper_name_of(wallpaper_index_at(time)),
    {
        let i = MainMenu::wallpaper_index(time);
        match i {
            1 => "menu_1",
            2 => "menu_2",
            3 => "menu_3",
            4 => "menu_4",
            5 => "menu_5",
            6 => "menu_6",
            7 => "menu_7",
            8 => "menu_8",
            9 => "menu_9",
            10 => "menu_10",
            11 => "menu_11",
            _ => "menu_12",
        }
    }
}

} // verus!
