//! The settings tab: the PSKReporter refresh interval it allows, and the
//! names of its pages.

use vstd::prelude::*;

verus! {

/// The shortest PSKReporter refresh interval allowed, in seconds; shorter
/// ones would be rate limited by the API.
pub const REFRESH_RATE_MIN: u16 = 60;

/// The longest PSKReporter refresh interval allowed, in seconds.
pub const REFRESH_RATE_MAX: u16 = 1800;

/// The refresh interval the settings keep for `requested`: the nearest one
/// from one to thirty minutes.
pub fn clamp_refresh_rate(requested: u16) -> (r: u16)
    ensures
        REFRESH_RATE_MIN <= r <= REFRESH_RATE_MAX,
        REFRESH_RATE_MIN <= requested <= REFRESH_RATE_MAX ==> r == requested,
        requested < REFRESH_RATE_MIN ==> r == REFRESH_RATE_MIN,
        requested > REFRESH_RATE_MAX ==> r == REFRESH_RATE_MAX,
{
    if requested < REFRESH_RATE_MIN {
        REFRESH_RATE_MIN
    } else if requested > REFRESH_RATE_MAX {
        REFRESH_RATE_MAX
    } else {
        requested
    }
}

/// The pages of the settings tab.
#[derive(Debug, Clone, Copy, PartialEq, Eq, Structural)]
pub enum SettingsPage {
    PSKReporter,
    MapTiles,
}

impl SettingsPage {
    /// The pages, in the order the tab shows them.
    pub fn all() -> (v: Vec<SettingsPage>)
        ensures
            v@ == seq![SettingsPage::PSKReporter, SettingsPage::MapTiles],
    {
        let v = vec![SettingsPage::PSKReporter, SettingsPage::MapTiles];
        assert(v@ =~= seq![SettingsPage::PSKReporter, SettingsPage::MapTiles]);
        v
    }

    /// The title of the page.
    pub fn title(&self) -> (r: &'static str)
        ensures
            r@ == (match self {
                SettingsPage::PSKReporter => "PSKReporter"@,
                SettingsPage::MapTiles => "Map"@,
            }),
    {
        match self {
            SettingsPage::PSKReporter => "PSKReporter",
            SettingsPage::MapTiles => "Map",
        }
    }
}

} // verus!
