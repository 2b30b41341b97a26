//! A fetched release of the game, and the settings of this installer.

use crate::entities::{Release, ReleaseView, Settings, SettingsView};
use vstd::prelude::*;
use vstd::std_specs::cmp::PartialEqSpecImpl;
use vstd::std_specs::convert::TryFromSpecImpl;

verus! {

/// A release of Cataclysm: Dark Days Ahead.
#[derive(Debug)]
pub struct CDDARelease(pub Release);

impl TryFromSpecImpl<Release> for CDDARelease {
    open spec fn obeys_try_from_spec() -> bool {
        true
    }

    open spec fn try_from_spec(release: Release) -> Result<CDDARelease, core::convert::Infallible> {
        Ok(CDDARelease(release))
    }
}

impl TryFrom<Release> for CDDARelease {
    type Error = core::convert::Infallible;

    fn try_from(release: Release) -> (converted: Result<CDDARelease, core::convert::Infallible>) {
        Ok(CDDARelease(release))
    }
}

impl View for CDDARelease {
    type V = ReleaseView;

    open spec fn view(&self) -> ReleaseView {
        self.0@
    }
}

impl PartialEqSpecImpl for CDDARelease {
    open spec fn obeys_eq_spec() -> bool {
        true
    }

    open spec fn eq_spec(&self, other: &CDDARelease) -> bool {
        self@ == other@
    }
}

impl PartialEq for CDDARelease {
    fn eq(&self, other: &CDDARelease) -> (equal: bool) {
        self.0 == other.0
    }
}

impl Default for CDDARelease {
    fn default() -> (release: CDDARelease)
        ensures
            release@ == Release::default_view(),
    {
        CDDARelease(Release::default())
    }
}

/// The settings of this installer.
#[derive(Debug)]
pub struct AppSettings(pub Settings);

impl View for AppSettings {
    type V = SettingsView;

    open spec fn view(&self) -> SettingsView {
        self.0@
    }
}

impl Clone for AppSettings {
    fn clone(&self) -> (copy: AppSettings)
        ensures
            copy@ == self@,
    {
        AppSettings(self.0.clone())
    }
}

impl PartialEqSpecImpl for AppSettings {
    open spec fn obeys_eq_spec() -> bool {
        true
    }

    open spec fn eq_spec(&self, other: &AppSettings) -> bool {
        self@ == other@
    }
}

impl PartialEq for AppSettings {
    fn eq(&self, other: &AppSettings) -> (equal: bool) {
        self.0 == other.0
    }
}

impl Default for AppSettings {
    fn default() -> (settings: AppSettings)
        ensures
            settings@ == Settings::default_view(),
    {
        AppSettings(Settings::default())
    }
}

} // verus!
