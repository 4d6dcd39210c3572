//! Screen-capture permission where the system does not restrict it: access is always
//! granted and there is no settings pane to open.

use vstd::prelude::*;

verus! {

/// Whether the application may capture the screen: always, here.
pub fn has_screen_recording_access() -> (granted: bool)
    ensures
        granted,
{
    true
}

/// Asks for screen-capture access and returns the resulting state: granted, here.
pub fn request_screen_recording_access() -> (granted: bool)
    ensures
        granted,
{
    true
}

/// Opens the screen-capture settings pane: there is none here, so this succeeds at once.
pub fn open_settings() -> (r: Result<(), String>)
    ensures
        r is Ok,
{
    Ok(())
}

} // verus!
