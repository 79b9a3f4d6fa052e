//! Answers of the ads plugin: ads are disabled in this build.
use vstd::prelude::*;

verus! {

/// The ads consent popup is never shown.
pub fn should_show_ads_consent_popup() -> (show: bool)
    ensures
        !show,
{
    false
}

/// Ads are never personalised.
pub fn get_ads_personalization() -> (personalized: bool)
    ensures
        !personalized,
{
    false
}

} // verus!
