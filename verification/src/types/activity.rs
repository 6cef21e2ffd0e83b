//! A built activity and the enumerations it uses.

use std::time::Duration;

use vstd::prelude::*;

use crate::types::payloads::{AssetsModel, AssetsPayload, ButtonPayload};
use crate::utils::opt_string_view;

verus! {

/// The kind of activity. Discord only shows four of the six kinds it documents.
#[derive(Clone, Copy, Debug, PartialEq, Eq, Structural)]
pub enum ActivityType {
    Playing,
    Listening,
    Watching,
    Competing,
}

/// The number Discord uses for each activity type.
pub open spec fn activity_type_code(t: ActivityType) -> u8 {
    match t {
        ActivityType::Playing => 0,
        ActivityType::Listening => 2,
        ActivityType::Watching => 3,
        ActivityType::Competing => 5,
    }
}

impl From<ActivityType> for u8 {
    fn from(value: ActivityType) -> (r: u8) {
        match value {
            ActivityType::Playing => 0,
            ActivityType::Listening => 2,
            ActivityType::Watching => 3,
            ActivityType::Competing => 5,
        }
    }
}

impl vstd::std_specs::convert::FromSpecImpl<ActivityType> for u8 {
    open spec fn obeys_from_spec() -> bool {
        true
    }

    open spec fn from_spec(v: ActivityType) -> u8 {
        activity_type_code(v)
    }
}

/// Which element of the activity the member list shows as its status.
#[derive(Clone, Copy, Debug, PartialEq, Eq, Structural)]
pub enum StatusDisplayType {
    Name,
    State,
    Details,
}

/// The number Discord uses for each status display type.
pub open spec fn status_display_code(t: StatusDisplayType) -> u8 {
    match t {
        StatusDisplayType::Name => 0,
        StatusDisplayType::State => 1,
        StatusDisplayType::Details => 2,
    }
}

impl From<StatusDisplayType> for u8 {
    fn from(value: StatusDisplayType) -> (r: u8) {
        match value {
            StatusDisplayType::Name => 0,
            StatusDisplayType::State => 1,
            StatusDisplayType::Details => 2,
        }
    }
}

impl vstd::std_specs::convert::FromSpecImpl<StatusDisplayType> for u8 {
    open spec fn obeys_from_spec() -> bool {
        true
    }

    open spec fn from_spec(v: StatusDisplayType) -> u8 {
        status_display_code(v)
    }
}

/// The abstract content of an activity.
pub struct ActivitySpecModel {
    pub name: Option<Seq<char>>,
    pub activity_type: Option<ActivityType>,
    pub instance: Option<bool>,
    pub status_display_type: Option<StatusDisplayType>,
    pub details: Option<Seq<char>>,
    pub details_url: Option<Seq<char>>,
    pub state: Option<Seq<char>>,
    pub state_url: Option<Seq<char>>,
    pub assets: Option<AssetsModel>,
    pub buttons: Option<Seq<(Seq<char>, Seq<char>)>>,
    pub duration: Option<Duration>,
}

/// A complete Rich Presence activity, ready to be sent.
#[derive(Clone)]
pub struct ActivitySpec {
    pub(crate) name: Option<String>,
    pub(crate) activity_type: Option<ActivityType>,
    pub(crate) instance: Option<bool>,
    pub(crate) status_display_type: Option<StatusDisplayType>,
    pub(crate) details: Option<String>,
    pub(crate) details_url: Option<String>,
    pub(crate) state: Option<String>,
    pub(crate) state_url: Option<String>,
    pub(crate) assets: Option<AssetsPayload>,
    pub(crate) buttons: Option<Vec<ButtonPayload>>,
    pub(crate) duration: Option<Duration>,
}

/// The pairs (label, url) of a list of buttons.
pub open spec fn buttons_view(v: Seq<ButtonPayload>) -> Seq<(Seq<char>, Seq<char>)> {
    v.map_values(|b: ButtonPayload| b@)
}

/// The view of an optional list of buttons.
pub open spec fn opt_buttons_view(o: Option<Vec<ButtonPayload>>) -> Option<Seq<(Seq<char>, Seq<char>)>> {
    match o {
        Some(v) => Some(buttons_view(v@)),
        None => None,
    }
}

/// The view of optional assets.
pub open spec fn opt_assets_view(o: Option<AssetsPayload>) -> Option<AssetsModel> {
    match o {
        Some(a) => Some(a@),
        None => None,
    }
}

impl View for ActivitySpec {
    type V = ActivitySpecModel;

    closed spec fn view(&self) -> ActivitySpecModel {
        ActivitySpecModel {
            name: opt_string_view(self.name),
            activity_type: self.activity_type,
            instance: self.instance,
            status_display_type: self.status_display_type,
            details: opt_string_view(self.details),
            details_url: opt_string_view(self.details_url),
            state: opt_string_view(self.state),
            state_url: opt_string_view(self.state_url),
            assets: opt_assets_view(self.assets),
            buttons: opt_buttons_view(self.buttons),
            duration: self.duration,
        }
    }
}

/// Unfolds the view of an activity, for the modules of this crate that build or
/// read one.
pub(crate) proof fn lemma_activity_view(s: &ActivitySpec)
    ensures
        s@ == (ActivitySpecModel {
            name: opt_string_view(s.name),
            activity_type: s.activity_type,
            instance: s.instance,
            status_display_type: s.status_display_type,
            details: opt_string_view(s.details),
            details_url: opt_string_view(s.details_url),
            state: opt_string_view(s.state),
            state_url: opt_string_view(s.state_url),
            assets: opt_assets_view(s.assets),
            buttons: opt_buttons_view(s.buttons),
            duration: s.duration,
        }),
{
}

/// The empty activity: only the application's name and the elapsed time show.
pub open spec fn empty_activity_model() -> ActivitySpecModel {
    ActivitySpecModel {
        name: None,
        activity_type: None,
        instance: None,
        status_display_type: None,
        details: None,
        details_url: None,
        state: None,
        state_url: None,
        assets: None,
        buttons: None,
        duration: None,
    }
}

impl Default for ActivitySpec {
    fn default() -> (r: ActivitySpec)
        ensures
            r@ == empty_activity_model(),
    {
        ActivitySpec {
            name: None,
            activity_type: None,
            instance: None,
            status_display_type: None,
            details: None,
            details_url: None,
            state: None,
            state_url: None,
            assets: None,
            buttons: None,
            duration: None,
        }
    }
}

} // verus!
