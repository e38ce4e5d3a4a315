//! A rich-presence activity as this program describes it: the fields that
//! Discord shows, each optional. The `external` command reads these from
//! JSON, and every presence the library builds is one of them.

use vstd::prelude::*;

use crate::metadata::opt_view;

verus! {

/// An instruction for the presence: show an activity, or clear it.
#[derive(Debug)]
pub enum Action {
    Update(Box<Activity>),
    Clear,
}

/// An activity.
#[derive(Debug)]
pub struct Activity {
    pub name: Option<String>,
    pub state: Option<String>,
    pub state_url: Option<String>,
    pub details: Option<String>,
    pub details_url: Option<String>,
    pub timestamps: Option<Timestamps>,
    pub party: Option<Party>,
    pub assets: Option<Assets>,
    pub buttons: Option<Vec<Button>>,
    pub activity_type: Option<ActivityType>,
    pub status_display_type: Option<StatusDisplayType>,
}

/// Start and end of an activity, in Unix seconds.
#[derive(Debug, Clone, Copy, PartialEq, Eq, Structural)]
pub struct Timestamps {
    pub start: Option<i64>,
    pub end: Option<i64>,
}

/// A party: its id and its current and maximum size.
#[derive(Debug)]
pub struct Party {
    pub id: Option<String>,
    pub size: Option<[i32; 2]>,
}

/// Images of an activity, their hover texts and links.
#[derive(Debug)]
pub struct Assets {
    pub large_image: Option<String>,
    pub large_text: Option<String>,
    pub large_url: Option<String>,
    pub small_image: Option<String>,
    pub small_text: Option<String>,
    pub small_url: Option<String>,
}

/// A button with a label that opens a URL.
#[derive(Debug)]
pub struct Button {
    pub label: String,
    pub url: String,
}

/// The verb Discord shows for an activity.
#[derive(Debug, Clone, Copy, PartialEq, Eq, Structural)]
pub enum ActivityType {
    Playing,
    Listening,
    Watching,
    Competing,
}

/// Which field Discord shows in the member list.
#[derive(Debug, Clone, Copy, PartialEq, Eq, Structural)]
pub enum StatusDisplayType {
    Name,
    State,
    Details,
}

/// The mathematical content of a [`Party`].
pub struct PartyView {
    pub id: Option<Seq<char>>,
    pub size: Option<(i32, i32)>,
}

/// The mathematical content of an [`Assets`].
pub struct AssetsView {
    pub large_image: Option<Seq<char>>,
    pub large_text: Option<Seq<char>>,
    pub large_url: Option<Seq<char>>,
    pub small_image: Option<Seq<char>>,
    pub small_text: Option<Seq<char>>,
    pub small_url: Option<Seq<char>>,
}

/// The mathematical content of an [`Activity`].
pub struct ActivityView {
    pub name: Option<Seq<char>>,
    pub state: Option<Seq<char>>,
    pub state_url: Option<Seq<char>>,
    pub details: Option<Seq<char>>,
    pub details_url: Option<Seq<char>>,
    pub timestamps: Option<Timestamps>,
    pub party: Option<PartyView>,
    pub assets: Option<AssetsView>,
    pub buttons: Option<Seq<(Seq<char>, Seq<char>)>>,
    pub activity_type: Option<ActivityType>,
    pub status_display_type: Option<StatusDisplayType>,
}

impl View for Party {
    type V = PartyView;

    open spec fn view(&self) -> PartyView {
        PartyView {
            id: opt_view(self.id),
            size: match self.size {
                Some(s) => Some((s@[0], s@[1])),
                None => None,
            },
        }
    }
}

impl View for Assets {
    type V = AssetsView;

    open spec fn view(&self) -> AssetsView {
        AssetsView {
            large_image: opt_view(self.large_image),
            large_text: opt_view(self.large_text),
            large_url: opt_view(self.large_url),
            small_image: opt_view(self.small_image),
            small_text: opt_view(self.small_text),
            small_url: opt_view(self.small_url),
        }
    }
}

/// The label and URL of each button.
pub open spec fn buttons_view(b: Seq<Button>) -> Seq<(Seq<char>, Seq<char>)> {
    b.map_values(|x: Button| (x.label@, x.url@))
}

impl View for Activity {
    type V = ActivityView;

    open spec fn view(&self) -> ActivityView {
        ActivityView {
            name: opt_view(self.name),
            state: opt_view(self.state),
            state_url: opt_view(self.state_url),
            details: opt_view(self.details),
            details_url: opt_view(self.details_url),
            timestamps: self.timestamps,
            party: match self.party {
                Some(p) => Some(p@),
                None => None,
            },
            assets: match self.assets {
                Some(a) => Some(a@),
                None => None,
            },
            buttons: match self.buttons {
                Some(b) => Some(buttons_view(b@)),
                None => None,
            },
            activity_type: self.activity_type,
            status_display_type: self.status_display_type,
        }
    }
}

/// The activity with no field set.
pub open spec fn empty_activity() -> ActivityView {
    ActivityView {
        name: None,
        state: None,
        state_url: None,
        details: None,
        details_url: None,
        timestamps: None,
        party: None,
        assets: None,
        buttons: None,
        activity_type: None,
        status_display_type: None,
    }
}

/// Assets with only a large image.
pub open spec fn large_image_assets(image: Seq<char>) -> AssetsView {
    AssetsView {
        large_image: Some(image),
        large_text: None,
        large_url: None,
        small_image: None,
        small_text: None,
        small_url: None,
    }
}

impl Activity {
    /// An activity with no field set.
    pub fn new() -> (r: Activity)
        ensures
            r@ == empty_activity(),
    {
        Activity {
            name: None,
            state: None,
            state_url: None,
            details: None,
            details_url: None,
            timestamps: None,
            party: None,
            assets: None,
            buttons: None,
            activity_type: None,
            status_display_type: None,
        }
    }
}

impl Assets {
    /// Assets with only a large image.
    pub fn large_image(image: String) -> (r: Assets)
        ensures
            r@ == large_image_assets(image@),
    {
        Assets {
            large_image: Some(image),
            large_text: None,
            large_url: None,
            small_image: None,
            small_text: None,
            small_url: None,
        }
    }
}

} // verus!
