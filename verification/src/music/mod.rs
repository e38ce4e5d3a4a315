//! The music bridge: player metadata passes through a chain of modules
//! before it becomes a presence.

pub mod auto_stop;
pub mod filter;
pub mod fixup_id;
pub mod rewrite;
pub mod track_position;

use vstd::prelude::*;

use crate::activity::{
    large_image_assets, Activity, ActivityType, ActivityView, Assets, Button, StatusDisplayType,
    Timestamps,
};
use crate::metadata::{opt_view, Metadata, MetadataView, TrackStatus};
use crate::text::{capitalize_words, capitalize_words_spec, owned, push_str};
use crate::time::NANOS_PER_SEC;

verus! {

// ---------------------------------------------------------------------------
// Modules and their order

/// The configuration of one module, by kind. Durations are in nanoseconds.
pub enum ModuleConfig {
    AutoStop { after_pause: Option<u128>, after_inactivity: Option<u128> },
    External { command: Option<String>, args: Vec<String> },
    Filter(filter::FilterSet),
    FixupId { sensitivity: Vec<String> },
    Rewrite(rewrite::RuleSet),
    TrackPosition,
}

/// The name under which a module kind is configured.
pub open spec fn kind_name(c: ModuleConfig) -> Seq<char> {
    match c {
        ModuleConfig::AutoStop { .. } => "auto-stop"@,
        ModuleConfig::External { .. } => "external"@,
        ModuleConfig::Filter(_) => "filter"@,
        ModuleConfig::FixupId { .. } => "fixup-id"@,
        ModuleConfig::Rewrite(_) => "rewrite"@,
        ModuleConfig::TrackPosition => "track-position"@,
    }
}

impl ModuleConfig {
    /// The name under which this kind of module is configured.
    pub fn kind(&self) -> (r: &'static str)
        ensures
            r@ == kind_name(*self),
    {
        match self {
            ModuleConfig::AutoStop { .. } => "auto-stop",
            ModuleConfig::External { .. } => "external",
            ModuleConfig::Filter(_) => "filter",
            ModuleConfig::FixupId { .. } => "fixup-id",
            ModuleConfig::Rewrite(_) => "rewrite",
            ModuleConfig::TrackPosition => "track-position",
        }
    }
}

/// One configured module: whether it is enabled, where it stands in the
/// chain, and what it does.
pub struct Module {
    pub enable: bool,
    pub order: i64,
    pub inner: ModuleConfig,
}

/// The order a module has when its configuration gives none.
pub fn default_module_order() -> (r: i64)
    ensures
        r == 0,
{
    0
}

/// Whether module `i` comes before module `j` in the chain: by `order`,
/// and by position in the configuration where the orders are equal.
pub open spec fn runs_before(modules: Seq<Module>, i: int, j: int) -> bool {
    modules[i].order < modules[j].order || (modules[i].order == modules[j].order && i < j)
}

/// Whether `plan` lists exactly the enabled modules, each once, in the order
/// in which they run.
pub open spec fn is_module_plan(modules: Seq<Module>, plan: Seq<usize>) -> bool {
    &&& forall|k: int| 0 <= k < plan.len() ==> (#[trigger] plan[k]) < modules.len()
    &&& forall|k: int| 0 <= k < plan.len() ==> modules[#[trigger] plan[k] as int].enable
    &&& forall|i: int|
        0 <= i < modules.len() && (#[trigger] modules[i]).enable ==> plan.contains(i as usize)
    &&& forall|a: int, b: int|
        0 <= a < b < plan.len() ==> runs_before(modules, #[trigger] plan[a] as int, #[trigger] plan[b] as int)
}

/// The positions of the enabled modules, in the order in which they run: a
/// stable sort of the enabled modules by `order`.
#[verifier::rlimit(40)]
pub fn module_plan(modules: &Vec<Module>) -> (plan: Vec<usize>)
    ensures
        is_module_plan(modules@, plan@),
{
    let n = modules.len();
    let mut plan: Vec<usize> = Vec::new();
    let mut i: usize = 0;
    while i < n
        invariant
            n == modules@.len(),
            i <= n,
            forall|k: int| 0 <= k < plan@.len() ==> (#[trigger] plan@[k]) < i,
            forall|k: int| 0 <= k < plan@.len() ==> modules@[#[trigger] plan@[k] as int].enable,
            forall|j: int| 0 <= j < i && (#[trigger] modules@[j]).enable ==> plan@.contains(j as usize),
            forall|a: int, b: int|
                0 <= a < b < plan@.len() ==> runs_before(modules@, #[trigger] plan@[a] as int, #[trigger] plan@[b] as int),
        decreases n - i,
    {
        if modules[i].enable {
            let oi = modules[i].order;
            let mut k: usize = 0;
            while k < plan.len() && modules[plan[k]].order <= oi
                invariant
                    n == modules@.len(),
                    i < n,
                    oi == modules@[i as int].order,
                    k <= plan@.len(),
                    forall|q: int| 0 <= q < plan@.len() ==> (#[trigger] plan@[q]) < i,
                    forall|q: int| 0 <= q < k ==> modules@[#[trigger] plan@[q] as int].order <= oi,
                decreases plan@.len() - k,
            {
                k = k + 1;
            }
            let ghost old_plan = plan@;
            proof {
                assert forall|q: int| k <= q < old_plan.len() implies modules@[#[trigger] old_plan[q] as int].order > oi by {
                    if q > k {
                        assert(runs_before(modules@, old_plan[k as int] as int, old_plan[q] as int));
                    }
                }
            }
            plan.insert(k, i);
            proof {
                assert(plan@ == old_plan.take(k as int).push(i) + old_plan.skip(k as int));
                assert forall|k2: int| 0 <= k2 < plan@.len() implies (#[trigger] plan@[k2]) < i + 1 by {
                    if k2 < k {
                        assert(plan@[k2] == old_plan[k2]);
                    } else if k2 > k {
                        assert(plan@[k2] == old_plan[k2 - 1]);
                    }
                }
                assert forall|k2: int| 0 <= k2 < plan@.len() implies modules@[#[trigger] plan@[k2] as int].enable by {
                    if k2 < k {
                        assert(plan@[k2] == old_plan[k2]);
                    } else if k2 > k {
                        assert(plan@[k2] == old_plan[k2 - 1]);
                    }
                }
                assert forall|j: int| 0 <= j < i + 1 && (#[trigger] modules@[j]).enable implies plan@.contains(j as usize) by {
                    if j == i {
                        assert(plan@[k as int] == i);
                    } else {
                        assert(old_plan.contains(j as usize));
                        let q = choose|q: int| 0 <= q < old_plan.len() && old_plan[q] == j as usize;
                        if q < k {
                            assert(plan@[q] == old_plan[q]);
                        } else {
                            assert(plan@[q + 1] == old_plan[q]);
                        }
                    }
                }
                assert forall|a: int, b: int| 0 <= a < b < plan@.len() implies runs_before(modules@, #[trigger] plan@[a] as int, #[trigger] plan@[b] as int) by {
                    if b < k {
                        assert(plan@[a] == old_plan[a] && plan@[b] == old_plan[b]);
                    } else if b == k {
                        assert(plan@[a] == old_plan[a]);
                    } else if a < k {
                        assert(plan@[a] == old_plan[a] && plan@[b] == old_plan[b - 1]);
                    } else if a == k {
                        assert(plan@[b] == old_plan[b - 1]);
                    } else {
                        assert(plan@[a] == old_plan[a - 1] && plan@[b] == old_plan[b - 1]);
                    }
                }
            }
        }
        i = i + 1;
    }
    plan
}

// ---------------------------------------------------------------------------
// The presence

/// The state line of a listening presence: "artist • album", or whichever
/// of the two is known.
pub open spec fn listening_state(artist: Option<Seq<char>>, album: Option<Seq<char>>) -> Option<
    Seq<char>,
> {
    match (artist, album) {
        (Some(a), Some(b)) => Some(a + " • "@ + b),
        (Some(a), None) => Some(a),
        (None, Some(b)) => Some(b),
        (None, None) => None,
    }
}

/// Whether the times of a presence can be computed at `now` without the
/// clock arithmetic failing: the track started after the Unix epoch, and its
/// end is representable.
pub open spec fn times_representable(now: u128, position: Option<u128>, length: Option<u128>) -> bool {
    match (position, length) {
        (Some(p), Some(l)) => p <= now && (now - p + l) / (NANOS_PER_SEC as int) <= i64::MAX,
        _ => true,
    }
}

/// Whether the time bar of a record at `now` can be computed.
pub fn times_fit(now: u128, position: Option<u128>, length: Option<u128>) -> (r: bool)
    ensures
        r == times_representable(now, position, length),
{
    match (position, length) {
        (Some(p), Some(l)) => {
            if p > now {
                return false;
            }
            let d = now - p;
            if l > u128::MAX - d {
                assert((d + l) / (NANOS_PER_SEC as int) > i64::MAX) by (nonlinear_arith)
                    requires
                        d + l > u128::MAX,
                        NANOS_PER_SEC == 1000000000,
                ;
                return false;
            }
            (d + l) / NANOS_PER_SEC <= 9223372036854775807u128
        },
        _ => true,
    }
}

/// The time bar of a listening presence: started `position` before `now`,
/// ending `length` after that start, in Unix seconds; only when both are
/// known.
pub open spec fn listening_timestamps(now: u128, position: Option<u128>, length: Option<u128>) -> Option<
    Timestamps,
> {
    match (position, length) {
        (Some(p), Some(l)) => Some(
            Timestamps {
                start: Some(((now - p) / (NANOS_PER_SEC as int)) as i64),
                end: Some(((now - p + l) / (NANOS_PER_SEC as int)) as i64),
            },
        ),
        _ => None,
    }
}

/// The presence for a record seen at `now`: nothing for a stopped track,
/// else a "listening" activity named after the player, with the title as
/// details, artist and album as state, a time bar, a "Listen" button for
/// the URL and the cover art as large image.
pub open spec fn listening_activity(m: MetadataView, now: u128) -> Option<ActivityView> {
    if m.status == TrackStatus::Stopped {
        None
    } else {
        Some(
            ActivityView {
                name: Some(capitalize_words_spec(m.player)),
                details: m.title,
                state: listening_state(m.artist, m.album),
                timestamps: listening_timestamps(now, m.position, m.length),
                buttons: match m.url {
                    Some(u) => Some(seq![("Listen"@, u)]),
                    None => None,
                },
                assets: match m.art_url {
                    Some(a) => Some(large_image_assets(a)),
                    None => None,
                },
                activity_type: Some(ActivityType::Listening),
                status_display_type: Some(StatusDisplayType::Details),
                ..crate::activity::empty_activity()
            },
        )
    }
}

fn state_line(artist: Option<String>, album: Option<String>) -> (r: Option<String>)
    ensures
        opt_view(r) == listening_state(opt_view(artist), opt_view(album)),
{
    match (artist, album) {
        (Some(a), Some(b)) => {
            let mut s = a;
            push_str(&mut s, " • ");
            push_str(&mut s, b.as_str());
            Some(s)
        },
        (Some(a), None) => Some(a),
        (None, Some(b)) => Some(b),
        (None, None) => None,
    }
}

/// The presence for a record seen at `now` (in nanoseconds since the Unix
/// epoch).
pub fn build_activity(metadata: Metadata, now: u128) -> (r: Option<Activity>)
    requires
        metadata.status != TrackStatus::Stopped ==> times_representable(now, metadata.position, metadata.length),
    ensures
        match r {
            Some(a) => listening_activity(metadata@, now) == Some(a@),
            None => listening_activity(metadata@, now) is None,
        },
{
    if metadata.status == TrackStatus::Stopped {
        return None;
    }
    let mut activity = Activity::new();
    activity.activity_type = Some(ActivityType::Listening);
    activity.status_display_type = Some(StatusDisplayType::Details);
    activity.name = Some(capitalize_words(metadata.player.as_str()));
    activity.details = metadata.title;
    activity.state = state_line(metadata.artist, metadata.album);
    match (metadata.position, metadata.length) {
        (Some(p), Some(l)) => {
            let start = now - p;
            let end = start + l;
            activity.timestamps = Some(
                Timestamps {
                    start: Some((start / NANOS_PER_SEC) as i64),
                    end: Some((end / NANOS_PER_SEC) as i64),
                },
            );
        },
        _ => {},
    }
    match metadata.url {
        Some(u) => {
            let mut buttons: Vec<Button> = Vec::new();
            buttons.push(Button { label: owned("Listen"), url: u });
            assert(crate::activity::buttons_view(buttons@) == seq![("Listen"@, buttons@[0].url@)]);
            activity.buttons = Some(buttons);
        },
        None => {},
    }
    match metadata.art_url {
        Some(a) => {
            activity.assets = Some(Assets::large_image(a));
        },
        None => {},
    }
    Some(activity)
}

/// The listening presence of a record: none exactly when the track is
/// stopped; otherwise "listening" to the player (its words capitalized),
/// with the title as details, artist and album as state, a "Listen" button
/// for the url, the cover art as large image, and a time bar only when both
/// position and length are known, starting `position` before `now` and
/// ending `length` after that start.
pub proof fn law_listening_presence(m: MetadataView, now: u128)
    ensures
        listening_activity(m, now) is None <==> m.status == TrackStatus::Stopped,
        m.status != TrackStatus::Stopped ==> ({
            let a = listening_activity(m, now)->0;
            &&& a.name == Some(capitalize_words_spec(m.player))
            &&& a.details == m.title
            &&& a.activity_type == Some(ActivityType::Listening)
            &&& a.status_display_type == Some(StatusDisplayType::Details)
            &&& a.state == (match (m.artist, m.album) {
                (Some(x), Some(y)) => Some(x + " • "@ + y),
                (Some(x), None) => Some(x),
                (None, Some(y)) => Some(y),
                (None, None) => None,
            })
            &&& a.buttons == (match m.url {
                Some(u) => Some(seq![("Listen"@, u)]),
                None => None,
            })
            &&& a.assets == (match m.art_url {
                Some(i) => Some(large_image_assets(i)),
                None => None,
            })
            &&& a.timestamps == (match (m.position, m.length) {
                (Some(p), Some(l)) => Some(
                    crate::activity::Timestamps {
                        start: Some(((now - p) / (NANOS_PER_SEC as int)) as i64),
                        end: Some(((now - p + l) / (NANOS_PER_SEC as int)) as i64),
                    },
                ),
                _ => None,
            })
        }),
{
}

} // verus!
