//! The two-panel view of a session: playlists on the left, tracks on the
//! right, the focused panel emphasized and each cursor row highlighted.

use crate::session::{Panel, PlaylistEntry, Session, TrackEntry};
use vstd::prelude::*;

verus! {

/// Marker drawn before the highlighted row of a list.
pub const HIGHLIGHT_SYMBOL: &'static str = "> ";

/// The share of the width the left panel takes, in percent.
pub const LEFT_WIDTH_PERCENT: u16 = 30;

/// The share of the width the right panel takes, in percent.
pub const RIGHT_WIDTH_PERCENT: u16 = 70;

/// One bordered, titled list.
#[derive(Debug)]
pub struct PanelView {
    pub title: &'static str,
    pub rows: Vec<String>,
    pub highlighted: Option<usize>,
    pub emphasized: bool,
    pub width_percent: u16,
}

/// Both panels, left then right.
#[derive(Debug)]
pub struct Layout {
    pub left: PanelView,
    pub right: PanelView,
}

pub open spec fn rows_of(rows: Seq<String>) -> Seq<Seq<char>> {
    rows.map_values(|r: String| r@)
}

pub open spec fn playlist_names(v: Seq<PlaylistEntry>) -> Seq<Seq<char>> {
    v.map_values(|p: PlaylistEntry| p.name@)
}

pub open spec fn track_names(v: Seq<TrackEntry>) -> Seq<Seq<char>> {
    v.map_values(|t: TrackEntry| t.name@)
}

fn playlist_rows(v: &Vec<PlaylistEntry>) -> (r: Vec<String>)
    ensures
        rows_of(r@) == playlist_names(v@),
{
    let mut out: Vec<String> = Vec::new();
    let mut k: usize = 0;
    while k < v.len()
        invariant
            k <= v@.len(),
            out@.len() == k,
            forall|j: int| 0 <= j < k ==> #[trigger] out@[j]@ == v@[j].name@,
        decreases v@.len() - k,
    {
        out.push(v[k].name.clone());
        k = k + 1;
    }
    assert(rows_of(out@) =~= playlist_names(v@));
    out
}

fn track_rows(v: &Vec<TrackEntry>) -> (r: Vec<String>)
    ensures
        rows_of(r@) == track_names(v@),
{
    let mut out: Vec<String> = Vec::new();
    let mut k: usize = 0;
    while k < v.len()
        invariant
            k <= v@.len(),
            out@.len() == k,
            forall|j: int| 0 <= j < k ==> #[trigger] out@[j]@ == v@[j].name@,
        decreases v@.len() - k,
    {
        out.push(v[k].name.clone());
        k = k + 1;
    }
    assert(rows_of(out@) =~= track_names(v@));
    out
}

/// The view of a session: playlist names on the left at 30% of the width,
/// track names on the right at 70%, each list with its cursor row
/// highlighted and the focused one emphasized.
pub fn layout(s: &Session) -> (r: Layout)
    ensures
        r.left.title@ == "Playlists"@,
        rows_of(r.left.rows@) == playlist_names(s.playlists@),
        r.left.highlighted == s.playlist_cursor,
        r.left.emphasized == (s.focus == Panel::Playlists),
        r.left.width_percent == 30,
        r.right.title@ == "Tracks"@,
        rows_of(r.right.rows@) == track_names(s.tracks@),
        r.right.highlighted == s.track_cursor,
        r.right.emphasized == (s.focus == Panel::Tracks),
        r.right.width_percent == 70,
{
    let left = PanelView {
        title: "Playlists",
        rows: playlist_rows(&s.playlists),
        highlighted: s.playlist_cursor,
        emphasized: match s.focus {
            Panel::Playlists => true,
            Panel::Tracks => false,
        },
        width_percent: LEFT_WIDTH_PERCENT,
    };
    let right = PanelView {
        title: "Tracks",
        rows: track_rows(&s.tracks),
        highlighted: s.track_cursor,
        emphasized: match s.focus {
            Panel::Playlists => false,
            Panel::Tracks => true,
        },
        width_percent: RIGHT_WIDTH_PERCENT,
    };
    Layout { left, right }
}

} // verus!
