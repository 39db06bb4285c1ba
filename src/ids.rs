//! Resource references: the catalog id at the end of a composite reference,
//! and the checks that a catalog id is well formed.

use rspotify::model::{PlaylistId, TrackId};
use rspotify::prelude::Id;
use vstd::prelude::*;
use vstd::string::*;

verus! {

/// Index at which the last `:`-separated segment of `s` starts
/// (0 when `s` holds no separator).
pub open spec fn segment_start(s: Seq<char>) -> int
    decreases s.len(),
{
    if s.len() == 0 {
        0
    } else if s.last() == ':' {
        s.len() as int
    } else {
        segment_start(s.drop_last())
    }
}

/// The catalog id of a reference: what follows its last `:`, or the whole
/// reference when it has none.
pub open spec fn last_segment(s: Seq<char>) -> Seq<char> {
    s.subrange(segment_start(s), s.len() as int)
}

pub open spec fn is_ascii_alnum(c: char) -> bool {
    ('0' <= c && c <= '9') || ('a' <= c && c <= 'z') || ('A' <= c && c <= 'Z')
}

/// A catalog id is made of ASCII letters and digits only.
pub open spec fn is_catalog_id(s: Seq<char>) -> bool {
    forall|i: int| 0 <= i < s.len() ==> is_ascii_alnum(#[trigger] s[i])
}

/// The canonical playable reference of a track: `spotify:track:<id>`.
pub open spec fn track_uri(id: Seq<char>) -> Seq<char> {
    seq!['s', 'p', 'o', 't', 'i', 'f', 'y', ':', 't', 'r', 'a', 'c', 'k', ':'] + id
}

/// The segment start lies within `s`, no separator follows it, and a
/// separator stands just before it unless it is 0.
pub proof fn lemma_segment_start(s: Seq<char>)
    ensures
        0 <= segment_start(s) <= s.len(),
        forall|i: int| segment_start(s) <= i < s.len() ==> s[i] != ':',
        segment_start(s) > 0 ==> s[segment_start(s) - 1] == ':',
    decreases s.len(),
{
    if s.len() > 0 && s.last() != ':' {
        let d = s.drop_last();
        lemma_segment_start(d);
        assert forall|i: int| segment_start(s) <= i < s.len() implies s[i] != ':' by {
            if i < s.len() - 1 {
                assert(s[i] == d[i]);
            }
        }
        if segment_start(s) > 0 {
            assert(s[segment_start(s) - 1] == d[segment_start(s) - 1]);
        }
    }
}

/// The segment start is the one position with the three properties above.
pub proof fn lemma_segment_start_unique(s: Seq<char>, k: int)
    requires
        0 <= k <= s.len(),
        forall|i: int| k <= i < s.len() ==> s[i] != ':',
        k > 0 ==> s[k - 1] == ':',
    ensures
        segment_start(s) == k,
{
    lemma_segment_start(s);
    let st = segment_start(s);
    if st < k {
        assert(s[k - 1] == ':');
    } else if st > k {
        assert(s[st - 1] == ':');
    }
}

/// A bare id, without any separator, is its own catalog id.
pub proof fn lemma_bare_id_unchanged(s: Seq<char>)
    requires
        forall|i: int| 0 <= i < s.len() ==> s[i] != ':',
    ensures
        last_segment(s) == s,
{
    lemma_segment_start_unique(s, 0);
    assert(last_segment(s) =~= s);
}

/// A composite reference `prefix:id`, whose `id` holds no separator, has
/// `id` as its catalog id.
pub proof fn lemma_composite_id(prefix: Seq<char>, id: Seq<char>)
    requires
        forall|i: int| 0 <= i < id.len() ==> id[i] != ':',
    ensures
        last_segment(prefix + seq![':'] + id) == id,
{
    let s = prefix + seq![':'] + id;
    let k = prefix.len() as int + 1;
    assert forall|i: int| k <= i < s.len() implies s[i] != ':' by {
        assert(s[i] == id[i - k]);
    }
    assert(s[k - 1] == ':');
    lemma_segment_start_unique(s, k);
    assert(last_segment(s) =~= id);
}

/// Relies on rspotify's `PlaylistId::from_id`: it accepts exactly the ids
/// whose characters are all ASCII alphanumeric, and keeps the id as given.
#[verifier::external_body]
fn checked_playlist_id(id: &str) -> (r: Option<String>)
    ensures
        r.is_some() == is_catalog_id(id@),
        r matches Some(v) ==> v@ == id@,
{
    PlaylistId::from_id(id).ok().map(|p| p.id().to_string())
}

/// Relies on rspotify's `TrackId::from_id`, which accepts exactly the ids
/// whose characters are all ASCII alphanumeric, and on `Id::uri`, which
/// writes such an id as `spotify:track:<id>`.
#[verifier::external_body]
pub(crate) fn checked_track_uri(id: &str) -> (r: Option<String>)
    ensures
        r.is_some() == is_catalog_id(id@),
        r matches Some(u) ==> u@ == track_uri(id@),
{
    TrackId::from_id(id).ok().map(|t| t.uri())
}

/// The catalog id of a reference such as `spotify:playlist:xyz123`: the text
/// after its last `:`, or the whole text when it has none.
pub fn catalog_id(reference: &str) -> (r: String)
    ensures
        r@ == last_segment(reference@),
{
    let n = reference.unicode_len();
    let mut j: usize = n;
    while j > 0 && reference.get_char(j - 1) != ':'
        invariant
            j <= n,
            n == reference@.len(),
            forall|i: int| j <= i < n ==> reference@[i] != ':',
        decreases j,
    {
        j = j - 1;
    }
    proof {
        lemma_segment_start_unique(reference@, j as int);
    }
    let tail = reference.substring_char(j, n);
    String::from_str(tail)
}

/// The playlist id to fetch items for, from a stored reference: its catalog
/// id when that is well formed, and nothing otherwise.
pub fn playlist_fetch_id(stored: &str) -> (r: Option<String>)
    ensures
        r.is_some() == is_catalog_id(last_segment(stored@)),
        r matches Some(v) ==> v@ == last_segment(stored@),
{
    let id = catalog_id(stored);
    checked_playlist_id(id.as_str())
}

/// The canonical playable reference for a track reference: the track's
/// catalog id written as `spotify:track:<id>`, or nothing when that id is
/// malformed.
pub fn playable_track_uri(reference: &str) -> (r: Option<String>)
    ensures
        r.is_some() == is_catalog_id(last_segment(reference@)),
        r matches Some(u) ==> u@ == track_uri(last_segment(reference@)),
{
    let id = catalog_id(reference);
    checked_track_uri(id.as_str())
}

} // verus!
