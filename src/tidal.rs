//! The source service: its client handle and the entities the library reads
//! from it.

use vstd::prelude::*;

verus! {

/// A handle on the source service: the bearer credential to send.
pub struct TidalClient {
    pub token: String,
}

impl TidalClient {
    pub fn new(token: String) -> (r: Self)
        ensures
            r.token == token,
    {
        Self { token }
    }
}

/// A source playlist with its tracks.
pub struct TidalPlaylist {
    pub id: String,
    pub name: String,
    pub tracks: Vec<TidalTrack>,
    pub last_updated: Option<String>,
}

/// A source track.
pub struct TidalTrack {
    pub id: String,
    pub attributes: TrackAttributes,
    pub relationships: TrackRelationships,
    pub links: TrackLinks,
}

/// The attributes of a source track that the library keeps.
pub struct TrackAttributes {
    pub title: String,
    /// The cross-catalog identifier.
    pub isrc: String,
    pub duration: String,
    pub explicit: bool,
    pub availability: Vec<String>,
    pub media_tags: Vec<String>,
    pub external_links: Vec<ExternalLink>,
    pub copyright: String,
}

/// A link from a track to elsewhere.
pub struct ExternalLink {
    pub href: String,
    pub meta: ExternalLinkMeta,
}

/// What kind of link an external link is.
pub struct ExternalLinkMeta {
    pub link_type: String,
}

/// Where a track's related entities are.
pub struct TrackRelationships {
    pub albums: RelationshipLinks,
    pub artists: RelationshipLinks,
    pub providers: RelationshipLinks,
    pub radio: RelationshipLinks,
    pub similar_tracks: RelationshipLinks,
}

/// The links of one relationship.
pub struct RelationshipLinks {
    pub links: RelationshipSelfLink,
}

/// The link to a relationship itself.
pub struct RelationshipSelfLink {
    pub self_link: String,
}

/// The link to a track itself.
pub struct TrackLinks {
    pub self_link: String,
}

/// The cross-catalog identifiers of some tracks, in order.
pub fn track_isrcs(tracks: &Vec<TidalTrack>) -> (r: Vec<String>)
    ensures
        r@.len() == tracks@.len(),
        forall|i: int| 0 <= i < tracks@.len() ==> #[trigger] r@[i] == tracks@[i].attributes.isrc,
{
    let mut r: Vec<String> = Vec::new();
    let mut i: usize = 0;
    while i < tracks.len()
        invariant
            i <= tracks.len(),
            r@.len() == i,
            forall|j: int| 0 <= j < i ==> #[trigger] r@[j] == tracks@[j].attributes.isrc,
        decreases tracks.len() - i,
    {
        r.push(tracks[i].attributes.isrc.clone());
        i = i + 1;
    }
    r
}

/// The identifiers of some tracks, joined by commas, as the track-details
/// request filters by them.
pub open spec fn joined(ids: Seq<Seq<char>>) -> Seq<char>
    decreases ids.len(),
{
    if ids.len() == 0 {
        Seq::empty()
    } else if ids.len() == 1 {
        ids[0]
    } else {
        joined(ids.drop_last()) + ","@ + ids.last()
    }
}

/// Joins track identifiers with commas.
pub fn join_ids(ids: &Vec<String>) -> (r: String)
    ensures
        r@ == joined(crate::ledger::texts(ids@)),
{
    let ghost v = crate::ledger::texts(ids@);
    let mut r = String::new();
    let mut i: usize = 0;
    while i < ids.len()
        invariant
            i <= ids.len(),
            v == crate::ledger::texts(ids@),
            r@ == joined(v.take(i as int)),
        decreases ids.len() - i,
    {
        let ghost before = r@;
        if i > 0 {
            r.append(",");
        }
        r.append(ids[i].as_str());
        proof {
            let t = v.take(i + 1);
            assert(t.drop_last() =~= v.take(i as int));
            assert(t.last() == ids@[i as int]@);
            if i == 0 {
                assert(before =~= Seq::<char>::empty());
                assert(r@ =~= t[0]);
            }
        }
        i = i + 1;
    }
    assert(v.take(ids.len() as int) =~= v);
    r
}

} // verus!
