//! The per-playlist reconciliation engine, as a state machine.
//!
//! The engine decides; its caller performs. Each step takes the result of
//! the last action as an event and returns the next action, with the ledger
//! write (if any) that the step made, for the caller to persist. Playlists
//! are reconciled one after another, each by its own `PlaylistSync`, with
//! the rate budget handed on from one to the next.

use vstd::prelude::*;
use crate::diff::{missing, missing_tracks};
use crate::ledger::{copy_strings, expected_members, not_listed, texts, Ledger, LedgerView, RecordView};
use crate::ratelimit::{header_count, opt_str, saturate, RateBudget, WAIT_SECONDS};
use crate::timestamp::{field_stamp, opt_text, plan_source, read_stamp, source_plan, SourcePlan, Stamp};

verus! {

/// Appended to a source playlist's name to name its mirror.
pub const NAME_SUFFIX: &'static str = " [TIDAL]";

/// The description that every mirror playlist gets.
pub const DESCRIPTION: &'static str = "Automatically synced Tidal playlist";

/// Whether mirror playlists are public.
pub const PUBLIC: bool = true;

/// A playlist as the source's listing gives it.
pub struct PlaylistSummary {
    pub id: String,
    pub name: String,
    pub last_updated: Option<String>,
    /// Where the first page of the playlist's tracks is.
    pub items_url: String,
}

/// The text of an optional field, empty where it is absent.
pub open spec fn or_empty(v: Option<String>) -> Seq<char> {
    match v {
        Some(s) => s@,
        None => Seq::empty(),
    }
}

fn take_or_empty(v: Option<String>) -> (r: String)
    ensures
        r@ == or_empty(v),
{
    match v {
        Some(s) => s,
        None => String::new(),
    }
}

impl PlaylistSummary {
    /// A listing entry from the fields that the listing gave: an absent
    /// identifier, name or track link reads as empty.
    pub fn from_fields(
        id: Option<String>,
        name: Option<String>,
        last_updated: Option<String>,
        items_url: Option<String>,
    ) -> (r: PlaylistSummary)
        ensures
            r.id@ == or_empty(id),
            r.name@ == or_empty(name),
            opt_text(r.last_updated) == opt_text(last_updated),
            r.items_url@ == or_empty(items_url),
    {
        PlaylistSummary {
            id: take_or_empty(id),
            name: take_or_empty(name),
            last_updated,
            items_url: take_or_empty(items_url),
        }
    }
}

/// A ledger change that a step made, for the caller to persist as one
/// atomic write.
pub enum LedgerWrite {
    /// A mirror was created: its record, with the playlist's tracks.
    NewPlaylist {
        source_id: String,
        dest_id: String,
        name: String,
        last_modified: String,
        tracks: Vec<String>,
    },
    /// A changed playlist was fetched again: its name, modification time
    /// and tracks replace the recorded ones.
    Refreshed { source_id: String, name: String, last_modified: String, tracks: Vec<String> },
    /// An identifier was found to have no destination track.
    Blacklisted { isrc: String },
}

/// The result of the last action.
pub enum Event {
    /// A wait is over.
    Waited,
    /// A page of the playlist's items: their track identifiers, the link to
    /// the next page, and the rate-limit headers of the response.
    Page {
        track_ids: Vec<String>,
        next: Option<String>,
        remaining: Option<String>,
        requested: Option<String>,
    },
    /// The cross-catalog identifiers of the tracks of the last page.
    Details { isrcs: Vec<String> },
    /// The mirror playlist was created with this identifier.
    Created { dest_id: String },
    /// The cross-catalog identifiers of the mirror's current tracks, in order.
    Membership { isrcs: Vec<String> },
    /// The destination's search results for the identifier searched, in its
    /// own relevance order; each with its track reference where it has one.
    Searched { candidates: Vec<Option<String>> },
    /// The tracks were added.
    Added,
    /// The action failed; the playlist is given up for this run.
    Failed { reason: String },
}

/// What the caller is to do next.
pub enum Action {
    /// Suspend for this many seconds, then report `Waited`.
    Wait { seconds: u64 },
    /// Fetch a page of the playlist's items from the source.
    FetchPage { url: String },
    /// Fetch the details of these source tracks.
    FetchDetails { track_ids: Vec<String> },
    /// Create the mirror playlist.
    CreatePlaylist { name: String, description: String, public: bool },
    /// Fetch the mirror playlist's current tracks.
    FetchMembership { dest_id: String },
    /// Search the destination for a track with this identifier.
    Search { isrc: String },
    /// Append these tracks to the mirror playlist.
    AddTracks { dest_id: String, uris: Vec<String> },
    /// The playlist is done with; its outcome is in the engine.
    Finish,
}

/// How a playlist's reconciliation ended.
pub enum Outcome {
    /// The mirror holds every resolvable expected track. `intact` says
    /// whether its members were exactly the expected ones when fetched;
    /// `added` counts the tracks appended.
    Synced { intact: bool, added: usize },
    /// The source's modification time could not be read.
    Rejected,
    /// An action failed.
    Failed { reason: String },
    /// The ledger already recorded the playlist when its mirror was created.
    Conflict,
    /// An event came that the engine was not waiting for.
    OutOfOrder,
}

/// Where a playlist's reconciliation stands: the event it awaits.
#[derive(Debug, Clone, Copy, PartialEq, Eq, Structural)]
pub enum Phase {
    Waiting,
    Paging,
    Details,
    Creating,
    Membership,
    Resolving,
    Adding,
    Done,
}

/// One step: the ledger write it made, and the next action.
pub struct Step {
    pub write: Option<LedgerWrite>,
    pub action: Action,
}

/// The items of all pages, page after page.
pub open spec fn flatten(pages: Seq<Seq<Seq<char>>>) -> Seq<Seq<char>>
    decreases pages.len(),
{
    if pages.len() == 0 {
        Seq::empty()
    } else {
        flatten(pages.drop_last()) + pages.last()
    }
}

/// The number of items over all pages.
pub open spec fn total_items(pages: Seq<Seq<Seq<char>>>) -> int
    decreases pages.len(),
{
    if pages.len() == 0 {
        0
    } else {
        total_items(pages.drop_last()) + pages.last().len()
    }
}

/// The ledger's watermark for a playlist; `Absent` where it has no record.
pub open spec fn saved_stamp(l: LedgerView, id: Seq<char>) -> Stamp {
    if l.playlists.contains_key(id) {
        field_stamp(Some(l.playlists[id].last_modified))
    } else {
        Stamp::Absent
    }
}

/// The plan for a listed playlist against the ledger.
pub open spec fn plan_for(l: LedgerView, source: PlaylistSummary) -> SourcePlan {
    source_plan(field_stamp(opt_text(source.last_updated)), saved_stamp(l, source.id@))
}

/// The recorded tracks of a playlist that the destination lacks and that
/// are not blacklisted: those that must be searched for.
pub open spec fn pending(l: LedgerView, id: Seq<char>, dest: Seq<Seq<char>>) -> Seq<Seq<char>> {
    missing(l.playlists[id].tracks, dest).filter(not_listed(l.blacklist))
}

/// The first search candidate's track reference, if it has one.
pub open spec fn first_match(candidates: Seq<Option<String>>) -> Option<Seq<char>> {
    if candidates.len() > 0 {
        opt_text(candidates[0])
    } else {
        None
    }
}

/// The reconciliation of one playlist.
pub struct PlaylistSync {
    pub source: PlaylistSummary,
    pub phase: Phase,
    pub budget: RateBudget,
    /// The page being fetched.
    pub url: String,
    /// The page after the one whose details are being fetched.
    pub next: Option<String>,
    /// The tracks gathered from the pages so far.
    pub tracks: Vec<String>,
    /// Each page's tracks, as gathered.
    pub pages: Ghost<Seq<Seq<Seq<char>>>>,
    pub dest_id: String,
    /// The expected tracks that the mirror lacked.
    pub queue: Vec<String>,
    /// The position in `queue` of the next track to resolve.
    pub index: usize,
    /// The track references resolved so far.
    pub uris: Vec<String>,
    pub intact: bool,
    pub outcome: Option<Outcome>,
}

/// The request for the page at `s.url` that a step ends with: a wait while
/// at most one token is left, else the page itself.
pub open spec fn requests_page(s: PlaylistSync, a: Action) -> bool {
    &&& s.budget.remaining <= 1 ==> s.phase == Phase::Waiting && a == (Action::Wait {
        seconds: WAIT_SECONDS,
    })
    &&& s.budget.remaining > 1 ==> s.phase == Phase::Paging && a is FetchPage
        && a->FetchPage_url@ == s.url@
}

/// Every playlist that `l0` records, `l1` records too, with the same mirror.
pub open spec fn keeps_mirrors(l0: LedgerView, l1: LedgerView) -> bool {
    forall|k: Seq<char>|
        #[trigger] l0.playlists.contains_key(k) ==> l1.playlists.contains_key(k)
            && l1.playlists[k].dest_id == l0.playlists[k].dest_id
}

/// Where resolution stands after a step that went on from queue position
/// `from`, with `uris` the references resolved so far: the positions passed
/// over hold blacklisted tracks; then the track at the new position is
/// searched for, or the resolved references are added to the mirror, or,
/// with none resolved, the playlist is synced.
pub open spec fn resolution_continues(
    s: PlaylistSync,
    from: int,
    uris: Seq<Seq<char>>,
    l: LedgerView,
    a: Action,
) -> bool {
    &&& from <= s.index <= s.queue.len()
    &&& forall|k: int| from <= k < s.index ==> l.blacklist.contains(#[trigger] s.queue@[k]@)
    &&& texts(s.uris@) == uris
    &&& a is Search ==> s.phase == Phase::Resolving && s.index < s.queue.len()
        && a->Search_isrc@ == s.queue@[s.index as int]@ && !l.blacklist.contains(a->Search_isrc@)
    &&& a is AddTracks ==> s.phase == Phase::Adding && s.index == s.queue.len() && uris.len() > 0
        && texts(a->AddTracks_uris@) == uris && a->AddTracks_dest_id@ == s.dest_id@
    &&& a is Finish ==> s.index == s.queue.len() && uris.len() == 0 && s.phase == Phase::Done
        && s.outcome == Some(Outcome::Synced { intact: s.intact, added: 0 })
    &&& a is Search || a is AddTracks || a is Finish
}

/// The references resolved after a search came back: the first match is
/// added to them where there is one.
pub open spec fn with_match(uris: Seq<Seq<char>>, candidates: Seq<Option<String>>) -> Seq<
    Seq<char>,
> {
    match first_match(candidates) {
        Some(u) => uris.push(u),
        None => uris,
    }
}

/// Whether a playlist in phase `p` awaits event `e`.
pub open spec fn awaits(p: Phase, e: Event) -> bool {
    match e {
        Event::Waited => p == Phase::Waiting,
        Event::Page { .. } => p == Phase::Paging,
        Event::Details { .. } => p == Phase::Details,
        Event::Created { .. } => p == Phase::Creating,
        Event::Membership { .. } => p == Phase::Membership,
        Event::Searched { .. } => p == Phase::Resolving,
        Event::Added => p == Phase::Adding,
        Event::Failed { .. } => p != Phase::Done,
    }
}

impl PlaylistSync {
    pub open spec fn wf(&self) -> bool {
        &&& texts(self.tracks@) == flatten(self.pages@)
        &&& self.index <= self.queue.len()
        &&& self.phase == Phase::Resolving ==> self.index < self.queue.len()
        &&& (self.phase == Phase::Done) == (self.outcome is Some)
    }

    /// The gathered tracks are the pages' items, and the resolution queue's
    /// position is within it.
    pub open spec fn gathered(&self) -> bool {
        &&& texts(self.tracks@) == flatten(self.pages@)
        &&& self.index <= self.queue.len()
    }

    /// Asks for the page at `url`, or for a wait first where the budget is
    /// spent.
    fn request_page(&mut self) -> (r: Action)
        requires
            old(self).wf(),
            old(self).outcome is None,
        ensures
            final(self).wf(),
            final(self).tracks@ == old(self).tracks@,
            final(self).pages@ == old(self).pages@,
            final(self).budget == old(self).budget,
            final(self).url == old(self).url,
            final(self).source == old(self).source,
            old(self).budget.remaining <= 1 ==> final(self).phase == Phase::Waiting && r == (
            Action::Wait { seconds: WAIT_SECONDS }),
            old(self).budget.remaining > 1 ==> final(self).phase == Phase::Paging && r is FetchPage
                && r->FetchPage_url@ == old(self).url@,
    {
        if self.budget.needs_wait() {
            self.phase = Phase::Waiting;
            Action::Wait { seconds: WAIT_SECONDS }
        } else {
            self.phase = Phase::Paging;
            Action::FetchPage { url: self.url.clone() }
        }
    }

    /// Begins the reconciliation of a listed playlist. Where the ledger's
    /// watermark is no earlier than the source's modification time, the
    /// recorded tracks stand and no page is fetched: the first action asks
    /// for the mirror's members. Where the source's modification time cannot
    /// be read, the playlist is rejected. Else its pages are fetched.
    pub fn start(source: PlaylistSummary, budget: RateBudget, ledger: &Ledger) -> (r: (
        PlaylistSync,
        Step,
    ))
        requires
            ledger.wf(),
        ensures
            r.0.wf(),
            r.0.source == source,
            r.1.write is None,
            r.0.pages@ == Seq::<Seq<Seq<char>>>::empty(),
            plan_for(ledger@, source) == SourcePlan::Reject ==> r.0.phase == Phase::Done
                && r.0.outcome == Some(Outcome::Rejected) && r.1.action is Finish,
            plan_for(ledger@, source) == SourcePlan::Reuse ==> ledger@.playlists.contains_key(
                source.id@,
            ) && r.0.phase == Phase::Membership && r.1.action is FetchMembership
                && r.1.action->FetchMembership_dest_id@ == ledger@.playlists[source.id@].dest_id
                && r.0.dest_id@ == ledger@.playlists[source.id@].dest_id,
            plan_for(ledger@, source) == SourcePlan::Refetch ==> r.0.budget == budget
                && r.0.url@ == source.items_url@ && (budget.remaining <= 1 ==> r.0.phase
                == Phase::Waiting && r.1.action == (Action::Wait { seconds: WAIT_SECONDS })) && (
            budget.remaining > 1 ==> r.0.phase == Phase::Paging && r.1.action is FetchPage
                && r.1.action->FetchPage_url@ == source.items_url@),
    {
        let source_stamp = read_stamp(&source.last_updated);
        let saved = match ledger.get_playlist_last_modified(source.id.as_str()) {
            Some(lm) => read_stamp(&Some(lm)),
            None => Stamp::Absent,
        };
        let plan = plan_source(source_stamp, saved);
        let url = source.items_url.clone();
        let mut s = PlaylistSync {
            source,
            phase: Phase::Paging,
            budget,
            url,
            next: None,
            tracks: Vec::new(),
            pages: Ghost(Seq::empty()),
            dest_id: String::new(),
            queue: Vec::new(),
            index: 0,
            uris: Vec::new(),
            intact: true,
            outcome: None,
        };
        assert(texts(s.tracks@) =~= flatten(s.pages@));
        match plan {
            SourcePlan::Reject => {
                s.phase = Phase::Done;
                s.outcome = Some(Outcome::Rejected);
                (s, Step { write: None, action: Action::Finish })
            },
            SourcePlan::Reuse => match ledger.get_spotify_playlist_id(s.source.id.as_str()) {
                Some(d) => {
                    s.dest_id = d.clone();
                    s.phase = Phase::Membership;
                    (s, Step { write: None, action: Action::FetchMembership { dest_id: d } })
                },
                // A watermark is only read from a record, so there is one.
                None => {
                    let a = s.request_page();
                    (s, Step { write: None, action: a })
                },
            },
            SourcePlan::Refetch => {
                let a = s.request_page();
                (s, Step { write: None, action: a })
            },
        }
    }

    /// A wait is over: the budget is replenished once, and the page is asked
    /// for again (or another wait).
    fn on_waited(&mut self) -> (r: Step)
        requires
            old(self).wf(),
            old(self).phase == Phase::Waiting,
        ensures
            final(self).wf(),
            r.write is None,
            final(self).tracks@ == old(self).tracks@,
            final(self).pages@ == old(self).pages@,
            final(self).source == old(self).source,
            final(self).budget.replenish_rate == old(self).budget.replenish_rate,
            final(self).budget.remaining == saturate(
                old(self).budget.remaining + old(self).budget.replenish_rate,
            ),
            final(self).budget.remaining <= 1 ==> final(self).phase == Phase::Waiting && r.action
                == (Action::Wait { seconds: WAIT_SECONDS }),
            final(self).budget.remaining > 1 ==> final(self).phase == Phase::Paging
                && r.action is FetchPage && r.action->FetchPage_url@ == old(self).url@,
            final(self).url == old(self).url,
            requests_page(*final(self), r.action),
    {
        self.budget.replenish();
        let a = self.request_page();
        Step { write: None, action: a }
    }

    /// A page came: the budget takes its rate-limit headers, and the details
    /// of its tracks are asked for.
    fn on_page(
        &mut self,
        track_ids: Vec<String>,
        next: Option<String>,
        remaining: Option<String>,
        requested: Option<String>,
    ) -> (r: Step)
        requires
            old(self).wf(),
            old(self).phase == Phase::Paging,
        ensures
            final(self).wf(),
            r.write is None,
            final(self).phase == Phase::Details,
            final(self).tracks@ == old(self).tracks@,
            final(self).pages@ == old(self).pages@,
            final(self).source == old(self).source,
            final(self).next == next,
            final(self).url == old(self).url,
            final(self).budget.replenish_rate == old(self).budget.replenish_rate,
            final(self).budget.remaining == match opt_text(remaining) {
                Some(v) => match crate::decimal::i32_of_text(v) {
                    Some(n) => n as i64,
                    None => saturate(
                        old(self).budget.remaining - header_count(opt_text(requested), 1),
                    ),
                },
                None => saturate(
                    old(self).budget.remaining - header_count(opt_text(requested), 1),
                ),
            },
            r.action == (Action::FetchDetails { track_ids }),
    {
        let rem = match &remaining {
            Some(v) => Some(v.as_str()),
            None => None,
        };
        let req = match &requested {
            Some(v) => Some(v.as_str()),
            None => None,
        };
        assert(opt_str(rem) == opt_text(remaining));
        assert(opt_str(req) == opt_text(requested));
        self.budget.after_response(rem, req);
        self.next = next;
        self.phase = Phase::Details;
        Step { write: None, action: Action::FetchDetails { track_ids } }
    }

    /// The playlist's modification time as recorded: empty where the source
    /// gave none.
    fn modified_text(&self) -> (r: String)
        ensures
            r@ == or_empty(self.source.last_updated),
    {
        match &self.source.last_updated {
            Some(s) => s.clone(),
            None => String::new(),
        }
    }

    /// The last page's details came: the fetched tracks are complete. A
    /// playlist that the ledger records has its record refreshed; for one it
    /// does not, the mirror is created first.
    fn complete_source(&mut self, ledger: &mut Ledger) -> (r: Step)
        requires
            old(self).wf(),
            old(self).outcome is None,
            old(ledger).wf(),
        ensures
            final(self).wf(),
            final(ledger).wf(),
            final(self).tracks@ == old(self).tracks@,
            final(self).pages@ == old(self).pages@,
            final(self).source == old(self).source,
            final(ledger)@.blacklist == old(ledger)@.blacklist,
            !old(ledger)@.playlists.contains_key(old(self).source.id@) ==> final(ledger)@ == old(ledger)@ && r.write is None && final(self).phase == Phase::Creating
                && r.action is CreatePlaylist && r.action->CreatePlaylist_name@ == old(self).source.name@ + NAME_SUFFIX@ && r.action->CreatePlaylist_description@
                == DESCRIPTION@ && r.action->CreatePlaylist_public == PUBLIC,
            old(ledger)@.playlists.contains_key(old(self).source.id@) ==> final(ledger)@.playlists
                == old(ledger)@.playlists.insert(
                old(self).source.id@,
                RecordView {
                    name: old(self).source.name@,
                    last_modified: or_empty(old(self).source.last_updated),
                    tracks: texts(old(self).tracks@),
                    ..old(ledger)@.playlists[old(self).source.id@]
                },
            ) && r.write is Some && final(self).phase == Phase::Membership
                && r.action is FetchMembership && r.action->FetchMembership_dest_id@ == old(ledger)@.playlists[old(self).source.id@].dest_id && final(self).dest_id@ == old(ledger)@.playlists[old(self).source.id@].dest_id,
    {
        let id = self.source.id.as_str();
        match ledger.get_spotify_playlist_id(id) {
            None => {
                self.phase = Phase::Creating;
                let name = self.source.name.clone().concat(NAME_SUFFIX);
                Step {
                    write: None,
                    action: Action::CreatePlaylist {
                        name,
                        description: DESCRIPTION.to_owned(),
                        public: PUBLIC,
                    },
                }
            },
            Some(dest) => {
                let lm = self.modified_text();
                let _ = ledger.update_playlist(id, self.source.name.as_str(), lm.as_str());
                let _ = ledger.replace_tracks(id, copy_strings(&self.tracks));
                self.dest_id = dest.clone();
                self.phase = Phase::Membership;
                let write = LedgerWrite::Refreshed {
                    source_id: self.source.id.clone(),
                    name: self.source.name.clone(),
                    last_modified: lm,
                    tracks: copy_strings(&self.tracks),
                };
                Step { write: Some(write), action: Action::FetchMembership { dest_id: dest } }
            },
        }
    }

    /// A page's details came: its tracks are gathered, and the next page is
    /// asked for, or the fetched tracks are complete.
    fn on_details(&mut self, ledger: &mut Ledger, isrcs: Vec<String>) -> (r: Step)
        requires
            old(self).wf(),
            old(self).phase == Phase::Details,
            old(ledger).wf(),
        ensures
            final(self).wf(),
            final(ledger).wf(),
            final(self).source == old(self).source,
            final(self).pages@ == old(self).pages@.push(texts(isrcs@)),
            final(ledger)@.blacklist == old(ledger)@.blacklist,
            old(self).next is Some ==> final(ledger)@ == old(ledger)@ && r.write is None
                && final(self).url == old(self).next->0 && final(self).budget == old(self).budget
                && requests_page(*final(self), r.action),
            old(ledger)@.playlists.dom().subset_of(final(ledger)@.playlists.dom()),
            r.action is CreatePlaylist ==> !final(ledger)@.playlists.contains_key(
                old(self).source.id@,
            ),
            !(r.action is Search) && !(r.action is AddTracks),
            old(self).next is None && !old(ledger)@.playlists.contains_key(old(self).source.id@)
                ==> final(ledger)@ == old(ledger)@ && r.action is CreatePlaylist
                && r.action->CreatePlaylist_name@ == old(self).source.name@ + NAME_SUFFIX@
                && r.action->CreatePlaylist_description@ == DESCRIPTION@
                && r.action->CreatePlaylist_public == PUBLIC && final(self).phase == Phase::Creating,
            old(self).next is None && old(ledger)@.playlists.contains_key(old(self).source.id@)
                ==> final(ledger)@.playlists == old(ledger)@.playlists.insert(
                old(self).source.id@,
                RecordView {
                    name: old(self).source.name@,
                    last_modified: or_empty(old(self).source.last_updated),
                    tracks: texts(old(self).tracks@) + texts(isrcs@),
                    ..old(ledger)@.playlists[old(self).source.id@]
                },
            ) && r.action is FetchMembership && final(self).phase == Phase::Membership
                && r.action->FetchMembership_dest_id@ == old(ledger)@.playlists[old(self).source.id@].dest_id,
    {
        let ghost p = texts(isrcs@);
        let ghost before = self.tracks@;
        let mut items = isrcs;
        self.tracks.append(&mut items);
        self.pages = Ghost(self.pages@.push(p));
        proof {
            assert(self.pages@.drop_last() =~= old(self).pages@);
            assert(texts(self.tracks@) =~= texts(before) + p);
        }
        match self.next.take() {
            Some(url) => {
                self.url = url;
                let a = self.request_page();
                Step { write: None, action: a }
            },
            None => self.complete_source(ledger),
        }
    }

    /// The mirror was created: the ledger records it, with the fetched
    /// tracks, and the mirror's members are asked for.
    fn on_created(&mut self, ledger: &mut Ledger, dest_id: String) -> (r: Step)
        requires
            old(self).wf(),
            old(self).phase == Phase::Creating,
            old(ledger).wf(),
        ensures
            final(self).wf(),
            final(ledger).wf(),
            final(self).source == old(self).source,
            final(self).pages@ == old(self).pages@,
            final(ledger)@.blacklist == old(ledger)@.blacklist,
            old(ledger)@.playlists.contains_key(old(self).source.id@) ==> final(ledger)@ == old(ledger)@ && final(self).phase == Phase::Done && final(self).outcome == Some(
                Outcome::Conflict,
            ) && r.action is Finish,
            !old(ledger)@.playlists.contains_key(old(self).source.id@) ==> final(ledger)@.playlists == old(ledger)@.playlists.insert(
                old(self).source.id@,
                RecordView {
                    dest_id: dest_id@,
                    name: old(self).source.name@,
                    last_modified: or_empty(old(self).source.last_updated),
                    tracks: texts(old(self).tracks@),
                },
            ) && r.write is Some && final(self).phase == Phase::Membership
                && r.action is FetchMembership && r.action->FetchMembership_dest_id@ == dest_id@
                && final(self).dest_id@ == dest_id@,
    {
        let lm = self.modified_text();
        let id = self.source.id.as_str();
        match ledger.insert_playlist(id, dest_id.as_str(), self.source.name.as_str(), lm.as_str()) {
            Err(_) => {
                self.phase = Phase::Done;
                self.outcome = Some(Outcome::Conflict);
                Step { write: None, action: Action::Finish }
            },
            Ok(()) => {
                let _ = ledger.replace_tracks(id, copy_strings(&self.tracks));
                self.dest_id = dest_id.clone();
                self.phase = Phase::Membership;
                let write = LedgerWrite::NewPlaylist {
                    source_id: self.source.id.clone(),
                    dest_id: dest_id.clone(),
                    name: self.source.name.clone(),
                    last_modified: lm,
                    tracks: copy_strings(&self.tracks),
                };
                Step { write: Some(write), action: Action::FetchMembership { dest_id } }
            },
        }
    }

    /// Moves past the queued tracks that are blacklisted, then searches for
    /// the next one; where none is left, adds what was resolved, or is done.
    fn resolve_next(&mut self, ledger: &Ledger) -> (r: Action)
        requires
            old(self).gathered(),
            old(self).outcome is None,
            ledger.wf(),
        ensures
            final(self).wf(),
            final(self).source == old(self).source,
            final(self).tracks == old(self).tracks,
            final(self).pages@ == old(self).pages@,
            final(self).queue == old(self).queue,
            final(self).uris == old(self).uris,
            final(self).dest_id == old(self).dest_id,
            final(self).intact == old(self).intact,
            old(self).index <= final(self).index,
            forall|k: int|
                old(self).index <= k < final(self).index ==> ledger@.blacklist.contains(
                    #[trigger] old(self).queue@[k]@,
                ),
            r is Search ==> final(self).phase == Phase::Resolving && final(self).index
                < final(self).queue.len() && r->Search_isrc@ == final(self).queue@[final(self).index as int]@ && !ledger@.blacklist.contains(r->Search_isrc@),
            !(r is Search) ==> final(self).index == final(self).queue.len(),
            r is AddTracks ==> final(self).phase == Phase::Adding && old(self).uris.len() > 0
                && r->AddTracks_uris@ == old(self).uris@ && r->AddTracks_dest_id
                == old(self).dest_id,
            r is Finish ==> old(self).uris.len() == 0 && final(self).phase == Phase::Done
                && final(self).outcome == Some(
                Outcome::Synced { intact: old(self).intact, added: 0 },
            ),
            r is Search || r is AddTracks || r is Finish,
    {
        while self.index < self.queue.len()
            invariant
                self.gathered(),
                ledger.wf(),
                self.source == old(self).source,
                self.tracks == old(self).tracks,
                self.pages@ == old(self).pages@,
                self.queue == old(self).queue,
                self.uris == old(self).uris,
                self.dest_id == old(self).dest_id,
                self.phase == old(self).phase,
                self.outcome is None,
                self.intact == old(self).intact,
                old(self).index <= self.index,
                forall|k: int|
                    old(self).index <= k < self.index ==> ledger@.blacklist.contains(
                        #[trigger] old(self).queue@[k]@,
                    ),
            decreases self.queue.len() - self.index,
        {
            if !ledger.is_blacklisted(self.queue[self.index].as_str()) {
                self.phase = Phase::Resolving;
                return Action::Search { isrc: self.queue[self.index].clone() };
            }
            self.index = self.index + 1;
        }
        if self.uris.len() > 0 {
            self.phase = Phase::Adding;
            Action::AddTracks { dest_id: self.dest_id.clone(), uris: copy_strings(&self.uris) }
        } else {
            self.phase = Phase::Done;
            self.outcome = Some(Outcome::Synced { intact: self.intact, added: 0 });
            Action::Finish
        }
    }

    /// The mirror's members came: they are checked against the ledger's
    /// expected tracks, and the expected tracks that the mirror lacks are
    /// queued for resolution. Nothing the mirror holds is ever removed.
    fn on_membership(&mut self, ledger: &Ledger, isrcs: Vec<String>) -> (r: Step)
        requires
            old(self).wf(),
            old(self).phase == Phase::Membership,
            ledger.wf(),
        ensures
            final(self).wf(),
            final(self).source == old(self).source,
            final(self).pages@ == old(self).pages@,
            r.write is None,
            !ledger@.playlists.contains_key(old(self).source.id@) ==> final(self).phase
                == Phase::Done && final(self).outcome == Some(Outcome::Conflict)
                && r.action is Finish,
            ledger@.playlists.contains_key(old(self).source.id@) ==> {
                let pend = pending(ledger@, old(self).source.id@, texts(isrcs@));
                &&& texts(final(self).queue@) == missing(
                    ledger@.playlists[old(self).source.id@].tracks,
                    texts(isrcs@),
                )
                &&& final(self).intact == (expected_members(
                    ledger@.playlists[old(self).source.id@].tracks,
                    ledger@.blacklist,
                ) == texts(isrcs@))
                &&& pend.len() == 0 ==> r.action is Finish && final(self).outcome == Some(
                    Outcome::Synced { intact: final(self).intact, added: 0 },
                )
                &&& pend.len() > 0 ==> r.action is Search
                &&& r.action is Search ==> pend.contains(r.action->Search_isrc@)
                    && !ledger@.blacklist.contains(r.action->Search_isrc@)
                &&& r.action is Search || r.action is Finish
                &&& resolution_continues(*final(self), 0, Seq::empty(), ledger@, r.action)
            },
            final(self).dest_id == old(self).dest_id,
    {
        let id = self.source.id.as_str();
        let intact = match ledger.check_playlist_integrity(id, &isrcs) {
            Ok(b) => b,
            Err(_) => {
                self.phase = Phase::Done;
                self.outcome = Some(Outcome::Conflict);
                return Step { write: None, action: Action::Finish };
            },
        };
        let expected = match ledger.get_tracks(id) {
            Some(t) => t,
            None => {
                self.phase = Phase::Done;
                self.outcome = Some(Outcome::Conflict);
                return Step { write: None, action: Action::Finish };
            },
        };
        self.queue = missing_tracks(&expected, &isrcs);
        self.index = 0;
        self.uris = Vec::new();
        self.intact = intact;
        let ghost q = texts(self.queue@);
        let ghost bl = ledger@.blacklist;
        assert(texts(self.uris@) =~= Seq::<Seq<char>>::empty());
        let action = self.resolve_next(ledger);
        proof {
            let pend = q.filter(not_listed(bl));
            if action is Search {
                let k = self.index as int;
                assert(q[k] == self.queue@[k]@);
                q.lemma_filter_contains(not_listed(bl), k);
            } else {
                assert forall|k: int| 0 <= k < q.len() implies !(#[trigger] not_listed(bl)(q[k])) by {
                    assert(q[k] == self.queue@[k]@);
                }
                q.lemma_all_neg_filter_empty(not_listed(bl));
            }
        }
        Step { write: None, action }
    }

    /// The search for the track at the head of the queue came back: its
    /// first match is taken; with none, the identifier is blacklisted.
    fn on_searched(&mut self, ledger: &mut Ledger, candidates: Vec<Option<String>>) -> (r: Step)
        requires
            old(self).wf(),
            old(self).phase == Phase::Resolving,
            old(self).index < old(self).queue.len(),
            old(ledger).wf(),
        ensures
            final(self).wf(),
            final(ledger).wf(),
            final(self).source == old(self).source,
            final(self).pages@ == old(self).pages@,
            final(ledger)@.playlists == old(ledger)@.playlists,
            first_match(candidates@) is None ==> final(ledger)@.blacklist == old(ledger)@.blacklist.insert(old(self).queue@[old(self).index as int]@) && r.write is Some,
            first_match(candidates@) is Some ==> final(ledger)@ == old(ledger)@ && r.write is None
                && texts(final(self).uris@) == texts(old(self).uris@).push(
                first_match(candidates@)->0,
            ),
            r.action is Search ==> !final(ledger)@.blacklist.contains(r.action->Search_isrc@),
            r.action is AddTracks ==> r.action->AddTracks_uris@.len() > 0,
            r.action is Search || r.action is AddTracks || r.action is Finish,
            final(self).queue == old(self).queue,
            final(self).dest_id == old(self).dest_id,
            final(self).intact == old(self).intact,
            resolution_continues(
                *final(self),
                old(self).index + 1,
                with_match(texts(old(self).uris@), candidates@),
                final(ledger)@,
                r.action,
            ),
    {
        let found: Option<String> = if candidates.len() > 0 {
            match &candidates[0] {
                Some(u) => Some(u.clone()),
                None => None,
            }
        } else {
            None
        };
        let isrc = self.queue[self.index].clone();
        let ghost before = self.uris@;
        let write = match found {
            Some(u) => {
                self.uris.push(u);
                proof {
                    assert(texts(self.uris@) =~= texts(before).push(first_match(candidates@)->0));
                }
                None
            },
            None => {
                ledger.insert_blacklist(isrc.as_str());
                assert(texts(self.uris@) == with_match(texts(before), candidates@));
                Some(LedgerWrite::Blacklisted { isrc })
            },
        };
        self.index = self.index + 1;
        let ghost mid = self.uris@;
        let ghost mid_ledger = ledger@;
        let action = self.resolve_next(ledger);
        proof {
            assert(self.uris@ == mid);
        }
        Step { write, action }
    }

    /// The resolved tracks were added: the playlist is synced.
    fn on_added(&mut self) -> (r: Step)
        requires
            old(self).wf(),
            old(self).phase == Phase::Adding,
        ensures
            final(self).wf(),
            final(self).source == old(self).source,
            final(self).pages@ == old(self).pages@,
            r.write is None,
            r.action is Finish,
            final(self).outcome == Some(
                Outcome::Synced { intact: old(self).intact, added: old(self).uris.len() },
            ),
    {
        self.phase = Phase::Done;
        self.outcome = Some(Outcome::Synced { intact: self.intact, added: self.uris.len() });
        Step { write: None, action: Action::Finish }
    }

    /// Ends the playlist with `outcome`.
    fn stop(&mut self, outcome: Outcome) -> (r: Step)
        requires
            old(self).wf(),
        ensures
            final(self).wf(),
            final(self).source == old(self).source,
            final(self).pages@ == old(self).pages@,
            final(self).phase == Phase::Done,
            final(self).outcome == Some(outcome),
            r.write is None,
            r.action is Finish,
    {
        self.phase = Phase::Done;
        self.outcome = Some(outcome);
        Step { write: None, action: Action::Finish }
    }

    /// Takes the result of the last action and returns the next action, with
    /// the ledger write that this step made. An event that the current phase
    /// does not await ends the playlist as out of order; `Failed` ends it as
    /// failed; a finished playlist stays finished.
    pub fn step(&mut self, ledger: &mut Ledger, event: Event) -> (r: Step)
        requires
            old(self).wf(),
            old(ledger).wf(),
        ensures
            final(self).wf(),
            final(ledger).wf(),
            final(self).source == old(self).source,
            old(ledger)@.blacklist.subset_of(final(ledger)@.blacklist),
            old(ledger)@.playlists.dom().subset_of(final(ledger)@.playlists.dom()),
            keeps_mirrors(old(ledger)@, final(ledger)@),
            r.action is Search ==> !final(ledger)@.blacklist.contains(r.action->Search_isrc@),
            r.action is CreatePlaylist ==> !final(ledger)@.playlists.contains_key(
                old(self).source.id@,
            ),
            r.action is AddTracks ==> r.action->AddTracks_uris@.len() > 0,
            old(self).phase == Phase::Waiting || old(self).phase == Phase::Paging ==> final(ledger)@
                == old(ledger)@,
            old(self).phase == Phase::Membership || old(self).phase == Phase::Resolving
                || old(self).phase == Phase::Adding ==> final(ledger)@.playlists == old(ledger)@.playlists && (r.action is Search || r.action is AddTracks || r.action is Finish),
            old(self).phase == Phase::Membership || old(self).phase == Phase::Resolving
                || old(self).phase == Phase::Adding || old(self).phase == Phase::Done ==> final(self).phase == Phase::Resolving || final(self).phase == Phase::Adding || final(self).phase
                == Phase::Done,
            old(self).phase == Phase::Done ==> final(self).outcome == old(self).outcome
                && final(ledger)@ == old(ledger)@ && r.action is Finish,
            old(self).phase != Phase::Done && event is Failed ==> final(self).outcome == Some(
                Outcome::Failed { reason: event->Failed_reason },
            ) && final(ledger)@ == old(ledger)@ && r.action is Finish,
            old(self).phase != Phase::Done && !awaits(old(self).phase, event) ==> final(self).outcome == Some(Outcome::OutOfOrder) && final(ledger)@ == old(ledger)@
                && r.action is Finish,
            old(self).phase == Phase::Waiting && event is Waited ==> final(self).pages@ == old(self).pages@ && final(ledger)@ == old(ledger)@ && final(self).url == old(self).url
                && final(self).budget.replenish_rate == old(self).budget.replenish_rate
                && final(self).budget.remaining == saturate(
                old(self).budget.remaining + old(self).budget.replenish_rate,
            ) && requests_page(*final(self), r.action),
            old(self).phase == Phase::Paging && event is Page ==> final(self).pages@ == old(self).pages@ && final(ledger)@ == old(ledger)@ && r.action == (Action::FetchDetails {
                track_ids: event->Page_track_ids,
            }) && final(self).phase == Phase::Details && final(self).next == event->Page_next
                && final(self).url == old(self).url && final(self).budget.replenish_rate == old(self).budget.replenish_rate && final(self).budget.remaining == match opt_text(
                event->Page_remaining,
            ) {
                Some(v) => match crate::decimal::i32_of_text(v) {
                    Some(n) => n as i64,
                    None => saturate(
                        old(self).budget.remaining - header_count(
                            opt_text(event->Page_requested),
                            1,
                        ),
                    ),
                },
                None => saturate(
                    old(self).budget.remaining - header_count(opt_text(event->Page_requested), 1),
                ),
            },
            old(self).phase == Phase::Details && event is Details ==> final(self).pages@ == old(self).pages@.push(texts(event->Details_isrcs@)),
            old(self).phase == Phase::Details && event is Details && old(self).next is Some
                ==> final(ledger)@ == old(ledger)@ && final(self).url == old(self).next->0
                && final(self).budget == old(self).budget && requests_page(*final(self), r.action),
            old(self).phase == Phase::Details && event is Details && old(self).next is None
                && !old(ledger)@.playlists.contains_key(old(self).source.id@) ==> final(ledger)@
                == old(ledger)@ && final(self).phase == Phase::Creating
                && r.action is CreatePlaylist && r.action->CreatePlaylist_name@ == old(self).source.name@ + NAME_SUFFIX@ && r.action->CreatePlaylist_description@
                == DESCRIPTION@ && r.action->CreatePlaylist_public == PUBLIC,
            old(self).phase == Phase::Details && event is Details && old(self).next is None
                && old(ledger)@.playlists.contains_key(old(self).source.id@) ==> final(ledger)@.playlists == old(ledger)@.playlists.insert(
                old(self).source.id@,
                RecordView {
                    name: old(self).source.name@,
                    last_modified: or_empty(old(self).source.last_updated),
                    tracks: texts(old(self).tracks@) + texts(event->Details_isrcs@),
                    ..old(ledger)@.playlists[old(self).source.id@]
                },
            ) && final(ledger)@.blacklist == old(ledger)@.blacklist
                && final(self).phase == Phase::Membership && r.action is FetchMembership
                && r.action->FetchMembership_dest_id@ == old(ledger)@.playlists[old(self).source.id@].dest_id,
            old(self).phase == Phase::Creating && event is Created
                && old(ledger)@.playlists.contains_key(old(self).source.id@) ==> final(ledger)@
                == old(ledger)@ && final(self).outcome == Some(Outcome::Conflict)
                && r.action is Finish,
            old(self).phase == Phase::Creating && event is Created
                && !old(ledger)@.playlists.contains_key(old(self).source.id@) ==> final(ledger)@.playlists == old(ledger)@.playlists.insert(
                old(self).source.id@,
                RecordView {
                    dest_id: event->Created_dest_id@,
                    name: old(self).source.name@,
                    last_modified: or_empty(old(self).source.last_updated),
                    tracks: texts(old(self).tracks@),
                },
            ) && final(ledger)@.blacklist == old(ledger)@.blacklist
                && final(self).phase == Phase::Membership && r.action is FetchMembership
                && r.action->FetchMembership_dest_id@ == event->Created_dest_id@
                && final(self).dest_id@ == event->Created_dest_id@,
            old(self).phase == Phase::Membership && event is Membership
                && !old(ledger)@.playlists.contains_key(old(self).source.id@) ==> final(ledger)@
                == old(ledger)@ && final(self).outcome == Some(Outcome::Conflict)
                && r.action is Finish,
            old(self).phase == Phase::Membership && event is Membership
                && old(ledger)@.playlists.contains_key(old(self).source.id@) ==> {
                let tracks = old(ledger)@.playlists[old(self).source.id@].tracks;
                let dest = texts(event->Membership_isrcs@);
                let pend = pending(old(ledger)@, old(self).source.id@, dest);
                &&& final(ledger)@ == old(ledger)@
                &&& final(self).dest_id == old(self).dest_id
                &&& texts(final(self).queue@) == missing(tracks, dest)
                &&& final(self).intact == (expected_members(tracks, old(ledger)@.blacklist)
                    == dest)
                &&& resolution_continues(*final(self), 0, Seq::empty(), old(ledger)@, r.action)
                &&& pend.len() == 0 ==> r.action is Finish
                &&& pend.len() > 0 ==> r.action is Search && pend.contains(
                    r.action->Search_isrc@,
                )
            },
            old(self).phase == Phase::Resolving && event is Searched ==> {
                let searched = old(self).queue@[old(self).index as int]@;
                let candidates = event->Searched_candidates@;
                &&& final(ledger)@.playlists == old(ledger)@.playlists
                &&& final(self).queue == old(self).queue
                &&& final(self).dest_id == old(self).dest_id
                &&& final(self).intact == old(self).intact
                &&& resolution_continues(
                    *final(self),
                    old(self).index + 1,
                    with_match(texts(old(self).uris@), candidates),
                    final(ledger)@,
                    r.action,
                )
                &&& first_match(candidates) is None ==> final(ledger)@.blacklist == old(ledger)@.blacklist.insert(searched)
                &&& first_match(candidates) is Some ==> final(ledger)@ == old(ledger)@
            },
            old(self).phase == Phase::Adding && event is Added ==> final(ledger)@ == old(ledger)@
                && r.action is Finish && final(self).outcome == Some(
                Outcome::Synced { intact: old(self).intact, added: old(self).uris.len() },
            ),
    {
        if self.phase == Phase::Done {
            return Step { write: None, action: Action::Finish };
        }
        match event {
            Event::Failed { reason } => self.stop(Outcome::Failed { reason }),
            Event::Waited => if self.phase == Phase::Waiting {
                self.on_waited()
            } else {
                self.stop(Outcome::OutOfOrder)
            },
            Event::Page { track_ids, next, remaining, requested } => if self.phase
                == Phase::Paging {
                self.on_page(track_ids, next, remaining, requested)
            } else {
                self.stop(Outcome::OutOfOrder)
            },
            Event::Details { isrcs } => if self.phase == Phase::Details {
                self.on_details(ledger, isrcs)
            } else {
                self.stop(Outcome::OutOfOrder)
            },
            Event::Created { dest_id } => if self.phase == Phase::Creating {
                self.on_created(ledger, dest_id)
            } else {
                self.stop(Outcome::OutOfOrder)
            },
            Event::Membership { isrcs } => if self.phase == Phase::Membership {
                self.on_membership(ledger, isrcs)
            } else {
                self.stop(Outcome::OutOfOrder)
            },
            Event::Searched { candidates } => if self.phase == Phase::Resolving {
                self.on_searched(ledger, candidates)
            } else {
                self.stop(Outcome::OutOfOrder)
            },
            Event::Added => if self.phase == Phase::Adding {
                self.on_added()
            } else {
                self.stop(Outcome::OutOfOrder)
            },
        }
    }
}

} // verus!
