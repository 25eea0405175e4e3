//! Properties that relate several parts of the library, proved.

use vstd::prelude::*;
use crate::diff::{absent_from, missing};
use crate::engine::{flatten, or_empty, pending, plan_for, saved_stamp, total_items, PlaylistSummary};
use crate::ratelimit::saturate;
use crate::ledger::{expected_members, not_listed, LedgerView, RecordView};
use crate::timestamp::{field_stamp, not_after, opt_text, SourcePlan, Stamp, Timestamp};

verus! {

/// The diff only ever asks for additions: a track is in the diff exactly
/// when it is expected and the destination lacks it. No track that the
/// destination holds, expected or not, is in it.
pub proof fn lemma_diff_is_additive(expected: Seq<Seq<char>>, actual: Seq<Seq<char>>)
    ensures
        forall|t: Seq<char>| #[trigger]
            missing(expected, actual).contains(t) <==> (expected.contains(t) && !actual.contains(
                t,
            )),
{
    assert forall|t: Seq<char>| #[trigger]
        missing(expected, actual).contains(t) <==> (expected.contains(t) && !actual.contains(
            t,
        )) by {
        let m = missing(expected, actual);
        if m.contains(t) {
            expected.lemma_filter_contains_rev(absent_from(actual), t);
            let k = choose|k: int| 0 <= k < m.len() && m[k] == t;
            expected.lemma_filter_pred(absent_from(actual), k);
        }
        if expected.contains(t) && !actual.contains(t) {
            let k = choose|k: int| 0 <= k < expected.len() && expected[k] == t;
            expected.lemma_filter_contains(absent_from(actual), k);
        }
    }
}

/// Pages are assembled completely: the assembled tracks of some pages and
/// one more page are those of the pages followed by that page's tracks,
/// and their number is the sum of the pages' track counts, each counted
/// once.
pub proof fn lemma_pages_assemble_completely(pages: Seq<Seq<Seq<char>>>, page: Seq<Seq<char>>)
    ensures
        flatten(pages).len() == total_items(pages),
        flatten(pages.push(page)) == flatten(pages) + page,
        total_items(pages.push(page)) == total_items(pages) + page.len(),
    decreases pages.len(),
{
    if pages.len() > 0 {
        lemma_pages_assemble_completely(pages.drop_last(), pages.last());
    }
    assert(pages.push(page).drop_last() =~= pages);
}

/// The watermark short-circuits a playlist whose ledger watermark is no
/// earlier than the source's modification time: its recorded tracks are
/// used, so no page of it is fetched.
pub proof fn lemma_watermark_short_circuit(
    l: LedgerView,
    source: PlaylistSummary,
    s: Timestamp,
    w: Timestamp,
)
    requires
        field_stamp(opt_text(source.last_updated)) == Stamp::At(s),
        saved_stamp(l, source.id@) == Stamp::At(w),
        not_after(s, w),
    ensures
        plan_for(l, source) == SourcePlan::Reuse,
{
}

/// Reconciling a playlist again, with its source unchanged since the ledger
/// recorded it and its mirror holding every expected track, creates no
/// playlist and adds no track: its recorded tracks are used, so the mirror
/// is not created again, and no track is left to search for or add.
pub proof fn lemma_rerun_is_idempotent(
    l: LedgerView,
    source: PlaylistSummary,
    dest: Seq<Seq<char>>,
)
    requires
        l.playlists.contains_key(source.id@),
        source.last_updated is Some,
        source.last_updated->0@ == l.playlists[source.id@].last_modified,
        field_stamp(opt_text(source.last_updated)) is At,
        forall|t: Seq<char>|
            #[trigger] expected_members(l.playlists[source.id@].tracks, l.blacklist).contains(t)
                ==> dest.contains(t),
    ensures
        plan_for(l, source) == SourcePlan::Reuse,
        pending(l, source.id@, dest).len() == 0,
{
    let s = field_stamp(opt_text(source.last_updated))->At_0;
    assert(saved_stamp(l, source.id@) == Stamp::At(s));
    lemma_nothing_pending(l, source.id@, dest);
}

/// A blacklisted identifier stays blacklisted in every later ledger whose
/// blacklist holds the earlier one (every ledger operation and every engine
/// step keeps it so), and is never among the tracks to search for.
pub proof fn lemma_blacklist_is_permanent(
    earlier: LedgerView,
    later: LedgerView,
    isrc: Seq<char>,
    id: Seq<char>,
    dest: Seq<Seq<char>>,
)
    requires
        earlier.blacklist.contains(isrc),
        earlier.blacklist.subset_of(later.blacklist),
    ensures
        later.blacklist.contains(isrc),
        !pending(later, id, dest).contains(isrc),
{
    let m = missing(later.playlists[id].tracks, dest);
    let p = pending(later, id, dest);
    if p.contains(isrc) {
        let k = choose|k: int| 0 <= k < p.len() && p[k] == isrc;
        m.lemma_filter_pred(not_listed(later.blacklist), k);
    }
}

/// Nothing is left to search for where the mirror holds every recorded
/// track of the playlist that is not blacklisted.
pub proof fn lemma_nothing_pending(l: LedgerView, id: Seq<char>, dest: Seq<Seq<char>>)
    requires
        l.playlists.contains_key(id),
        forall|t: Seq<char>|
            #[trigger] expected_members(l.playlists[id].tracks, l.blacklist).contains(t)
                ==> dest.contains(t),
    ensures
        pending(l, id, dest).len() == 0,
{
    let tracks = l.playlists[id].tracks;
    let m = missing(tracks, dest);
    assert forall|k: int| 0 <= k < m.len() implies !(#[trigger] not_listed(l.blacklist)(m[k])) by {
        let t = m[k];
        assert(m.contains(t));
        lemma_diff_is_additive(tracks, dest);
        if !l.blacklist.contains(t) {
            let j = choose|j: int| 0 <= j < tracks.len() && tracks[j] == t;
            tracks.lemma_filter_contains(not_listed(l.blacklist), j);
            assert(expected_members(tracks, l.blacklist).contains(t));
        }
    }
    m.lemma_all_neg_filter_empty(not_listed(l.blacklist));
}

/// Reconciling again a recorded playlist whose source gives no modification
/// time: its pages are fetched again, and the record is refreshed rather
/// than a mirror created. Where the pages give the recorded tracks and the
/// mirror holds every expected one, nothing is left to search for or add.
pub proof fn lemma_rerun_without_time_is_idempotent(
    l: LedgerView,
    source: PlaylistSummary,
    fetched: Seq<Seq<char>>,
    dest: Seq<Seq<char>>,
)
    requires
        l.playlists.contains_key(source.id@),
        source.last_updated is None,
        fetched == l.playlists[source.id@].tracks,
        forall|t: Seq<char>|
            #[trigger] expected_members(l.playlists[source.id@].tracks, l.blacklist).contains(t)
                ==> dest.contains(t),
    ensures
        plan_for(l, source) == SourcePlan::Refetch,
        ({
            let refreshed = LedgerView {
                playlists: l.playlists.insert(
                    source.id@,
                    RecordView {
                        name: source.name@,
                        last_modified: or_empty(source.last_updated),
                        tracks: fetched,
                        ..l.playlists[source.id@]
                    },
                ),
                blacklist: l.blacklist,
            };
            pending(refreshed, source.id@, dest).len() == 0
        }),
{
    let refreshed = LedgerView {
        playlists: l.playlists.insert(
            source.id@,
            RecordView {
                name: source.name@,
                last_modified: or_empty(source.last_updated),
                tracks: fetched,
                ..l.playlists[source.id@]
            },
        ),
        blacklist: l.blacklist,
    };
    assert(refreshed.playlists[source.id@].tracks == l.playlists[source.id@].tracks);
    lemma_nothing_pending(refreshed, source.id@, dest);
}

/// The estimate after `n` waits, each adding `rate` tokens.
pub open spec fn after_waits(remaining: i64, rate: i64, n: nat) -> i64
    decreases n,
{
    if n == 0 {
        remaining
    } else {
        saturate(after_waits(remaining, rate, (n - 1) as nat) + rate)
    }
}

/// Waiting on the rate limit ends: with a positive replenish rate, at most
/// `2 - remaining` waits leave more than one token, so the page is then
/// requested.
pub proof fn lemma_waiting_ends(remaining: i64, rate: i64)
    requires
        rate >= 1,
        remaining <= 1,
    ensures
        after_waits(remaining, rate, (2 - remaining) as nat) > 1,
{
    lemma_waits_progress(remaining, rate, (2 - remaining) as nat);
}

proof fn lemma_waits_progress(remaining: i64, rate: i64, n: nat)
    requires
        rate >= 1,
    ensures
        after_waits(remaining, rate, n) >= (if remaining + n > 2 {
            2
        } else {
            remaining + n
        }),
    decreases n,
{
    if n > 0 {
        lemma_waits_progress(remaining, rate, (n - 1) as nat);
    }
}

} // verus!
