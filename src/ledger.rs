//! The local ledger: which source playlists have been mirrored, where to,
//! with which member tracks, and which cross-catalog identifiers are known to
//! have no destination track.

use vstd::prelude::*;
use crate::diff::same_texts;

verus! {

/// The text of each string, in order.
pub open spec fn texts(v: Seq<String>) -> Seq<Seq<char>> {
    v.map_values(|s: String| s@)
}

/// Copies a list of strings.
pub fn copy_strings(v: &Vec<String>) -> (r: Vec<String>)
    ensures
        r@ == v@,
{
    let mut r: Vec<String> = Vec::new();
    let mut i: usize = 0;
    while i < v.len()
        invariant
            i <= v.len(),
            r@ == v@.subrange(0, i as int),
        decreases v.len() - i,
    {
        r.push(v[i].clone());
        i = i + 1;
        assert(r@ =~= v@.subrange(0, i as int));
    }
    assert(r@ =~= v@);
    r
}

/// What the ledger holds for one mirrored playlist.
pub struct RecordView {
    pub dest_id: Seq<char>,
    pub name: Seq<char>,
    pub last_modified: Seq<char>,
    pub tracks: Seq<Seq<char>>,
}

/// What the ledger holds: the mirrored playlists by source identifier, and
/// the identifiers that cannot be resolved.
pub struct LedgerView {
    pub playlists: Map<Seq<char>, RecordView>,
    pub blacklist: Set<Seq<char>>,
}

/// The tracks of a playlist that are expected at the destination: those of
/// the ledger's track list that are not blacklisted, in order.
pub open spec fn expected_members(tracks: Seq<Seq<char>>, blacklist: Set<Seq<char>>) -> Seq<
    Seq<char>,
> {
    tracks.filter(not_listed(blacklist))
}

/// Holds of the texts that `blacklist` does not contain.
pub open spec fn not_listed(blacklist: Set<Seq<char>>) -> spec_fn(Seq<char>) -> bool {
    |t: Seq<char>| !blacklist.contains(t)
}

/// A ledger operation that could not be carried out.
#[derive(Debug, Clone, Copy, PartialEq, Eq, Structural)]
pub enum LedgerError {
    /// A playlist with this source identifier is recorded already.
    DuplicatePlaylist,
    /// No playlist with this source identifier is recorded.
    UnknownPlaylist,
}

/// One mirrored playlist.
pub struct PlaylistRecord {
    pub source_id: String,
    pub dest_id: String,
    pub name: String,
    pub last_modified: String,
    pub tracks: Vec<String>,
}

impl PlaylistRecord {
    pub open spec fn view(&self) -> RecordView {
        RecordView {
            dest_id: self.dest_id@,
            name: self.name@,
            last_modified: self.last_modified@,
            tracks: texts(self.tracks@),
        }
    }
}

/// The ledger, held in memory. Each source identifier has at most one
/// record, and each blacklisted identifier is listed once.
pub struct Ledger {
    records: Vec<PlaylistRecord>,
    blacklist: Vec<String>,
}

impl Ledger {
    pub closed spec fn wf(&self) -> bool {
        &&& forall|i: int, j: int|
            0 <= i < self.records.len() && 0 <= j < self.records.len() && i != j
                ==> #[trigger] self.records@[i].source_id@ != #[trigger] self.records@[j].source_id@
        &&& forall|i: int, j: int|
            0 <= i < self.blacklist.len() && 0 <= j < self.blacklist.len() && i != j
                ==> #[trigger] self.blacklist@[i]@ != #[trigger] self.blacklist@[j]@
    }

    closed spec fn holds(&self, k: Seq<char>) -> bool {
        exists|i: int| 0 <= i < self.records.len() && #[trigger] self.records@[i].source_id@ == k
    }

    closed spec fn index_of(&self, k: Seq<char>) -> int {
        choose|i: int| 0 <= i < self.records.len() && #[trigger] self.records@[i].source_id@ == k
    }

    pub closed spec fn view(&self) -> LedgerView {
        LedgerView {
            playlists: Map::new(
                |k: Seq<char>| self.holds(k),
                |k: Seq<char>| self.records@[self.index_of(k)].view(),
            ),
            blacklist: Set::new(
                |k: Seq<char>|
                    exists|i: int| 0 <= i < self.blacklist.len() && #[trigger] self.blacklist@[i]@ == k,
            ),
        }
    }

    proof fn lemma_record_at(&self, i: int)
        requires
            self.wf(),
            0 <= i < self.records.len(),
        ensures
            self@.playlists.contains_key(self.records@[i].source_id@),
            self@.playlists[self.records@[i].source_id@] == self.records@[i].view(),
    {
        let k = self.records@[i].source_id@;
        assert(self.holds(k));
        let j = self.index_of(k);
        assert(self.records@[j].source_id@ == k);
    }

    /// Changing one record, but not its source identifier, changes the view
    /// at that identifier only.
    proof fn lemma_replaced(before: &Ledger, after: &Ledger, i: int)
        requires
            before.wf(),
            0 <= i < before.records.len(),
            after.records.len() == before.records.len(),
            forall|j: int| 0 <= j < before.records.len() && j != i ==> after.records@[j] == before.records@[j],
            after.records@[i].source_id@ == before.records@[i].source_id@,
            after.blacklist@ == before.blacklist@,
        ensures
            after.wf(),
            after@.playlists == before@.playlists.insert(
                before.records@[i].source_id@,
                after.records@[i].view(),
            ),
            after@.blacklist == before@.blacklist,
    {
        let k = before.records@[i].source_id@;
        assert forall|a: int, b: int|
            0 <= a < after.records.len() && 0 <= b < after.records.len() && a != b
                implies #[trigger] after.records@[a].source_id@ != #[trigger] after.records@[b].source_id@ by {
            assert(before.records@[a].source_id@ != before.records@[b].source_id@);
        }
        assert forall|k2: Seq<char>| #[trigger] after.holds(k2) == before.holds(k2) by {
            if after.holds(k2) {
                let j = choose|j: int| 0 <= j < after.records.len() && #[trigger] after.records@[j].source_id@ == k2;
                assert(before.records@[j].source_id@ == k2);
            }
            if before.holds(k2) {
                let j = choose|j: int| 0 <= j < before.records.len() && #[trigger] before.records@[j].source_id@ == k2;
                assert(after.records@[j].source_id@ == k2);
            }
        }
        assert forall|k2: Seq<char>| after.holds(k2) implies #[trigger] after@.playlists[k2] == before@.playlists.insert(
            k,
            after.records@[i].view(),
        )[k2] by {
            let ja = after.index_of(k2);
            let jb = before.index_of(k2);
            assert(after.records@[ja].source_id@ == k2);
            assert(before.records@[jb].source_id@ == k2);
            if k2 == k {
                assert(after.records@[i].source_id@ == k2);
            } else {
                assert(after.records@[jb].source_id@ == k2);
            }
        }
        assert(after@.playlists =~= before@.playlists.insert(k, after.records@[i].view()));
        assert(after@.blacklist =~= before@.blacklist);
    }

    /// Appending a record with a new source identifier adds it to the view.
    proof fn lemma_pushed(before: &Ledger, after: &Ledger)
        requires
            before.wf(),
            after.records.len() == before.records.len() + 1,
            forall|j: int| 0 <= j < before.records.len() ==> after.records@[j] == before.records@[j],
            !before@.playlists.contains_key(after.records@[before.records.len() as int].source_id@),
            after.blacklist@ == before.blacklist@,
        ensures
            after.wf(),
            after@.playlists == before@.playlists.insert(
                after.records@[before.records.len() as int].source_id@,
                after.records@[before.records.len() as int].view(),
            ),
            after@.blacklist == before@.blacklist,
    {
        let n = before.records.len() as int;
        let k = after.records@[n].source_id@;
        assert forall|a: int, b: int|
            0 <= a < after.records.len() && 0 <= b < after.records.len() && a != b
                implies #[trigger] after.records@[a].source_id@ != #[trigger] after.records@[b].source_id@ by {
            if a < n && b < n {
                assert(before.records@[a].source_id@ != before.records@[b].source_id@);
            } else if a < n {
                assert(before.records@[a].source_id@ == after.records@[a].source_id@);
                assert(!before.holds(k));
            } else {
                assert(before.records@[b].source_id@ == after.records@[b].source_id@);
                assert(!before.holds(k));
            }
        }
        assert forall|k2: Seq<char>| #[trigger] after.holds(k2) == (before.holds(k2) || k2 == k) by {
            if after.holds(k2) {
                let j = choose|j: int| 0 <= j < after.records.len() && #[trigger] after.records@[j].source_id@ == k2;
                if j < n {
                    assert(before.records@[j].source_id@ == k2);
                }
            }
            if before.holds(k2) {
                let j = choose|j: int| 0 <= j < before.records.len() && #[trigger] before.records@[j].source_id@ == k2;
                assert(after.records@[j].source_id@ == k2);
            }
            if k2 == k {
                assert(after.records@[n].source_id@ == k2);
            }
        }
        assert forall|k2: Seq<char>| after.holds(k2) implies #[trigger] after@.playlists[k2] == before@.playlists.insert(
            k,
            after.records@[n].view(),
        )[k2] by {
            let ja = after.index_of(k2);
            assert(after.records@[ja].source_id@ == k2);
            if k2 == k {
                assert(after.records@[n].source_id@ == k2);
            } else {
                let jb = before.index_of(k2);
                assert(before.records@[jb].source_id@ == k2);
                assert(after.records@[jb].source_id@ == k2);
            }
        }
        assert(after@.playlists =~= before@.playlists.insert(k, after.records@[n].view()));
        assert(after@.blacklist =~= before@.blacklist);
    }

    /// An empty ledger.
    pub fn new() -> (r: Ledger)
        ensures
            r.wf(),
            r@.playlists == Map::<Seq<char>, RecordView>::empty(),
            r@.blacklist == Set::<Seq<char>>::empty(),
    {
        let r = Ledger { records: Vec::new(), blacklist: Vec::new() };
        assert(r@.playlists =~= Map::<Seq<char>, RecordView>::empty());
        assert(r@.blacklist =~= Set::<Seq<char>>::empty());
        r
    }

    /// The position of the record of `source_id`, if there is one.
    fn find(&self, source_id: &String) -> (r: Option<usize>)
        requires
            self.wf(),
        ensures
            match r {
                Some(i) => i < self.records.len() && self.records@[i as int].source_id@
                    == source_id@ && self@.playlists.contains_key(source_id@)
                    && self@.playlists[source_id@] == self.records@[i as int].view(),
                None => !self@.playlists.contains_key(source_id@),
            },
    {
        let mut i: usize = 0;
        while i < self.records.len()
            invariant
                self.wf(),
                i <= self.records.len(),
                forall|j: int| 0 <= j < i ==> #[trigger] self.records@[j].source_id@ != source_id@,
            decreases self.records.len() - i,
        {
            if self.records[i].source_id == *source_id {
                proof {
                    self.lemma_record_at(i as int);
                }
                return Some(i);
            }
            i = i + 1;
        }
        None
    }

    /// Whether a playlist with this source identifier is recorded.
    pub fn playlist_exists(&self, source_id: &str) -> (r: bool)
        requires
            self.wf(),
        ensures
            r == self@.playlists.contains_key(source_id@),
    {
        let key = source_id.to_owned();
        self.find(&key).is_some()
    }

    /// The destination identifier recorded for a source playlist.
    pub fn get_spotify_playlist_id(&self, source_id: &str) -> (r: Option<String>)
        requires
            self.wf(),
        ensures
            match r {
                Some(d) => self@.playlists.contains_key(source_id@)
                    && d@ == self@.playlists[source_id@].dest_id,
                None => !self@.playlists.contains_key(source_id@),
            },
    {
        let key = source_id.to_owned();
        match self.find(&key) {
            Some(i) => Some(self.records[i].dest_id.clone()),
            None => None,
        }
    }

    /// The modification time recorded for a source playlist at its last sync.
    pub fn get_playlist_last_modified(&self, source_id: &str) -> (r: Option<String>)
        requires
            self.wf(),
        ensures
            match r {
                Some(t) => self@.playlists.contains_key(source_id@)
                    && t@ == self@.playlists[source_id@].last_modified,
                None => !self@.playlists.contains_key(source_id@),
            },
    {
        let key = source_id.to_owned();
        match self.find(&key) {
            Some(i) => Some(self.records[i].last_modified.clone()),
            None => None,
        }
    }

    /// The member tracks recorded for a source playlist, in the order they
    /// were recorded.
    pub fn get_tracks(&self, source_id: &str) -> (r: Option<Vec<String>>)
        requires
            self.wf(),
        ensures
            match r {
                Some(t) => self@.playlists.contains_key(source_id@)
                    && texts(t@) == self@.playlists[source_id@].tracks,
                None => !self@.playlists.contains_key(source_id@),
            },
    {
        let key = source_id.to_owned();
        match self.find(&key) {
            Some(i) => Some(copy_strings(&self.records[i].tracks)),
            None => None,
        }
    }

    /// Whether an identifier is blacklisted.
    pub fn is_blacklisted(&self, isrc: &str) -> (r: bool)
        requires
            self.wf(),
        ensures
            r == self@.blacklist.contains(isrc@),
    {
        let key = isrc.to_owned();
        let mut i: usize = 0;
        while i < self.blacklist.len()
            invariant
                i <= self.blacklist.len(),
                key@ == isrc@,
                forall|j: int| 0 <= j < i ==> #[trigger] self.blacklist@[j]@ != key@,
            decreases self.blacklist.len() - i,
        {
            if self.blacklist[i] == key {
                assert(self.blacklist@[i as int]@ == isrc@);
                return true;
            }
            i = i + 1;
        }
        false
    }

    /// Blacklists an identifier; one that is blacklisted already stays so,
    /// listed once.
    pub fn insert_blacklist(&mut self, isrc: &str)
        requires
            old(self).wf(),
        ensures
            final(self).wf(),
            final(self)@.playlists == old(self)@.playlists,
            final(self)@.blacklist == old(self)@.blacklist.insert(isrc@),
    {
        if self.is_blacklisted(isrc) {
            assert(self@.blacklist =~= old(self)@.blacklist.insert(isrc@));
            return;
        }
        let ghost before = *self;
        self.blacklist.push(isrc.to_owned());
        assert(self.records@ == before.records@);
        assert(self@.playlists =~= before@.playlists);
        assert forall|k: Seq<char>| #[trigger] self@.blacklist.contains(k) == before@.blacklist.insert(
            isrc@,
        ).contains(k) by {
            if before@.blacklist.contains(k) {
                let i = choose|i: int|
                    0 <= i < before.blacklist.len() && #[trigger] before.blacklist@[i]@ == k;
                assert(self.blacklist@[i] == before.blacklist@[i]);
            }
            if k == isrc@ {
                assert(self.blacklist@[before.blacklist.len() as int]@ == k);
            }
            if self@.blacklist.contains(k) {
                let i = choose|i: int|
                    0 <= i < self.blacklist.len() && #[trigger] self.blacklist@[i]@ == k;
                if i < before.blacklist.len() {
                    assert(before.blacklist@[i] == self.blacklist@[i]);
                }
            }
        }
        assert(self@.blacklist =~= before@.blacklist.insert(isrc@));
    }

    /// Records a newly mirrored playlist, with no member tracks yet.
    pub fn insert_playlist(
        &mut self,
        source_id: &str,
        dest_id: &str,
        name: &str,
        last_modified: &str,
    ) -> (r: Result<(), LedgerError>)
        requires
            old(self).wf(),
        ensures
            final(self).wf(),
            final(self)@.blacklist == old(self)@.blacklist,
            old(self)@.playlists.contains_key(source_id@) ==> r == Err::<(), LedgerError>(
                LedgerError::DuplicatePlaylist,
            ) && final(self)@ == old(self)@,
            !old(self)@.playlists.contains_key(source_id@) ==> r is Ok && final(self)@.playlists
                == old(self)@.playlists.insert(
                source_id@,
                RecordView {
                    dest_id: dest_id@,
                    name: name@,
                    last_modified: last_modified@,
                    tracks: Seq::empty(),
                },
            ),
    {
        if self.playlist_exists(source_id) {
            return Err(LedgerError::DuplicatePlaylist);
        }
        let ghost before = *self;
        let record = PlaylistRecord {
            source_id: source_id.to_owned(),
            dest_id: dest_id.to_owned(),
            name: name.to_owned(),
            last_modified: last_modified.to_owned(),
            tracks: Vec::new(),
        };
        self.records.push(record);
        proof {
            Ledger::lemma_pushed(&before, self);
            assert(texts(Seq::<String>::empty()) =~= Seq::empty());
        }
        Ok(())
    }

    /// Replaces the member tracks of a recorded playlist.
    pub fn replace_tracks(&mut self, source_id: &str, tracks: Vec<String>) -> (r: Result<
        (),
        LedgerError,
    >)
        requires
            old(self).wf(),
        ensures
            final(self).wf(),
            final(self)@.blacklist == old(self)@.blacklist,
            !old(self)@.playlists.contains_key(source_id@) ==> r == Err::<(), LedgerError>(
                LedgerError::UnknownPlaylist,
            ) && final(self)@ == old(self)@,
            old(self)@.playlists.contains_key(source_id@) ==> r is Ok && final(self)@.playlists
                == old(self)@.playlists.insert(
                source_id@,
                RecordView { tracks: texts(tracks@), ..old(self)@.playlists[source_id@] },
            ),
    {
        let key = source_id.to_owned();
        match self.find(&key) {
            None => Err(LedgerError::UnknownPlaylist),
            Some(i) => {
                let ghost before = *self;
                self.records[i].tracks = tracks;
                proof {
                    Ledger::lemma_replaced(&before, self, i as int);
                }
                Ok(())
            },
        }
    }

    /// Appends one member track to a recorded playlist.
    pub fn insert_track(&mut self, source_id: &str, isrc: &str) -> (r: Result<(), LedgerError>)
        requires
            old(self).wf(),
        ensures
            final(self).wf(),
            final(self)@.blacklist == old(self)@.blacklist,
            !old(self)@.playlists.contains_key(source_id@) ==> r == Err::<(), LedgerError>(
                LedgerError::UnknownPlaylist,
            ) && final(self)@ == old(self)@,
            old(self)@.playlists.contains_key(source_id@) ==> r is Ok && final(self)@.playlists
                == old(self)@.playlists.insert(
                source_id@,
                RecordView {
                    tracks: old(self)@.playlists[source_id@].tracks.push(isrc@),
                    ..old(self)@.playlists[source_id@]
                },
            ),
    {
        let key = source_id.to_owned();
        match self.find(&key) {
            None => Err(LedgerError::UnknownPlaylist),
            Some(i) => {
                let ghost before = *self;
                self.records[i].tracks.push(isrc.to_owned());
                proof {
                    Ledger::lemma_replaced(&before, self, i as int);
                    assert(texts(self.records@[i as int].tracks@) =~= texts(
                        before.records@[i as int].tracks@,
                    ).push(isrc@));
                }
                Ok(())
            },
        }
    }

    /// Records a later sync of a playlist: its current name and modification
    /// time. The destination identifier and the member tracks stay.
    pub fn update_playlist(&mut self, source_id: &str, name: &str, last_modified: &str) -> (r:
        Result<(), LedgerError>)
        requires
            old(self).wf(),
        ensures
            final(self).wf(),
            final(self)@.blacklist == old(self)@.blacklist,
            !old(self)@.playlists.contains_key(source_id@) ==> r == Err::<(), LedgerError>(
                LedgerError::UnknownPlaylist,
            ) && final(self)@ == old(self)@,
            old(self)@.playlists.contains_key(source_id@) ==> r is Ok && final(self)@.playlists
                == old(self)@.playlists.insert(
                source_id@,
                RecordView {
                    name: name@,
                    last_modified: last_modified@,
                    ..old(self)@.playlists[source_id@]
                },
            ),
    {
        let key = source_id.to_owned();
        match self.find(&key) {
            None => Err(LedgerError::UnknownPlaylist),
            Some(i) => {
                let ghost before = *self;
                self.records[i].name = name.to_owned();
                self.records[i].last_modified = last_modified.to_owned();
                proof {
                    Ledger::lemma_replaced(&before, self, i as int);
                }
                Ok(())
            },
        }
    }

    /// The recorded tracks of a playlist that are not blacklisted, in order.
    pub fn expected_tracks(&self, source_id: &str) -> (r: Option<Vec<String>>)
        requires
            self.wf(),
        ensures
            match r {
                Some(t) => self@.playlists.contains_key(source_id@) && texts(t@)
                    == expected_members(self@.playlists[source_id@].tracks, self@.blacklist),
                None => !self@.playlists.contains_key(source_id@),
            },
    {
        let tracks = match self.get_tracks(source_id) {
            Some(t) => t,
            None => return None,
        };
        let ghost e = texts(tracks@);
        let ghost bl = self@.blacklist;
        let mut r: Vec<String> = Vec::new();
        let mut i: usize = 0;
        assert(e.subrange(0, 0).filter(not_listed(bl)) =~= Seq::empty()) by {
            reveal(Seq::filter);
        }
        while i < tracks.len()
            invariant
                self.wf(),
                i <= tracks.len(),
                e == texts(tracks@),
                bl == self@.blacklist,
                texts(r@) == e.subrange(0, i as int).filter(not_listed(bl)),
            decreases tracks.len() - i,
        {
            let ghost before = r@;
            assert(e.subrange(0, i + 1) =~= e.subrange(0, i as int).push(e[i as int]));
            proof {
                e.subrange(0, i as int).lemma_filter_push(e[i as int], not_listed(bl));
            }
            if !self.is_blacklisted(tracks[i].as_str()) {
                r.push(tracks[i].clone());
                assert(texts(r@) =~= texts(before).push(e[i as int]));
            } else {
                assert(texts(r@) =~= texts(before));
            }
            i = i + 1;
        }
        assert(e.subrange(0, tracks.len() as int) =~= e);
        Some(r)
    }

    /// Whether the destination's members, in order, are exactly the
    /// recorded tracks of the playlist that are not blacklisted.
    pub fn check_playlist_integrity(&self, source_id: &str, destination: &Vec<String>) -> (r:
        Result<bool, LedgerError>)
        requires
            self.wf(),
        ensures
            !self@.playlists.contains_key(source_id@) ==> r == Err::<bool, LedgerError>(
                LedgerError::UnknownPlaylist,
            ),
            self@.playlists.contains_key(source_id@) ==> r == Ok::<bool, LedgerError>(
                expected_members(self@.playlists[source_id@].tracks, self@.blacklist) == texts(
                    destination@,
                ),
            ),
    {
        match self.expected_tracks(source_id) {
            Some(expected) => Ok(same_texts(&expected, destination)),
            None => Err(LedgerError::UnknownPlaylist),
        }
    }
}

} // verus!
