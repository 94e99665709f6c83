use vstd::prelude::*;
use std::collections::HashMap;
use crate::track::Track;

verus! {

broadcast use vstd::std_specs::hash::group_hash_axioms;

/// Where one track of a batch stands.
#[derive(Debug, Clone, PartialEq)]
pub enum TrackStatus {
    Pending,
    Processing,
    Completed { success: bool, summary: String },
}

/// Progress of a batch of tracks being processed, as shown in the UI.
#[derive(Debug, Clone, PartialEq)]
pub struct TrackProgressState {
    pub tracks: Vec<Track>,
    pub track_statuses: HashMap<usize, TrackStatus>,
    pub current_processing_index: Option<usize>,
    pub processing_type: String,
    pub is_visible: bool,
    pub auto_scroll: bool,
}

/// The mathematical model of a progress state.
pub struct ProgressView {
    pub tracks: Seq<Track>,
    pub statuses: Map<usize, TrackStatus>,
    pub current: Option<usize>,
    pub processing_type: Seq<char>,
    pub is_visible: bool,
    pub auto_scroll: bool,
}

impl View for TrackProgressState {
    type V = ProgressView;

    open spec fn view(&self) -> ProgressView {
        ProgressView {
            tracks: self.tracks@,
            statuses: self.track_statuses@,
            current: self.current_processing_index,
            processing_type: self.processing_type@,
            is_visible: self.is_visible,
            auto_scroll: self.auto_scroll,
        }
    }
}

/// A track still waits when it has no status yet or is marked pending.
pub open spec fn waiting(m: Map<usize, TrackStatus>, i: int) -> bool {
    !m.contains_key(i as usize) || m[i as usize] is Pending
}

/// The first waiting index in `from..len`, if any.
pub open spec fn first_waiting(m: Map<usize, TrackStatus>, from: int, len: int) -> Option<usize>
    decreases len - from,
{
    if from >= len {
        None
    } else if waiting(m, from) {
        Some(from as usize)
    } else {
        first_waiting(m, from + 1, len)
    }
}

/// Statuses of a freshly started batch of `n` tracks: every one pending.
pub open spec fn all_pending(n: int) -> Map<usize, TrackStatus> {
    Map::new(|i: usize| 0 <= i < n, |i: usize| TrackStatus::Pending)
}

/// The state after a new batch starts.
pub open spec fn spec_start_batch(s: ProgressView, tracks: Seq<Track>, processing_type: Seq<char>) -> ProgressView {
    ProgressView {
        tracks: tracks,
        statuses: all_pending(tracks.len() as int),
        current: None,
        processing_type: processing_type,
        is_visible: true,
        auto_scroll: s.auto_scroll,
    }
}

/// The state after processing of one track starts.
pub open spec fn spec_start_track(s: ProgressView, i: usize) -> ProgressView {
    ProgressView {
        statuses: s.statuses.insert(i, TrackStatus::Processing),
        current: Some(i),
        ..s
    }
}

/// The state after processing of one track completes.
pub open spec fn spec_complete_track(s: ProgressView, i: usize, success: bool, summary: String) -> ProgressView {
    let statuses = s.statuses.insert(i, TrackStatus::Completed { success, summary });
    ProgressView {
        statuses: statuses,
        current: if s.current == Some(i) {
            first_waiting(statuses, i + 1, s.tracks.len() as int)
        } else {
            s.current
        },
        ..s
    }
}

/// What `first_waiting` finds: the least waiting index in range, or none there.
pub proof fn lemma_first_waiting(m: Map<usize, TrackStatus>, from: int, len: int)
    requires
        0 <= from,
        len <= usize::MAX + 1,
    ensures
        match first_waiting(m, from, len) {
            Some(n) => from <= n < len && waiting(m, n as int) && forall|j: int|
                from <= j < n ==> !waiting(m, j),
            None => forall|j: int| from <= j < len ==> !waiting(m, j),
        },
    decreases len - from,
{
    if from < len && !waiting(m, from) {
        lemma_first_waiting(m, from + 1, len);
    }
}

impl Default for TrackProgressState {
    /// An empty, hidden progress state that scrolls automatically.
    fn default() -> (r: TrackProgressState)
        ensures
            r@.tracks.len() == 0,
            r@.statuses == Map::<usize, TrackStatus>::empty(),
            r@.current is None,
            r@.processing_type.len() == 0,
            !r@.is_visible,
            r@.auto_scroll,
    {
        TrackProgressState {
            tracks: Vec::new(),
            track_statuses: HashMap::new(),
            current_processing_index: None,
            processing_type: String::new(),
            is_visible: false,
            auto_scroll: true,
        }
    }
}

impl TrackProgressState {
    /// Starts a new batch: every track is pending and nothing is being processed yet.
    pub fn start_batch(&mut self, tracks: Vec<Track>, processing_type: String)
        ensures
            final(self)@ == spec_start_batch(old(self)@, tracks@, processing_type@),
    {
        let ghost new_tracks = tracks@;
        let ghost new_type = processing_type@;
        self.tracks = tracks;
        self.processing_type = processing_type;
        self.track_statuses.clear();
        self.current_processing_index = None;
        self.is_visible = true;
        let n = self.tracks.len();
        let mut i: usize = 0;
        while i < n
            invariant
                n == self.tracks.len(),
                i <= n,
                self.track_statuses@ == all_pending(i as int),
                self.tracks@ == new_tracks,
                self.processing_type@ == new_type,
                self.current_processing_index is None,
                self.is_visible,
                self.auto_scroll == old(self).auto_scroll,
            decreases n - i,
        {
            self.track_statuses.insert(i, TrackStatus::Pending);
            proof {
                assert(self.track_statuses@ =~= all_pending(i + 1));
            }
            i = i + 1;
        }
        proof {
            assert(self.track_statuses@ =~= all_pending(n as int));
        }
    }

    /// Marks one track as being processed and makes it the current one.
    pub fn start_track_processing(&mut self, track_index: usize)
        ensures
            final(self)@ == spec_start_track(old(self)@, track_index),
    {
        self.current_processing_index = Some(track_index);
        self.track_statuses.insert(track_index, TrackStatus::Processing);
    }

    /// Records the outcome of one track; when it was the current one, the current index moves
    /// to the next waiting track after it, or to none.
    pub fn complete_track_processing(&mut self, track_index: usize, success: bool, summary: String)
        requires
            old(self).current_processing_index == Some(track_index) ==> track_index < usize::MAX,
        ensures
            final(self)@ == spec_complete_track(old(self)@, track_index, success, summary),
    {
        self.track_statuses.insert(track_index, TrackStatus::Completed { success, summary });
        if self.current_processing_index == Some(track_index) {
            let len = self.tracks.len();
            let mut i: usize = track_index + 1;
            let mut next: Option<usize> = None;
            let ghost m = self.track_statuses@;
            while i < len
                invariant_except_break
                    len == self.tracks.len(),
                    m == self.track_statuses@,
                    track_index + 1 <= i,
                    next is None,
                    first_waiting(m, track_index + 1, len as int) == first_waiting(m, i as int, len as int),
                ensures
                    next == first_waiting(m, track_index + 1, len as int),
                decreases len - i,
            {
                let is_waiting = match self.track_statuses.get(&i) {
                    None => true,
                    Some(TrackStatus::Pending) => true,
                    Some(_) => false,
                };
                if is_waiting {
                    next = Some(i);
                    break;
                }
                i = i + 1;
            }
            self.current_processing_index = next;
        }
    }
}

} // verus!
