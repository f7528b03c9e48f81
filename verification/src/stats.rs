//! Daily aggregation of closed sessions.
//!
//! A `TimeEntry` is the immutable snapshot of a closed `FileSession`; a
//! `DailyStats` folds entries into per-language, per-project and per-file
//! totals for one calendar date, keeping the overall total equal to the
//! sum of the per-language (and per-file) values at all times.

use vstd::prelude::*;

use crate::duration_map::{bumped, DurationMap};

verus! {

/// Immutable closed-session record, ready for aggregation.  Its duration
/// is the sum of the session's active segments, never the wall-clock span.
#[derive(Clone, Debug)]
pub struct TimeEntry {
    pub path: String,
    pub language: String,
    pub project: Option<String>,
    pub duration: u64,
    pub start_time: u64,
    pub end_time: u64,
}

/// Append-only per-day totals, keyed by language, project and file.
#[derive(Debug)]
pub struct DailyStats {
    /// Calendar date tag, `YYYY-MM-DD`.
    pub date: String,
    pub total_time: u64,
    pub entries_by_lang: DurationMap,
    pub entries_by_project: DurationMap,
    pub entries_by_file: DurationMap,
}

impl DailyStats {
    /// Invariant: the overall total equals the sum of the per-language
    /// values (every entry is counted there exactly once), likewise for
    /// the per-file values; entries without a project are omitted from the
    /// per-project totals, whose sum therefore never exceeds the overall
    /// total.
    pub open spec fn wf(&self) -> bool {
        &&& self.entries_by_lang.wf()
        &&& self.entries_by_project.wf()
        &&& self.entries_by_file.wf()
        &&& self.total_time == self.entries_by_lang.total()
        &&& self.total_time == self.entries_by_file.total()
        &&& self.entries_by_project.total() <= self.total_time
    }

    pub fn new(date: String) -> (r: DailyStats)
        ensures
            r.wf(),
            r.date == date,
            r.total_time == 0,
            r.entries_by_lang@ == Map::<Seq<char>, u64>::empty(),
            r.entries_by_project@ == Map::<Seq<char>, u64>::empty(),
            r.entries_by_file@ == Map::<Seq<char>, u64>::empty(),
    {
        DailyStats {
            date,
            total_time: 0,
            entries_by_lang: DurationMap::new(),
            entries_by_project: DurationMap::new(),
            entries_by_file: DurationMap::new(),
        }
    }

    /// Fold one closed entry into the totals: the overall total and the
    /// entry's language, file and (when present) project keys each grow by
    /// exactly the entry's duration.  Applying the same entry twice
    /// double-counts; callers apply each entry exactly once.
    pub fn add_entry(&mut self, entry: &TimeEntry)
        requires
            old(self).wf(),
            old(self).total_time + entry.duration <= u64::MAX,
        ensures
            final(self).wf(),
            final(self).date == old(self).date,
            final(self).total_time == old(self).total_time + entry.duration,
            final(self).entries_by_lang@
                == bumped(old(self).entries_by_lang@, entry.language@, entry.duration),
            final(self).entries_by_file@
                == bumped(old(self).entries_by_file@, entry.path@, entry.duration),
            match entry.project {
                Some(p) => final(self).entries_by_project@
                    == bumped(old(self).entries_by_project@, p@, entry.duration),
                None => final(self).entries_by_project@ == old(self).entries_by_project@,
            },
    {
        proof {
            if self.entries_by_lang@.contains_key(entry.language@) {
                self.entries_by_lang.lemma_value_le_total(entry.language@);
            }
            if self.entries_by_file@.contains_key(entry.path@) {
                self.entries_by_file.lemma_value_le_total(entry.path@);
            }
            if entry.project is Some {
                let pv = entry.project->Some_0@;
                if self.entries_by_project@.contains_key(pv) {
                    self.entries_by_project.lemma_value_le_total(pv);
                }
            }
        }
        self.total_time = self.total_time + entry.duration;
        self.entries_by_lang.add_to(&entry.language, entry.duration);
        self.entries_by_file.add_to(&entry.path, entry.duration);
        if let Some(project) = &entry.project {
            self.entries_by_project.add_to(project, entry.duration);
        }
    }
}

} // verus!
