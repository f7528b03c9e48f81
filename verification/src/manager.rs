//! Session registry: owns the live per-file sessions and applies the merge
//! policy between debounced file events and activity events.
//!
//! A qualifying file event creates or resumes the session for its path (or
//! merely heartbeats an active one); detected idleness pauses every active
//! session; global activity resumption alone resumes nothing — only a new
//! event for a file proves continued work on it.  Closing a session folds
//! its running segment and emits an immutable `TimeEntry`.

use vstd::prelude::*;

use crate::file_session::FileSession;
use crate::stats::TimeEntry;

verus! {

/// Some live session carries this path.
pub open spec fn spec_has_path(s: Seq<FileSession>, p: Seq<char>) -> bool {
    exists|i: int| 0 <= i < s.len() && (#[trigger] s[i]).path@ == p
}

/// The immutable snapshot a session yields when closed at instant `now`.
pub open spec fn spec_close_entry(fs: FileSession, now: u64) -> TimeEntry {
    TimeEntry {
        path: fs.path,
        language: fs.language,
        project: fs.project,
        duration: fs.spec_paused(now).total_duration,
        start_time: fs.start_time,
        end_time: now,
    }
}

/// The set of live sessions, at most one per path.
pub struct SessionRegistry {
    sessions: Vec<FileSession>,
}

impl SessionRegistry {
    pub closed spec fn sessions_view(&self) -> Seq<FileSession> {
        self.sessions@
    }

    /// Well-formed: paths are unique and every session satisfies its own
    /// invariant.
    pub open spec fn wf(&self) -> bool {
        &&& forall|i: int, j: int|
            0 <= i < j < self.sessions_view().len()
                ==> (#[trigger] self.sessions_view()[i]).path@
                    != (#[trigger] self.sessions_view()[j]).path@
        &&& forall|i: int|
            0 <= i < self.sessions_view().len() ==> (#[trigger] self.sessions_view()[i]).wf()
    }

    /// No session has seen an instant after `now`; holds whenever the
    /// clock handed in is monotone.
    pub open spec fn ready_at(&self, now: u64) -> bool {
        forall|i: int|
            0 <= i < self.sessions_view().len()
                ==> (#[trigger] self.sessions_view()[i]).last_activity <= now
    }

    pub fn new() -> (r: SessionRegistry)
        ensures
            r.wf(),
            r.sessions_view() == Seq::<FileSession>::empty(),
    {
        SessionRegistry { sessions: Vec::new() }
    }

    fn find_index(&self, path: &String) -> (r: Option<usize>)
        ensures
            match r {
                Some(i) => i < self.sessions_view().len()
                    && self.sessions_view()[i as int].path@ == path@,
                None => !spec_has_path(self.sessions_view(), path@),
            },
    {
        let mut i: usize = 0;
        while i < self.sessions.len()
            invariant
                i <= self.sessions@.len(),
                forall|j: int| 0 <= j < i ==> (#[trigger] self.sessions@[j]).path@ != path@,
            decreases self.sessions@.len() - i,
        {
            if self.sessions[i].path == *path {
                return Some(i);
            }
            i += 1;
        }
        None
    }

    /// A debounced, non-ignored modification of `path` at instant `now`:
    /// create the session when none exists, resume it when paused, and
    /// merely heartbeat it when already active.
    pub fn on_file_event(&mut self, path: String, language: String, project: Option<String>, now: u64)
        requires
            old(self).wf(),
            old(self).ready_at(now),
        ensures
            final(self).wf(),
            final(self).ready_at(now),
            ({
                let s = old(self).sessions_view();
                let t = final(self).sessions_view();
                if spec_has_path(s, path@) {
                    exists|i: int|
                        0 <= i < s.len() && (#[trigger] s[i]).path@ == path@
                            && t == s.update(i, if s[i].is_active {
                                s[i].spec_touched(now)
                            } else {
                                s[i].spec_resumed(now)
                            })
                } else {
                    t == s.push(FileSession::spec_new(path, language, project, now))
                }
            }),
    {
        match self.find_index(&path) {
            Some(i) => {
                let ghost s = self.sessions@;
                let sess = &mut self.sessions[i];
                if sess.is_active {
                    sess.heartbeat(now);
                } else {
                    sess.resume(now);
                }
                proof {
                    assert(self.sessions@ =~= s.update(i as int, self.sessions@[i as int]));
                }
            },
            None => {
                self.sessions.push(FileSession::new(path, language, project, now));
            },
        }
    }

    /// Idle detected at instant `now`: pause every currently active
    /// session, folding its running segment into its total.
    pub fn on_idle_detected(&mut self, now: u64)
        requires
            old(self).wf(),
            old(self).ready_at(now),
        ensures
            final(self).wf(),
            final(self).ready_at(now),
            final(self).sessions_view()
                == old(self).sessions_view().map_values(|fs: FileSession| fs.spec_paused(now)),
            forall|i: int|
                0 <= i < final(self).sessions_view().len()
                    ==> !(#[trigger] final(self).sessions_view()[i]).is_active,
    {
        let ghost s = self.sessions@;
        let n = self.sessions.len();
        let mut i: usize = 0;
        while i < n
            invariant
                i <= n,
                n == self.sessions@.len(),
                s.len() == n,
                forall|j: int| 0 <= j < i ==> self.sessions@[j] == (#[trigger] s[j]).spec_paused(now),
                forall|j: int| i <= j < n ==> self.sessions@[j] == s[j],
                forall|j: int| 0 <= j < n ==> (#[trigger] s[j]).wf() && s[j].last_activity <= now,
            decreases n - i,
        {
            proof {
                assert(self.sessions@[i as int] == s[i as int]);
                assert(s[i as int].wf() && s[i as int].last_activity <= now);
            }
            let sess = &mut self.sessions[i];
            sess.pause(now);
            i += 1;
        }
        proof {
            assert(self.sessions@ =~= s.map_values(|fs: FileSession| fs.spec_paused(now)));
        }
    }

    /// Global activity resumption has no direct effect: a paused session
    /// resumes only upon its own next file event, since input resuming
    /// does not prove the user resumed editing any particular file.
    pub fn on_activity_resumed(&mut self)
        ensures
            *final(self) == *old(self),
    {
    }

    /// Current accumulated duration of the live session for `path` at
    /// instant `now`; pure read.
    pub fn get_current_duration(&self, path: &String, now: u64) -> (r: Option<u64>)
        requires
            self.wf(),
            self.ready_at(now),
        ensures
            match r {
                Some(d) => exists|i: int|
                    0 <= i < self.sessions_view().len()
                        && (#[trigger] self.sessions_view()[i]).path@ == path@
                        && d == self.sessions_view()[i].spec_current_duration(now),
                None => !spec_has_path(self.sessions_view(), path@),
            },
    {
        match self.find_index(path) {
            Some(i) => Some(self.sessions[i].get_current_duration(now)),
            None => None,
        }
    }

    /// Close the session for `path` at instant `now`: fold its running
    /// segment, remove it from the live set, and emit its snapshot.  The
    /// snapshot's duration counts active segments only and never exceeds
    /// the session's wall-clock span.
    pub fn close_session(&mut self, path: &String, now: u64) -> (r: Option<TimeEntry>)
        requires
            old(self).wf(),
            old(self).ready_at(now),
        ensures
            final(self).wf(),
            final(self).ready_at(now),
            ({
                let s = old(self).sessions_view();
                let t = final(self).sessions_view();
                match r {
                    Some(entry) => exists|i: int|
                        0 <= i < s.len() && (#[trigger] s[i]).path@ == path@
                            && entry == spec_close_entry(s[i], now)
                            && t == s.remove(i),
                    None => !spec_has_path(s, path@) && t == s,
                }
            }),
            r matches Some(entry) ==> entry.end_time == now
                && entry.start_time <= now
                && entry.duration <= now - entry.start_time,
    {
        match self.find_index(path) {
            Some(i) => {
                let mut fs = self.sessions.remove(i);
                fs.pause(now);
                Some(TimeEntry {
                    path: fs.path,
                    language: fs.language,
                    project: fs.project,
                    duration: fs.total_duration,
                    start_time: fs.start_time,
                    end_time: now,
                })
            },
            None => None,
        }
    }

    /// Close every live session at instant `now`, in registry order; used
    /// at shutdown or rollover so that no in-flight state is lost.
    pub fn close_all(&mut self, now: u64) -> (r: Vec<TimeEntry>)
        requires
            old(self).wf(),
            old(self).ready_at(now),
        ensures
            final(self).wf(),
            final(self).sessions_view() == Seq::<FileSession>::empty(),
            r@ == old(self).sessions_view().map_values(|fs: FileSession| spec_close_entry(fs, now)),
            forall|j: int|
                0 <= j < r@.len() ==> (#[trigger] r@[j]).end_time == now
                    && r@[j].start_time <= now
                    && r@[j].duration <= now - r@[j].start_time,
    {
        let ghost s = self.sessions@;
        let mut entries: Vec<TimeEntry> = Vec::new();
        let ghost mut k: int = 0;
        let ghost n = s.len();
        while self.sessions.len() > 0
            invariant
                k <= n,
                self.sessions@.len() == n - k,
                forall|j: int| 0 <= j < n - k ==> self.sessions@[j] == s[j + k],
                entries@.len() == k,
                forall|j: int| 0 <= j < k ==> entries@[j] == spec_close_entry(#[trigger] s[j], now),
                forall|j: int| 0 <= j < n ==> (#[trigger] s[j]).wf() && s[j].last_activity <= now,
                forall|j: int|
                    0 <= j < k ==> (#[trigger] entries@[j]).end_time == now
                        && entries@[j].start_time <= now
                        && entries@[j].duration <= now - entries@[j].start_time,
            decreases self.sessions@.len(),
        {
            let mut fs = self.sessions.remove(0);
            fs.pause(now);
            entries.push(TimeEntry {
                path: fs.path,
                language: fs.language,
                project: fs.project,
                duration: fs.total_duration,
                start_time: fs.start_time,
                end_time: now,
            });
            proof {
                k = k + 1;
            }
        }
        proof {
            assert(entries@ =~= s.map_values(|fs: FileSession| spec_close_entry(fs, now)));
            assert(self.sessions@ =~= Seq::<FileSession>::empty());
        }
        entries
    }
}

} // verus!
