//! Per-file accounting: one `FileSession` accumulates active time for one
//! path across pause/resume cycles.
//!
//! All clock readings are millisecond timestamps supplied by the caller and
//! assumed monotone (each call's `now` is at least the session's last
//! recorded instant); under that discipline every accounting step here is
//! exact and overflow-free.

use vstd::prelude::*;

use crate::path_text::{file_name_of, parent_dir_of, spec_file_name, spec_parent_dir};

verus! {

pub struct FileSession {
    pub path: String,
    pub language: String,
    pub project: Option<String>,
    /// Milliseconds accumulated over all already-closed active segments.
    pub total_duration: u64,
    /// Start instant of the running segment; present exactly while active.
    pub current_session_start: Option<u64>,
    pub is_active: bool,
    /// Last instant at which this session was created, resumed, paused or
    /// heartbeated.
    pub last_activity: u64,
    /// Instant of creation; start bound of every segment.
    pub start_time: u64,
}

impl FileSession {
    /// Structural invariant: the segment-start field mirrors the active
    /// flag, timestamps are ordered, and the accumulated total never
    /// exceeds the wall-clock span that produced it (which also rules out
    /// overflow in every accounting step).
    pub open spec fn wf(&self) -> bool {
        &&& (self.is_active <==> self.current_session_start is Some)
        &&& self.start_time <= self.last_activity
        &&& match self.current_session_start {
            Some(t) => self.start_time <= t && t <= self.last_activity
                && self.total_duration <= t - self.start_time,
            None => self.total_duration <= self.last_activity - self.start_time,
        }
    }

    pub open spec fn spec_new(path: String, language: String, project: Option<String>, now: u64) -> FileSession {
        FileSession {
            path,
            language,
            project,
            total_duration: 0,
            current_session_start: Some(now),
            is_active: true,
            last_activity: now,
            start_time: now,
        }
    }

    /// The session after folding the running segment (if any) into the
    /// total and going inactive at instant `now`.
    pub open spec fn spec_paused(self, now: u64) -> FileSession {
        match self.current_session_start {
            Some(t) => FileSession {
                total_duration: (self.total_duration + (now - t)) as u64,
                current_session_start: None,
                is_active: false,
                last_activity: now,
                ..self
            },
            None => self,
        }
    }

    /// The session after opening a new segment at instant `now` (no change
    /// when already active).
    pub open spec fn spec_resumed(self, now: u64) -> FileSession {
        if self.is_active {
            self
        } else {
            FileSession {
                current_session_start: Some(now),
                is_active: true,
                last_activity: now,
                ..self
            }
        }
    }

    /// The session with its last-activity instant refreshed.
    pub open spec fn spec_touched(self, now: u64) -> FileSession {
        FileSession { last_activity: now, ..self }
    }

    /// Accumulated total plus the running segment's elapsed time, at
    /// instant `now`.
    pub open spec fn spec_current_duration(self, now: u64) -> u64 {
        match self.current_session_start {
            Some(t) => (self.total_duration + (now - t)) as u64,
            None => self.total_duration,
        }
    }

    /// Create a session for `path`, active from instant `now`.
    pub fn new(path: String, language: String, project: Option<String>, now: u64) -> (r: FileSession)
        ensures
            r == FileSession::spec_new(path, language, project, now),
            r.wf(),
    {
        FileSession {
            path,
            language,
            project,
            total_duration: 0,
            current_session_start: Some(now),
            is_active: true,
            last_activity: now,
            start_time: now,
        }
    }

    /// Fold the running segment into the total and go inactive; no effect
    /// when already paused.
    pub fn pause(&mut self, now: u64)
        requires
            old(self).wf(),
            now >= old(self).last_activity,
        ensures
            *final(self) == old(self).spec_paused(now),
            final(self).wf(),
            !final(self).is_active,
            final(self).last_activity <= now,
    {
        if self.is_active {
            if let Some(start) = self.current_session_start {
                self.total_duration = self.total_duration + (now - start);
            }
            self.current_session_start = None;
            self.is_active = false;
            self.last_activity = now;
        }
    }

    /// Open a new segment starting at `now`; no effect when already active.
    pub fn resume(&mut self, now: u64)
        requires
            old(self).wf(),
            now >= old(self).last_activity,
        ensures
            *final(self) == old(self).spec_resumed(now),
            final(self).wf(),
            final(self).is_active,
            final(self).last_activity <= now,
    {
        if !self.is_active {
            self.current_session_start = Some(now);
            self.is_active = true;
            self.last_activity = now;
        }
    }

    /// Record that the file saw another qualifying event while active.
    pub fn heartbeat(&mut self, now: u64)
        requires
            old(self).wf(),
            now >= old(self).last_activity,
        ensures
            *final(self) == old(self).spec_touched(now),
            final(self).wf(),
            final(self).last_activity == now,
    {
        self.last_activity = now;
    }

    /// Pure read of the duration accumulated up to instant `now`; never
    /// more than the wall-clock span since creation.
    pub fn get_current_duration(&self, now: u64) -> (r: u64)
        requires
            self.wf(),
            now >= self.last_activity,
        ensures
            r == self.spec_current_duration(now),
            r <= now - self.start_time,
    {
        let start_elapsed = if let Some(start) = self.current_session_start {
            now - start
        } else {
            0
        };
        self.total_duration + start_elapsed
    }
}

/// LAW: while a session stays active, `get_current_duration` is monotone
/// non-decreasing in the clock; while paused it is constant.
pub proof fn lemma_current_duration_monotone(s: FileSession, t1: u64, t2: u64)
    requires
        s.wf(),
        s.last_activity <= t1 <= t2,
    ensures
        s.spec_current_duration(t1) <= s.spec_current_duration(t2),
        !s.is_active ==> s.spec_current_duration(t1) == s.spec_current_duration(t2),
{
}

/// The session reached from `s` by resuming and pausing at each cycle's
/// two instants, in order.
pub open spec fn spec_run_cycles(s: FileSession, cycles: Seq<(u64, u64)>) -> FileSession
    decreases cycles.len(),
{
    if cycles.len() == 0 {
        s
    } else {
        spec_run_cycles(s.spec_resumed(cycles[0].0).spec_paused(cycles[0].1), cycles.drop_first())
    }
}

/// The cycles are chronological: each resume is no earlier than `start`
/// and no later than its own pause.
pub open spec fn spec_cycles_ordered(start: u64, cycles: Seq<(u64, u64)>) -> bool
    decreases cycles.len(),
{
    cycles.len() == 0 || (start <= cycles[0].0 && cycles[0].0 <= cycles[0].1
        && spec_cycles_ordered(cycles[0].1, cycles.drop_first()))
}

/// Sum of the active-segment lengths of the cycles.
pub open spec fn spec_segments_sum(cycles: Seq<(u64, u64)>) -> int
    decreases cycles.len(),
{
    if cycles.len() == 0 {
        0
    } else {
        (cycles[0].1 - cycles[0].0) + spec_segments_sum(cycles.drop_first())
    }
}

/// LAW: after any chronological sequence of pause/resume cycles, the
/// accumulated total grows by exactly the sum of the active-segment
/// durations — no double counting, no lost time.
pub proof fn lemma_pause_resume_accounting(s: FileSession, cycles: Seq<(u64, u64)>)
    requires
        s.wf(),
        !s.is_active,
        spec_cycles_ordered(s.last_activity, cycles),
    ensures
        spec_run_cycles(s, cycles).total_duration == s.total_duration + spec_segments_sum(cycles),
        spec_run_cycles(s, cycles).wf(),
        !spec_run_cycles(s, cycles).is_active,
    decreases cycles.len(),
{
    if cycles.len() > 0 {
        let s1 = s.spec_resumed(cycles[0].0).spec_paused(cycles[0].1);
        assert(s1.wf());
        assert(s1.total_duration == s.total_duration + (cycles[0].1 - cycles[0].0));
        lemma_pause_resume_accounting(s1, cycles.drop_first());
    }
}

/// Nearest ancestor directory of `path` that appears in `marked_dirs`,
/// reported by its directory name.
pub open spec fn spec_detect_project(p: Seq<char>, marked_dirs: Seq<Seq<char>>) -> Option<Seq<char>>
    decreases p.len(),
    via spec_detect_project_decreases
{
    match spec_parent_dir(p) {
        None => None,
        Some(parent) => if marked_dirs.contains(parent) {
            Some(spec_file_name(parent))
        } else {
            spec_detect_project(parent, marked_dirs)
        },
    }
}

#[via_fn]
proof fn spec_detect_project_decreases(p: Seq<char>, marked_dirs: Seq<Seq<char>>) {
    crate::path_text::lemma_last_index(p, '/');
}

/// Walk `path`'s ancestor directories, nearest first, and name the first
/// one that contains a recognized project marker.  Which directories
/// contain a marker is filesystem knowledge; the caller passes those
/// directories in `marked_dirs` and this function applies the rule.
pub fn detect_project(path: &String, marked_dirs: &Vec<String>) -> (r: Option<String>)
    ensures
        match r {
            Some(name) => spec_detect_project(path@, marked_dirs@.map_values(|d: String| d@)) == Some(name@),
            None => spec_detect_project(path@, marked_dirs@.map_values(|d: String| d@)) is None,
        },
{
    let ghost dirs = marked_dirs@.map_values(|d: String| d@);
    let mut current: String = path.clone();
    loop
        invariant
            spec_detect_project(path@, dirs) == spec_detect_project(current@, dirs),
            dirs == marked_dirs@.map_values(|d: String| d@),
        decreases current@.len(),
    {
        proof {
            crate::path_text::lemma_last_index(current@, '/');
        }
        match parent_dir_of(current.as_str()) {
            None => {
                return None;
            },
            Some(parent) => {
                let mut i: usize = 0;
                let mut found = false;
                while i < marked_dirs.len()
                    invariant
                        i <= marked_dirs@.len(),
                        dirs == marked_dirs@.map_values(|d: String| d@),
                        !found ==> forall|j: int| 0 <= j < i ==> dirs[j] != parent@,
                        found ==> dirs.contains(parent@),
                    decreases marked_dirs@.len() - i,
                {
                    if marked_dirs[i] == parent {
                        found = true;
                        proof {
                            assert(dirs[i as int] == parent@);
                        }
                    }
                    i += 1;
                }
                if found {
                    return Some(file_name_of(parent.as_str()));
                }
                proof {
                    assert(forall|j: int| 0 <= j < dirs.len() ==> dirs[j] != parent@);
                    assert(!dirs.contains(parent@));
                }
                current = parent;
            },
        }
    }
}

} // verus!
