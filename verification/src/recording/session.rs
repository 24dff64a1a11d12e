//! The recording sessions that there are, and how far each has come.

use crate::clock::{parse_rfc3339_micros, rfc3339_micros, utc_rfc3339, utc_timestamp_micros,
    utc_timestamp_millis};
use crate::decimal::{push_signed_decimal, signed_decimal};
use crate::paths::opt_view;
use crate::text::{clone_opt, str_eq, views};
use vstd::prelude::*;
use vstd::string::*;

verus! {

/// What a session records.
#[derive(Debug, Clone, Copy, PartialEq, Eq, Structural)]
pub enum RecordingSessionType {
    Screen,
    Camera,
    PiP,
}

/// How far a session has come.
#[derive(Debug, Clone, Copy, PartialEq, Eq, Structural)]
pub enum RecordingSessionStatus {
    Idle,
    Preparing,
    Recording,
    Paused,
    Stopping,
    Error,
}

/// What is known of a session. `duration` is in millionths of a second,
/// `start_time` a time in the form of RFC 3339.
#[derive(Debug, Clone)]
pub struct RecordingSessionInfo {
    pub id: String,
    pub session_type: RecordingSessionType,
    pub status: RecordingSessionStatus,
    pub start_time: Option<String>,
    pub duration: i64,
    pub file_path: Option<String>,
    pub error: Option<String>,
}

/// How far a recording has come. `duration` is in millionths of a second.
#[derive(Debug, Clone)]
pub struct RecordingProgress {
    pub session_id: String,
    pub duration: i64,
    pub file_size: u64,
    pub frame_count: u64,
    pub is_recording: bool,
}

/// The sessions that there are, and the names of those that are active, in
/// the order in which they became so.
#[derive(Debug, Clone)]
pub struct RecordingSessionManager {
    pub sessions: Vec<RecordingSessionInfo>,
    pub active_sessions: Vec<String>,
}

impl RecordingSessionInfo {
    /// A copy of the session.
    pub fn duplicate(&self) -> (r: Self)
        ensures
            r == *self,
    {
        Self {
            id: self.id.clone(),
            session_type: self.session_type,
            status: self.status,
            start_time: clone_opt(&self.start_time),
            duration: self.duration,
            file_path: clone_opt(&self.file_path),
            error: clone_opt(&self.error),
        }
    }
}

/// The index of the first session with this name, or the number of sessions
/// where there is none.
pub open spec fn session_index(sessions: Seq<RecordingSessionInfo>, id: Seq<char>) -> int
    decreases sessions.len(),
{
    if sessions.len() == 0 {
        0
    } else if sessions[0].id@ == id {
        0
    } else {
        1 + session_index(sessions.drop_first(), id)
    }
}

/// `session_index` is the first place where a session has the name.
pub proof fn lemma_session_index(sessions: Seq<RecordingSessionInfo>, id: Seq<char>)
    ensures
        0 <= session_index(sessions, id) <= sessions.len(),
        forall|j: int| 0 <= j < session_index(sessions, id) ==> sessions[j].id@ != id,
        session_index(sessions, id) < sessions.len() ==> sessions[session_index(
            sessions,
            id,
        )].id@ == id,
    decreases sessions.len(),
{
    if sessions.len() > 0 && sessions[0].id@ != id {
        let t = sessions.drop_first();
        lemma_session_index(t, id);
        assert forall|j: int| 0 <= j < session_index(sessions, id) implies sessions[j].id@
            != id by {
            if j > 0 {
                assert(sessions[j] == t[j - 1]);
            }
        }
    }
}

/// Whether one of the names is `id`.
pub open spec fn names_contain(names: Seq<Seq<char>>, id: Seq<char>) -> bool {
    exists|i: int| 0 <= i < names.len() && names[i] == id
}

/// The names without every `id` among them.
pub open spec fn names_without(names: Seq<Seq<char>>, id: Seq<char>) -> Seq<Seq<char>>
    decreases names.len(),
{
    if names.len() == 0 {
        names
    } else if names.last() == id {
        names_without(names.drop_last(), id)
    } else {
        names_without(names.drop_last(), id).push(names.last())
    }
}

/// The sessions that the names name, in the order of the names; a name that
/// no session has is passed over.
pub open spec fn named_sessions(sessions: Seq<RecordingSessionInfo>, names: Seq<Seq<char>>) -> Seq<
    RecordingSessionInfo,
>
    decreases names.len(),
{
    if names.len() == 0 {
        Seq::<RecordingSessionInfo>::empty()
    } else if session_index(sessions, names.last()) < sessions.len() {
        named_sessions(sessions, names.drop_last()).push(
            sessions[session_index(sessions, names.last())],
        )
    } else {
        named_sessions(sessions, names.drop_last())
    }
}

/// The name of a status, as it is shown: in lower case.
pub open spec fn status_text(status: RecordingSessionStatus) -> Seq<char> {
    match status {
        RecordingSessionStatus::Idle => "idle"@,
        RecordingSessionStatus::Preparing => "preparing"@,
        RecordingSessionStatus::Recording => "recording"@,
        RecordingSessionStatus::Paused => "paused"@,
        RecordingSessionStatus::Stopping => "stopping"@,
        RecordingSessionStatus::Error => "error"@,
    }
}

/// The name of a session made at a millisecond.
pub open spec fn new_session_id(millis: int) -> Seq<char> {
    "recording_"@ + signed_decimal(millis)
}

/// A session as it is made: idle, with nothing known of it yet.
pub open spec fn is_fresh(s: RecordingSessionInfo, id: Seq<char>, session_type: RecordingSessionType)
    -> bool {
    &&& s.id@ == id
    &&& s.session_type == session_type
    &&& s.status == RecordingSessionStatus::Idle
    &&& s.start_time is None
    &&& s.duration == 0
    &&& s.file_path is None
    &&& s.error is None
}

/// Whether the sessions are those of `before`, but for the session at `i`.
pub open spec fn same_but(
    after: Seq<RecordingSessionInfo>,
    before: Seq<RecordingSessionInfo>,
    i: int,
) -> bool {
    &&& after.len() == before.len()
    &&& forall|j: int| 0 <= j < before.len() && j != i ==> after[j] == before[j]
}

/// Whether a session is kept by a cleanup at the microsecond `now`: it is
/// active, or it started less than an hour ago, or when it started is not
/// known.
pub open spec fn is_kept(s: RecordingSessionInfo, active: Seq<Seq<char>>, now: int) -> bool {
    names_contain(active, s.id@) || match s.start_time {
        Some(t) => match rfc3339_micros(t@) {
            Some(started) => started > now - 3_600_000_000,
            None => true,
        },
        None => true,
    }
}

/// The sessions that a cleanup keeps, in their order.
pub open spec fn kept_sessions(
    sessions: Seq<RecordingSessionInfo>,
    active: Seq<Seq<char>>,
    now: int,
) -> Seq<RecordingSessionInfo>
    decreases sessions.len(),
{
    if sessions.len() == 0 {
        sessions
    } else if is_kept(sessions.last(), active, now) {
        kept_sessions(sessions.drop_last(), active, now).push(sessions.last())
    } else {
        kept_sessions(sessions.drop_last(), active, now)
    }
}

fn contains_name(names: &Vec<String>, id: &str) -> (r: bool)
    ensures
        r == names_contain(views(names@), id@),
{
    let mut i: usize = 0;
    while i < names.len()
        invariant
            i <= names.len(),
            forall|j: int| 0 <= j < i ==> views(names@)[j] != id@,
        decreases names.len() - i,
    {
        assert(views(names@)[i as int] == names@[i as int]@);
        if str_eq(names[i].as_str(), id) {
            return true;
        }
        i += 1;
    }
    false
}

fn remove_name(names: &Vec<String>, id: &str) -> (r: Vec<String>)
    ensures
        views(r@) == names_without(views(names@), id@),
{
    let ghost all = views(names@);
    let mut out: Vec<String> = Vec::new();
    assert(views(out@) =~= names_without(all.take(0), id@));
    let mut i: usize = 0;
    while i < names.len()
        invariant
            i <= names.len(),
            all == views(names@),
            views(out@) == names_without(all.take(i as int), id@),
        decreases names.len() - i,
    {
        proof {
            let t = all.take(i + 1);
            assert(t.drop_last() =~= all.take(i as int));
            assert(t.last() == names@[i as int]@);
        }
        if !str_eq(names[i].as_str(), id) {
            let ghost before = views(out@);
            out.push(names[i].clone());
            assert(views(out@) =~= before.push(names@[i as int]@));
        }
        i += 1;
    }
    assert(all.take(names.len() as int) =~= all);
    out
}

impl RecordingSessionManager {
    /// A manager without sessions.
    pub fn new() -> (r: Self)
        ensures
            r.sessions@.len() == 0,
            r.active_sessions@.len() == 0,
    {
        Self { sessions: Vec::new(), active_sessions: Vec::new() }
    }

    /// The index of the first session with this name.
    pub fn find(&self, session_id: &str) -> (r: Option<usize>)
        ensures
            r matches Some(i) ==> i == session_index(self.sessions@, session_id@) && i
                < self.sessions@.len(),
            r is None ==> session_index(self.sessions@, session_id@) == self.sessions@.len(),
    {
        let mut i: usize = 0;
        while i < self.sessions.len()
            invariant
                i <= self.sessions.len(),
                forall|j: int| 0 <= j < i ==> self.sessions@[j].id@ != session_id@,
            decreases self.sessions.len() - i,
        {
            if str_eq(self.sessions[i].id.as_str(), session_id) {
                proof {
                    lemma_session_index(self.sessions@, session_id@);
                }
                return Some(i);
            }
            i += 1;
        }
        proof {
            lemma_session_index(self.sessions@, session_id@);
        }
        None
    }

    /// Makes a session at the millisecond `now_millis` and gives its name. A
    /// session of the same name is replaced.
    pub fn create_session_at(&mut self, session_type: RecordingSessionType, now_millis: i64) -> (r:
        Result<String, String>)
        ensures
            r matches Ok(id) && id@ == new_session_id(now_millis as int) && ({
                let i = session_index(old(self).sessions@, id@);
                &&& final(self).sessions@.len() == if i < old(self).sessions@.len() {
                    old(self).sessions@.len()
                } else {
                    old(self).sessions@.len() + 1
                }
                &&& is_fresh(final(self).sessions@[i], id@, session_type)
                &&& forall|j: int|
                    0 <= j < old(self).sessions@.len() && j != i ==> final(self).sessions@[j]
                        == old(self).sessions@[j]
            }),
            final(self).active_sessions == old(self).active_sessions,
    {
        let mut id = String::from_str("recording_");
        push_signed_decimal(&mut id, now_millis as i128);
        let info = RecordingSessionInfo {
            id: id.clone(),
            session_type,
            status: RecordingSessionStatus::Idle,
            start_time: None,
            duration: 0,
            file_path: None,
            error: None,
        };
        match self.find(id.as_str()) {
            Some(i) => {
                self.sessions.set(i, info);
            },
            None => {
                self.sessions.push(info);
            },
        }
        Ok(id)
    }

    /// Makes a session and gives its name, which is taken from the moment
    /// of the call.
    pub fn create_session(&mut self, session_type: RecordingSessionType) -> (r: Result<
        String,
        String,
    >)
        ensures
            r matches Ok(id) && (exists|millis: i64| id@ == new_session_id(millis as int)) && ({
                let i = session_index(old(self).sessions@, id@);
                &&& final(self).sessions@.len() == if i < old(self).sessions@.len() {
                    old(self).sessions@.len()
                } else {
                    old(self).sessions@.len() + 1
                }
                &&& is_fresh(final(self).sessions@[i], id@, session_type)
                &&& forall|j: int|
                    0 <= j < old(self).sessions@.len() && j != i ==> final(self).sessions@[j]
                        == old(self).sessions@[j]
            }),
            final(self).active_sessions == old(self).active_sessions,
    {
        self.create_session_at(session_type, utc_timestamp_millis())
    }

    /// Starts a session at the time `now`: it records from now on and is
    /// among the active sessions. Fails where there is no such session.
    pub fn start_session_at(&mut self, session_id: &str, now: String) -> (r: Result<(), String>)
        ensures
            r is Ok <==> session_index(old(self).sessions@, session_id@) < old(self).sessions@.len(),
            r matches Err(m) ==> m@ == "Session not found"@ && *final(self) == *old(self),
            r is Ok ==> ({
                let i = session_index(old(self).sessions@, session_id@);
                &&& same_but(final(self).sessions@, old(self).sessions@, i)
                &&& final(self).sessions@[i] == (RecordingSessionInfo {
                    status: RecordingSessionStatus::Recording,
                    start_time: Some(now),
                    ..old(self).sessions@[i]
                })
                &&& views(final(self).active_sessions@) == if names_contain(
                    views(old(self).active_sessions@),
                    session_id@,
                ) {
                    views(old(self).active_sessions@)
                } else {
                    views(old(self).active_sessions@).push(session_id@)
                }
            }),
    {
        let i = match self.find(session_id) {
            Some(i) => i,
            None => {
                return Err(String::from_str("Session not found"));
            },
        };
        let mut info = self.sessions[i].duplicate();
        info.status = RecordingSessionStatus::Recording;
        info.start_time = Some(now);
        self.sessions.set(i, info);
        if !contains_name(&self.active_sessions, session_id) {
            let ghost before = views(self.active_sessions@);
            self.active_sessions.push(String::from_str(session_id));
            assert(views(self.active_sessions@) =~= before.push(session_id@));
        }
        Ok(())
    }

    /// Starts a session at the moment of the call.
    pub fn start_session(&mut self, session_id: &str) -> (r: Result<(), String>)
        ensures
            r is Ok <==> session_index(old(self).sessions@, session_id@) < old(self).sessions@.len(),
            r matches Err(m) ==> m@ == "Session not found"@ && *final(self) == *old(self),
            r is Ok ==> ({
                let i = session_index(old(self).sessions@, session_id@);
                &&& same_but(final(self).sessions@, old(self).sessions@, i)
                &&& final(self).sessions@[i].start_time is Some
                &&& final(self).sessions@[i] == (RecordingSessionInfo {
                    status: RecordingSessionStatus::Recording,
                    start_time: final(self).sessions@[i].start_time,
                    ..old(self).sessions@[i]
                })
                &&& views(final(self).active_sessions@) == if names_contain(
                    views(old(self).active_sessions@),
                    session_id@,
                ) {
                    views(old(self).active_sessions@)
                } else {
                    views(old(self).active_sessions@).push(session_id@)
                }
            }),
    {
        self.start_session_at(session_id, utc_rfc3339())
    }

    fn change(&mut self, session_id: &str, info: RecordingSessionInfo, i: usize)
        requires
            i < old(self).sessions@.len(),
        ensures
            same_but(final(self).sessions@, old(self).sessions@, i as int),
            final(self).sessions@[i as int] == info,
            final(self).active_sessions == old(self).active_sessions,
    {
        self.sessions.set(i, info);
    }

    /// Stops a session: it is stopping from now on and no longer among the
    /// active sessions. Fails where there is no such session.
    pub fn stop_session(&mut self, session_id: &str) -> (r: Result<(), String>)
        ensures
            r is Ok <==> session_index(old(self).sessions@, session_id@) < old(self).sessions@.len(),
            r matches Err(m) ==> m@ == "Session not found"@ && *final(self) == *old(self),
            r is Ok ==> ({
                let i = session_index(old(self).sessions@, session_id@);
                &&& same_but(final(self).sessions@, old(self).sessions@, i)
                &&& final(self).sessions@[i] == (RecordingSessionInfo {
                    status: RecordingSessionStatus::Stopping,
                    ..old(self).sessions@[i]
                })
                &&& views(final(self).active_sessions@) == names_without(
                    views(old(self).active_sessions@),
                    session_id@,
                )
            }),
    {
        let i = match self.find(session_id) {
            Some(i) => i,
            None => {
                return Err(String::from_str("Session not found"));
            },
        };
        let mut info = self.sessions[i].duplicate();
        info.status = RecordingSessionStatus::Stopping;
        self.sessions.set(i, info);
        self.active_sessions = remove_name(&self.active_sessions, session_id);
        Ok(())
    }

    /// Pauses a session. Fails where there is no such session.
    pub fn pause_session(&mut self, session_id: &str) -> (r: Result<(), String>)
        ensures
            r is Ok <==> session_index(old(self).sessions@, session_id@) < old(self).sessions@.len(),
            r matches Err(m) ==> m@ == "Session not found"@ && *final(self) == *old(self),
            r is Ok ==> ({
                let i = session_index(old(self).sessions@, session_id@);
                &&& same_but(final(self).sessions@, old(self).sessions@, i)
                &&& final(self).sessions@[i] == (RecordingSessionInfo {
                    status: RecordingSessionStatus::Paused,
                    ..old(self).sessions@[i]
                })
                &&& final(self).active_sessions == old(self).active_sessions
            }),
    {
        let i = match self.find(session_id) {
            Some(i) => i,
            None => {
                return Err(String::from_str("Session not found"));
            },
        };
        let mut info = self.sessions[i].duplicate();
        info.status = RecordingSessionStatus::Paused;
        self.change(session_id, info, i);
        Ok(())
    }

    /// Takes a session up again: it records from now on. Fails where there is
    /// no such session.
    pub fn resume_session(&mut self, session_id: &str) -> (r: Result<(), String>)
        ensures
            r is Ok <==> session_index(old(self).sessions@, session_id@) < old(self).sessions@.len(),
            r matches Err(m) ==> m@ == "Session not found"@ && *final(self) == *old(self),
            r is Ok ==> ({
                let i = session_index(old(self).sessions@, session_id@);
                &&& same_but(final(self).sessions@, old(self).sessions@, i)
                &&& final(self).sessions@[i] == (RecordingSessionInfo {
                    status: RecordingSessionStatus::Recording,
                    ..old(self).sessions@[i]
                })
                &&& final(self).active_sessions == old(self).active_sessions
            }),
    {
        let i = match self.find(session_id) {
            Some(i) => i,
            None => {
                return Err(String::from_str("Session not found"));
            },
        };
        let mut info = self.sessions[i].duplicate();
        info.status = RecordingSessionStatus::Recording;
        self.change(session_id, info, i);
        Ok(())
    }

    /// Notes how long a session has recorded, in millionths of a second.
    /// Fails where there is no such session.
    pub fn update_progress(
        &mut self,
        session_id: &str,
        duration: i64,
        _file_size: u64,
        _frame_count: u64,
    ) -> (r: Result<(), String>)
        ensures
            r is Ok <==> session_index(old(self).sessions@, session_id@) < old(self).sessions@.len(),
            r matches Err(m) ==> m@ == "Session not found"@ && *final(self) == *old(self),
            r is Ok ==> ({
                let i = session_index(old(self).sessions@, session_id@);
                &&& same_but(final(self).sessions@, old(self).sessions@, i)
                &&& final(self).sessions@[i] == (RecordingSessionInfo {
                    duration,
                    ..old(self).sessions@[i]
                })
                &&& final(self).active_sessions == old(self).active_sessions
            }),
    {
        let i = match self.find(session_id) {
            Some(i) => i,
            None => {
                return Err(String::from_str("Session not found"));
            },
        };
        let mut info = self.sessions[i].duplicate();
        info.duration = duration;
        self.change(session_id, info, i);
        Ok(())
    }

    /// Notes the file that a session records into. Fails where there is no
    /// such session.
    pub fn update_file_path(&mut self, session_id: &str, file_path: String) -> (r: Result<
        (),
        String,
    >)
        ensures
            r is Ok <==> session_index(old(self).sessions@, session_id@) < old(self).sessions@.len(),
            r matches Err(m) ==> m@ == "Session not found"@ && *final(self) == *old(self),
            r is Ok ==> ({
                let i = session_index(old(self).sessions@, session_id@);
                &&& same_but(final(self).sessions@, old(self).sessions@, i)
                &&& final(self).sessions@[i] == (RecordingSessionInfo {
                    file_path: Some(file_path),
                    ..old(self).sessions@[i]
                })
                &&& final(self).active_sessions == old(self).active_sessions
            }),
    {
        let i = match self.find(session_id) {
            Some(i) => i,
            None => {
                return Err(String::from_str("Session not found"));
            },
        };
        let mut info = self.sessions[i].duplicate();
        info.file_path = Some(file_path);
        self.change(session_id, info, i);
        Ok(())
    }

    /// Notes that a session has failed and why: it is in error from now on
    /// and no longer among the active sessions. Fails where there is no such
    /// session.
    pub fn set_session_error(&mut self, session_id: &str, error: String) -> (r: Result<(), String>)
        ensures
            r is Ok <==> session_index(old(self).sessions@, session_id@) < old(self).sessions@.len(),
            r matches Err(m) ==> m@ == "Session not found"@ && *final(self) == *old(self),
            r is Ok ==> ({
                let i = session_index(old(self).sessions@, session_id@);
                &&& same_but(final(self).sessions@, old(self).sessions@, i)
                &&& final(self).sessions@[i] == (RecordingSessionInfo {
                    status: RecordingSessionStatus::Error,
                    error: Some(error),
                    ..old(self).sessions@[i]
                })
                &&& views(final(self).active_sessions@) == names_without(
                    views(old(self).active_sessions@),
                    session_id@,
                )
            }),
    {
        let i = match self.find(session_id) {
            Some(i) => i,
            None => {
                return Err(String::from_str("Session not found"));
            },
        };
        let mut info = self.sessions[i].duplicate();
        info.status = RecordingSessionStatus::Error;
        info.error = Some(error);
        self.sessions.set(i, info);
        self.active_sessions = remove_name(&self.active_sessions, session_id);
        Ok(())
    }

    /// What is known of a session. Fails where there is no such session.
    pub fn get_session(&self, session_id: &str) -> (r: Result<RecordingSessionInfo, String>)
        ensures
            r is Ok <==> session_index(self.sessions@, session_id@) < self.sessions@.len(),
            r matches Ok(s) ==> s == self.sessions@[session_index(self.sessions@, session_id@)],
            r matches Err(m) ==> m@ == "Session not found"@,
    {
        match self.find(session_id) {
            Some(i) => Ok(self.sessions[i].duplicate()),
            None => Err(String::from_str("Session not found")),
        }
    }

    /// What is known of the active sessions, in the order in which they
    /// became active; a name that no session has is passed over.
    pub fn get_active_sessions(&self) -> (r: Result<Vec<RecordingSessionInfo>, String>)
        ensures
            r matches Ok(v) && v@ == named_sessions(self.sessions@, views(self.active_sessions@)),
    {
        let ghost names = views(self.active_sessions@);
        let mut out: Vec<RecordingSessionInfo> = Vec::new();
        assert(out@ =~= named_sessions(self.sessions@, names.take(0)));
        let mut a: usize = 0;
        while a < self.active_sessions.len()
            invariant
                a <= self.active_sessions.len(),
                names == views(self.active_sessions@),
                out@ == named_sessions(self.sessions@, names.take(a as int)),
            decreases self.active_sessions.len() - a,
        {
            proof {
                let t = names.take(a + 1);
                assert(t.drop_last() =~= names.take(a as int));
                assert(t.last() == self.active_sessions@[a as int]@);
            }
            match self.find(self.active_sessions[a].as_str()) {
                Some(i) => {
                    out.push(self.sessions[i].duplicate());
                },
                None => {},
            }
            a += 1;
        }
        assert(names.take(self.active_sessions.len() as int) =~= names);
        Ok(out)
    }

    /// Forgets, at the microsecond `now_micros`, the sessions that are over:
    /// those that are not active and started an hour ago or longer.
    pub fn cleanup_completed_sessions_at(&mut self, now_micros: i64) -> (r: Result<(), String>)
        ensures
            r is Ok,
            final(self).sessions@ == kept_sessions(
                old(self).sessions@,
                views(old(self).active_sessions@),
                now_micros as int,
            ),
            final(self).active_sessions == old(self).active_sessions,
    {
        let ghost all = self.sessions@;
        let ghost active = views(self.active_sessions@);
        let mut kept: Vec<RecordingSessionInfo> = Vec::new();
        assert(kept@ =~= kept_sessions(all.take(0), active, now_micros as int));
        let mut i: usize = 0;
        while i < self.sessions.len()
            invariant
                i <= self.sessions.len(),
                all == self.sessions@,
                active == views(self.active_sessions@),
                kept@ == kept_sessions(all.take(i as int), active, now_micros as int),
            decreases self.sessions.len() - i,
        {
            let s = &self.sessions[i];
            proof {
                let t = all.take(i + 1);
                assert(t.drop_last() =~= all.take(i as int));
                assert(t.last() == *s);
            }
            let recent = match &s.start_time {
                Some(t) => match parse_rfc3339_micros(t.as_str()) {
                    Some(started) => started as i128 > now_micros as i128 - 3_600_000_000,
                    None => true,
                },
                None => true,
            };
            if contains_name(&self.active_sessions, s.id.as_str()) || recent {
                kept.push(s.duplicate());
            }
            i += 1;
        }
        assert(all.take(self.sessions.len() as int) =~= all);
        self.sessions = kept;
        Ok(())
    }

    /// Forgets the sessions that are over, as of the moment of the call.
    pub fn cleanup_completed_sessions(&mut self) -> (r: Result<(), String>)
        ensures
            r is Ok,
            exists|now: i64|
                final(self).sessions@ == kept_sessions(
                    old(self).sessions@,
                    views(old(self).active_sessions@),
                    now as int,
                ),
            final(self).active_sessions == old(self).active_sessions,
    {
        self.cleanup_completed_sessions_at(utc_timestamp_micros())
    }

    /// How far the recording of a session has come. Fails where there is no
    /// such session.
    pub fn get_session_progress(&self, session_id: &str) -> (r: Result<RecordingProgress, String>)
        ensures
            r is Ok <==> session_index(self.sessions@, session_id@) < self.sessions@.len(),
            r matches Ok(p) ==> ({
                let s = self.sessions@[session_index(self.sessions@, session_id@)];
                &&& p.session_id@ == session_id@
                &&& p.duration == s.duration
                &&& p.file_size == 0
                &&& p.frame_count == 0
                &&& p.is_recording == (s.status == RecordingSessionStatus::Recording)
            }),
            r matches Err(m) ==> m@ == "Session not found"@,
    {
        match self.find(session_id) {
            Some(i) => {
                let s = &self.sessions[i];
                Ok(
                    RecordingProgress {
                        session_id: String::from_str(session_id),
                        duration: s.duration,
                        file_size: 0,
                        frame_count: 0,
                        is_recording: s.status == RecordingSessionStatus::Recording,
                    },
                )
            },
            None => Err(String::from_str("Session not found")),
        }
    }
}

/// The name of a status, as it is shown: in lower case.
pub fn status_name(status: RecordingSessionStatus) -> (r: String)
    ensures
        r@ == status_text(status),
{
    match status {
        RecordingSessionStatus::Idle => String::from_str("idle"),
        RecordingSessionStatus::Preparing => String::from_str("preparing"),
        RecordingSessionStatus::Recording => String::from_str("recording"),
        RecordingSessionStatus::Paused => String::from_str("paused"),
        RecordingSessionStatus::Stopping => String::from_str("stopping"),
        RecordingSessionStatus::Error => String::from_str("error"),
    }
}

} // verus!
