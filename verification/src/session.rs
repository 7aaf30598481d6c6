use vstd::prelude::*;

use crate::errors::ServerError;
use crate::recent::MAX_RECENT_DIRS;
use crate::recent::collect_others;
use crate::recent::distinct_paths;
use crate::recent::lemma_mru_insert;
use crate::recent::mru_insert;
use crate::recent::path_views;
use crate::urls::start_message;
use crate::urls::start_message_chars;

verus! {

/// Handles the embedding program must act on after a transition: a
/// background task to abort and a filesystem watch to release.  A
/// `None` field asks for nothing.
#[derive(Clone, Copy, Debug, PartialEq, Eq, Structural)]
pub struct Teardown {
    pub task: Option<u64>,
    pub watch: Option<u64>,
}

/// The mathematical value of a `ServerState`.
#[verifier::ext_equal]
pub struct SessionModel {
    pub task: Option<u64>,
    pub root: Option<Seq<char>>,
    pub recent: Seq<Seq<char>>,
    pub port: u16,
    pub watch: Option<u64>,
    pub channel: Option<u64>,
}

/// The single server session.
///
/// The listener task, the filesystem watch and the broadcast channel
/// are owned by the embedding program; the session records each as an
/// opaque token (an identifier the program chose) and the transitions
/// below say which tokens are installed and which must be torn down.
/// At most one task token is ever recorded, so at most one background
/// task is alive per session.
pub struct ServerState {
    /// Token of the running listener task, when one is alive.
    pub server_handle: Option<u64>,
    /// The directory being served, set on successful start, cleared on
    /// stop.
    pub root_dir: Option<String>,
    /// Most-recently-used list of served directories, front first.
    pub recent_dirs: Vec<String>,
    /// The bound port; meaningful only while the task is alive.
    pub current_port: u16,
    /// Token of the active filesystem watch.
    pub watcher: Option<u64>,
    /// Token of the active reload broadcast channel.
    pub reload_tx: Option<u64>,
}

impl Default for ServerState {
    /// Same as `ServerState::new`: a fresh idle session.
    fn default() -> (s: Self)
        ensures
            s.wf(),
            !s.is_running_spec(),
            s@.recent == Seq::<Seq<char>>::empty(),
            s@.port == 0,
    {
        ServerState::new()
    }
}

impl View for ServerState {
    type V = SessionModel;

    open spec fn view(&self) -> SessionModel {
        SessionModel {
            task: self.server_handle,
            root: match self.root_dir {
                Some(p) => Some(p@),
                None => None,
            },
            recent: path_views(self.recent_dirs@),
            port: self.current_port,
            watch: self.watcher,
            channel: self.reload_tx,
        }
    }
}

/// The idle version of a model: every session resource gone, the
/// recent list and the last port number kept.
pub open spec fn idle_model(m: SessionModel) -> SessionModel {
    SessionModel { task: None, root: None, watch: None, channel: None, ..m }
}

/// What `stop_server` does: from a running state it clears every
/// session resource and hands both handles back for teardown; from an
/// idle state it fails with `NotRunning` and changes nothing.
pub open spec fn stop_model(m: SessionModel) -> (SessionModel, Teardown, Result<(), ServerError>) {
    if m.task is Some {
        (idle_model(m), Teardown { task: m.task, watch: m.watch }, Ok(()))
    } else {
        (m, Teardown { task: None, watch: None }, Err(ServerError::NotRunning))
    }
}

/// What `begin_start` does: unconditionally tear down any running
/// instance, then accept or reject the requested root.
pub open spec fn begin_start_model(m: SessionModel, dir_exists: bool) -> (
    SessionModel,
    Teardown,
    Result<(), ServerError>,
) {
    let td = Teardown { task: m.task, watch: m.watch };
    if dir_exists {
        (idle_model(m), td, Ok(()))
    } else {
        (idle_model(m), td, Err(ServerError::InvalidRoot))
    }
}

/// What `finish_start` does with the resources the environment could
/// or could not provide: a missing watch fails the start with
/// `WatchSetupFailed`; a missing port or a failed bind fails it with
/// `NoPortAvailable` and hands the watch back for release; otherwise
/// the session is installed atomically and the recent list updated.
pub open spec fn finish_start_model(
    m: SessionModel,
    path: Seq<char>,
    channel: u64,
    watch: Option<u64>,
    port: Option<u16>,
    task: Option<u64>,
) -> (SessionModel, Teardown, Result<Seq<char>, ServerError>) {
    match watch {
        None => (m, Teardown { task: None, watch: None }, Err(ServerError::WatchSetupFailed)),
        Some(w) => match (port, task) {
            (Some(pt), Some(t)) => (
                SessionModel {
                    task: Some(t),
                    root: Some(path),
                    recent: mru_insert(m.recent, path),
                    port: pt,
                    watch: Some(w),
                    channel: Some(channel),
                },
                Teardown { task: None, watch: None },
                Ok(start_message_chars(pt as int)),
            ),
            _ => (m, Teardown { task: None, watch: Some(w) }, Err(ServerError::NoPortAvailable)),
        },
    }
}

impl ServerState {
    /// The bounded, duplicate-free shape of the recent list.
    pub open spec fn recent_wf(self) -> bool {
        &&& self.recent_dirs@.len() <= MAX_RECENT_DIRS
        &&& distinct_paths(path_views(self.recent_dirs@))
    }

    /// The session resources exist all together or not at all: a
    /// start installs task, root, watch and channel as one atomic
    /// unit, and a stop removes them as one.
    pub open spec fn handles_wf(self) -> bool {
        &&& (self.server_handle is Some <==> self.root_dir is Some)
        &&& (self.server_handle is Some <==> self.watcher is Some)
        &&& (self.server_handle is Some <==> self.reload_tx is Some)
    }

    /// Well-formedness of the whole session.
    pub open spec fn wf(self) -> bool {
        self.handles_wf() && self.recent_wf()
    }

    /// Whether a background task is alive.
    pub open spec fn is_running_spec(self) -> bool {
        self.server_handle is Some
    }

    /// A fresh session: no task, no root, an empty recent list.
    pub fn new() -> (s: Self)
        ensures
            s.wf(),
            !s.is_running_spec(),
            s@.recent == Seq::<Seq<char>>::empty(),
            s@.port == 0,
    {
        let s = ServerState {
            server_handle: None,
            root_dir: None,
            recent_dirs: Vec::new(),
            current_port: 0,
            watcher: None,
            reload_tx: None,
        };
        proof {
            assert(s@.recent =~= Seq::<Seq<char>>::empty());
        }
        s
    }

    /// Whether a session is currently running.
    pub fn is_running(&self) -> (r: bool)
        ensures
            r == self.is_running_spec(),
    {
        self.server_handle.is_some()
    }

    /// The currently bound port: `Some` exactly while a task is alive.
    pub fn bound_port(&self) -> (r: Option<u16>)
        ensures
            self.is_running_spec() ==> r == Some(self.current_port),
            !self.is_running_spec() ==> r is None,
    {
        match self.server_handle {
            Some(_) => Some(self.current_port),
            None => None,
        }
    }

    /// A read-only snapshot of the recent directories, most recent
    /// first.
    pub fn recent_snapshot(&self) -> (r: &Vec<String>)
        ensures
            path_views(r@) == self@.recent,
    {
        &self.recent_dirs
    }

    /// Move `path` to the front of the recent list, removing any old
    /// occurrence and evicting the tail entry past capacity.
    pub fn add_recent_dir(&mut self, path: String)
        requires
            old(self).recent_wf(),
        ensures
            final(self).recent_wf(),
            path_views(final(self).recent_dirs@) == mru_insert(
                path_views(old(self).recent_dirs@),
                path@,
            ),
            final(self).server_handle == old(self).server_handle,
            final(self).root_dir == old(self).root_dir,
            final(self).current_port == old(self).current_port,
            final(self).watcher == old(self).watcher,
            final(self).reload_tx == old(self).reload_tx,
    {
        let ghost old_views = path_views(self.recent_dirs@);
        let mut kept = collect_others(&self.recent_dirs, 0, &path, MAX_RECENT_DIRS - 1);
        kept.insert(0, path);
        self.recent_dirs = kept;
        proof {
            assert(old_views.skip(0) =~= old_views);
            assert(path_views(self.recent_dirs@) =~= mru_insert(old_views, path@));
            lemma_mru_insert(old_views, path@);
        }
    }

    /// Stop the running session: clear every resource and hand the
    /// task and the watch back for teardown.  While idle, fail with
    /// `NotRunning` and change nothing.
    pub fn stop_server(&mut self) -> (r: (Teardown, Result<(), ServerError>))
        ensures
            final(self)@ == stop_model(old(self)@).0,
            r.0 == stop_model(old(self)@).1,
            r.1 == stop_model(old(self)@).2,
            final(self).recent_dirs@ == old(self).recent_dirs@,
            old(self).wf() ==> final(self).wf(),
    {
        match self.server_handle {
            Some(task) => {
                let watch = self.watcher;
                self.server_handle = None;
                self.root_dir = None;
                self.watcher = None;
                self.reload_tx = None;
                proof {
                    assert(self@ =~= stop_model(old(self)@).0);
                }
                (Teardown { task: Some(task), watch }, Ok(()))
            },
            None => (Teardown { task: None, watch: None }, Err(ServerError::NotRunning)),
        }
    }

    /// First phase of a start: tear down any running instance
    /// unconditionally, then validate the requested root.  The state
    /// is idle afterwards in every case; the caller must abort and
    /// release what the returned `Teardown` names before going on.
    pub fn begin_start(&mut self, dir_exists: bool) -> (r: (Teardown, Result<(), ServerError>))
        ensures
            final(self)@ == begin_start_model(old(self)@, dir_exists).0,
            r.0 == begin_start_model(old(self)@, dir_exists).1,
            r.1 == begin_start_model(old(self)@, dir_exists).2,
            final(self).recent_dirs@ == old(self).recent_dirs@,
            !final(self).is_running_spec(),
            old(self).wf() ==> final(self).wf(),
    {
        let td = Teardown { task: self.server_handle, watch: self.watcher };
        self.server_handle = None;
        self.root_dir = None;
        self.watcher = None;
        self.reload_tx = None;
        proof {
            assert(self@ =~= begin_start_model(old(self)@, dir_exists).0);
        }
        if dir_exists {
            (td, Ok(()))
        } else {
            (td, Err(ServerError::InvalidRoot))
        }
    }

    /// Second phase of a start, after the environment tried to create
    /// the watch, probe a port and bind-and-spawn the listener task.
    /// Exactly the outcomes in `finish_start_model` are possible: a
    /// failure leaves the session idle and names what must still be
    /// released; success installs all resources atomically, records
    /// the root and the port, updates the recent list and reports the
    /// serving URL.
    pub fn finish_start(
        &mut self,
        path: String,
        channel: u64,
        watch: Option<u64>,
        port: Option<u16>,
        task: Option<u64>,
    ) -> (r: (Teardown, Result<String, ServerError>))
        requires
            !old(self).is_running_spec(),
            old(self).wf(),
            task is Some ==> watch is Some && port is Some,
        ensures
            final(self)@ == finish_start_model(old(self)@, path@, channel, watch, port, task).0,
            r.0 == finish_start_model(old(self)@, path@, channel, watch, port, task).1,
            match (r.1, finish_start_model(old(self)@, path@, channel, watch, port, task).2) {
                (Ok(msg), Ok(model_msg)) => msg@ == model_msg,
                (Err(e), Err(model_e)) => e == model_e,
                _ => false,
            },
            final(self).wf(),
    {
        match watch {
            None => (Teardown { task: None, watch: None }, Err(ServerError::WatchSetupFailed)),
            Some(w) => {
                match (port, task) {
                    (Some(pt), Some(t)) => {
                        self.add_recent_dir(path.clone());
                        self.root_dir = Some(path);
                        self.server_handle = Some(t);
                        self.watcher = Some(w);
                        self.reload_tx = Some(channel);
                        self.current_port = pt;
                        let msg = start_message(pt);
                        proof {
                            assert(self@ =~= finish_start_model(
                                old(self)@,
                                path@,
                                channel,
                                watch,
                                port,
                                task,
                            ).0);
                        }
                        (Teardown { task: None, watch: None }, Ok(msg))
                    },
                    _ => (
                        Teardown { task: None, watch: Some(w) },
                        Err(ServerError::NoPortAvailable),
                    ),
                }
            },
        }
    }
}

} // verus!
