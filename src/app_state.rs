use vstd::prelude::*;
use vstd::string::*;

use crate::log_watcher::stop_log_watcher;

verus! {

/// User preferences. Setting it replaces the whole record.
#[derive(Debug, Clone)]
pub struct AppConfig {
    pub log_directory: Option<String>,
    pub supabase_url: Option<String>,
    pub supabase_key: Option<String>,
    pub auto_start: bool,
    pub notifications_enabled: bool,
    pub sync_enabled: bool,
}

impl AppConfig {
    /// The preferences of a fresh installation: nothing configured, no auto
    /// start, notifications and sync on.
    pub open spec fn is_default(&self) -> bool {
        &&& self.log_directory is None
        &&& self.supabase_url is None
        &&& self.supabase_key is None
        &&& !self.auto_start
        &&& self.notifications_enabled
        &&& self.sync_enabled
    }
}

impl Default for AppConfig {
    fn default() -> (r: AppConfig)
        ensures
            r.is_default(),
    {
        AppConfig {
            log_directory: None,
            supabase_url: None,
            supabase_key: None,
            auto_start: false,
            notifications_enabled: true,
            sync_enabled: true,
        }
    }
}

fn copy_text(o: &Option<String>) -> (r: Option<String>)
    ensures
        r == *o,
{
    match o {
        Some(s) => Some(s.clone()),
        None => None,
    }
}

/// State of the log watcher as the rest of the application sees it.
#[derive(Debug, Clone)]
pub enum WatcherStatus {
    Stopped,
    Running,
    Error(String),
}

impl PartialEq for WatcherStatus {
    fn eq(&self, other: &WatcherStatus) -> (r: bool) {
        match self {
            WatcherStatus::Stopped => match other {
                WatcherStatus::Stopped => true,
                _ => false,
            },
            WatcherStatus::Running => match other {
                WatcherStatus::Running => true,
                _ => false,
            },
            WatcherStatus::Error(a) => match other {
                WatcherStatus::Error(b) => String::eq(a, b),
                _ => false,
            },
        }
    }
}

impl vstd::std_specs::cmp::PartialEqSpecImpl for WatcherStatus {
    open spec fn obeys_eq_spec() -> bool {
        true
    }

    open spec fn eq_spec(&self, other: &WatcherStatus) -> bool {
        match (*self, *other) {
            (WatcherStatus::Stopped, WatcherStatus::Stopped) => true,
            (WatcherStatus::Running, WatcherStatus::Running) => true,
            (WatcherStatus::Error(a), WatcherStatus::Error(b)) => a@ == b@,
            _ => false,
        }
    }
}

fn copy_status(s: &WatcherStatus) -> (r: WatcherStatus)
    ensures
        r == *s,
{
    match s {
        WatcherStatus::Stopped => WatcherStatus::Stopped,
        WatcherStatus::Running => WatcherStatus::Running,
        WatcherStatus::Error(m) => WatcherStatus::Error(m.clone()),
    }
}

/// The lifecycle part of the state: (status, watching flag).
pub type Lifecycle = (WatcherStatus, bool);

/// Status and flag agree: the status is `Running` exactly while watching.
pub open spec fn consistent(l: Lifecycle) -> bool {
    (l.0 == WatcherStatus::Running) <==> l.1
}

/// Lifecycle of a freshly created state.
pub open spec fn initial_lifecycle() -> Lifecycle {
    (WatcherStatus::Stopped, false)
}

/// A start is refused while a session is live.
pub open spec fn start_refused(l: Lifecycle) -> bool {
    l.1
}

/// Lifecycle after a start whose pipeline came up.
pub open spec fn started() -> Lifecycle {
    (WatcherStatus::Running, true)
}

/// What a stop reports, and the lifecycle after it: a no-op reporting `false`
/// when nothing is watched.
pub open spec fn stop_outcome(l: Lifecycle) -> (bool, Lifecycle) {
    if l.1 {
        (true, (WatcherStatus::Stopped, false))
    } else {
        (false, l)
    }
}

/// Lifecycle after a fatal error inside the pipeline.
pub open spec fn failed(message: String) -> Lifecycle {
    (WatcherStatus::Error(message), false)
}

pub open spec fn already_running_message() -> Seq<char> {
    "Watcher is already running"@
}

pub open spec fn started_message(directory: Seq<char>) -> Seq<char> {
    "Started watching: "@ + directory
}

/// Process-wide application state: the configuration, the watcher status and
/// the watching flag. Callers that share it guard it with a lock.
pub struct AppState {
    pub config: AppConfig,
    pub watcher_status: WatcherStatus,
    pub is_watching: bool,
}

impl AppState {
    pub open spec fn lifecycle(&self) -> Lifecycle {
        (self.watcher_status, self.is_watching)
    }

    pub fn new() -> (r: AppState)
        ensures
            r.config.is_default(),
            r.lifecycle() == initial_lifecycle(),
    {
        AppState { config: AppConfig::default(), watcher_status: WatcherStatus::Stopped, is_watching: false }
    }

    /// A copy of the configuration.
    pub fn get_config(&self) -> (r: AppConfig)
        ensures
            r == self.config,
    {
        AppConfig {
            log_directory: copy_text(&self.config.log_directory),
            supabase_url: copy_text(&self.config.supabase_url),
            supabase_key: copy_text(&self.config.supabase_key),
            auto_start: self.config.auto_start,
            notifications_enabled: self.config.notifications_enabled,
            sync_enabled: self.config.sync_enabled,
        }
    }

    /// Replaces the whole configuration.
    pub fn set_config(&mut self, config: AppConfig)
        ensures
            final(self).config == config,
            final(self).lifecycle() == old(self).lifecycle(),
    {
        self.config = config;
    }

    pub fn get_watcher_status(&self) -> (r: WatcherStatus)
        ensures
            r == self.watcher_status,
    {
        copy_status(&self.watcher_status)
    }

    pub fn set_watcher_status(&mut self, status: WatcherStatus)
        ensures
            final(self).watcher_status == status,
            final(self).is_watching == old(self).is_watching,
            final(self).config == old(self).config,
    {
        self.watcher_status = status;
    }

    pub fn is_watching(&self) -> (r: bool)
        ensures
            r == self.is_watching,
    {
        self.is_watching
    }

    pub fn set_watching(&mut self, watching: bool)
        ensures
            final(self).is_watching == watching,
            final(self).watcher_status == old(self).watcher_status,
            final(self).config == old(self).config,
    {
        self.is_watching = watching;
    }

    /// Single-instance check made before any pipeline is built: refused while a
    /// session is live.
    pub fn request_start(&self) -> (r: Result<(), String>)
        ensures
            (r is Err <==> start_refused(self.lifecycle())),
            (r matches Err(e) ==> e@ == already_running_message()),
    {
        if self.is_watching {
            Err(String::from_str("Watcher is already running"))
        } else {
            Ok(())
        }
    }

    /// Start of a watch session on `directory`, given whether its pipeline came
    /// up (`pipeline`). While a session is live the start is refused and
    /// nothing changes; a pipeline error is returned with nothing changed;
    /// otherwise the session is live.
    pub fn start_watcher(&mut self, directory: &str, pipeline: Result<(), String>) -> (r: Result<String, String>)
        ensures
            final(self).config == old(self).config,
            start_refused(old(self).lifecycle()) ==> {
                &&& r matches Err(e) && e@ == already_running_message()
                &&& final(self).lifecycle() == old(self).lifecycle()
            },
            !start_refused(old(self).lifecycle()) && pipeline is Err ==> {
                &&& r == Err::<String, String>(pipeline->Err_0)
                &&& final(self).lifecycle() == old(self).lifecycle()
            },
            !start_refused(old(self).lifecycle()) && pipeline is Ok ==> {
                &&& r matches Ok(m) && m@ == started_message(directory@)
                &&& final(self).lifecycle() == started()
            },
    {
        if self.is_watching {
            return Err(String::from_str("Watcher is already running"));
        }
        match pipeline {
            Err(e) => Err(e),
            Ok(()) => {
                self.is_watching = true;
                self.watcher_status = WatcherStatus::Running;
                let m = String::from_str("Started watching: ").concat(directory);
                Ok(m)
            },
        }
    }

    /// End of the watch session: `Ok(false)` and no change when none is live,
    /// else the status is `Stopped` and the result `Ok(true)`.
    pub fn stop_watcher(&mut self) -> (r: Result<bool, String>)
        ensures
            r == Ok::<bool, String>(stop_outcome(old(self).lifecycle()).0),
            final(self).lifecycle() == stop_outcome(old(self).lifecycle()).1,
            final(self).config == old(self).config,
    {
        if !self.is_watching {
            return Ok(false);
        }
        match stop_log_watcher() {
            Err(e) => Err(e),
            Ok(_) => {
                self.is_watching = false;
                self.watcher_status = WatcherStatus::Stopped;
                Ok(true)
            },
        }
    }

    /// A fatal pipeline error: the status carries `message` and a new start is
    /// possible.
    pub fn watch_failed(&mut self, message: String)
        ensures
            final(self).lifecycle() == failed(message),
            final(self).config == old(self).config,
    {
        self.watcher_status = WatcherStatus::Error(message);
        self.is_watching = false;
    }
}

/// Every lifecycle transition keeps status and flag in agreement.
pub proof fn lemma_transitions_consistent(l: Lifecycle, message: String)
    requires
        consistent(l),
    ensures
        consistent(initial_lifecycle()),
        consistent(started()),
        consistent(stop_outcome(l).1),
        consistent(failed(message)),
{
}

/// A second start without a stop in between is refused, and the first
/// session stays `Running`.
pub proof fn lemma_second_start_refused()
    ensures
        start_refused(started()),
        started().0 == WatcherStatus::Running,
{
}

/// Stopping a watcher that was never started reports `false` and leaves the
/// status `Stopped`.
pub proof fn lemma_stop_unstarted(l: Lifecycle)
    requires
        l == initial_lifecycle(),
    ensures
        stop_outcome(l) == (false, l),
        stop_outcome(l).1.0 == WatcherStatus::Stopped,
{
}

} // verus!
