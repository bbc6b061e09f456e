//! Resolution and bootstrap of the application's per-user data and
//! configuration directories.
//!
//! [`Cfg::new`] resolves the host's standard per-user data and configuration
//! directories and appends the application's own subdirectory to each.
//! [`Cfg::initialize`] opens an [`Init`] session that decides, target by
//! target, whether a directory or placeholder file has to be created; the
//! caller performs the filesystem work and reports each outcome back, so
//! that every decision — skip what exists, create what is missing, abort on
//! the first failure — is made here.

use vstd::prelude::*;

verus! {

/// The application's subdirectory segment, preceded by a path separator, as
/// it is appended to each standard base directory.
pub open spec fn app_sub_dir() -> Seq<char> {
    "/nsynk"@
}

/// The database file's name, relative to the resolved data directory.
pub open spec fn db_file_rel() -> Seq<char> {
    "/nsynk.db"@
}

/// The configuration file's name, relative to the resolved configuration
/// directory.
pub open spec fn config_file_rel() -> Seq<char> {
    "/config.yml"@
}

/// `s` ends in `suffix`.
pub open spec fn ends_with(s: Seq<char>, suffix: Seq<char>) -> bool {
    suffix.len() <= s.len() && s.subrange(s.len() - suffix.len(), s.len() as int) == suffix
}

proof fn lemma_concat_ends_with(s: Seq<char>, suffix: Seq<char>)
    ensures
        ends_with(s + suffix, suffix),
{
    assert((s + suffix).subrange((s + suffix).len() - suffix.len(), (s + suffix).len() as int)
        =~= suffix);
}

/// The resolved per-user base paths of the application.
///
/// Both paths end in the application's own subdirectory segment; the handle
/// is fixed once resolved and carries no record of initialization.
pub struct Cfg {
    pub data_path: String,
    pub config_path: String,
}

/// Everything that resolution or initialization can fail with.
#[derive(Debug)]
pub enum Error {
    /// A resolved path could not be parsed. Reserved: no current operation
    /// produces it.
    ParseError(String),
    /// The host could not supply the named standard directory, or its path
    /// is not valid text. Carries which side — data or config — failed.
    PathError(String),
    /// An operating-system error, by its message, met while creating a
    /// directory or a file.
    IoError(String),
}

impl Error {
    /// The human-readable description of the error.
    pub open spec fn message_spec(self) -> Seq<char> {
        match self {
            Error::ParseError(p) => "Could not parse path to `"@ + p@ + "` folder"@,
            Error::PathError(p) => "Could not find `"@ + p@ + "` folder"@,
            Error::IoError(m) => m@,
        }
    }

    /// Renders the error as text for display.
    pub fn message(&self) -> (m: String)
        ensures
            m@ == self.message_spec(),
    {
        match self {
            Error::ParseError(p) => String::from_str("Could not parse path to `")
                .concat(p.as_str())
                .concat("` folder"),
            Error::PathError(p) => String::from_str("Could not find `")
                .concat(p.as_str())
                .concat("` folder"),
            Error::IoError(m) => m.clone(),
        }
    }
}

/// Relies on dirs::data_dir for the host's standard per-user data directory;
/// the result depends on the platform and the process environment, and is
/// `None` here also when the path is not valid UTF-8 text.
#[verifier::external_body]
fn os_data_dir() -> (r: Option<String>) {
    match dirs::data_dir() {
        None => None,
        Some(p) => match p.to_str() {
            None => None,
            Some(s) => Some(s.to_string()),
        },
    }
}

/// Relies on dirs::config_dir for the host's standard per-user configuration
/// directory; the result depends on the platform and the process
/// environment, and is `None` here also when the path is not valid UTF-8
/// text.
#[verifier::external_body]
fn os_config_dir() -> (r: Option<String>) {
    match dirs::config_dir() {
        None => None,
        Some(p) => match p.to_str() {
            None => None,
            Some(s) => Some(s.to_string()),
        },
    }
}

impl Cfg {
    /// Both resolved paths end in the application's subdirectory segment.
    pub open spec fn wf(self) -> bool {
        ends_with(self.data_path@, app_sub_dir()) && ends_with(self.config_path@, app_sub_dir())
    }

    /// Builds the handle from the base directories the host supplied, `None`
    /// standing for a side whose standard directory the host could not name
    /// as text. The data side is judged first, as resolution resolves it
    /// first.
    pub fn from_base_dirs(data_base: Option<String>, config_base: Option<String>) -> (r: Result<
        Cfg,
        Error,
    >)
        ensures
            data_base is None ==> (r matches Err(e) && e matches Error::PathError(w) && w@
                == "data"@),
            (data_base is Some && config_base is None) ==> (r matches Err(e) && e matches Error::PathError(w)
                && w@ == "config"@),
            data_base matches Some(d) ==> config_base matches Some(c) ==> (r matches Ok(cfg)
                && cfg.data_path@ == d@ + app_sub_dir() && cfg.config_path@ == c@ + app_sub_dir()),
    {
        match data_base {
            None => Err(Error::PathError(String::from_str("data"))),
            Some(d) => match config_base {
                None => Err(Error::PathError(String::from_str("config"))),
                Some(c) => Ok(
                    Cfg { data_path: d.concat("/nsynk"), config_path: c.concat("/nsynk") },
                ),
            },
        }
    }

    /// Resolves the host's standard per-user data and configuration
    /// directories and appends the application's subdirectory to each.
    ///
    /// No filesystem state is touched. The result is `Ok` exactly when both
    /// lookups supplied a directory with a valid text path; otherwise the
    /// error names the side that failed, the data side being resolved first
    /// and the configuration side not consulted after a data-side failure.
    pub fn new() -> (r: Result<Cfg, Error>)
        ensures
            r matches Ok(cfg) ==> cfg.wf(),
            r matches Err(e) ==> (e matches Error::PathError(w) && (w@ == "data"@ || w@
                == "config"@)),
    {
        let data_base = os_data_dir();
        let config_base = if data_base.is_some() {
            os_config_dir()
        } else {
            None
        };
        let ghost db = data_base;
        let ghost cb = config_base;
        let r = Cfg::from_base_dirs(data_base, config_base);
        proof {
            if db is Some && cb is Some {
                lemma_concat_ends_with(db->0@, app_sub_dir());
                lemma_concat_ends_with(cb->0@, app_sub_dir());
            }
        }
        r
    }
}

/// What kind of filesystem entry a target of initialization is.
#[derive(Clone, Copy, PartialEq, Eq, Structural, Debug)]
pub enum EntryKind {
    Directory,
    EmptyFile,
}

/// One target of initialization: an absolute path and what has to stand
/// there.
#[derive(Clone, Debug)]
struct Step {
    pub path: String,
    pub kind: EntryKind,
}

/// The four targets of initialization for the given directory paths, in the
/// order they are handled: both directories first, data before config, then
/// the two placeholder files.
pub open spec fn install_plan(data: Seq<char>, config: Seq<char>) -> Seq<(Seq<char>, EntryKind)> {
    seq![
        (data, EntryKind::Directory),
        (config, EntryKind::Directory),
        (data + db_file_rel(), EntryKind::EmptyFile),
        (config + config_file_rel(), EntryKind::EmptyFile),
    ]
}

/// The decision state of an initialization run: which target is next,
/// whether its creation has been commanded, and whether the run has
/// aborted.
pub struct RunState {
    pub next: int,
    pub awaiting: bool,
    pub aborted: bool,
}

/// The state in which a run begins: at the first target, with nothing
/// commanded and nothing failed.
pub open spec fn start_state() -> RunState {
    RunState { next: 0, awaiting: false, aborted: false }
}

pub open spec fn run_wf(s: RunState) -> bool {
    0 <= s.next <= 4 && (s.awaiting ==> s.next < 4 && !s.aborted)
}

/// The run still has a command for the caller.
pub open spec fn run_in_progress(s: RunState) -> bool {
    !s.aborted && s.next < 4
}

/// The run has handled all four targets without an error.
pub open spec fn run_completed(s: RunState) -> bool {
    !s.aborted && s.next == 4
}

/// The decision on a probe of the current target: a target found present is
/// left exactly as it is — no create is commanded for it — and the run
/// moves on; a missing one must be created before the run can move on.
pub open spec fn observe(s: RunState, present: bool) -> RunState {
    if present {
        RunState { next: s.next + 1, awaiting: false, aborted: s.aborted }
    } else {
        RunState { next: s.next, awaiting: true, aborted: s.aborted }
    }
}

/// The decision on the outcome of a commanded creation: success moves on to
/// the next target; failure aborts the whole run.
pub open spec fn record_create(s: RunState, ok: bool) -> RunState {
    if ok {
        RunState { next: s.next + 1, awaiting: false, aborted: s.aborted }
    } else {
        RunState { next: s.next, awaiting: false, aborted: true }
    }
}

/// An initialization session over the four targets of a [`Cfg`].
///
/// The session only decides; the caller performs the filesystem work. While
/// [`Init::pending`], the caller probes or creates the current target —
/// [`Init::must_create`] says which — and reports back through
/// [`Init::observed`] or [`Init::created`].
pub struct Init {
    steps: Vec<Step>,
    next: usize,
    awaiting_create: bool,
    failed: bool,
}

impl Init {
    /// The targets of the run: each path with its entry kind, in order.
    pub closed spec fn plan(self) -> Seq<(Seq<char>, EntryKind)> {
        self.steps@.map_values(|st: Step| (st.path@, st.kind))
    }

    /// The session's decision state.
    pub closed spec fn state(self) -> RunState {
        RunState {
            next: self.next as int,
            awaiting: self.awaiting_create,
            aborted: self.failed,
        }
    }

    pub open spec fn wf(self) -> bool {
        self.plan().len() == 4 && run_wf(self.state())
    }

    /// Whether the session still has a command for the caller.
    pub fn pending(&self) -> (b: bool)
        ensures
            b == run_in_progress(self.state()),
    {
        !self.failed && self.next < 4
    }

    /// Whether the run has handled all four targets without an error.
    pub fn completed(&self) -> (b: bool)
        ensures
            b == run_completed(self.state()),
    {
        !self.failed && self.next == 4
    }

    /// The path of the target the run is currently on.
    pub fn current_path(&self) -> (p: &String)
        requires
            self.wf(),
            run_in_progress(self.state()),
        ensures
            p@ == self.plan()[self.state().next].0,
    {
        &self.steps[self.next].path
    }

    /// Whether the current target is a directory or an empty file.
    pub fn current_kind(&self) -> (k: EntryKind)
        requires
            self.wf(),
            run_in_progress(self.state()),
        ensures
            k == self.plan()[self.state().next].1,
    {
        self.steps[self.next].kind
    }

    /// Whether the caller has been commanded to create the current target —
    /// a probe reported it missing. Otherwise the command is to probe it.
    pub fn must_create(&self) -> (b: bool)
        ensures
            b == self.state().awaiting,
    {
        self.awaiting_create
    }

    /// Records what a probe of the current target found, deciding as
    /// [`observe`] does: an existing target is never truncated or
    /// recreated — the run simply moves on — while a missing one is
    /// commanded to be created.
    pub fn observed(&mut self, present: bool)
        requires
            old(self).wf(),
            run_in_progress(old(self).state()),
            !old(self).state().awaiting,
        ensures
            final(self).wf(),
            final(self).plan() == old(self).plan(),
            final(self).state() == observe(old(self).state(), present),
    {
        if present {
            self.next = self.next + 1;
        } else {
            self.awaiting_create = true;
        }
    }

    /// Records the outcome of the commanded creation, `Err` carrying the
    /// operating-system error's message, and decides as [`record_create`]
    /// does: success moves on to the next target; failure aborts the whole
    /// run, and is surfaced wrapped as [`Error::IoError`].
    pub fn created(&mut self, outcome: Result<(), String>) -> (r: Result<(), Error>)
        requires
            old(self).wf(),
            run_in_progress(old(self).state()),
            old(self).state().awaiting,
        ensures
            final(self).wf(),
            final(self).plan() == old(self).plan(),
            final(self).state() == record_create(old(self).state(), outcome is Ok),
            outcome is Ok ==> r is Ok,
            outcome matches Err(m) ==> (r matches Err(e) && e matches Error::IoError(em) && em@
                == m@),
    {
        match outcome {
            Ok(()) => {
                self.next = self.next + 1;
                self.awaiting_create = false;
                Ok(())
            },
            Err(m) => {
                self.awaiting_create = false;
                self.failed = true;
                Err(Error::IoError(m))
            },
        }
    }
}

impl Cfg {
    /// Opens an initialization session over this handle's four targets: the
    /// data directory, the configuration directory, the empty database file
    /// under the first and the empty configuration file under the second,
    /// in that order.
    pub fn initialize(&self) -> (s: Init)
        ensures
            s.wf(),
            s.state() == start_state(),
            s.plan() == install_plan(self.data_path@, self.config_path@),
    {
        let mut steps: Vec<Step> = Vec::new();
        steps.push(Step { path: self.data_path.clone(), kind: EntryKind::Directory });
        steps.push(Step { path: self.config_path.clone(), kind: EntryKind::Directory });
        steps.push(
            Step { path: self.data_path.clone().concat("/nsynk.db"), kind: EntryKind::EmptyFile },
        );
        steps.push(
            Step {
                path: self.config_path.clone().concat("/config.yml"),
                kind: EntryKind::EmptyFile,
            },
        );
        let s = Init { steps, next: 0, awaiting_create: false, failed: false };
        proof {
            assert(s.plan() =~= install_plan(self.data_path@, self.config_path@));
        }
        s
    }
}

/// A well-formed handle holds two non-empty paths, each ending in the
/// application's subdirectory segment.
pub proof fn lemma_wf_paths_nonempty(cfg: Cfg)
    requires
        cfg.wf(),
    ensures
        cfg.data_path@.len() > 0,
        cfg.config_path@.len() > 0,
{
    reveal_strlit("/nsynk");
}

/// One probe round for every remaining target, each found present: the run
/// that a second `initialize` performs over a filesystem that an earlier
/// run has already set up fully.
pub open spec fn observe_all_present(s: RunState) -> RunState
    decreases 4 - s.next,
{
    if run_in_progress(s) && !s.awaiting {
        observe_all_present(observe(s, true))
    } else {
        s
    }
}

/// A target found present is skipped outright: the decision after such a
/// probe commands no create — the target is never truncated or recreated —
/// and the run moves on to the next target.
pub proof fn lemma_present_target_skipped(s: RunState)
    ensures
        !observe(s, true).awaiting,
        observe(s, true).next == s.next + 1,
        observe(s, true).aborted == s.aborted,
{
}

/// Re-initialization is harmless: from any live decision state with no
/// create outstanding, a run whose every probe finds its target present
/// completes without error.
pub proof fn lemma_rerun_completes_from(s: RunState)
    requires
        run_wf(s),
        !s.awaiting,
        !s.aborted,
    ensures
        run_completed(observe_all_present(s)),
    decreases 4 - s.next,
{
    if run_in_progress(s) {
        lemma_rerun_completes_from(observe(s, true));
    }
}

/// A second full initialization run over a filesystem where every target
/// already exists produces no error: each probe finds its target present,
/// nothing is commanded to be created, and the run completes.
pub proof fn lemma_rerun_completes()
    ensures
        run_completed(observe_all_present(start_state())),
{
    lemma_rerun_completes_from(start_state());
}

/// The first failure aborts the run: after a creation fails, the run is no
/// longer in progress, so no later target of the plan — which orders the
/// data directory before everything on the configuration side — is probed
/// or created.
pub proof fn lemma_failure_aborts(s: RunState)
    requires
        run_wf(s),
        run_in_progress(s),
        s.awaiting,
    ensures
        record_create(s, false).aborted,
        !run_in_progress(record_create(s, false)),
        record_create(s, false).next == s.next,
{
}

} // verus!
