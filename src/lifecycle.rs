//! The open / modify / close lifecycle of the expected lock file.

use vstd::prelude::*;
use crate::alphabet::OrderingAlphabet;
use crate::classifier::{
    FsEvent,
    FsEventKind,
    first_file_name,
    get_filename_from_event,
    is_expected_file,
    is_same_file,
    matches_path,
};
use crate::selector::{listing_view, selected};

verus! {

/// What the watcher is configured with; every field is plain text.
pub struct WatchConfig {
    pub listened_directory: String,
    pub filename_prefix: String,
    pub hidden_filename_prefix: String,
    pub ext_name: String,
    pub script_directory: String,
    pub script_filename: String,
    pub env_name: String,
}

/// What the event loop does after an event.
#[derive(Clone, Copy, Debug, PartialEq, Eq, Structural)]
pub enum Action {
    /// Go on with the next event.
    Continue,
    /// An edit session is complete: run the processing action once, then go on.
    Fire,
    /// Stop consuming events.
    Stop,
}

/// The tracker's state as a mathematical value.
pub struct Lifecycle {
    pub open: bool,
    pub modified: bool,
    pub lock_name: Option<Seq<char>>,
}

/// No lock file is being tracked.
pub open spec fn idle() -> Lifecycle {
    Lifecycle { open: false, modified: false, lock_name: None }
}

/// `lock_name` is set exactly while the lock file is open, and a modification
/// is only recorded while it is open.
pub open spec fn lifecycle_wf(s: Lifecycle) -> bool {
    &&& s.lock_name is Some <==> s.open
    &&& !s.open ==> !s.modified
}

/// One transition. `name` is the event's file name; `opens` says whether the
/// event is about the expected hidden lock file, `modifies` whether it is about
/// the expected visible file.
pub open spec fn step(
    s: Lifecycle,
    kind: FsEventKind,
    name: Option<Seq<char>>,
    opens: bool,
    modifies: bool,
) -> (Lifecycle, Action) {
    match kind {
        FsEventKind::Create => if opens {
            let lock = match name {
                Some(n) => n,
                None => Seq::empty(),
            };
            (Lifecycle { open: true, modified: false, lock_name: Some(lock) }, Action::Continue)
        } else {
            (s, Action::Continue)
        },
        FsEventKind::Modify => if s.open && modifies {
            (Lifecycle { modified: true, ..s }, Action::Continue)
        } else {
            (s, Action::Continue)
        },
        FsEventKind::Remove => if s.open && s.modified && s.lock_name is Some && name == s.lock_name {
            (idle(), Action::Fire)
        } else {
            (s, Action::Continue)
        },
        FsEventKind::Access => (s, Action::Continue),
        FsEventKind::Other => (s, Action::Stop),
    }
}

/// Whether the event is about the expected file of the listing, hidden or visible.
pub open spec fn about_expected(
    event: &FsEvent,
    entries: Seq<String>,
    config: &WatchConfig,
    symbols: Seq<Seq<char>>,
    is_hidden_file: bool,
) -> bool {
    matches_path(
        event.paths_view(),
        selected(
            listing_view(entries),
            config.filename_prefix@,
            config.hidden_filename_prefix@,
            config.ext_name@,
            symbols,
            is_hidden_file,
        ),
    )
}

/// The tracker's state: whether the expected lock file is open, whether the
/// expected file was modified since, and the lock file's name while open.
pub struct LifecycleState {
    pub hidden_file_open: bool,
    pub modified_since_open: bool,
    pub tracked_filename: Option<String>,
}

impl View for LifecycleState {
    type V = Lifecycle;

    open spec fn view(&self) -> Lifecycle {
        Lifecycle {
            open: self.hidden_file_open,
            modified: self.modified_since_open,
            lock_name: match &self.tracked_filename {
                Some(t) => Some(t@),
                None => None,
            },
        }
    }
}

impl LifecycleState {
    /// The state is well formed: see `lifecycle_wf`.
    pub open spec fn wf(&self) -> bool {
        lifecycle_wf(self@)
    }

    /// A tracker with no lock file open.
    pub fn new() -> (r: Self)
        ensures
            r@ == idle(),
            r.wf(),
    {
        LifecycleState { hidden_file_open: false, modified_since_open: false, tracked_filename: None }
    }

    /// Whether a lock file is being tracked.
    pub fn is_tracking(&self) -> (r: bool)
        ensures
            r == self@.open,
    {
        self.hidden_file_open
    }

    /// Consumes one event. `entries` is the watched directory's listing at the
    /// moment of the event, from which the expected file is chosen afresh.
    pub fn on_event(
        &mut self,
        event: &FsEvent,
        entries: &Vec<String>,
        config: &WatchConfig,
        tiangan_order: &OrderingAlphabet,
    ) -> (r: Action)
        requires
            old(self).wf(),
        ensures
            final(self).wf(),
            (final(self)@, r) == step(
                old(self)@,
                event.kind,
                first_file_name(event.paths_view()),
                about_expected(event, entries@, config, tiangan_order@, true),
                about_expected(event, entries@, config, tiangan_order@, false),
            ),
    {
        match event.kind {
            FsEventKind::Create => {
                if is_expected_file(
                    event,
                    entries,
                    config.filename_prefix.as_str(),
                    config.hidden_filename_prefix.as_str(),
                    config.ext_name.as_str(),
                    tiangan_order,
                    true,
                ) {
                    let name = match get_filename_from_event(event) {
                        Some(n) => n,
                        None => String::new(),
                    };
                    self.tracked_filename = Some(name);
                    self.hidden_file_open = true;
                    self.modified_since_open = false;
                }
                Action::Continue
            },
            FsEventKind::Modify => {
                if self.hidden_file_open && is_expected_file(
                    event,
                    entries,
                    config.filename_prefix.as_str(),
                    config.hidden_filename_prefix.as_str(),
                    config.ext_name.as_str(),
                    tiangan_order,
                    false,
                ) {
                    self.modified_since_open = true;
                }
                Action::Continue
            },
            FsEventKind::Remove => {
                let closes = match &self.tracked_filename {
                    Some(t) => self.hidden_file_open && self.modified_since_open && is_same_file(
                        event,
                        t.as_str(),
                    ),
                    None => false,
                };
                if closes {
                    self.tracked_filename = None;
                    self.hidden_file_open = false;
                    self.modified_since_open = false;
                    Action::Fire
                } else {
                    Action::Continue
                }
            },
            FsEventKind::Access => Action::Continue,
            FsEventKind::Other => Action::Stop,
        }
    }
}

/// Opening the expected lock file `name`, modifying the expected file and
/// removing `name` fires exactly once: on the removal.
pub proof fn lemma_edit_session_fires_once(
    s: Lifecycle,
    name: Seq<char>,
    modify_name: Option<Seq<char>>,
    open_modifies: bool,
    modify_opens: bool,
    remove_opens: bool,
    remove_modifies: bool,
)
    requires
        lifecycle_wf(s),
    ensures
        ({
            let (s1, a1) = step(s, FsEventKind::Create, Some(name), true, open_modifies);
            let (s2, a2) = step(s1, FsEventKind::Modify, modify_name, modify_opens, true);
            let (s3, a3) = step(s2, FsEventKind::Remove, Some(name), remove_opens, remove_modifies);
            a1 != Action::Fire && a2 != Action::Fire && a3 == Action::Fire && s3 == idle()
        }),
{
}

/// Opening the expected lock file and removing it with no modification in
/// between does not fire, and leaves the tracker open.
pub proof fn lemma_close_without_modify_does_not_fire(
    s: Lifecycle,
    name: Seq<char>,
    open_modifies: bool,
    remove_opens: bool,
    remove_modifies: bool,
)
    requires
        lifecycle_wf(s),
    ensures
        ({
            let (s1, a1) = step(s, FsEventKind::Create, Some(name), true, open_modifies);
            let (s2, a2) = step(s1, FsEventKind::Remove, Some(name), remove_opens, remove_modifies);
            a1 != Action::Fire && a2 != Action::Fire && s2.open
        }),
{
}

/// After opening `name` and modifying the expected file, removing another
/// file does not fire, and the tracker keeps tracking `name`.
pub proof fn lemma_other_removal_keeps_tracking(
    s: Lifecycle,
    name: Seq<char>,
    other: Option<Seq<char>>,
    modify_name: Option<Seq<char>>,
    open_modifies: bool,
    modify_opens: bool,
    remove_opens: bool,
    remove_modifies: bool,
)
    requires
        lifecycle_wf(s),
        other != Some(name),
    ensures
        ({
            let (s1, a1) = step(s, FsEventKind::Create, Some(name), true, open_modifies);
            let (s2, a2) = step(s1, FsEventKind::Modify, modify_name, modify_opens, true);
            let (s3, a3) = step(s2, FsEventKind::Remove, other, remove_opens, remove_modifies);
            a3 == Action::Continue && s3 == s2 && s3.open && s3.lock_name == Some(name)
        }),
{
}

/// A firing removal returns the tracker to idle, so the same session played
/// again fires a second time.
pub proof fn lemma_fire_rearms(
    s: Lifecycle,
    name: Seq<char>,
    modify_name: Option<Seq<char>>,
    open_modifies: bool,
    modify_opens: bool,
    remove_opens: bool,
    remove_modifies: bool,
)
    requires
        lifecycle_wf(s),
    ensures
        ({
            let (s1, _) = step(s, FsEventKind::Create, Some(name), true, open_modifies);
            let (s2, _) = step(s1, FsEventKind::Modify, modify_name, modify_opens, true);
            let (s3, a3) = step(s2, FsEventKind::Remove, Some(name), remove_opens, remove_modifies);
            let (t1, _) = step(s3, FsEventKind::Create, Some(name), true, open_modifies);
            let (t2, _) = step(t1, FsEventKind::Modify, modify_name, modify_opens, true);
            let (t3, b3) = step(t2, FsEventKind::Remove, Some(name), remove_opens, remove_modifies);
            a3 == Action::Fire && s3 == idle() && b3 == Action::Fire && t3 == idle()
        }),
{
}

/// An access event leaves any state as it is and lets the loop go on.
pub proof fn lemma_access_keeps_state(
    s: Lifecycle,
    name: Option<Seq<char>>,
    opens: bool,
    modifies: bool,
)
    ensures
        step(s, FsEventKind::Access, name, opens, modifies) == (s, Action::Continue),
{
}

/// An event of any other kind stops the loop and leaves the state as it is.
pub proof fn lemma_other_kind_stops(s: Lifecycle, name: Option<Seq<char>>, opens: bool, modifies: bool)
    ensures
        step(s, FsEventKind::Other, name, opens, modifies) == (s, Action::Stop),
{
}

/// Every transition keeps the state well formed.
pub proof fn lemma_step_keeps_wf(
    s: Lifecycle,
    kind: FsEventKind,
    name: Option<Seq<char>>,
    opens: bool,
    modifies: bool,
)
    requires
        lifecycle_wf(s),
    ensures
        lifecycle_wf(step(s, kind, name, opens, modifies).0),
{
}

} // verus!
