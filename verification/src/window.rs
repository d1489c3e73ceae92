//! The window directory: validated handle models for windows and their
//! owning processes, the discovery filter, the search over discovered
//! entries, and the focus-raising plan.
//!
//! The application layer performs the window-system calls (enumeration,
//! title and name reads, z-order and focus changes) and hands their results
//! here as plain values; every decision about those values is made and
//! verified in this module.

use vstd::prelude::*;

use crate::error::Error;
use crate::text::{contains_str, contains_sub, lemma_lex_trans, lex_le, str_le};

verus! {

/// A query-only handle to a running process, validated at construction:
/// the platform's null handle is never held, and the identifier is fixed.
#[derive(Debug)]
pub struct Process {
    process_id: u32,
    handle: u64,
}

impl Process {
    /// The identifier of the process the handle was opened for.
    pub closed spec fn spec_process_id(&self) -> u32 {
        self.process_id
    }

    /// The raw platform handle value.
    pub closed spec fn spec_handle(&self) -> u64 {
        self.handle
    }

    /// The handle is non-null for the lifetime of the object.
    pub open spec fn wf(&self) -> bool {
        self.spec_handle() != 0
    }

    /// Takes ownership of a query-only process handle the application layer
    /// obtained for `process_id`. A null handle (the platform's signal that
    /// the process no longer exists or access was denied) is never accepted.
    pub fn open(process_id: u32, handle: u64) -> (p: Process)
        requires
            handle != 0,
        ensures
            p.wf(),
            p.spec_process_id() == process_id,
            p.spec_handle() == handle,
    {
        Process { process_id, handle }
    }

    /// The identifier the handle was opened for.
    pub fn process_id(&self) -> (id: u32)
        ensures
            id == self.spec_process_id(),
    {
        self.process_id
    }

    /// The raw handle value, for the application layer's platform calls.
    pub fn handle(&self) -> (h: u64)
        ensures
            h == self.spec_handle(),
    {
        self.handle
    }
}

/// A top-level window, validated at construction: the window handle is
/// non-null, the creating thread's identifier is fixed, and the window owns
/// exactly one handle to its owning process.
#[derive(Debug)]
pub struct Window {
    handle: u64,
    thread_id: u32,
    process: Process,
}

impl Window {
    /// The raw window handle value.
    pub closed spec fn spec_handle(&self) -> u64 {
        self.handle
    }

    /// The identifier of the thread that created the window.
    pub closed spec fn spec_thread_id(&self) -> u32 {
        self.thread_id
    }

    /// The owned handle to the window's owning process.
    pub closed spec fn spec_process(&self) -> Process {
        self.process
    }

    /// Both handles are valid: the window handle is non-null and the owned
    /// process handle is well formed.
    pub open spec fn wf(&self) -> bool {
        self.spec_handle() != 0 && self.spec_process().wf()
    }

    /// Resolves a raw window handle, the creating thread's identifier and the
    /// opened owning process into a validated window. A null raw handle is
    /// never accepted.
    pub fn open(handle: u64, thread_id: u32, process: Process) -> (w: Window)
        requires
            handle != 0,
            process.wf(),
        ensures
            w.wf(),
            w.spec_handle() == handle,
            w.spec_thread_id() == thread_id,
            w.spec_process() == process,
    {
        Window { handle, thread_id, process }
    }

    /// The identifier of the thread that created the window.
    pub fn thread_id(&self) -> (t: u32)
        ensures
            t == self.spec_thread_id(),
    {
        self.thread_id
    }

    /// The owning process of the window.
    pub fn process(&self) -> (p: &Process)
        ensures
            *p == self.spec_process(),
    {
        &self.process
    }

    /// The raw handle value, for the application layer's platform calls.
    pub fn handle(&self) -> (h: u64)
        ensures
            h == self.spec_handle(),
    {
        self.handle
    }

    /// The fixed sequence of window-system calls that reliably raises and
    /// focuses this window: a z-order pulse into and out of the always-on-top
    /// band, then the three focus primitives in turn. The application layer
    /// performs the calls in exactly this order, consulting
    /// [`failure_aborts`] after each failing one.
    pub fn pop_focus(&self) -> (plan: Vec<FocusAction>)
        ensures
            plan@ == pop_focus_plan(),
    {
        let mut plan: Vec<FocusAction> = Vec::new();
        plan.push(FocusAction::SetPosition { topmost: true, show: false });
        plan.push(FocusAction::SetPosition { topmost: false, show: true });
        plan.push(FocusAction::SetForeground);
        plan.push(FocusAction::SetFocus);
        plan.push(FocusAction::SetActive);
        assert(plan@ =~= pop_focus_plan());
        plan
    }
}

/// One window-system call of the focus-raising sequence. A position change
/// never moves or resizes the window and never forces a redraw; it only
/// reorders it in the z-order and, with `show` set, forces it to be shown.
#[derive(Clone, Copy, Debug, PartialEq, Eq, Structural)]
pub enum FocusAction {
    SetPosition { topmost: bool, show: bool },
    SetForeground,
    SetFocus,
    SetActive,
}

/// The focus-raising sequence: topmost set, non-topmost show, foreground
/// request, focus request, active request — in this order and no other.
pub open spec fn pop_focus_plan() -> Seq<FocusAction> {
    seq![
        FocusAction::SetPosition { topmost: true, show: false },
        FocusAction::SetPosition { topmost: false, show: true },
        FocusAction::SetForeground,
        FocusAction::SetFocus,
        FocusAction::SetActive,
    ]
}

/// Whether a failing sub-call aborts the focus-raising sequence: the
/// foreground request is best-effort and its failure is ignored; a failure
/// of any other step stops the sequence at once, and the z-order changes
/// already applied are not rolled back.
pub open spec fn spec_failure_aborts(a: FocusAction) -> bool {
    !(a is SetForeground)
}

/// Whether a failure of sub-call `a` aborts the focus-raising sequence.
pub fn failure_aborts(a: &FocusAction) -> (r: bool)
    ensures
        r == spec_failure_aborts(*a),
{
    match a {
        FocusAction::SetForeground => false,
        _ => true,
    }
}

/// A window title that belongs to an input-method-editor helper window,
/// excluded from discovery by default.
pub open spec fn ime_title(title: Seq<char>) -> bool {
    contains_sub(title, "Default IME"@) || contains_sub(title, "MSCTFIME UI"@)
}

/// What the application layer resolved for one enumerated top-level window,
/// probing in this order: open the owning process, read the process name,
/// read the window title.
pub enum Probe {
    /// The owning process could not be opened (the window may have closed
    /// between enumeration and resolution): the window is silently skipped.
    OpenFailed,
    /// The process-name read failed with this platform error code: discovery
    /// as a whole fails with it.
    NameFailed(u32),
    /// The title read failed or came back empty: the window is skipped.
    TitleFailed,
    /// Fully resolved: process display name, window title, validated window.
    Resolved(String, String, Window),
}

/// The platform error code of the first failed process-name read, if any:
/// the error discovery surfaces.
pub open spec fn discovery_error(probes: Seq<Probe>) -> Option<u32>
    decreases probes.len(),
{
    if probes.len() == 0 {
        None
    } else {
        match probes[0] {
            Probe::NameFailed(code) => Some(code),
            _ => discovery_error(probes.skip(1)),
        }
    }
}

/// The directory entries discovery produces from the probes, in probe order:
/// every fully resolved window, except — unless `all` is set — those whose
/// title marks an input-method-editor helper window.
pub open spec fn directory_of(probes: Seq<Probe>, all: bool) -> Seq<(String, String, Window)>
    decreases probes.len(),
{
    if probes.len() == 0 {
        Seq::empty()
    } else {
        let rest = directory_of(probes.skip(1), all);
        match probes[0] {
            Probe::Resolved(name, title, window) => {
                if all || !ime_title(title@) {
                    seq![(name, title, window)] + rest
                } else {
                    rest
                }
            },
            _ => rest,
        }
    }
}

/// No entry the directory keeps under the default exclusion has an
/// input-method-editor helper title.
pub proof fn lemma_directory_excludes_ime(probes: Seq<Probe>)
    ensures
        forall|k: int|
            0 <= k < directory_of(probes, false).len() ==> !ime_title(
                #[trigger] directory_of(probes, false)[k].1@,
            ),
    decreases probes.len(),
{
    if probes.len() > 0 {
        lemma_directory_excludes_ime(probes.skip(1));
        let rest = directory_of(probes.skip(1), false);
        let whole = directory_of(probes, false);
        assert forall|k: int| 0 <= k < whole.len() implies !ime_title(whole[k].1@) by {
            match probes[0] {
                Probe::Resolved(name, title, window) => {
                    if !ime_title(title@) {
                        assert(whole == seq![(name, title, window)] + rest);
                        if k > 0 {
                            assert(whole[k] == rest[k - 1]);
                        }
                    } else {
                        assert(whole == rest);
                    }
                },
                Probe::OpenFailed => {
                    assert(whole == rest);
                },
                Probe::NameFailed(_) => {
                    assert(whole == rest);
                },
                Probe::TitleFailed => {
                    assert(whole == rest);
                },
            }
        }
    }
}

/// Builds the window directory from the application layer's probes, freshly
/// computed on every request. Succeeds with every fully resolved window, in
/// probe order, excluding input-method-editor helper windows unless `all` is
/// set; fails with the platform code of the first failed process-name read,
/// exactly when there is one. Windows whose process could not be opened or
/// whose title could not be read are silently skipped.
pub fn get_windows(probes: Vec<Probe>, all: bool) -> (r: Result<
    Vec<(String, String, Window)>,
    Error,
>)
    ensures
        match r {
            Ok(entries) => discovery_error(probes@) is None && entries@ == directory_of(
                probes@,
                all,
            ),
            Err(e) => discovery_error(probes@) matches Some(code) && e == Error::Os(code),
        },
        !all ==> (r matches Ok(entries) ==> forall|k: int|
            0 <= k < entries@.len() ==> !ime_title(#[trigger] entries@[k].1@)),
{
    let ghost all_probes = probes@;
    let mut work = probes;
    let mut entries: Vec<(String, String, Window)> = Vec::new();
    let ghost n = all_probes.len();
    let ghost mut i: int = 0;
    proof {
        assert(all_probes.skip(0) =~= all_probes);
    }
    while work.len() > 0
        invariant
            probes@ == all_probes,
            0 <= i <= n,
            n == all_probes.len(),
            work@ =~= all_probes.skip(i),
            discovery_error(all_probes) == discovery_error(all_probes.skip(i)),
            directory_of(all_probes, all) =~= entries@ + directory_of(all_probes.skip(i), all),
        decreases work@.len(),
    {
        let ghost before = all_probes.skip(i);
        let p = work.remove(0);
        proof {
            assert(before[0] == p);
            assert(before.skip(1) =~= all_probes.skip(i + 1));
        }
        match p {
            Probe::OpenFailed => {},
            Probe::TitleFailed => {},
            Probe::NameFailed(code) => {
                proof {
                    assert(before == all_probes.skip(i));
                    assert(discovery_error(before) == Some(code));
                    assert(discovery_error(all_probes) == Some(code));
                }
                return Err(Error::Os(code));
            },
            Probe::Resolved(name, title, window) => {
                let keep = all || !(contains_str(title.as_str(), "Default IME") || contains_str(
                    title.as_str(),
                    "MSCTFIME UI",
                ));
                if keep {
                    let ghost old_entries = entries@;
                    entries.push((name, title, window));
                    proof {
                        assert(entries@ =~= old_entries + seq![entries@[old_entries.len() as int]]);
                    }
                }
            },
        }
        proof {
            i = i + 1;
        }
    }
    proof {
        assert(all_probes.skip(n as int) =~= Seq::<Probe>::empty());
        assert(directory_of(all_probes, all) =~= entries@);
        if !all {
            lemma_directory_excludes_ime(all_probes);
        }
    }
    Ok(entries)
}

/// Checks the search predicates the caller supplied: at least one of the
/// window-title and process-name predicates must be present. An absent one
/// becomes the empty predicate, which matches everything.
pub fn validate_search(window_title: Option<String>, window_process_name: Option<String>) -> (r:
    Result<(String, String), Error>)
    ensures
        match r {
            Err(e) => {
                &&& e == Error::IncompleteSearchArgument
                &&& window_title is None
                &&& window_process_name is None
            },
            Ok(pair) => {
                &&& !(window_title is None && window_process_name is None)
                &&& pair.0@ == match window_title {
                    Some(t) => t@,
                    None => Seq::<char>::empty(),
                }
                &&& pair.1@ == match window_process_name {
                    Some(n) => n@,
                    None => Seq::<char>::empty(),
                }
            },
        },
{
    match (window_title, window_process_name) {
        (None, None) => Err(Error::IncompleteSearchArgument),
        (title, name) => {
            let t = match title {
                Some(t) => t,
                None => String::new(),
            };
            let n = match name {
                Some(n) => n,
                None => String::new(),
            };
            Ok((t, n))
        },
    }
}

/// A discovered entry matches the search: its process name contains the
/// process-name predicate and its title contains the title predicate; an
/// empty predicate matches everything.
pub open spec fn entry_matches(
    entry: (String, String, Window),
    search_title: Seq<char>,
    search_process_name: Seq<char>,
) -> bool {
    contains_sub(entry.0@, search_process_name) && contains_sub(entry.1@, search_title)
}

/// Filters the discovered entries by the search predicates: the result holds
/// the positions of exactly those entries whose process name contains
/// `search_process_name` and whose title contains `search_title`, in
/// discovery order; an empty predicate matches everything.
pub fn matching_windows(
    windows: &Vec<(String, String, Window)>,
    search_title: &str,
    search_process_name: &str,
) -> (r: Vec<usize>)
    ensures
        forall|k: int|
            0 <= k < r@.len() ==> r@[k] < windows@.len() && entry_matches(
                windows@[r@[k] as int],
                search_title@,
                search_process_name@,
            ),
        forall|k1: int, k2: int| 0 <= k1 < k2 < r@.len() ==> r@[k1] < r@[k2],
        forall|j: int|
            0 <= j < windows@.len() && entry_matches(
                windows@[j],
                search_title@,
                search_process_name@,
            ) ==> r@.contains(j as usize),
{
    let n = windows.len();
    let mut r: Vec<usize> = Vec::new();
    let mut j: usize = 0;
    while j < n
        invariant
            n == windows@.len(),
            j <= n,
            forall|k: int|
                0 <= k < r@.len() ==> r@[k] < j && entry_matches(
                    windows@[r@[k] as int],
                    search_title@,
                    search_process_name@,
                ),
            forall|k1: int, k2: int| 0 <= k1 < k2 < r@.len() ==> r@[k1] < r@[k2],
            forall|i: int|
                0 <= i < j && entry_matches(
                    windows@[i],
                    search_title@,
                    search_process_name@,
                ) ==> r@.contains(i as usize),
        decreases n - j,
    {
        let entry = &windows[j];
        let matched = contains_str(entry.0.as_str(), search_process_name) && contains_str(
            entry.1.as_str(),
            search_title,
        );
        if matched {
            let ghost old_r = r@;
            r.push(j);
            proof {
                assert(r@[r@.len() - 1] == j);
                assert forall|i: int| 0 <= i < old_r.len() implies r@.contains(
                    #[trigger] old_r[i],
                ) by {
                    assert(r@[i] == old_r[i]);
                }
            }
        }
        j += 1;
    }
    r
}

/// Searches the discovered entries for the window to focus: among the
/// entries whose process name contains `search_process_name` and whose title
/// contains `search_title` (case-sensitive substring containment, an empty
/// predicate matching everything), the one whose process name is
/// alphabetically first wins, and of several with that same name the one
/// discovered first. Fails with `WindowNotFound` exactly when no entry
/// matches.
pub fn find_window(
    windows: &Vec<(String, String, Window)>,
    search_title: &str,
    search_process_name: &str,
) -> (r: Result<usize, Error>)
    ensures
        match r {
            Ok(i) => {
                &&& i < windows@.len()
                &&& entry_matches(windows@[i as int], search_title@, search_process_name@)
                &&& forall|j: int|
                    0 <= j < windows@.len() && entry_matches(
                        windows@[j],
                        search_title@,
                        search_process_name@,
                    ) ==> lex_le(windows@[i as int].0@, windows@[j].0@)
                &&& forall|j: int|
                    0 <= j < i && entry_matches(
                        windows@[j],
                        search_title@,
                        search_process_name@,
                    ) ==> windows@[j].0@ != windows@[i as int].0@
            },
            Err(e) => e == Error::WindowNotFound && forall|j: int|
                0 <= j < windows@.len() ==> !entry_matches(
                    windows@[j],
                    search_title@,
                    search_process_name@,
                ),
        },
{
    let n = windows.len();
    let mut best: Option<usize> = None;
    let mut j: usize = 0;
    while j < n
        invariant
            n == windows@.len(),
            j <= n,
            match best {
                None => forall|k: int|
                    0 <= k < j ==> !entry_matches(windows@[k], search_title@, search_process_name@),
                Some(b) => {
                    &&& b < j
                    &&& entry_matches(windows@[b as int], search_title@, search_process_name@)
                    &&& forall|k: int|
                        0 <= k < j && entry_matches(
                            windows@[k],
                            search_title@,
                            search_process_name@,
                        ) ==> lex_le(windows@[b as int].0@, windows@[k].0@)
                    &&& forall|k: int|
                        0 <= k < b && entry_matches(
                            windows@[k],
                            search_title@,
                            search_process_name@,
                        ) ==> windows@[k].0@ != windows@[b as int].0@
                },
            },
        decreases n - j,
    {
        let entry = &windows[j];
        let matched = contains_str(entry.0.as_str(), search_process_name) && contains_str(
            entry.1.as_str(),
            search_title,
        );
        if matched {
            match best {
                None => {
                    proof {
                        crate::text::lemma_lex_refl(windows@[j as int].0@);
                    }
                    best = Some(j);
                },
                Some(b) => {
                    let better = !str_le(windows[b].0.as_str(), entry.0.as_str());
                    if better {
                        proof {
                            crate::text::lemma_lex_refl(windows@[j as int].0@);
                            crate::text::lemma_lex_total(
                                windows@[b as int].0@,
                                windows@[j as int].0@,
                            );
                            assert(lex_le(windows@[j as int].0@, windows@[b as int].0@));
                            assert forall|k: int|
                                0 <= k < j && entry_matches(
                                    windows@[k],
                                    search_title@,
                                    search_process_name@,
                                ) implies lex_le(windows@[j as int].0@, windows@[k].0@) by {
                                lemma_lex_trans(
                                    windows@[j as int].0@,
                                    windows@[b as int].0@,
                                    windows@[k].0@,
                                );
                            }
                            assert forall|k: int|
                                0 <= k < j && entry_matches(
                                    windows@[k],
                                    search_title@,
                                    search_process_name@,
                                ) implies windows@[k].0@ != windows@[j as int].0@ by {
                                if windows@[k].0@ == windows@[j as int].0@ {
                                    assert(lex_le(windows@[b as int].0@, windows@[k].0@));
                                }
                            }
                        }
                        best = Some(j);
                    }
                },
            }
        }
        j += 1;
    }
    match best {
        None => Err(Error::WindowNotFound),
        Some(b) => Ok(b),
    }
}

} // verus!
