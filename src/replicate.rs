use vstd::prelude::*;

use crate::entry::Entry;
use crate::text::{contains_text, has_substring};

verus! {

/// What copying one entry into the target folder takes, given what the target holds there.
#[derive(PartialEq, Eq, Structural, Clone, Copy, Debug)]
pub enum CopyStep {
    /// Nothing at the target path: link it to the source hash.
    Copy,
    /// The target path already holds the source hash.
    AlreadyPresent,
    /// The target path holds another hash: it is reported and left as it is.
    Conflict,
}

pub open spec fn copy_step_of(source_hash: Seq<char>, existing: Option<Seq<char>>) -> CopyStep {
    match existing {
        None => CopyStep::Copy,
        Some(h) => if h == source_hash {
            CopyStep::AlreadyPresent
        } else {
            CopyStep::Conflict
        },
    }
}

pub open spec fn opt_view(s: Option<String>) -> Option<Seq<char>> {
    match s {
        Some(x) => Some(x@),
        None => None,
    }
}

/// Decides the copy step for a source hash and the hash found at the target path, if any.
pub fn copy_step(source_hash: &String, existing: &Option<String>) -> (r: CopyStep)
    ensures
        r == copy_step_of(source_hash@, opt_view(*existing)),
{
    match existing {
        None => CopyStep::Copy,
        Some(h) => if *h == *source_hash {
            CopyStep::AlreadyPresent
        } else {
            CopyStep::Conflict
        },
    }
}

/// The phrase with which the store says that a path does not exist.
pub open spec fn missing_file_phrase() -> Seq<char> {
    seq![
        'f', 'i', 'l', 'e', ' ', 'd', 'o', 'e', 's', ' ', 'n', 'o', 't', ' ', 'e', 'x', 'i', 's', 't',
    ]
}

/// Whether the message of a failed stat says that the path does not exist.
pub fn missing_file_error(message: &str) -> (r: bool)
    ensures
        r == has_substring(message@, missing_file_phrase()),
{
    proof {
        reveal_strlit("file does not exist");
        assert("file does not exist"@ =~= missing_file_phrase());
    }
    contains_text(message, "file does not exist")
}

/// Path of `name` inside `folder` on the target store.
pub open spec fn child_path(folder: Seq<char>, name: Seq<char>) -> Seq<char> {
    folder + seq!['/'] + name
}

/// The store path that refers to content by its hash.
pub open spec fn hash_path(hash: Seq<char>) -> Seq<char> {
    seq!['/', 'i', 'p', 'f', 's', '/'] + hash
}

pub fn target_child_path(folder: &String, name: &String) -> (r: String)
    ensures
        r@ == child_path(folder@, name@),
{
    let mut r = folder.clone();
    proof {
        reveal_strlit("/");
    }
    r.append("/");
    r.append(name.as_str());
    r
}

pub fn content_path(hash: &String) -> (r: String)
    ensures
        r@ == hash_path(hash@),
{
    proof {
        reveal_strlit("/ipfs/");
        assert("/ipfs/"@ =~= seq!['/', 'i', 'p', 'f', 's', '/']);
    }
    let mut r = String::from_str("/ipfs/");
    r.append(hash.as_str());
    r
}

/// What the target folder holds under a name, if anything.
pub open spec fn lookup(d: Map<Seq<char>, Seq<char>>, name: Seq<char>) -> Option<Seq<char>> {
    if d.contains_key(name) {
        Some(d[name])
    } else {
        None
    }
}

/// The target folder's names and hashes after one entry's copy step.
pub open spec fn apply_entry(d: Map<Seq<char>, Seq<char>>, e: Entry) -> Map<Seq<char>, Seq<char>> {
    if copy_step_of(e.hash@, lookup(d, e.name@)) == CopyStep::Copy {
        d.insert(e.name@, e.hash@)
    } else {
        d
    }
}

/// The target folder's names and hashes after a run over `plan` starting from `d`.
pub open spec fn folder_after(plan: Seq<Entry>, d: Map<Seq<char>, Seq<char>>) -> Map<Seq<char>, Seq<char>>
    decreases plan.len(),
{
    if plan.len() == 0 {
        d
    } else {
        apply_entry(folder_after(plan.drop_last(), d), plan.last())
    }
}

/// How many copies a run over `plan` starting from `d` performs.
pub open spec fn copies_made(plan: Seq<Entry>, d: Map<Seq<char>, Seq<char>>) -> nat
    decreases plan.len(),
{
    if plan.len() == 0 {
        0
    } else {
        let before = folder_after(plan.drop_last(), d);
        copies_made(plan.drop_last(), d) + if copy_step_of(
            plan.last().hash@,
            lookup(before, plan.last().name@),
        ) == CopyStep::Copy {
            1nat
        } else {
            0nat
        }
    }
}

proof fn lemma_names_present(plan: Seq<Entry>, d: Map<Seq<char>, Seq<char>>)
    ensures
        forall|i: int| 0 <= i < plan.len() ==> folder_after(plan, d).contains_key(#[trigger] plan[i].name@),
        d.dom().subset_of(folder_after(plan, d).dom()),
    decreases plan.len(),
{
    if plan.len() > 0 {
        lemma_names_present(plan.drop_last(), d);
        assert forall|i: int| 0 <= i < plan.len() implies folder_after(plan, d).contains_key(
            #[trigger] plan[i].name@,
        ) by {
            if i < plan.len() - 1 {
                assert(plan.drop_last()[i] == plan[i]);
            }
        }
    }
}

proof fn lemma_nothing_to_copy(plan: Seq<Entry>, d: Map<Seq<char>, Seq<char>>)
    requires
        forall|i: int| 0 <= i < plan.len() ==> d.contains_key(#[trigger] plan[i].name@),
    ensures
        folder_after(plan, d) == d,
        copies_made(plan, d) == 0,
    decreases plan.len(),
{
    if plan.len() > 0 {
        assert forall|i: int| 0 <= i < plan.len() - 1 implies d.contains_key(
            #[trigger] plan.drop_last()[i].name@,
        ) by {
            assert(plan.drop_last()[i] == plan[i]);
        }
        lemma_nothing_to_copy(plan.drop_last(), d);
        assert(d.contains_key(plan[plan.len() - 1].name@));
    }
}

/// A second run over the same plan, against the target folder the first run left, copies
/// nothing: every name then holds a hash, so each entry is either already present or a
/// conflict that is left alone.
pub proof fn lemma_rerun_copies_nothing(plan: Seq<Entry>, d: Map<Seq<char>, Seq<char>>)
    ensures
        copies_made(plan, folder_after(plan, d)) == 0,
        folder_after(plan, folder_after(plan, d)) == folder_after(plan, d),
{
    lemma_names_present(plan, d);
    lemma_nothing_to_copy(plan, folder_after(plan, d));
}

/// Where a store-to-store run stands.
#[derive(PartialEq, Eq, Structural, Clone, Copy, Debug)]
pub enum StoreStep {
    /// Create the target folder.
    MakeRoot,
    /// Pin the hash of entry `i` at the target.
    Pin(usize),
    /// Look up what the target holds at entry `i`'s path.
    Stat(usize),
    /// Link entry `i`'s path to its hash.
    Copy(usize),
    /// Read the hash of the assembled target folder.
    StatRoot,
    /// Pin that hash.
    PinRoot,
    Finished,
}

/// What the caller is to do next against the target store.
#[derive(PartialEq, Eq, Debug)]
pub enum StoreAction {
    /// Create this folder, with its parents; an existing one is no error.
    MakeDirectory(String),
    /// Pin this hash, recursively.
    Pin(String),
    /// Read what this path holds; a missing path is an answer, not an error.
    StatEntry(String),
    /// Read this folder's hash.
    StatRoot(String),
    /// Link the second path to the content the first one names.
    CopyByHash(String, String),
    Done,
}

/// What the caller reports back after doing an action.
pub enum StoreEvent {
    /// The action succeeded.
    Completed,
    /// An entry's path holds this hash, or nothing.
    Existing(Option<String>),
    /// The target folder's hash.
    RootHash(String),
}

pub enum StoreActionView {
    MakeDirectory(Seq<char>),
    Pin(Seq<char>),
    StatEntry(Seq<char>),
    StatRoot(Seq<char>),
    CopyByHash(Seq<char>, Seq<char>),
    Done,
}

impl StoreAction {
    pub open spec fn view(&self) -> StoreActionView {
        match self {
            StoreAction::MakeDirectory(p) => StoreActionView::MakeDirectory(p@),
            StoreAction::Pin(h) => StoreActionView::Pin(h@),
            StoreAction::StatEntry(p) => StoreActionView::StatEntry(p@),
            StoreAction::StatRoot(p) => StoreActionView::StatRoot(p@),
            StoreAction::CopyByHash(a, b) => StoreActionView::CopyByHash(a@, b@),
            StoreAction::Done => StoreActionView::Done,
        }
    }
}

/// The step after entry `i` is done with.
pub open spec fn after_entry(n: nat, i: nat) -> StoreStep {
    if i + 1 < n {
        StoreStep::Pin((i + 1) as usize)
    } else {
        StoreStep::StatRoot
    }
}

/// The action that a step asks for.
pub open spec fn action_of(plan: Seq<Entry>, folder: Seq<char>, root_hash: Seq<char>, step: StoreStep) -> StoreActionView {
    match step {
        StoreStep::MakeRoot => StoreActionView::MakeDirectory(folder),
        StoreStep::Pin(i) => StoreActionView::Pin(plan[i as int].hash@),
        StoreStep::Stat(i) => StoreActionView::StatEntry(child_path(folder, plan[i as int].name@)),
        StoreStep::Copy(i) => StoreActionView::CopyByHash(
            hash_path(plan[i as int].hash@),
            child_path(folder, plan[i as int].name@),
        ),
        StoreStep::StatRoot => StoreActionView::StatRoot(folder),
        StoreStep::PinRoot => StoreActionView::Pin(root_hash),
        StoreStep::Finished => StoreActionView::Done,
    }
}

/// The step that follows `step` once `event` is reported; an event that does not answer the
/// step's action leaves the step as it is.
pub open spec fn next_step(plan: Seq<Entry>, step: StoreStep, event: StoreEvent) -> StoreStep {
    match (step, event) {
        (StoreStep::MakeRoot, StoreEvent::Completed) => if plan.len() > 0 {
            StoreStep::Pin(0)
        } else {
            StoreStep::StatRoot
        },
        (StoreStep::Pin(i), StoreEvent::Completed) => StoreStep::Stat(i),
        (StoreStep::Stat(i), StoreEvent::Existing(ex)) => if copy_step_of(
            plan[i as int].hash@,
            opt_view(ex),
        ) == CopyStep::Copy {
            StoreStep::Copy(i)
        } else {
            after_entry(plan.len(), i as nat)
        },
        (StoreStep::Copy(i), StoreEvent::Completed) => after_entry(plan.len(), i as nat),
        (StoreStep::StatRoot, StoreEvent::RootHash(_)) => StoreStep::PinRoot,
        (StoreStep::PinRoot, StoreEvent::Completed) => StoreStep::Finished,
        _ => step,
    }
}

/// A store-to-store run: makes the target folder, then for each planned entry in order pins
/// its hash and links it in unless the target already holds something under its name, and
/// finally pins the assembled folder's hash.
pub struct StoreRun {
    plan: Vec<Entry>,
    folder: String,
    root_hash: String,
    step: StoreStep,
}

impl StoreRun {
    #[verifier::type_invariant]
    spec fn inv(self) -> bool {
        match self.step {
            StoreStep::Pin(i) => i < self.plan@.len(),
            StoreStep::Stat(i) => i < self.plan@.len(),
            StoreStep::Copy(i) => i < self.plan@.len(),
            _ => true,
        }
    }

    pub closed spec fn plan(&self) -> Seq<Entry> {
        self.plan@
    }

    pub closed spec fn folder(&self) -> Seq<char> {
        self.folder@
    }

    pub closed spec fn root_hash(&self) -> Seq<char> {
        self.root_hash@
    }

    pub closed spec fn step(&self) -> StoreStep {
        self.step
    }

    pub fn new(plan: Vec<Entry>, folder: String) -> (r: StoreRun)
        ensures
            r.plan() == plan@,
            r.folder() == folder@,
            r.step() == StoreStep::MakeRoot,
    {
        StoreRun { plan, folder, root_hash: String::new(), step: StoreStep::MakeRoot }
    }

    pub fn current_step(&self) -> (r: StoreStep)
        ensures
            r == self.step(),
    {
        self.step
    }

    pub fn is_finished(&self) -> (r: bool)
        ensures
            r == (self.step() == StoreStep::Finished),
    {
        self.step == StoreStep::Finished
    }

    /// The action the current step asks for.
    pub fn action(&self) -> (r: StoreAction)
        ensures
            r.view() == action_of(self.plan(), self.folder(), self.root_hash(), self.step()),
    {
        proof {
            use_type_invariant(self);
        }
        match self.step {
            StoreStep::MakeRoot => StoreAction::MakeDirectory(self.folder.clone()),
            StoreStep::Pin(i) => StoreAction::Pin(self.plan[i].hash.clone()),
            StoreStep::Stat(i) => StoreAction::StatEntry(
                target_child_path(&self.folder, &self.plan[i].name),
            ),
            StoreStep::Copy(i) => StoreAction::CopyByHash(
                content_path(&self.plan[i].hash),
                target_child_path(&self.folder, &self.plan[i].name),
            ),
            StoreStep::StatRoot => StoreAction::StatRoot(self.folder.clone()),
            StoreStep::PinRoot => StoreAction::Pin(self.root_hash.clone()),
            StoreStep::Finished => StoreAction::Done,
        }
    }

    /// Moves on after `event`. Where the event answers a lookup of an entry's path, returns
    /// the copy step decided for that entry.
    pub fn advance(&mut self, event: StoreEvent) -> (r: Option<CopyStep>)
        ensures
            final(self).plan() == old(self).plan(),
            final(self).folder() == old(self).folder(),
            final(self).step() == next_step(old(self).plan(), old(self).step(), event),
            (match (old(self).step(), event) {
                (StoreStep::StatRoot, StoreEvent::RootHash(h)) => final(self).root_hash() == h@,
                _ => final(self).root_hash() == old(self).root_hash(),
            }),
            (match (old(self).step(), event) {
                (StoreStep::Stat(i), StoreEvent::Existing(ex)) => r == Some(
                    copy_step_of(old(self).plan()[i as int].hash@, opt_view(ex)),
                ),
                _ => r.is_none(),
            }),
    {
        proof {
            use_type_invariant(&*self);
        }
        let n = self.plan.len();
        match (self.step, event) {
            (StoreStep::MakeRoot, StoreEvent::Completed) => {
                self.step = if n > 0 {
                    StoreStep::Pin(0)
                } else {
                    StoreStep::StatRoot
                };
                None
            },
            (StoreStep::Pin(i), StoreEvent::Completed) => {
                self.step = StoreStep::Stat(i);
                None
            },
            (StoreStep::Stat(i), StoreEvent::Existing(ex)) => {
                let c = copy_step(&self.plan[i].hash, &ex);
                self.step = if c == CopyStep::Copy {
                    StoreStep::Copy(i)
                } else if i + 1 < n {
                    StoreStep::Pin(i + 1)
                } else {
                    StoreStep::StatRoot
                };
                Some(c)
            },
            (StoreStep::Copy(i), StoreEvent::Completed) => {
                self.step = if i + 1 < n {
                    StoreStep::Pin(i + 1)
                } else {
                    StoreStep::StatRoot
                };
                None
            },
            (StoreStep::StatRoot, StoreEvent::RootHash(h)) => {
                self.root_hash = h;
                self.step = StoreStep::PinRoot;
                None
            },
            (StoreStep::PinRoot, StoreEvent::Completed) => {
                self.step = StoreStep::Finished;
                None
            },
            _ => None,
        }
    }
}

} // verus!
