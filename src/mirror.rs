use vstd::prelude::*;

use crate::entry::{Entry, EntryKind, kind_of};
use crate::errors::MainError;
use crate::plan::{order_entries, plan_order};
use crate::util::{format_size, size_text};

verus! {

/// Checks the folder a store-to-store run writes into: it must be an absolute path.
pub fn check_target_folder(folder: &String) -> (r: Result<(), MainError>)
    ensures
        folder@.len() > 0 && folder@[0] == '/' ==> r == Ok::<(), MainError>(()),
        !(folder@.len() > 0 && folder@[0] == '/') ==> (match r {
            Err(MainError::FolderNotAbsolute(f)) => f@ == folder@,
            _ => false,
        }),
{
    let s = folder.as_str();
    if s.unicode_len() > 0 && s.get_char(0) == '/' {
        Ok(())
    } else {
        Err(MainError::FolderNotAbsolute(folder.clone()))
    }
}

/// Checks the local folder a mirror writes into, given whether it exists and whether it is a
/// directory: a mirror never creates its own root.
pub fn check_local_target(folder: &String, exists: bool, is_dir: bool) -> (r: Result<(), MainError>)
    ensures
        !exists ==> (match r {
            Err(MainError::TargetMissing(f)) => f@ == folder@,
            _ => false,
        }),
        exists && !is_dir ==> (match r {
            Err(MainError::TargetNotDirectory(f)) => f@ == folder@,
            _ => false,
        }),
        exists && is_dir ==> r == Ok::<(), MainError>(()),
{
    if !exists {
        Err(MainError::TargetMissing(folder.clone()))
    } else if !is_dir {
        Err(MainError::TargetNotDirectory(folder.clone()))
    } else {
        Ok(())
    }
}

/// Bytes downloaded so far for one file, and the size text last reported for it.
pub struct Progress {
    pub copied: u64,
    pub last: Option<String>,
}

pub open spec fn opt_text(s: Option<String>) -> Option<Seq<char>> {
    match s {
        Some(x) => Some(x@),
        None => None,
    }
}

impl Progress {
    pub fn new() -> (r: Progress)
        ensures
            r.copied == 0,
            r.last.is_none(),
    {
        Progress { copied: 0, last: None }
    }

    /// Counts a chunk of `len` bytes (saturating at the largest `u64`). Returns the new size
    /// text when it differs from the one last reported, which it then becomes.
    pub fn record(&mut self, len: u64) -> (r: Option<String>)
        ensures
            final(self).copied == if old(self).copied + len > u64::MAX {
                u64::MAX as int
            } else {
                old(self).copied + len
            },
            opt_text(old(self).last) == Some(size_text(final(self).copied as nat)) ==> r.is_none()
                && final(self).last == old(self).last,
            opt_text(old(self).last) != Some(size_text(final(self).copied as nat)) ==> r.is_some()
                && r.unwrap()@ == size_text(final(self).copied as nat)
                && opt_text(final(self).last) == Some(size_text(final(self).copied as nat)),
    {
        self.copied = self.copied.saturating_add(len);
        let msg = format_size(self.copied);
        let same = match &self.last {
            Some(l) => *l == msg,
            None => false,
        };
        if same {
            None
        } else {
            self.last = Some(msg.clone());
            Some(msg)
        }
    }
}

/// One entry waiting to be mirrored: the source folder it was listed in (ending in `/`), the
/// local folder it goes into as path components below the target root, and the entry.
pub struct MirrorJob {
    pub dir: String,
    pub local: Vec<String>,
    pub entry: Entry,
}

pub struct MirrorJobView {
    pub dir: Seq<char>,
    pub local: Seq<Seq<char>>,
    pub entry: Entry,
}

pub open spec fn components(v: Seq<String>) -> Seq<Seq<char>> {
    v.map_values(|c: String| c@)
}

impl MirrorJob {
    pub open spec fn view(&self) -> MirrorJobView {
        MirrorJobView { dir: self.dir@, local: components(self.local@), entry: self.entry }
    }
}

/// What to do with the next entry of a mirror.
#[derive(Debug, PartialEq, Eq)]
pub enum MirrorTask {
    /// Stream the file at `source` into the local file at `local` (truncating it).
    Download { source: String, local: Vec<String>, size: u64 },
    /// Create the local folder `local`, list the source folder `listing`, and hand its entries
    /// back through `MirrorQueue::descend`.
    Descend { listing: String, local: Vec<String> },
    /// An entry of another type, reported and never copied.
    Skip { source: String, typ: u64 },
}

pub enum MirrorTaskView {
    Download { source: Seq<char>, local: Seq<Seq<char>>, size: u64 },
    Descend { listing: Seq<char>, local: Seq<Seq<char>> },
    Skip { source: Seq<char>, typ: u64 },
}

impl MirrorTask {
    pub open spec fn view(&self) -> MirrorTaskView {
        match self {
            MirrorTask::Download { source, local, size } => MirrorTaskView::Download {
                source: source@,
                local: components(local@),
                size: *size,
            },
            MirrorTask::Descend { listing, local } => MirrorTaskView::Descend {
                listing: listing@,
                local: components(local@),
            },
            MirrorTask::Skip { source, typ } => MirrorTaskView::Skip { source: source@, typ: *typ },
        }
    }
}

/// The task for a job: files are downloaded, folders descended into, anything else skipped.
pub open spec fn task_of(j: MirrorJobView) -> MirrorTaskView {
    let name = j.entry.name@;
    match kind_of(j.entry.typ) {
        EntryKind::File => MirrorTaskView::Download {
            source: j.dir + name,
            local: j.local.push(name),
            size: j.entry.size,
        },
        EntryKind::Directory => MirrorTaskView::Descend {
            listing: j.dir + name + seq!['/'],
            local: j.local.push(name),
        },
        EntryKind::Other => MirrorTaskView::Skip { source: j.dir + name, typ: j.entry.typ },
    }
}

/// The jobs for the entries `s` of the source folder `dir`, going into the local folder `local`.
pub open spec fn jobs_for(dir: Seq<char>, local: Seq<Seq<char>>, s: Seq<Entry>) -> Seq<MirrorJobView> {
    s.map_values(|e: Entry| MirrorJobView { dir, local, entry: e })
}

fn clone_components(v: &Vec<String>) -> (r: Vec<String>)
    ensures
        r@ == v@,
{
    let mut r: Vec<String> = Vec::new();
    let mut i: usize = 0;
    while i < v.len()
        invariant
            i <= v@.len(),
            r@ == v@.take(i as int),
        decreases v@.len() - i,
    {
        r.push(v[i].clone());
        i = i + 1;
        assert(r@ == v@.take(i as int));
    }
    assert(v@.take(v@.len() as int) == v@);
    r
}

fn append_name(dir: &String, name: &String) -> (r: String)
    ensures
        r@ == dir@ + name@,
{
    let mut r = dir.clone();
    r.append(name.as_str());
    r
}

/// The entries of a mirror that are still to be handled, depth first: a folder's entries
/// come right after the folder, before the entries that follow it.
pub struct MirrorQueue {
    jobs: Vec<MirrorJob>,
}

impl MirrorQueue {
    pub closed spec fn jobs(&self) -> Seq<MirrorJobView> {
        self.jobs@.map_values(|j: MirrorJob| j.view())
    }

    /// Builds the jobs for `entries` (put in processing order) and puts them in front of
    /// `rest`.
    fn front(dir: &String, local: &Vec<String>, entries: Vec<Entry>, rest: Vec<MirrorJob>) -> (r:
        Vec<MirrorJob>)
        ensures
            r@.map_values(|j: MirrorJob| j.view()) == jobs_for(
                dir@,
                components(local@),
                plan_order(entries@),
            ) + rest@.map_values(|j: MirrorJob| j.view()),
    {
        let ordered = order_entries(entries);
        let ghost s = ordered@;
        let n = ordered.len();
        let mut pending = ordered;
        let mut out: Vec<MirrorJob> = Vec::new();
        let mut k: usize = 0;
        while pending.len() > 0
            invariant
                k + pending@.len() == s.len(),
                n == s.len(),
                pending@ == s.skip(k as int),
                out@.map_values(|j: MirrorJob| j.view()) == jobs_for(
                    dir@,
                    components(local@),
                    s.take(k as int),
                ),
            decreases pending@.len(),
        {
            let e = pending.remove(0);
            let job = MirrorJob { dir: dir.clone(), local: clone_components(local), entry: e };
            assert(job.view() == MirrorJobView { dir: dir@, local: components(local@), entry: e });
            let ghost before = out@;
            out.push(job);
            proof {
                assert(s.take(k + 1) =~= s.take(k as int).push(e));
                assert(out@ == before.push(job));
                assert(out@.map_values(|j: MirrorJob| j.view()) =~= before.map_values(
                    |j: MirrorJob| j.view(),
                ).push(job.view()));
                assert(jobs_for(dir@, components(local@), s.take(k + 1)) =~= jobs_for(
                    dir@,
                    components(local@),
                    s.take(k as int),
                ).push(MirrorJobView { dir: dir@, local: components(local@), entry: e }));
            }
            k = k + 1;
            assert(out@.map_values(|j: MirrorJob| j.view()) =~= jobs_for(
                dir@,
                components(local@),
                s.take(k as int),
            ));
        }
        assert(s.take(k as int) == s);
        let ghost prefix = out@;
        let mut rest = rest;
        let ghost rest0 = rest@;
        let m = rest.len();
        let mut j: usize = 0;
        while rest.len() > 0
            invariant
                m == rest0.len(),
                out@ == prefix + rest0.take(j as int),
                rest@ == rest0.skip(j as int),
                j + rest@.len() == rest0.len(),
            decreases rest@.len(),
        {
            let x = rest.remove(0);
            out.push(x);
            proof {
                assert(rest0.take(j + 1) =~= rest0.take(j as int).push(x));
            }
            j = j + 1;
        }
        assert(rest0.take(j as int) == rest0);
        assert(out@ == prefix + rest0);
        assert(out@.map_values(|j: MirrorJob| j.view()) =~= prefix.map_values(
            |j: MirrorJob| j.view(),
        ) + rest0.map_values(|j: MirrorJob| j.view()));
        out
    }

    /// A mirror of the source root's entries into the target root.
    pub fn new(entries: Vec<Entry>) -> (r: MirrorQueue)
        ensures
            r.jobs() == jobs_for(seq!['/'], Seq::empty(), plan_order(entries@)),
    {
        proof {
            reveal_strlit("/");
        }
        let root = String::from_str("/");
        assert(root@ =~= seq!['/']);
        let local: Vec<String> = Vec::new();
        assert(components(local@) =~= Seq::empty());
        let jobs = Self::front(&root, &local, entries, Vec::new());
        assert(jobs@.map_values(|j: MirrorJob| j.view()) =~= jobs_for(
            seq!['/'],
            Seq::empty(),
            plan_order(entries@),
        ));
        MirrorQueue { jobs }
    }

    pub fn is_empty(&self) -> (r: bool)
        ensures
            r == (self.jobs().len() == 0),
    {
        self.jobs.len() == 0
    }

    /// Takes the next job and says what to do with it.
    pub fn next(&mut self) -> (r: Option<MirrorTask>)
        ensures
            old(self).jobs().len() == 0 ==> r.is_none() && final(self).jobs() == old(self).jobs(),
            old(self).jobs().len() > 0 ==> r.is_some() && r.unwrap().view() == task_of(
                old(self).jobs()[0],
            ) && final(self).jobs() == old(self).jobs().drop_first(),
    {
        if self.jobs.len() == 0 {
            return None;
        }
        let job = self.jobs.remove(0);
        assert(job.view() == old(self).jobs()[0]);
        assert(self.jobs@.map_values(|j: MirrorJob| j.view()) =~= old(self).jobs().drop_first());
        let mut local = clone_components(&job.local);
        local.push(job.entry.name.clone());
        assert(components(local@) =~= components(job.local@).push(job.entry.name@));
        let task = match job.entry.kind() {
            EntryKind::File => MirrorTask::Download {
                source: append_name(&job.dir, &job.entry.name),
                local,
                size: job.entry.size,
            },
            EntryKind::Directory => {
                let mut listing = append_name(&job.dir, &job.entry.name);
                proof {
                    reveal_strlit("/");
                    assert("/"@ =~= seq!['/']);
                }
                listing.append("/");
                MirrorTask::Descend { listing, local }
            },
            EntryKind::Other => MirrorTask::Skip {
                source: append_name(&job.dir, &job.entry.name),
                typ: job.entry.typ,
            },
        };
        Some(task)
    }

    /// Puts the entries of the source folder `listing`, which goes into the local folder
    /// `local`, in processing order in front of the jobs still waiting.
    pub fn descend(&mut self, listing: &String, local: &Vec<String>, entries: Vec<Entry>)
        ensures
            final(self).jobs() == jobs_for(listing@, components(local@), plan_order(entries@))
                + old(self).jobs(),
    {
        let mut rest: Vec<MirrorJob> = Vec::new();
        std::mem::swap(&mut self.jobs, &mut rest);
        self.jobs = Self::front(listing, local, entries, rest);
    }
}

} // verus!
