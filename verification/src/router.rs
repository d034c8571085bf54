//! The router: it owns the mapping from database names to live workers,
//! spawning one lazily on the first request for a database and reaping the
//! entry when the worker dies.
//!
//! The table here is the router's single source of truth; the shell keeps
//! the real channel handles beside it, one per entry. Each entry carries a
//! generation stamp: a worker removes its own entry only while the stamp
//! still matches, so a dead worker's late self-removal can never delete the
//! fresh handle that replaced it.

use vstd::prelude::*;
use crate::protocol::{Request, Response, is_plain_error, spec_db_name};

verus! {

/// One live worker known to the router.
#[derive(Debug, Clone, PartialEq, Eq)]
pub struct WorkerEntry {
    /// The database name the worker owns.
    pub name: String,
    /// The generation stamp the worker was registered under.
    pub generation: u64,
}

/// The router's table of live workers, plus the base directory that database
/// names are resolved under.
#[derive(Debug, Clone, PartialEq, Eq)]
pub struct Router {
    pub workers: Vec<WorkerEntry>,
    pub next_generation: u64,
    pub base_path: String,
}

impl Router {
    /// The table is consistent: no database name appears twice, and every
    /// generation stamp was handed out before the next free one.
    pub open spec fn wf(self) -> bool {
        &&& forall|i: int, j: int|
            0 <= i < j < self.workers@.len() ==> (#[trigger] self.workers@[i]).name@ != (
            #[trigger] self.workers@[j]).name@
        &&& forall|i: int|
            0 <= i < self.workers@.len() ==> (#[trigger] self.workers@[i]).generation
                < self.next_generation
    }

    /// True when a worker for `name` is registered.
    pub open spec fn has_worker(self, name: Seq<char>) -> bool {
        exists|i: int| 0 <= i < self.workers@.len() && (#[trigger] self.workers@[i]).name@ == name
    }

    /// True when a worker for `name` is registered under the stamp
    /// `generation`.
    pub open spec fn has_worker_gen(self, name: Seq<char>, generation: u64) -> bool {
        exists|i: int|
            0 <= i < self.workers@.len() && (#[trigger] self.workers@[i]).name@ == name
                && self.workers@[i].generation == generation
    }

    /// A fresh router over `base_path` with no workers.
    pub fn new(base_path: String) -> (r: Self)
        ensures
            r.wf(),
            r.workers@.len() == 0,
            r.base_path == base_path,
            r.next_generation == 0,
    {
        Router { workers: Vec::new(), next_generation: 0, base_path }
    }

    /// How many workers are registered.
    pub fn worker_count(&self) -> (r: usize)
        ensures
            r == self.workers@.len(),
    {
        self.workers.len()
    }

    fn find_worker(&self, name: &String) -> (r: Option<usize>)
        ensures
            r matches Some(i) ==> i < self.workers@.len() && self.workers@[i as int].name@
                == name@,
            r is None ==> !self.has_worker(name@),
    {
        let mut i: usize = 0;
        while i < self.workers.len()
            invariant
                0 <= i <= self.workers@.len(),
                forall|k: int|
                    0 <= k < i ==> (#[trigger] self.workers@[k]).name@ != name@,
            decreases self.workers@.len() - i,
        {
            if self.workers[i].name.eq(name) {
                return Some(i);
            }
            i += 1;
        }
        None
    }

    /// Returns the generation of the worker registered for `name`, spawning
    /// a fresh entry when none exists — the fast path of dispatch.
    pub fn ensure_worker(&mut self, name: &String) -> (r: EnsureOutcome)
        requires
            old(self).wf(),
            old(self).next_generation < u64::MAX,
        ensures
            final(self).wf(),
            final(self).base_path == old(self).base_path,
            final(self).has_worker(name@),
            r matches EnsureOutcome::Existing { generation } ==> {
                &&& *final(self) == *old(self)
                &&& old(self).has_worker_gen(name@, generation)
            },
            r matches EnsureOutcome::Spawned { generation } ==> {
                &&& !old(self).has_worker(name@)
                &&& generation == old(self).next_generation
                &&& final(self).next_generation == old(self).next_generation + 1
                &&& final(self).workers@.len() == old(self).workers@.len() + 1
                &&& (forall|k: int|
                    0 <= k < old(self).workers@.len() ==> final(self).workers@[k] == old(
                        self,
                    ).workers@[k])
                &&& final(self).workers@.last().name@ == name@
                &&& final(self).workers@.last().generation == generation
            },
    {
        match self.find_worker(name) {
            Some(i) => {
                let generation = self.workers[i].generation;
                proof {
                    assert(old(self).has_worker_gen(name@, generation));
                }
                EnsureOutcome::Existing { generation }
            },
            _ => {
                let generation = self.next_generation;
                self.workers.push(WorkerEntry { name: name.clone(), generation });
                self.next_generation = generation + 1;
                proof {
                    let n = self.workers@.len() - 1;
                    assert(self.workers@[n].name@ == name@);
                    assert(self.has_worker(name@));
                }
                EnsureOutcome::Spawned { generation }
            },
        }
    }

    /// Drops the entry for `name` whatever its generation — the dispatch
    /// path's reaction to a send failure, where the stale handle itself
    /// proved dead.
    pub fn remove_worker(&mut self, name: &String) -> (r: bool)
        requires
            old(self).wf(),
        ensures
            final(self).wf(),
            final(self).base_path == old(self).base_path,
            final(self).next_generation == old(self).next_generation,
            r == old(self).has_worker(name@),
            !final(self).has_worker(name@),
            forall|k: int|
                0 <= k < old(self).workers@.len() && (#[trigger] old(self).workers@[k]).name@
                    != name@ ==> final(self).has_worker_gen(
                    old(self).workers@[k].name@,
                    old(self).workers@[k].generation,
                ),
            final(self).workers@.len() == old(self).workers@.len() - (
            if old(self).has_worker(name@) {
                1int
            } else {
                0int
            }),
    {
        match self.find_worker(name) {
            Some(i) => {
                self.workers.remove(i);
                proof {
                    lemma_removed_entries(old(self).workers@, self.workers@, i as int, name@);
                }
                true
            },
            _ => {
                false
            },
        }
    }

    /// Drops the entry for `name` only while it still carries `generation` —
    /// the worker's own clean-up when its task ends. A dead worker's late
    /// removal therefore never deletes the fresh entry that replaced it.
    pub fn remove_worker_if_generation(&mut self, name: &String, generation: u64) -> (r: bool)
        requires
            old(self).wf(),
        ensures
            final(self).wf(),
            final(self).base_path == old(self).base_path,
            final(self).next_generation == old(self).next_generation,
            r == old(self).has_worker_gen(name@, generation),
            old(self).has_worker_gen(name@, generation) ==> !final(self).has_worker(name@),
            !old(self).has_worker_gen(name@, generation) ==> *final(self) == *old(self),
            forall|k: int|
                0 <= k < old(self).workers@.len() && (#[trigger] old(self).workers@[k]).name@
                    != name@ ==> final(self).has_worker_gen(
                    old(self).workers@[k].name@,
                    old(self).workers@[k].generation,
                ),
    {
        match self.find_worker(name) {
            Some(i) => {
                if self.workers[i].generation == generation {
                    proof {
                        assert(old(self).has_worker_gen(name@, generation));
                    }
                    self.workers.remove(i);
                    proof {
                        lemma_removed_entries(old(self).workers@, self.workers@, i as int, name@);
                    }
                    true
                } else {
                    proof {
                        lemma_unique_name_gen(*old(self), name@, i as int, generation);
                    }
                    false
                }
            },
            _ => {
                false
            },
        }
    }
}

/// A database name is safe exactly when, as UTF-8 bytes, it is non-empty,
/// holds no path separator (`/`, byte 47, or `\`, byte 92), and is neither
/// the current- nor the parent-directory name (`.` and `..`, byte 46): such
/// a name can only resolve to a file inside the base directory.
pub open spec fn db_name_ok(name: Seq<char>) -> bool {
    let b = crate::validate::bytes_of(name);
    &&& b.len() > 0
    &&& (forall|i: int| 0 <= i < b.len() ==> b[i] != 47 && b[i] != 92)
    &&& !(b.len() == 1 && b[0] == 46)
    &&& !(b.len() == 2 && b[0] == 46 && b[1] == 46)
}

/// Checks an untrusted database name before it touches the file system.
pub fn validate_db_name(name: &String) -> (r: bool)
    ensures
        r == db_name_ok(name@),
{
    let b = name.as_str().as_bytes_vec();
    if b.len() == 0 {
        return false;
    }
    if b.len() == 1 && b[0] == 46 {
        return false;
    }
    if b.len() == 2 && b[0] == 46 && b[1] == 46 {
        return false;
    }
    let mut i: usize = 0;
    while i < b.len()
        invariant
            b@ == crate::validate::bytes_of(name@),
            0 <= i <= b@.len(),
            forall|k: int| 0 <= k < i ==> b@[k] != 47 && b@[k] != 92,
        decreases b@.len() - i,
    {
        if b[i] == 47 || b[i] == 92 {
            proof {
                assert(!db_name_ok(name@));
            }
            return false;
        }
        i += 1;
    }
    true
}

impl Router {
    /// The absolute path a database name resolves to under the router's base
    /// directory.
    pub fn db_path(&self, name: &String) -> (r: String)
        ensures
            r@ == self.base_path@ + "/"@ + name@,
    {
        let mut s = self.base_path.clone();
        s.append("/");
        s.append(name.as_str());
        proof {
            assert(s@ =~= self.base_path@ + "/"@ + name@);
        }
        s
    }
}

/// What the dispatch path decides for one request.
#[derive(Debug, Clone, PartialEq, Eq)]
pub enum RoutePlan {
    /// `Shutdown` carries no database name; the router answers it directly.
    ReplyShutdown,
    /// The request names no usable database; the response is final.
    Reject(Response),
    /// Forward the request to the worker for `db`, spawning one if needed.
    Dispatch { db: String },
}

/// Decides where a request goes: `Shutdown` is answered directly, an unsafe
/// database name is rejected, and everything else is dispatched to the
/// worker for the name the request carries.
pub fn route_plan(req: &Request) -> (r: RoutePlan)
    ensures
        match spec_db_name(*req) {
            Option::None => r is ReplyShutdown,
            Some(n) => if db_name_ok(n) {
                r matches RoutePlan::Dispatch { db } && db@ == n
            } else {
                r matches RoutePlan::Reject(e) && is_plain_error(e, "Invalid database name"@)
            },
        },
{
    match crate::protocol::extract_db_name(req) {
        Some(db) => {
            if validate_db_name(&db) {
                RoutePlan::Dispatch { db }
            } else {
                RoutePlan::Reject(Response::error("Invalid database name".to_owned()))
            }
        },
        _ => RoutePlan::ReplyShutdown,
    }
}

/// The generic response when a worker's channel is gone: the router has
/// already dropped the stale entry, so a client retry spawns a fresh worker.
pub fn worker_failure_response() -> (r: Response)
    ensures
        is_plain_error(r, "Worker communication failed"@),
{
    Response::error("Worker communication failed".to_owned())
}

/// The outcome of [`Router::ensure_worker`].
#[derive(Debug, Clone, Copy, PartialEq, Eq, Structural)]
pub enum EnsureOutcome {
    /// A worker already existed; its generation stamp.
    Existing { generation: u64 },
    /// A fresh entry was registered; the shell must spawn the worker task
    /// under this stamp.
    Spawned { generation: u64 },
}

/// After removing index `i`, which held `name`, from a table with unique
/// names: no entry for `name` remains, every other entry survives with its
/// generation, and uniqueness holds again.
proof fn lemma_removed_entries(before: Seq<WorkerEntry>, after: Seq<WorkerEntry>, i: int, name: Seq<char>)
    requires
        0 <= i < before.len(),
        before[i].name@ == name,
        after == before.remove(i),
        forall|p: int, q: int|
            0 <= p < q < before.len() ==> (#[trigger] before[p]).name@ != (
            #[trigger] before[q]).name@,
    ensures
        forall|j: int| 0 <= j < after.len() ==> (#[trigger] after[j]).name@ != name,
        forall|k: int|
            0 <= k < before.len() && (#[trigger] before[k]).name@ != name ==> exists|j: int|
                0 <= j < after.len() && after[j] == before[k],
        forall|p: int, q: int|
            0 <= p < q < after.len() ==> (#[trigger] after[p]).name@ != (#[trigger] after[q]).name@,
{
    before.remove_ensures(i);
    assert forall|j: int| 0 <= j < after.len() implies (#[trigger] after[j]).name@ != name by {
        if j < i {
            assert(after[j] == before[j]);
        } else {
            assert(after[j] == before[j + 1]);
        }
    }
    assert forall|k: int|
        0 <= k < before.len() && (#[trigger] before[k]).name@ != name implies exists|j: int|
            0 <= j < after.len() && after[j] == before[k] by {
        if k < i {
            assert(after[k] == before[k]);
        } else if k > i {
            assert(after[k - 1] == before[k]);
        }
    }
    assert forall|p: int, q: int| 0 <= p < q < after.len() implies (#[trigger] after[p]).name@ != (
    #[trigger] after[q]).name@ by {
        let bp: int = if p < i {
            p
        } else {
            p + 1
        };
        let bq: int = if q < i {
            q
        } else {
            q + 1
        };
        assert(after[p] == before[bp]);
        assert(after[q] == before[bq]);
    }
}

/// In a well-formed table the entry found for a name is the only one, so a
/// generation mismatch at that entry refutes the pair.
proof fn lemma_unique_name_gen(r: Router, name: Seq<char>, i: int, generation: u64)
    requires
        r.wf(),
        0 <= i < r.workers@.len(),
        r.workers@[i].name@ == name,
        r.workers@[i].generation != generation,
    ensures
        !r.has_worker_gen(name, generation),
{
    assert forall|k: int|
        0 <= k < r.workers@.len() && (#[trigger] r.workers@[k]).name@ == name implies r.workers@[k].generation
        != generation by {
        if k < i {
            assert(r.workers@[k].name@ != r.workers@[i].name@);
        } else if k > i {
            assert(r.workers@[i].name@ != r.workers@[k].name@);
        }
    }
}

/// Law: the generation a fresh spawn would receive differs from the stamp
/// of every worker registered so far — so a dead predecessor's late
/// self-removal, which compares stamps, can never hit its replacement.
pub proof fn lemma_fresh_generation_is_new(r: Router, i: int)
    requires
        r.wf(),
        0 <= i < r.workers@.len(),
    ensures
        r.workers@[i].generation != r.next_generation,
{
}

/// Law: at most one worker exists per database name — in a well-formed
/// table two entries carrying the same name are the same entry.
pub proof fn lemma_at_most_one_worker(r: Router, i: int, j: int)
    requires
        r.wf(),
        0 <= i < r.workers@.len(),
        0 <= j < r.workers@.len(),
        r.workers@[i].name@ == r.workers@[j].name@,
    ensures
        i == j,
{
    if i < j {
        assert(r.workers@[i].name@ != r.workers@[j].name@);
    } else if j < i {
        assert(r.workers@[j].name@ != r.workers@[i].name@);
    }
}

} // verus!
