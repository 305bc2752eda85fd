//! The run-wide aggregator: identity of the running playbook plus
//! counters mirroring the per-host tallies, summed across all hosts,
//! with a parallel count of distinct hosts reaching each category.

use vstd::prelude::*;
use vstd::seq_lib::*;
use vstd::set_lib::lemma_len_subset;

verus! {

/// Does the sequence hold a host of the given name?
pub open spec fn seq_contains_name(s: Seq<String>, name: Seq<char>) -> bool {
    exists|i: int| 0 <= i < s.len() && s[i]@ == name
}

/// No host name occurs twice.
pub open spec fn distinct_names(s: Seq<String>) -> bool {
    forall|i: int, j: int| 0 <= i < j < s.len() ==> s[i]@ != s[j]@
}

/// The sequence after noting one host: unchanged if the name is
/// already present, extended by it otherwise.
pub open spec fn spec_note(s: Seq<String>, host: String) -> Seq<String> {
    if seq_contains_name(s, host@) {
        s
    } else {
        s.push(host)
    }
}

/// Is the host list of the first sequence contained in the second?
pub open spec fn names_subset(a: Seq<String>, b: Seq<String>) -> bool {
    forall|x: Seq<char>| #[trigger] seq_contains_name(a, x) ==> seq_contains_name(b, x)
}

/// Whether the given name stands in the list.
fn contains_name(v: &Vec<String>, name: &String) -> (r: bool)
    ensures
        r == seq_contains_name(v@, name@),
{
    let mut i: usize = 0;
    while i < v.len()
        invariant
            i <= v.len(),
            forall|j: int| 0 <= j < i ==> v@[j]@ != name@,
        decreases v.len() - i,
    {
        if v[i].eq(name) {
            return true;
        }
        i = i + 1;
    }
    false
}

/// Note one host in a distinct-name list: append it the first time,
/// leave the list alone afterwards.
fn note_host(v: &mut Vec<String>, name: &String)
    requires
        distinct_names(old(v)@),
    ensures
        distinct_names(final(v)@),
        final(v)@ == spec_note(old(v)@, *name),
        final(v)@.len() == old(v)@.len() + if seq_contains_name(old(v)@, name@) {
            0int
        } else {
            1int
        },
        forall|x: Seq<char>| #[trigger]
            seq_contains_name(final(v)@, x) <==> (seq_contains_name(old(v)@, x) || x == name@),
{
    if !contains_name(v, name) {
        v.push(name.clone());
        proof {
            assert forall|x: Seq<char>| #[trigger]
                seq_contains_name(v@, x) implies (seq_contains_name(old(v)@, x)
                || x == name@) by {
                let i = choose|i: int| 0 <= i < v@.len() && v@[i]@ == x;
                if i < old(v)@.len() {
                    assert(seq_contains_name(old(v)@, x));
                }
            }
            assert forall|x: Seq<char>| seq_contains_name(old(v)@, x)
                || x == name@ implies #[trigger] seq_contains_name(v@, x) by {
                if seq_contains_name(old(v)@, x) {
                    let i = choose|i: int| 0 <= i < old(v)@.len() && old(v)@[i]@ == x;
                    assert(v@[i]@ == x);
                } else {
                    assert(v@[old(v)@.len() as int]@ == name@);
                }
            }
        }
    } else {
        proof {
            assert forall|x: Seq<char>| seq_contains_name(old(v)@, x)
                || x == name@ implies #[trigger] seq_contains_name(v@, x) by {
                if x == name@ {
                    assert(seq_contains_name(old(v)@, name@));
                }
            }
        }
    }
}

/// What noting one host means for membership: afterwards the list
/// holds exactly the names it held before, plus the noted one.
pub proof fn lemma_note_contains(s: Seq<String>, host: String, x: Seq<char>)
    ensures
        seq_contains_name(spec_note(s, host), x) <==> (seq_contains_name(s, x) || x == host@),
{
    if seq_contains_name(s, host@) {
        if x == host@ {
            assert(seq_contains_name(s, x));
        }
    } else {
        let t = s.push(host);
        if seq_contains_name(t, x) {
            let i = choose|i: int| 0 <= i < t.len() && t[i]@ == x;
            if i < s.len() {
                assert(seq_contains_name(s, x));
            }
        }
        if seq_contains_name(s, x) {
            let i = choose|i: int| 0 <= i < s.len() && s[i]@ == x;
            assert(t[i]@ == x);
        }
        if x == host@ {
            assert(t[s.len() as int]@ == x);
        }
    }
}

/// Two host lists with distinct names, one contained in the other:
/// the contained list cannot be longer.
pub proof fn lemma_distinct_subset_len(a: Seq<String>, b: Seq<String>)
    requires
        distinct_names(a),
        distinct_names(b),
        names_subset(a, b),
    ensures
        a.len() <= b.len(),
{
    broadcast use vstd::seq_lib::seq_to_set_is_finite;

    let va = a.map_values(|s: String| s@);
    let vb = b.map_values(|s: String| s@);
    assert(va.no_duplicates());
    assert(vb.no_duplicates());
    va.unique_seq_to_set();
    vb.unique_seq_to_set();
    assert forall|x: Seq<char>| va.to_set().contains(x) implies vb.to_set().contains(x) by {
        let i = choose|i: int| 0 <= i < va.len() && va[i] == x;
        assert(a[i]@ == x);
        assert(seq_contains_name(a, x));
        assert(seq_contains_name(b, x));
        let j = choose|j: int| 0 <= j < b.len() && b[j]@ == x;
        assert(vb[j] == x);
    }
    lemma_len_subset(va.to_set(), vb.to_set());
}

/// One outcome category of the aggregator: the running total of
/// outcomes and the distinct hosts that reached it.
pub struct CategoryTally {
    pub total: u64,
    pub hosts: Vec<String>,
}

/// What one outcome does to a category: total up one and host noted
/// when the category is hit, nothing otherwise.
pub open spec fn tally_bumped(pre: CategoryTally, post: CategoryTally, host: String, hit: bool)
    -> bool {
    if hit {
        &&& post.total == pre.total + 1
        &&& post.hosts@ == spec_note(pre.hosts@, host)
    } else {
        post == pre
    }
}

/// Shared, lock-protected store of one playbook run: identity fields
/// and the aggregated counters. The lock itself is the embedding
/// program's concern; this is the state it guards.
pub struct PlaybookContext {
    pub playbook_path: Option<String>,
    pub play: Option<String>,
    pub role: Option<String>,
    pub task: Option<String>,
    pub verbosity: u32,
    pub role_count: u64,
    pub task_count: u64,
    pub attempted: CategoryTally,
    pub created: CategoryTally,
    pub removed: CategoryTally,
    pub modified: CategoryTally,
    pub executed: CategoryTally,
    pub passive: CategoryTally,
    pub matched: CategoryTally,
    pub skipped: CategoryTally,
    pub failed: CategoryTally,
    pub adjusted_hosts: Vec<String>,
}

/// The identity fields of the run, untouched by counter updates.
pub open spec fn same_identity(pre: &PlaybookContext, post: &PlaybookContext) -> bool {
    &&& post.playbook_path == pre.playbook_path
    &&& post.play == pre.play
    &&& post.role == pre.role
    &&& post.task == pre.task
    &&& post.verbosity == pre.verbosity
    &&& post.role_count == pre.role_count
    &&& post.task_count == pre.task_count
}

impl PlaybookContext {
    /// Total of the categories that adjusted a host: created,
    /// modified, removed, executed.
    pub open spec fn spec_adjusted_total(&self) -> int {
        self.created.total + self.modified.total + self.removed.total + self.executed.total
    }

    /// Total of every non-failure outcome. Failures stand apart
    /// because a failed host need not have been attempted (a
    /// connection failure is recorded without an attempt).
    pub open spec fn spec_outcome_total(&self) -> int {
        self.spec_adjusted_total() + self.passive.total + self.matched.total + self.skipped.total
    }

    /// Every host list of the aggregator names each host once.
    pub open spec fn hosts_distinct(&self) -> bool {
        &&& distinct_names(self.attempted.hosts@)
        &&& distinct_names(self.created.hosts@)
        &&& distinct_names(self.removed.hosts@)
        &&& distinct_names(self.modified.hosts@)
        &&& distinct_names(self.executed.hosts@)
        &&& distinct_names(self.passive.hosts@)
        &&& distinct_names(self.matched.hosts@)
        &&& distinct_names(self.skipped.hosts@)
        &&& distinct_names(self.failed.hosts@)
        &&& distinct_names(self.adjusted_hosts@)
    }

    /// Well-formedness: distinct host lists; every non-failure
    /// outcome was attempted first, so the attempted total bounds the
    /// outcome totals; and every adjusted host was seen.
    pub open spec fn wf(&self) -> bool {
        &&& self.hosts_distinct()
        &&& self.spec_outcome_total() <= self.attempted.total
        &&& names_subset(self.adjusted_hosts@, self.attempted.hosts@)
    }

    /// A fresh run context: no identity yet, all counters at zero.
    pub fn new(verbosity: u32) -> (ctx: PlaybookContext)
        ensures
            ctx.playbook_path is None,
            ctx.play is None,
            ctx.role is None,
            ctx.task is None,
            ctx.verbosity == verbosity,
            ctx.role_count == 0,
            ctx.task_count == 0,
            ctx.attempted.total == 0,
            ctx.attempted.hosts@.len() == 0,
            ctx.created.total == 0,
            ctx.removed.total == 0,
            ctx.modified.total == 0,
            ctx.executed.total == 0,
            ctx.passive.total == 0,
            ctx.matched.total == 0,
            ctx.skipped.total == 0,
            ctx.failed.total == 0,
            ctx.created.hosts@.len() == 0,
            ctx.removed.hosts@.len() == 0,
            ctx.modified.hosts@.len() == 0,
            ctx.executed.hosts@.len() == 0,
            ctx.passive.hosts@.len() == 0,
            ctx.matched.hosts@.len() == 0,
            ctx.skipped.hosts@.len() == 0,
            ctx.failed.hosts@.len() == 0,
            ctx.adjusted_hosts@.len() == 0,
            ctx.wf(),
    {
        PlaybookContext {
            playbook_path: None,
            play: None,
            role: None,
            task: None,
            verbosity,
            role_count: 0,
            task_count: 0,
            attempted: CategoryTally { total: 0, hosts: Vec::new() },
            created: CategoryTally { total: 0, hosts: Vec::new() },
            removed: CategoryTally { total: 0, hosts: Vec::new() },
            modified: CategoryTally { total: 0, hosts: Vec::new() },
            executed: CategoryTally { total: 0, hosts: Vec::new() },
            passive: CategoryTally { total: 0, hosts: Vec::new() },
            matched: CategoryTally { total: 0, hosts: Vec::new() },
            skipped: CategoryTally { total: 0, hosts: Vec::new() },
            failed: CategoryTally { total: 0, hosts: Vec::new() },
            adjusted_hosts: Vec::new(),
        }
    }

    /// One more role entered the run.
    pub fn increment_role_count(&mut self)
        requires
            old(self).role_count < u64::MAX,
        ensures
            final(self).role_count == old(self).role_count + 1,
            *final(self) == (PlaybookContext { role_count: final(self).role_count, ..*old(self) }),
    {
        self.role_count = self.role_count + 1;
    }

    /// One more task entered the run.
    pub fn increment_task_count(&mut self)
        requires
            old(self).task_count < u64::MAX,
        ensures
            final(self).task_count == old(self).task_count + 1,
            *final(self) == (PlaybookContext { task_count: final(self).task_count, ..*old(self) }),
    {
        self.task_count = self.task_count + 1;
    }

    /// The host attempted one more task; the host is seen.
    pub fn increment_attempted_for_host(&mut self, host: &String)
        requires
            old(self).hosts_distinct(),
            old(self).attempted.total < u64::MAX,
        ensures
            final(self).hosts_distinct(),
            same_identity(old(self), final(self)),
            tally_bumped(old(self).attempted, final(self).attempted, *host, true),
            final(self).created == old(self).created,
            final(self).removed == old(self).removed,
            final(self).modified == old(self).modified,
            final(self).executed == old(self).executed,
            final(self).passive == old(self).passive,
            final(self).matched == old(self).matched,
            final(self).skipped == old(self).skipped,
            final(self).failed == old(self).failed,
            final(self).adjusted_hosts == old(self).adjusted_hosts,
    {
        self.attempted.total = self.attempted.total + 1;
        note_host(&mut self.attempted.hosts, host);
    }

    /// The host had a resource created (or needing creation, in check
    /// mode); the host counts as adjusted.
    pub fn increment_created_for_host(&mut self, host: &String)
        requires
            old(self).hosts_distinct(),
            old(self).created.total < u64::MAX,
        ensures
            final(self).hosts_distinct(),
            same_identity(old(self), final(self)),
            tally_bumped(old(self).created, final(self).created, *host, true),
            final(self).adjusted_hosts@ == spec_note(old(self).adjusted_hosts@, *host),
            final(self).attempted == old(self).attempted,
            final(self).removed == old(self).removed,
            final(self).modified == old(self).modified,
            final(self).executed == old(self).executed,
            final(self).passive == old(self).passive,
            final(self).matched == old(self).matched,
            final(self).skipped == old(self).skipped,
            final(self).failed == old(self).failed,
    {
        self.created.total = self.created.total + 1;
        note_host(&mut self.created.hosts, host);
        note_host(&mut self.adjusted_hosts, host);
    }

    /// The host had a resource removed (or needing removal); the host
    /// counts as adjusted.
    pub fn increment_removed_for_host(&mut self, host: &String)
        requires
            old(self).hosts_distinct(),
            old(self).removed.total < u64::MAX,
        ensures
            final(self).hosts_distinct(),
            same_identity(old(self), final(self)),
            tally_bumped(old(self).removed, final(self).removed, *host, true),
            final(self).adjusted_hosts@ == spec_note(old(self).adjusted_hosts@, *host),
            final(self).attempted == old(self).attempted,
            final(self).created == old(self).created,
            final(self).modified == old(self).modified,
            final(self).executed == old(self).executed,
            final(self).passive == old(self).passive,
            final(self).matched == old(self).matched,
            final(self).skipped == old(self).skipped,
            final(self).failed == old(self).failed,
    {
        self.removed.total = self.removed.total + 1;
        note_host(&mut self.removed.hosts, host);
        note_host(&mut self.adjusted_hosts, host);
    }

    /// The host had a resource modified (or needing modification);
    /// the host counts as adjusted.
    pub fn increment_modified_for_host(&mut self, host: &String)
        requires
            old(self).hosts_distinct(),
            old(self).modified.total < u64::MAX,
        ensures
            final(self).hosts_distinct(),
            same_identity(old(self), final(self)),
            tally_bumped(old(self).modified, final(self).modified, *host, true),
            final(self).adjusted_hosts@ == spec_note(old(self).adjusted_hosts@, *host),
            final(self).attempted == old(self).attempted,
            final(self).created == old(self).created,
            final(self).removed == old(self).removed,
            final(self).executed == old(self).executed,
            final(self).passive == old(self).passive,
            final(self).matched == old(self).matched,
            final(self).skipped == old(self).skipped,
            final(self).failed == old(self).failed,
    {
        self.modified.total = self.modified.total + 1;
        note_host(&mut self.modified.hosts, host);
        note_host(&mut self.adjusted_hosts, host);
    }

    /// The host had a command executed (or needing execution); the
    /// host counts as adjusted.
    pub fn increment_executed_for_host(&mut self, host: &String)
        requires
            old(self).hosts_distinct(),
            old(self).executed.total < u64::MAX,
        ensures
            final(self).hosts_distinct(),
            same_identity(old(self), final(self)),
            tally_bumped(old(self).executed, final(self).executed, *host, true),
            final(self).adjusted_hosts@ == spec_note(old(self).adjusted_hosts@, *host),
            final(self).attempted == old(self).attempted,
            final(self).created == old(self).created,
            final(self).removed == old(self).removed,
            final(self).modified == old(self).modified,
            final(self).passive == old(self).passive,
            final(self).matched == old(self).matched,
            final(self).skipped == old(self).skipped,
            final(self).failed == old(self).failed,
    {
        self.executed.total = self.executed.total + 1;
        note_host(&mut self.executed.hosts, host);
        note_host(&mut self.adjusted_hosts, host);
    }

    /// The host completed a passive task: no effect on the host.
    pub fn increment_passive_for_host(&mut self, host: &String)
        requires
            old(self).hosts_distinct(),
            old(self).passive.total < u64::MAX,
        ensures
            final(self).hosts_distinct(),
            same_identity(old(self), final(self)),
            tally_bumped(old(self).passive, final(self).passive, *host, true),
            final(self).adjusted_hosts == old(self).adjusted_hosts,
            final(self).attempted == old(self).attempted,
            final(self).created == old(self).created,
            final(self).removed == old(self).removed,
            final(self).modified == old(self).modified,
            final(self).executed == old(self).executed,
            final(self).matched == old(self).matched,
            final(self).skipped == old(self).skipped,
            final(self).failed == old(self).failed,
    {
        self.passive.total = self.passive.total + 1;
        note_host(&mut self.passive.hosts, host);
    }

    /// The host already matched policy.
    pub fn increment_matched_for_host(&mut self, host: &String)
        requires
            old(self).hosts_distinct(),
            old(self).matched.total < u64::MAX,
        ensures
            final(self).hosts_distinct(),
            same_identity(old(self), final(self)),
            tally_bumped(old(self).matched, final(self).matched, *host, true),
            final(self).adjusted_hosts == old(self).adjusted_hosts,
            final(self).attempted == old(self).attempted,
            final(self).created == old(self).created,
            final(self).removed == old(self).removed,
            final(self).modified == old(self).modified,
            final(self).executed == old(self).executed,
            final(self).passive == old(self).passive,
            final(self).skipped == old(self).skipped,
            final(self).failed == old(self).failed,
    {
        self.matched.total = self.matched.total + 1;
        note_host(&mut self.matched.hosts, host);
    }

    /// The host skipped the task.
    pub fn increment_skipped_for_host(&mut self, host: &String)
        requires
            old(self).hosts_distinct(),
            old(self).skipped.total < u64::MAX,
        ensures
            final(self).hosts_distinct(),
            same_identity(old(self), final(self)),
            tally_bumped(old(self).skipped, final(self).skipped, *host, true),
            final(self).adjusted_hosts == old(self).adjusted_hosts,
            final(self).attempted == old(self).attempted,
            final(self).created == old(self).created,
            final(self).removed == old(self).removed,
            final(self).modified == old(self).modified,
            final(self).executed == old(self).executed,
            final(self).passive == old(self).passive,
            final(self).matched == old(self).matched,
            final(self).failed == old(self).failed,
    {
        self.skipped.total = self.skipped.total + 1;
        note_host(&mut self.skipped.hosts, host);
    }

    /// The host failed a task or its connection.
    pub fn increment_failed_for_host(&mut self, host: &String)
        requires
            old(self).hosts_distinct(),
            old(self).failed.total < u64::MAX,
        ensures
            final(self).hosts_distinct(),
            same_identity(old(self), final(self)),
            tally_bumped(old(self).failed, final(self).failed, *host, true),
            final(self).adjusted_hosts == old(self).adjusted_hosts,
            final(self).attempted == old(self).attempted,
            final(self).created == old(self).created,
            final(self).removed == old(self).removed,
            final(self).modified == old(self).modified,
            final(self).executed == old(self).executed,
            final(self).passive == old(self).passive,
            final(self).matched == old(self).matched,
            final(self).skipped == old(self).skipped,
    {
        self.failed.total = self.failed.total + 1;
        note_host(&mut self.failed.hosts, host);
    }

    /// Hosts that ended the run with at least one failure.
    pub fn get_hosts_failed_count(&self) -> (r: usize)
        ensures
            r == self.failed.hosts@.len(),
    {
        self.failed.hosts.len()
    }

    /// Hosts that attempted at least one task.
    pub fn get_hosts_seen_count(&self) -> (r: usize)
        ensures
            r == self.attempted.hosts@.len(),
    {
        self.attempted.hosts.len()
    }

    /// Roles entered over the run.
    pub fn get_role_count(&self) -> (r: u64)
        ensures
            r == self.role_count,
    {
        self.role_count
    }

    /// Tasks entered over the run.
    pub fn get_task_count(&self) -> (r: u64)
        ensures
            r == self.task_count,
    {
        self.task_count
    }

    /// Task attempts over all hosts.
    pub fn get_total_attempted_count(&self) -> (r: u64)
        ensures
            r == self.attempted.total,
    {
        self.attempted.total
    }

    /// Resources created (or needing creation) over all hosts.
    pub fn get_total_creation_count(&self) -> (r: u64)
        ensures
            r == self.created.total,
    {
        self.created.total
    }

    /// Distinct hosts with a creation.
    pub fn get_hosts_creation_count(&self) -> (r: usize)
        ensures
            r == self.created.hosts@.len(),
    {
        self.created.hosts.len()
    }

    /// Resources modified (or needing modification) over all hosts.
    pub fn get_total_modified_count(&self) -> (r: u64)
        ensures
            r == self.modified.total,
    {
        self.modified.total
    }

    /// Distinct hosts with a modification.
    pub fn get_hosts_modified_count(&self) -> (r: usize)
        ensures
            r == self.modified.hosts@.len(),
    {
        self.modified.hosts.len()
    }

    /// Resources removed (or needing removal) over all hosts.
    pub fn get_total_removal_count(&self) -> (r: u64)
        ensures
            r == self.removed.total,
    {
        self.removed.total
    }

    /// Distinct hosts with a removal.
    pub fn get_hosts_removal_count(&self) -> (r: usize)
        ensures
            r == self.removed.hosts@.len(),
    {
        self.removed.hosts.len()
    }

    /// Commands executed (or needing execution) over all hosts.
    pub fn get_total_executions_count(&self) -> (r: u64)
        ensures
            r == self.executed.total,
    {
        self.executed.total
    }

    /// Distinct hosts with an execution.
    pub fn get_hosts_executions_count(&self) -> (r: usize)
        ensures
            r == self.executed.hosts@.len(),
    {
        self.executed.hosts.len()
    }

    /// Passive outcomes over all hosts.
    pub fn get_total_passive_count(&self) -> (r: u64)
        ensures
            r == self.passive.total,
    {
        self.passive.total
    }

    /// Distinct hosts with a passive outcome.
    pub fn get_hosts_passive_count(&self) -> (r: usize)
        ensures
            r == self.passive.hosts@.len(),
    {
        self.passive.hosts.len()
    }

    /// Matched outcomes over all hosts.
    pub fn get_total_matched_count(&self) -> (r: u64)
        ensures
            r == self.matched.total,
    {
        self.matched.total
    }

    /// Distinct hosts that matched policy at least once.
    pub fn get_hosts_matched_count(&self) -> (r: usize)
        ensures
            r == self.matched.hosts@.len(),
    {
        self.matched.hosts.len()
    }

    /// Skipped outcomes over all hosts.
    pub fn get_total_skipped_count(&self) -> (r: u64)
        ensures
            r == self.skipped.total,
    {
        self.skipped.total
    }

    /// Distinct hosts that skipped at least once.
    pub fn get_hosts_skipped_count(&self) -> (r: usize)
        ensures
            r == self.skipped.hosts@.len(),
    {
        self.skipped.hosts.len()
    }

    /// Failed outcomes over all hosts.
    pub fn get_total_failed_count(&self) -> (r: u64)
        ensures
            r == self.failed.total,
    {
        self.failed.total
    }

    /// Outcomes that adjusted a host: created, modified, removed and
    /// executed together. Well-formedness keeps the sum inside the
    /// attempted total, so it fits.
    pub fn get_total_adjusted_count(&self) -> (r: u64)
        requires
            self.wf(),
        ensures
            r == self.spec_adjusted_total(),
    {
        self.created.total + self.modified.total + self.removed.total + self.executed.total
    }

    /// Distinct hosts that were adjusted at least once.
    pub fn get_hosts_adjusted_count(&self) -> (r: usize)
        ensures
            r == self.adjusted_hosts@.len(),
    {
        self.adjusted_hosts.len()
    }
}

/// Law: in a well-formed aggregator the unchanged counts can never go
/// negative — the adjusted total is bounded by the attempted total,
/// and the adjusted hosts are among the seen hosts.
pub proof fn lemma_unchanged_counts_nonnegative(ctx: &PlaybookContext)
    requires
        ctx.wf(),
    ensures
        ctx.spec_adjusted_total() <= ctx.attempted.total,
        ctx.adjusted_hosts@.len() <= ctx.attempted.hosts@.len(),
{
    lemma_distinct_subset_len(ctx.adjusted_hosts@, ctx.attempted.hosts@);
}

} // verus!
