use vstd::prelude::*;
use vstd::set_lib::{lemma_int_range, lemma_subset_equality, set_int_range};

use crate::outcome::ProcFinished;
use crate::proc::{built, default_shell, Proc, ProcBuilder, ProcSpec};

verus! {

/// The description of the command that a batch runs for a command text: the
/// text itself, waited for, in the default shell.
pub open spec fn batch_entry(command: Seq<char>) -> ProcSpec {
    ProcSpec { command: command, do_wait: true, shell: default_shell() }
}

/// Describes one command per command text, in the same order.
pub fn plan_batch(commands: &Vec<String>) -> (r: Vec<Proc>)
    ensures
        r@.len() == commands@.len(),
        forall|i: int| 0 <= i < r@.len() ==> r@[i]@ == batch_entry(#[trigger] commands@[i]@),
{
    let mut procs: Vec<Proc> = Vec::new();
    let mut i: usize = 0;
    while i < commands.len()
        invariant
            i <= commands@.len(),
            procs@.len() == i,
            forall|j: int| 0 <= j < i ==> procs@[j]@ == batch_entry(#[trigger] commands@[j]@),
        decreases commands@.len() - i,
    {
        let b = ProcBuilder::new().command(commands[i].as_str()).wait();
        assert(built(b@) == Some(batch_entry(commands@[i as int]@)));
        let p = b.build().unwrap();
        procs.push(p);
        i = i + 1;
    }
    procs
}

/// The slots of a batch of `n` commands of which none has reported.
pub open spec fn no_reports(n: nat) -> Seq<Option<ProcFinished>> {
    Seq::new(n, |i: int| None)
}

/// Whether every command of the batch has reported.
pub open spec fn all_reported(s: Seq<Option<ProcFinished>>) -> bool {
    forall|i: int| 0 <= i < s.len() ==> #[trigger] s[i] is Some
}

/// Whether command `i` may report now: it belongs to the batch and has not
/// reported yet.
pub open spec fn may_report(s: Seq<Option<ProcFinished>>, i: int) -> bool {
    0 <= i < s.len() && s[i] is None
}

/// The slots after command `i` reports `r`: a report that may not come now
/// changes nothing.
pub open spec fn with_report(
    s: Seq<Option<ProcFinished>>,
    i: int,
    r: ProcFinished,
) -> Seq<Option<ProcFinished>> {
    if may_report(s, i) {
        s.update(i, Some(r))
    } else {
        s
    }
}

/// The slots after the commands `order[k]` report `rs[k]`, one after another.
pub open spec fn with_reports(
    s: Seq<Option<ProcFinished>>,
    order: Seq<int>,
    rs: Seq<ProcFinished>,
) -> Seq<Option<ProcFinished>>
    recommends
        order.len() == rs.len(),
    decreases order.len(),
{
    if order.len() == 0 {
        s
    } else {
        with_report(
            with_reports(s, order.drop_last(), rs.drop_last()),
            order.last(),
            rs.last(),
        )
    }
}

/// The results of a batch of commands as they come in: one slot per
/// command, filled once, when that command reports.
pub struct Batch {
    slots: Vec<Option<ProcFinished>>,
}

impl View for Batch {
    type V = Seq<Option<ProcFinished>>;

    closed spec fn view(&self) -> Seq<Option<ProcFinished>> {
        self.slots@
    }
}

impl Batch {
    /// A batch of `n` commands, none of which has reported.
    pub fn new(n: usize) -> (r: Batch)
        ensures
            r@ == no_reports(n as nat),
    {
        let mut slots: Vec<Option<ProcFinished>> = Vec::new();
        let mut i: usize = 0;
        while i < n
            invariant
                i <= n,
                slots@ == no_reports(i as nat),
            decreases n - i,
        {
            slots.push(None);
            i = i + 1;
            assert(slots@ =~= no_reports(i as nat));
        }
        Batch { slots }
    }

    /// The number of commands in the batch.
    pub fn len(&self) -> (r: usize)
        ensures
            r == self@.len(),
    {
        self.slots.len()
    }

    /// Records that command `i` finished with `r`. Only the first report of a
    /// command of the batch is kept; the answer says whether this one was.
    pub fn record(&mut self, i: usize, r: ProcFinished) -> (accepted: bool)
        ensures
            accepted == may_report(old(self)@, i as int),
            final(self)@ == with_report(old(self)@, i as int, r),
    {
        if i < self.slots.len() && self.slots[i].is_none() {
            self.slots.set(i, Some(r));
            true
        } else {
            false
        }
    }

    /// Whether every command of the batch has reported.
    pub fn is_complete(&self) -> (r: bool)
        ensures
            r == all_reported(self@),
    {
        let mut i: usize = 0;
        while i < self.slots.len()
            invariant
                i <= self@.len(),
                forall|j: int| 0 <= j < i ==> #[trigger] self@[j] is Some,
            decreases self@.len() - i,
        {
            if self.slots[i].is_none() {
                return false;
            }
            i = i + 1;
        }
        true
    }

    /// The results in command order, once every command has reported;
    /// `None` while one is still running.
    pub fn into_results(self) -> (r: Option<Vec<ProcFinished>>)
        ensures
            r is Some <==> all_reported(self@),
            r is Some ==> r->Some_0@.len() == self@.len() && forall|i: int|
                0 <= i < self@.len() ==> Some(#[trigger] r->Some_0@[i]) == self@[i],
    {
        if !self.is_complete() {
            return None;
        }
        let ghost all = self@;
        let mut slots = self.slots;
        let mut out: Vec<ProcFinished> = Vec::new();
        while slots.len() > 0
            invariant
                all_reported(all),
                out@.len() + slots@.len() == all.len(),
                slots@ == all.skip(out@.len() as int),
                forall|j: int| 0 <= j < out@.len() ==> Some(#[trigger] out@[j]) == all[j],
            decreases slots@.len(),
        {
            let ghost k = out@.len() as int;
            assert(all[k] == slots@[0]);
            let s = slots.remove(0);
            match s {
                Some(x) => out.push(x),
                None => {},
            }
            assert(slots@ =~= all.skip(out@.len() as int));
        }
        Some(out)
    }
}

proof fn lemma_reports_fill_their_slots(
    n: nat,
    order: Seq<int>,
    rs: Seq<ProcFinished>,
)
    requires
        order.len() == rs.len(),
        order.no_duplicates(),
        forall|k: int| 0 <= k < order.len() ==> 0 <= #[trigger] order[k] < n,
    ensures
        with_reports(no_reports(n), order, rs).len() == n,
        forall|k: int|
            0 <= k < order.len() ==> with_reports(no_reports(n), order, rs)[#[trigger] order[k]]
                == Some(rs[k]),
        forall|j: int|
            0 <= j < n && !order.contains(j) ==> #[trigger] with_reports(no_reports(n), order, rs)[j]
                is None,
    decreases order.len(),
{
    if order.len() > 0 {
        let o = order.drop_last();
        let r = rs.drop_last();
        assert forall|k: int| 0 <= k < o.len() implies 0 <= #[trigger] o[k] < n by {
            assert(o[k] == order[k]);
        }
        assert(o.no_duplicates());
        lemma_reports_fill_their_slots(n, o, r);
        let prev = with_reports(no_reports(n), o, r);
        let last = order.last();
        assert(!o.contains(last)) by {
            if o.contains(last) {
                let k = choose|k: int| 0 <= k < o.len() && o[k] == last;
                assert(order[k] == order[order.len() - 1]);
            }
        }
        assert(prev[last] is None);
        assert forall|k: int| 0 <= k < order.len() implies with_reports(
            no_reports(n),
            order,
            rs,
        )[#[trigger] order[k]] == Some(rs[k]) by {
            if k < o.len() {
                assert(o[k] == order[k]);
                assert(r[k] == rs[k]);
            }
        }
        assert forall|j: int| 0 <= j < n && !order.contains(j) implies #[trigger] with_reports(
            no_reports(n),
            order,
            rs,
        )[j] is None by {
            if o.contains(j) {
                let k = choose|k: int| 0 <= k < o.len() && o[k] == j;
                assert(order[k] == j);
            }
            assert(j != order[order.len() - 1]);
        }
    }
}

/// When each of the `n` commands of a batch reports exactly once, in any
/// order, the batch is complete and holds for every command the result that
/// it reported.
pub proof fn lemma_batch_completes_once_each(n: nat, order: Seq<int>, rs: Seq<ProcFinished>)
    requires
        order.len() == n,
        rs.len() == n,
        order.no_duplicates(),
        forall|k: int| 0 <= k < n ==> 0 <= #[trigger] order[k] < n,
    ensures
        with_reports(no_reports(n), order, rs).len() == n,
        all_reported(with_reports(no_reports(n), order, rs)),
        forall|k: int|
            0 <= k < n ==> with_reports(no_reports(n), order, rs)[#[trigger] order[k]] == Some(
                rs[k],
            ),
{
    lemma_reports_fill_their_slots(n, order, rs);
    order.unique_seq_to_set();
    lemma_int_range(0, n as int);
    assert(order.to_set().subset_of(set_int_range(0, n as int)));
    lemma_subset_equality(order.to_set(), set_int_range(0, n as int));
    let s = with_reports(no_reports(n), order, rs);
    assert forall|j: int| 0 <= j < s.len() implies #[trigger] s[j] is Some by {
        assert(set_int_range(0, n as int).contains(j));
        assert(order.to_set().contains(j));
    }
}

/// A command that has reported cannot report again: a second report is
/// refused and leaves the batch as it was.
pub proof fn lemma_second_report_refused(
    s: Seq<Option<ProcFinished>>,
    i: int,
    first: ProcFinished,
    second: ProcFinished,
)
    requires
        may_report(s, i),
    ensures
        !may_report(with_report(s, i, first), i),
        with_report(with_report(s, i, first), i, second) == with_report(s, i, first),
{
}

} // verus!
