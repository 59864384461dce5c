//! The process table: processes with their saved context and owned address
//! space, and the counter that hands out process ids.
//!
//! The id is drawn and the process appended in one call on `&mut self`, so a
//! caller that shares the table behind a lock does both in one critical
//! section, and the order of ids is the order of insertion. Processes are
//! never removed and ids never reused.
use vstd::prelude::*;
use x86_64::structures::paging::PageTable;
use crate::context::{zero_context, Context};

verus! {

/// `x86_64::structures::paging::PageTable`, carried as an opaque value.
#[verifier::external_type_specification]
#[verifier::external_body]
pub struct ExPageTable(PageTable);

/// A process: its id, its saved registers, and its top-level page table.
pub struct Process {
    pid: u64,
    context: Context,
    page_table: Box<PageTable>,
}

impl Process {
    pub closed spec fn pid_spec(&self) -> u64 {
        self.pid
    }

    pub closed spec fn context_spec(&self) -> Context {
        self.context
    }

    pub closed spec fn page_table_spec(&self) -> Box<PageTable> {
        self.page_table
    }

    pub fn pid(&self) -> (r: u64)
        ensures
            r == self.pid_spec(),
    {
        self.pid
    }

    pub fn context(&self) -> (r: &Context)
        ensures
            *r == self.context_spec(),
    {
        &self.context
    }

    pub fn page_table(&self) -> (r: &PageTable)
        ensures
            *r == *self.page_table_spec(),
    {
        &self.page_table
    }
}

/// The process collection and the id counter, each created by `init_sched`.
pub struct ProcessTable {
    next_pid: Option<u64>,
    processes: Option<Vec<Process>>,
}

/// `new` is `old` with one more process, of id `pid`.
pub open spec fn creates(old: ProcessTable, new: ProcessTable, pid: u64) -> bool {
    &&& old.ready()
    &&& pid == old.next_pid_spec()
    &&& new.ready()
    &&& new.next_pid_spec() == pid + 1
    &&& new.pids() == old.pids().push(pid)
}

impl ProcessTable {
    /// Whether the counter and the collection exist.
    pub closed spec fn ready(&self) -> bool {
        self.next_pid is Some && self.processes is Some
    }

    /// Whether the id counter exists.
    pub closed spec fn has_counter(&self) -> bool {
        self.next_pid is Some
    }

    /// The id the next process gets.
    pub closed spec fn next_pid_spec(&self) -> u64 {
        self.next_pid.unwrap_or(0)
    }

    /// The processes in order of insertion.
    pub closed spec fn procs(&self) -> Seq<Process> {
        match self.processes {
            Some(v) => v@,
            None => Seq::empty(),
        }
    }

    /// The ids of the processes in order of insertion.
    pub open spec fn pids(&self) -> Seq<u64> {
        self.procs().map_values(|p: Process| p.pid_spec())
    }

    /// The counter starts at one and runs ahead of every id handed out; ids
    /// increase strictly in order of insertion.
    pub open spec fn wf(&self) -> bool {
        &&& (self.procs().len() > 0 ==> self.ready())
        &&& (self.has_counter() ==> self.next_pid_spec() >= 1)
        &&& forall|i: int| 0 <= i < self.pids().len() ==> self.pids()[i] < self.next_pid_spec()
        &&& forall|i: int, j: int|
            0 <= i < j < self.pids().len() ==> self.pids()[i] < self.pids()[j]
    }

    /// A table whose counter and collection are not created yet.
    pub fn new() -> (r: ProcessTable)
        ensures
            r.wf(),
            !r.ready(),
            !r.has_counter(),
            r.pids().len() == 0,
    {
        ProcessTable { next_pid: None, processes: None }
    }

    /// Creates the counter, starting at one, and the empty collection, each
    /// only where it does not exist yet.
    pub fn init_sched(&mut self)
        requires
            old(self).wf(),
        ensures
            final(self).wf(),
            final(self).ready(),
            old(self).ready() ==> *final(self) == *old(self),
            !old(self).has_counter() ==> final(self).next_pid_spec() == 1,
            old(self).has_counter() ==> final(self).next_pid_spec() == old(self).next_pid_spec(),
            final(self).pids() == old(self).pids(),
    {
        if self.next_pid.is_none() {
            self.next_pid = Some(1);
        }
        if self.processes.is_none() {
            self.processes = Some(Vec::new());
        }
        assert(self.pids() =~= old(self).pids());
    }

    /// Whether the counter and the collection exist.
    pub fn is_ready(&self) -> (r: bool)
        ensures
            r == self.ready(),
    {
        self.next_pid.is_some() && self.processes.is_some()
    }

    /// Adds a process that owns `page_table`, with a context that has never
    /// run, and returns its id. Returns `None`, and changes nothing, where
    /// `init_sched` has not run or every id is spent.
    pub fn create_thread(&mut self, page_table: Box<PageTable>) -> (r: Option<u64>)
        requires
            old(self).wf(),
        ensures
            final(self).wf(),
            !old(self).ready() || old(self).next_pid_spec() == u64::MAX <==> r is None,
            r is None ==> *final(self) == *old(self),
            r matches Some(pid) ==> {
                &&& creates(*old(self), *final(self), pid)
                &&& final(self).procs().last().context_spec() == zero_context()
                &&& final(self).procs().last().page_table_spec() == page_table
                &&& final(self).procs().drop_last() == old(self).procs()
            },
    {
        if self.next_pid.is_none() || self.processes.is_none() {
            return None;
        }
        let pid = self.next_pid.unwrap();
        if pid == u64::MAX {
            return None;
        }
        let ghost before = self.procs();
        let mut list = self.processes.take().unwrap();
        list.push(Process { pid, context: Context::default(), page_table });
        self.processes = Some(list);
        self.next_pid = Some(pid + 1);
        assert(self.procs().drop_last() =~= before);
        assert(self.pids() =~= old(self).pids().push(pid));
        Some(pid)
    }

    /// The number of processes.
    pub fn len(&self) -> (r: usize)
        ensures
            r == self.pids().len(),
    {
        match &self.processes {
            Some(v) => v.len(),
            None => 0,
        }
    }

    /// The process at position `i`, in order of insertion.
    pub fn process(&self, i: usize) -> (r: &Process)
        requires
            i < self.pids().len(),
        ensures
            *r == self.procs()[i as int],
    {
        let v = self.processes.as_ref().unwrap();
        &v[i]
    }
}

/// A new id is above every id handed out before it, so it is not one of them,
/// and ids stay strictly increasing in order of insertion.
pub proof fn lemma_pid_fresh(a: ProcessTable, b: ProcessTable, pid: u64)
    requires
        a.wf(),
        creates(a, b, pid),
    ensures
        forall|i: int| 0 <= i < a.pids().len() ==> a.pids()[i] < pid,
        !a.pids().contains(pid),
        b.pids().len() == a.pids().len() + 1,
        forall|i: int, j: int| 0 <= i < j < b.pids().len() ==> b.pids()[i] < b.pids()[j],
{
    assert forall|i: int, j: int| 0 <= i < j < b.pids().len() implies b.pids()[i] < b.pids()[j] by {
        if j == a.pids().len() {
            assert(b.pids()[i] == a.pids()[i]);
        } else {
            assert(b.pids()[i] == a.pids()[i] && b.pids()[j] == a.pids()[j]);
        }
    }
}

/// Two creations add exactly two processes, with two distinct ids, both
/// new to the table; the second id follows the first.
pub proof fn lemma_two_creations(
    a: ProcessTable,
    b: ProcessTable,
    c: ProcessTable,
    p: u64,
    q: u64,
)
    requires
        a.wf(),
        creates(a, b, p),
        creates(b, c, q),
    ensures
        c.pids().len() == a.pids().len() + 2,
        p != q,
        q == p + 1,
        c.pids().contains(p),
        c.pids().contains(q),
        !a.pids().contains(p),
        !a.pids().contains(q),
{
    lemma_pid_fresh(a, b, p);
    assert(c.pids()[a.pids().len() as int] == p);
    assert(c.pids()[a.pids().len() + 1int] == q);
    assert(!a.pids().contains(q)) by {
        if a.pids().contains(q) {
            let i = choose|i: int| 0 <= i < a.pids().len() && a.pids()[i] == q;
            assert(a.pids()[i] < p);
        }
    }
}

} // verus!
