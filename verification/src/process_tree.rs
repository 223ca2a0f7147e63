//! Finding the addresses a launched command listens on: the command's
//! process and all its descendants, and their TCP listeners.
use vstd::prelude::*;

use crate::net::{IpAddress, SocketTarget};

verus! {

/// A running process: its id and its parent's id, if it has one.
#[derive(Clone, Copy, Debug, PartialEq, Eq)]
pub struct ProcessEntry {
    pub pid: u32,
    pub parent: Option<u32>,
}

/// A listening socket of some process.
pub struct Listener {
    pub pid: u32,
    pub process_name: String,
    /// Whether it is a TCP socket (as opposed to UDP).
    pub tcp: bool,
    pub socket: SocketTarget,
}

/// `x` occurs in `s`.
pub open spec fn holds_id(s: Seq<u32>, x: u32) -> bool {
    exists|i: int| 0 <= i < s.len() && s[i] == x
}

/// No id occurs twice.
pub open spec fn distinct_ids(s: Seq<u32>) -> bool {
    forall|i: int, j: int| 0 <= i < j < s.len() ==> s[i] != s[j]
}

/// Entry `i` of `family` is the id of a process whose parent is an earlier
/// entry.
pub open spec fn child_of_earlier(family: Seq<u32>, i: int, processes: Seq<ProcessEntry>) -> bool {
    exists|k: int, j: int|
        0 <= k < processes.len() && 0 <= j < i && processes[k].pid == family[i]
            && processes[k].parent == Some(family[j])
}

/// `family` starts with `root` and holds every descendant of `root`, once
/// each: any process whose parent is in it is in it, and everything after
/// `root` is a child of something before it.
pub open spec fn is_family(family: Seq<u32>, root: u32, processes: Seq<ProcessEntry>) -> bool {
    &&& family.len() > 0
    &&& family[0] == root
    &&& distinct_ids(family)
    &&& forall|k: int|
        0 <= k < processes.len() ==> ((#[trigger] processes[k]).parent matches Some(q) && holds_id(
            family,
            q,
        )) ==> holds_id(family, processes[k].pid)
    &&& forall|i: int| 0 < i < family.len() ==> #[trigger] child_of_earlier(family, i, processes)
}

/// Entries after the root come with witnesses: process `wk[i]` has id
/// `family[i]` and its parent is `family[wj[i]]`, an earlier entry.
pub open spec fn witnessed(
    family: Seq<u32>,
    wk: Seq<int>,
    wj: Seq<int>,
    processes: Seq<ProcessEntry>,
) -> bool {
    &&& wk.len() == family.len()
    &&& wj.len() == family.len()
    &&& forall|i: int|
        0 < i < family.len() ==> 0 <= #[trigger] wk[i] < processes.len() && 0 <= wj[i] < i
            && processes[wk[i]].pid == family[i] && processes[wk[i]].parent == Some(family[wj[i]])
}

fn contains_id(v: &Vec<u32>, x: u32) -> (r: bool)
    ensures
        r == holds_id(v@, x),
{
    let mut i: usize = 0;
    while i < v.len()
        invariant
            0 <= i <= v.len(),
            forall|j: int| 0 <= j < i ==> v@[j] != x,
        decreases v.len() - i,
    {
        if v[i] == x {
            return true;
        }
        i = i + 1;
    }
    false
}

/// The ids of `root` and of all its descendants among `processes`, `root`
/// first.
pub fn process_family(root: u32, processes: &Vec<ProcessEntry>) -> (r: Vec<u32>)
    requires
        processes@.len() < usize::MAX,
    ensures
        is_family(r@, root, processes@),
{
    let mut family: Vec<u32> = Vec::new();
    family.push(root);
    let ghost mut wk: Seq<int> = seq![0int];
    let ghost mut wj: Seq<int> = seq![0int];
    let mut next: usize = 0;
    while next < family.len()
        invariant
            processes@.len() < usize::MAX,
            family@.len() > 0,
            family@[0] == root,
            0 <= next <= family@.len(),
            distinct_ids(family@),
            witnessed(family@, wk, wj, processes@),
            forall|q: int, j: int|
                0 <= q < processes@.len() && 0 <= j < next && (#[trigger] processes@[q]).parent
                    == Some(#[trigger] family@[j]) ==> holds_id(family@, processes@[q].pid),
        decreases processes@.len() + 1 - next,
    {
        proof {
            lemma_family_fits(family@, wk, wj, processes@, root);
        }
        let current = family[next];
        let mut k: usize = 0;
        while k < processes.len()
            invariant
                processes@.len() < usize::MAX,
                family@.len() > 0,
                family@[0] == root,
                0 <= next < family@.len(),
                family@[next as int] == current,
                0 <= k <= processes@.len(),
                distinct_ids(family@),
                witnessed(family@, wk, wj, processes@),
                forall|q: int, j: int|
                    0 <= q < processes@.len() && 0 <= j < next && (#[trigger] processes@[q]).parent
                        == Some(#[trigger] family@[j]) ==> holds_id(family@, processes@[q].pid),
                forall|q: int|
                    0 <= q < k && (#[trigger] processes@[q]).parent == Some(current) ==> holds_id(
                        family@,
                        processes@[q].pid,
                    ),
            decreases processes@.len() - k,
        {
            let p = processes[k];
            if p.parent == Some(current) && !contains_id(&family, p.pid) {
                proof {
                    lemma_family_fits(family@, wk, wj, processes@, p.pid);
                }
                let ghost before = family@;
                family.push(p.pid);
                proof {
                    wk = wk.push(k as int);
                    wj = wj.push(next as int);
                }
                assert(family@[before.len() as int] == p.pid);
                assert forall|i: int| 0 < i < family@.len() implies 0 <= #[trigger] wk[i]
                    < processes@.len() && 0 <= wj[i] < i && processes@[wk[i]].pid == family@[i]
                    && processes@[wk[i]].parent == Some(family@[wj[i]]) by {
                    if i < before.len() {
                        assert(family@[i] == before[i]);
                        assert(family@[wj[i]] == before[wj[i]]);
                    }
                }
                assert forall|q: int| 0 <= q < k + 1 && (#[trigger] processes@[q]).parent == Some(
                    current,
                ) implies holds_id(family@, processes@[q].pid) by {
                    if q < k {
                        let w = choose|w: int| 0 <= w < before.len() && before[w] == processes@[q].pid;
                        assert(family@[w] == before[w]);
                    } else {
                        assert(family@[before.len() as int] == processes@[q].pid);
                    }
                }
                assert forall|q: int, j: int|
                    0 <= q < processes@.len() && 0 <= j < next && (#[trigger] processes@[q]).parent
                        == Some(#[trigger] family@[j]) implies holds_id(family@, processes@[q].pid) by {
                    assert(family@[j] == before[j]);
                    assert(holds_id(before, processes@[q].pid));
                    let w = choose|w: int| 0 <= w < before.len() && before[w] == processes@[q].pid;
                    assert(family@[w] == before[w]);
                }
            }
            k = k + 1;
        }
        assert forall|q: int, j: int|
            0 <= q < processes@.len() && 0 <= j < next + 1 && (#[trigger] processes@[q]).parent
                == Some(#[trigger] family@[j]) implies holds_id(family@, processes@[q].pid) by {
            if j == next {
                assert(family@[j] == current);
            }
        }
        next = next + 1;
    }
    proof {
        assert forall|k: int|
            0 <= k < processes@.len() && ((#[trigger] processes@[k]).parent matches Some(q)
                && holds_id(family@, q)) implies holds_id(family@, processes@[k].pid) by {
            let q = processes@[k].parent->0;
            let j = choose|j: int| 0 <= j < family@.len() && family@[j] == q;
            assert(processes@[k].parent == Some(family@[j]));
        }
        assert forall|i: int| 0 < i < family@.len() implies #[trigger] child_of_earlier(
            family@,
            i,
            processes@,
        ) by {
            assert(0 <= wk[i] < processes@.len());
        }
    }
    family
}

/// A family without duplicates holds at most one id per process besides
/// the root; when it lacks an id that some process has, it holds at most
/// one per process in all.
proof fn lemma_family_fits(
    family: Seq<u32>,
    wk: Seq<int>,
    wj: Seq<int>,
    processes: Seq<ProcessEntry>,
    candidate: u32,
)
    requires
        family.len() > 0,
        distinct_ids(family),
        witnessed(family, wk, wj, processes),
    ensures
        family.len() <= processes.len() + 1,
        !holds_id(family, candidate) && (exists|q: int|
            0 <= q < processes.len() && processes[q].pid == candidate) ==> family.len()
            <= processes.len(),
{
    let idx = wk.skip(1);
    let s = idx.to_set();
    assert forall|x: int| s.contains(x) implies 0 <= x < processes.len() by {
        let i = choose|i: int| 0 <= i < idx.len() && idx[i] == x;
        assert(idx[i] == wk[i + 1]);
    }
    assert(idx.no_duplicates()) by {
        assert forall|a: int, b: int|
            0 <= a < idx.len() && 0 <= b < idx.len() && a != b implies idx[a] != idx[b] by {
            assert(idx[a] == wk[a + 1]);
            assert(idx[b] == wk[b + 1]);
            assert(family[a + 1] != family[b + 1]);
        }
    }
    idx.unique_seq_to_set();
    let range = vstd::set_lib::set_int_range(0, processes.len() as int);
    vstd::set_lib::lemma_int_range(0, processes.len() as int);
    assert(s.subset_of(range));
    vstd::set_lib::lemma_len_subset(s, range);
    if !holds_id(family, candidate) && (exists|q: int|
        0 <= q < processes.len() && processes[q].pid == candidate) {
        let m = choose|q: int| 0 <= q < processes.len() && processes[q].pid == candidate;
        assert(!s.contains(m)) by {
            if s.contains(m) {
                let i = choose|i: int| 0 <= i < idx.len() && idx[i] == m;
                assert(idx[i] == wk[i + 1]);
                assert(family[i + 1] == candidate);
            }
        }
        assert(s.subset_of(range.remove(m)));
        vstd::set_lib::lemma_len_subset(s, range.remove(m));
    }
}

/// The name and address of each IPv4 TCP listener of the processes in
/// `family`, in the order of `listeners` (only IPv4 addresses are detected).
pub open spec fn family_tcp_listeners(listeners: Seq<Listener>, family: Seq<u32>) -> Seq<
    (Seq<char>, SocketTarget),
>
    decreases listeners.len(),
{
    if listeners.len() == 0 {
        Seq::empty()
    } else {
        let rest = family_tcp_listeners(listeners.drop_last(), family);
        let l = listeners.last();
        if l.tcp && l.socket.ip is V4 && holds_id(family, l.pid) {
            rest.push((l.process_name@, l.socket))
        } else {
            rest
        }
    }
}

/// The names and addresses of the IPv4 TCP listeners of the processes in
/// `family`.
pub fn family_listeners(family: &Vec<u32>, listeners: &Vec<Listener>) -> (r: Vec<
    (String, SocketTarget),
>)
    ensures
        r@.map_values(|p: (String, SocketTarget)| (p.0@, p.1)) == family_tcp_listeners(
            listeners@,
            family@,
        ),
{
    let mut r: Vec<(String, SocketTarget)> = Vec::new();
    let mut i: usize = 0;
    while i < listeners.len()
        invariant
            0 <= i <= listeners@.len(),
            r@.map_values(|p: (String, SocketTarget)| (p.0@, p.1)) == family_tcp_listeners(
                listeners@.take(i as int),
                family@,
            ),
        decreases listeners@.len() - i,
    {
        let l = &listeners[i];
        assert(listeners@.take(i + 1).drop_last() =~= listeners@.take(i as int));
        let is_v4 = match l.socket.ip {
            IpAddress::V4(_) => true,
            IpAddress::V6(_) => false,
        };
        if l.tcp && is_v4 && contains_id(family, l.pid) {
            let ghost before = r@;
            r.push((l.process_name.clone(), l.socket));
            assert(r@.map_values(|p: (String, SocketTarget)| (p.0@, p.1)) =~= before.map_values(
                |p: (String, SocketTarget)| (p.0@, p.1),
            ).push((l.process_name@, l.socket)));
        }
        i = i + 1;
    }
    assert(listeners@.take(listeners@.len() as int) =~= listeners@);
    r
}

} // verus!
