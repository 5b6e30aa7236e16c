//! The network resource manager's verified core: an allocator that hands out
//! the numerically lowest free address of a bounded range and reclaims
//! returned addresses into a set of disjoint, coalesced intervals.

use vstd::prelude::*;
use crate::addr::Ipv4Address;
use crate::addr::MacAddr;
use crate::addr::Ipv4Net;
use crate::addr::dec_str;
use crate::addr::u64_to_dec_string;
use vstd::string::StringExecFns;

pub mod common;
pub mod userbridge;
pub mod usertap;

verus! {

/// An inclusive range of IPv4 addresses.
#[derive(Clone, Copy, Debug, PartialEq, Eq, Structural)]
pub struct Ipv4AddrRange {
    pub first: Ipv4Address,
    pub last: Ipv4Address,
}

impl Ipv4AddrRange {
    /// The range from `first` to `last`, both included.
    pub fn new(first: Ipv4Address, last: Ipv4Address) -> (r: Ipv4AddrRange)
        ensures
            r.first == first,
            r.last == last,
    {
        Ipv4AddrRange { first, last }
    }

    /// How many addresses the range holds.
    pub open spec fn spec_size(self) -> int {
        if self.first.value <= self.last.value {
            self.last.value - self.first.value + 1
        } else {
            0
        }
    }
}

/// Intervals are within bounds, sorted and pairwise disjoint: each ends before
/// the next begins.
pub open spec fn sorted_disjoint(s: Seq<(u32, u32)>) -> bool {
    &&& forall|i: int| 0 <= i < s.len() ==> (#[trigger] s[i]).0 <= s[i].1
    &&& forall|i: int| 0 <= i < s.len() - 1 ==> (#[trigger] s[i]).1 < s[i + 1].0
}

/// Fully coalesced: besides being sorted and disjoint, no interval touches the
/// next, so every maximal run of free offsets is one interval.
pub open spec fn coalesced(s: Seq<(u32, u32)>) -> bool {
    &&& sorted_disjoint(s)
    &&& forall|i: int| 0 <= i < s.len() - 1 ==> (#[trigger] s[i]).1 + 1 < s[i + 1].0
}

/// Whether offset `n` lies in one of the intervals.
pub open spec fn in_intervals(s: Seq<(u32, u32)>, n: int) -> bool {
    exists|i: int| 0 <= i < s.len() && (#[trigger] s[i]).0 <= n <= s[i].1
}

/// The set of offsets the intervals cover.
pub open spec fn interval_set(s: Seq<(u32, u32)>) -> Set<int> {
    Set::new(|n: int| in_intervals(s, n))
}

/// In a sorted interval sequence both endpoints grow with the index.
proof fn lemma_sorted_monotone(s: Seq<(u32, u32)>, i: int, j: int)
    requires
        sorted_disjoint(s),
        0 <= i <= j < s.len(),
    ensures
        s[i].0 <= s[j].0,
        s[i].1 <= s[j].1,
        i < j ==> s[i].1 < s[j].0,
    decreases j - i,
{
    if i < j {
        lemma_sorted_monotone(s, i, j - 1);
    }
}

/// Appending an interval adds exactly its offsets.
proof fn lemma_in_intervals_push(prev: Seq<(u32, u32)>, s: u32, e: u32, n: int)
    ensures
        in_intervals(prev.push((s, e)), n) <==> (in_intervals(prev, n) || s <= n <= e),
{
    let cur = prev.push((s, e));
    if in_intervals(cur, n) {
        let i = choose|i: int| 0 <= i < cur.len() && (#[trigger] cur[i]).0 <= n <= cur[i].1;
        if i < prev.len() {
            assert(prev[i].0 <= n <= prev[i].1);
        }
    }
    if in_intervals(prev, n) {
        let i = choose|i: int| 0 <= i < prev.len() && (#[trigger] prev[i]).0 <= n <= prev[i].1;
        assert(cur[i].0 <= n <= cur[i].1);
    }
    if s <= n <= e {
        assert(cur[prev.len() as int].0 <= n <= cur[prev.len() as int].1);
    }
}

/// Extending the last interval `[ls, le]` to `[ls, e]` adds exactly the
/// offsets of `[le + 1, e]` when the two runs touch.
proof fn lemma_in_intervals_merge_last(prev: Seq<(u32, u32)>, s: u32, e: u32, n: int)
    requires
        prev.len() > 0,
        prev.last().0 <= prev.last().1,
        prev.last().1 + 1 == s,
        s <= e,
    ensures
        in_intervals(prev.update(prev.len() - 1, (prev.last().0, e)), n) <==> (in_intervals(prev, n)
            || s <= n <= e),
{
    let cur = prev.update(prev.len() - 1, (prev.last().0, e));
    if in_intervals(cur, n) {
        let i = choose|i: int| 0 <= i < cur.len() && (#[trigger] cur[i]).0 <= n <= cur[i].1;
        if i < prev.len() - 1 {
            assert(prev[i].0 <= n <= prev[i].1);
        } else if n <= prev.last().1 {
            assert(prev[i].0 <= n <= prev[i].1);
        }
    }
    if in_intervals(prev, n) {
        let i = choose|i: int| 0 <= i < prev.len() && (#[trigger] prev[i]).0 <= n <= prev[i].1;
        assert(cur[i].0 <= n <= cur[i].1);
    }
    if s <= n <= e {
        assert(cur[cur.len() - 1].0 <= n <= cur[cur.len() - 1].1);
    }
}

/// Taking one more interval of a sequence adds exactly its offsets.
proof fn lemma_in_intervals_take_one_more(t: Seq<(u32, u32)>, k: int, n: int)
    requires
        0 <= k < t.len(),
    ensures
        in_intervals(t.take(k + 1), n) <==> (in_intervals(t.take(k), n) || t[k].0 <= n <= t[k].1),
{
    assert(t.take(k + 1) =~= t.take(k).push((t[k].0, t[k].1)));
    lemma_in_intervals_push(t.take(k), t[k].0, t[k].1, n);
}

/// Inserting the singleton `[id, id]` adds exactly the offset `id`.
proof fn lemma_in_intervals_insert_singleton(olds: Seq<(u32, u32)>, pos: int, id: u32, n: int)
    requires
        0 <= pos <= olds.len(),
    ensures
        in_intervals(olds.insert(pos, (id, id)), n) <==> (in_intervals(olds, n) || n == id as int),
{
    let s = olds.insert(pos, (id, id));
    if in_intervals(s, n) {
        let i = choose|i: int| 0 <= i < s.len() && (#[trigger] s[i]).0 <= n <= s[i].1;
        if i < pos {
            assert(olds[i].0 <= n <= olds[i].1);
        } else if i > pos {
            assert(olds[i - 1].0 <= n <= olds[i - 1].1);
        }
    }
    if in_intervals(olds, n) {
        let j = choose|j: int| 0 <= j < olds.len() && (#[trigger] olds[j]).0 <= n <= olds[j].1;
        if j < pos {
            assert(s[j].0 <= n <= s[j].1);
        } else {
            assert(s[j + 1].0 <= n <= s[j + 1].1);
        }
    }
    if n == id as int {
        assert(s[pos].0 <= n <= s[pos].1);
    }
}

/// Allocates and frees offsets of a bounded address range, always handing out
/// the lowest free address first.  The free offsets are kept as a sorted,
/// disjoint, fully coalesced sequence of closed intervals.
#[derive(Debug)]
pub struct IpAddressAllocator {
    ip: Ipv4AddrRange,
    free: Vec<(u32, u32)>,
}

impl IpAddressAllocator {
    /// The allocator's intervals are coalesced and lie within the range.
    pub closed spec fn wf(self) -> bool {
        &&& self.ip.first.value <= self.ip.last.value
        &&& coalesced(self.free@)
        &&& forall|i: int|
            0 <= i < self.free@.len() ==> (#[trigger] self.free@[i]).1 < self.ip.spec_size()
    }

    /// The range the allocator was built over.
    pub closed spec fn spec_range(self) -> Ipv4AddrRange {
        self.ip
    }

    /// The offsets (distances from the range's first address) that are free.
    pub closed spec fn free_ids(self) -> Set<int> {
        interval_set(self.free@)
    }

    /// How many addresses the given range holds.
    pub fn max(ip: Ipv4AddrRange) -> (n: u64)
        requires
            ip.first.value <= ip.last.value,
        ensures
            n == ip.spec_size(),
    {
        ip.last.value as u64 - ip.first.value as u64 + 1
    }

    /// A fresh allocator over `address_range`: every offset of the range is
    /// free.
    pub fn new(address_range: Ipv4AddrRange) -> (r: IpAddressAllocator)
        requires
            address_range.first.value <= address_range.last.value,
        ensures
            r.wf(),
            r.spec_range() == address_range,
            r.free_ids() == Set::new(|n: int| 0 <= n < address_range.spec_size()),
    {
        let size = Self::max(address_range);
        let mut free: Vec<(u32, u32)> = Vec::new();
        free.push((0, (size - 1) as u32));
        let r = IpAddressAllocator { ip: address_range, free };
        proof {
            assert forall|n: int| 0 <= n < address_range.spec_size() implies in_intervals(
                r.free@,
                n,
            ) by {
                assert(r.free@[0].0 <= n <= r.free@[0].1);
            }
            assert(r.free_ids() =~= Set::new(|n: int| 0 <= n < address_range.spec_size()));
        }
        r
    }

    /// The offset of an address within the range.
    pub fn to_id(&self, ip_addr: Ipv4Address) -> (id: u64)
        requires
            self.spec_range().first.value <= ip_addr.value <= self.spec_range().last.value,
        ensures
            id == ip_addr.value - self.spec_range().first.value,
    {
        ip_addr.value as u64 - self.ip.first.value as u64
    }

    /// The address at a given offset of the range.
    pub fn to_ip(&self, value: u64) -> (ip_addr: Ipv4Address)
        requires
            self.spec_range().first.value <= self.spec_range().last.value,
            value < self.spec_range().spec_size(),
        ensures
            ip_addr.value == self.spec_range().first.value + value,
    {
        Ipv4Address::from_value(self.ip.first.value + value as u32)
    }

    /// Hands out the numerically lowest free address, or `None` when the range
    /// is exhausted.  The returned address leaves the free set and stays out
    /// until it is freed again.
    pub fn allocate(&mut self) -> (r: Option<Ipv4Address>)
        requires
            old(self).wf(),
        ensures
            final(self).wf(),
            final(self).spec_range() == old(self).spec_range(),
            r is None <==> old(self).free_ids().is_empty(),
            r is None ==> *final(self) == *old(self),
            r is Some ==> {
                let off = r.unwrap().value - old(self).spec_range().first.value;
                &&& old(self).spec_range().first.value <= r.unwrap().value
                    <= old(self).spec_range().last.value
                &&& old(self).free_ids().contains(off)
                &&& forall|o: int| old(self).free_ids().contains(o) ==> off <= o
                &&& final(self).free_ids() == old(self).free_ids().remove(off)
            },
    {
        if self.free.len() == 0 {
            proof {
                assert forall|n: int| !old(self).free_ids().contains(n) by {
                    assert(!in_intervals(old(self).free@, n));
                }
                assert(old(self).free_ids() =~= Set::empty());
            }
            return None;
        }
        let (start, end) = self.free[0];
        proof {
            assert(in_intervals(self.free@, start as int));
            assert forall|o: int| old(self).free_ids().contains(o) implies start as int <= o by {
                let i = choose|i: int|
                    0 <= i < old(self).free@.len() && (#[trigger] old(self).free@[i]).0 <= o
                        <= old(self).free@[i].1;
                lemma_sorted_monotone(old(self).free@, 0, i);
            }
        }
        if start != end {
            self.free.set(0, (start + 1, end));
            proof {
                assert forall|n: int|
                    final(self).free_ids().contains(n) <==> (old(self).free_ids().contains(n) && n
                        != start as int) by {
                    if in_intervals(self.free@, n) {
                        let i = choose|i: int|
                            0 <= i < self.free@.len() && (#[trigger] self.free@[i]).0 <= n
                                <= self.free@[i].1;
                        assert(old(self).free@[i].0 <= n <= old(self).free@[i].1);
                        if i > 0 {
                            lemma_sorted_monotone(old(self).free@, 0, i);
                        }
                    }
                    if in_intervals(old(self).free@, n) && n != start as int {
                        let i = choose|i: int|
                            0 <= i < old(self).free@.len() && (#[trigger] old(self).free@[i]).0 <= n
                                <= old(self).free@[i].1;
                        if i == 0 {
                            assert(self.free@[0].0 <= n <= self.free@[0].1);
                        } else {
                            assert(self.free@[i].0 <= n <= self.free@[i].1);
                        }
                    }
                }
                assert(final(self).free_ids() =~= old(self).free_ids().remove(start as int));
            }
        } else {
            self.free.remove(0);
            proof {
                assert forall|n: int|
                    final(self).free_ids().contains(n) <==> (old(self).free_ids().contains(n) && n
                        != start as int) by {
                    if in_intervals(self.free@, n) {
                        let i = choose|i: int|
                            0 <= i < self.free@.len() && (#[trigger] self.free@[i]).0 <= n
                                <= self.free@[i].1;
                        assert(old(self).free@[i + 1].0 <= n <= old(self).free@[i + 1].1);
                        lemma_sorted_monotone(old(self).free@, 0, i + 1);
                    }
                    if in_intervals(old(self).free@, n) && n != start as int {
                        let i = choose|i: int|
                            0 <= i < old(self).free@.len() && (#[trigger] old(self).free@[i]).0 <= n
                                <= old(self).free@[i].1;
                        assert(i > 0);
                        assert(self.free@[i - 1].0 <= n <= self.free@[i - 1].1);
                    }
                }
                assert(final(self).free_ids() =~= old(self).free_ids().remove(start as int));
            }
        }
        Some(self.to_ip(start as u64))
    }

    /// One left-to-right pass that merges every interval whose end touches the
    /// next interval's start, so that maximal runs become single intervals.
    #[verifier::rlimit(60)]
    fn compact(&mut self)
        requires
            sorted_disjoint(old(self).free@),
            forall|i: int|
                0 <= i < old(self).free@.len() ==> (#[trigger] old(self).free@[i]).1 < old(
                    self,
                ).ip.spec_size(),
            old(self).ip.first.value <= old(self).ip.last.value,
        ensures
            final(self).wf(),
            final(self).ip == old(self).ip,
            final(self).free_ids() == old(self).free_ids(),
    {
        let input_len = self.free.len();
        let mut out: Vec<(u32, u32)> = Vec::new();
        let mut k: usize = 0;
        while k < input_len
            invariant
                input_len == self.free@.len(),
                sorted_disjoint(self.free@),
                forall|i: int|
                    0 <= i < self.free@.len() ==> (#[trigger] self.free@[i]).1
                        < self.ip.spec_size(),
                self.ip.first.value <= self.ip.last.value,
                self.free == old(self).free,
                self.ip == old(self).ip,
                0 <= k <= input_len,
                coalesced(out@),
                forall|i: int| 0 <= i < out@.len() ==> (#[trigger] out@[i]).1 < self.ip.spec_size(),
                (out@.len() == 0) <==> (k == 0),
                k > 0 ==> out@.last().1 == self.free@[k - 1].1,
                forall|n: int|
                    in_intervals(out@, n) <==> in_intervals(#[trigger] self.free@.take(k as int), n),
            decreases input_len - k,
        {
            let (s, e) = self.free[k];
            let ghost prev_out = out@;
            let ghost merged: bool;
            if out.len() > 0 {
                let out_last = out.len() - 1;
                let (ls, le) = out[out_last];
                proof {
                    lemma_sorted_monotone(self.free@, k as int - 1, k as int);
                }
                if le as u64 + 1 == s as u64 {
                    out.set(out_last, (ls, e));
                    proof {
                        merged = true;
                    }
                } else {
                    out.push((s, e));
                    proof {
                        merged = false;
                    }
                }
            } else {
                out.push((s, e));
                proof {
                    merged = false;
                }
            }
            proof {
                assert forall|n: int|
                    in_intervals(out@, n) <==> in_intervals(
                        #[trigger] self.free@.take(k as int + 1),
                        n,
                    ) by {
                    lemma_in_intervals_take_one_more(self.free@, k as int, n);
                    if merged {
                        lemma_in_intervals_merge_last(prev_out, s, e, n);
                    } else {
                        lemma_in_intervals_push(prev_out, s, e, n);
                    }
                }
            }
            k = k + 1;
        }
        proof {
            assert(self.free@.take(input_len as int) =~= self.free@);
        }
        self.free = out;
        proof {
            assert(final(self).free_ids() =~= old(self).free_ids());
        }
    }

    /// Returns an address to the free pool.  Freeing an address that is
    /// already free leaves the allocator unchanged.
    #[verifier::rlimit(60)]
    pub fn free(&mut self, ip_addr: Ipv4Address)
        requires
            old(self).wf(),
            old(self).spec_range().first.value <= ip_addr.value <= old(
                self,
            ).spec_range().last.value,
        ensures
            final(self).wf(),
            final(self).spec_range() == old(self).spec_range(),
            final(self).free_ids() == old(self).free_ids().insert(
                ip_addr.value - old(self).spec_range().first.value,
            ),
    {
        let id: u32 = ip_addr.value - self.ip.first.value;
        let len = self.free.len();
        let mut pos: usize = 0;
        while pos < len && self.free[pos].1 < id
            invariant
                len == self.free@.len(),
                self == old(self),
                0 <= pos <= len,
                forall|i: int| 0 <= i < pos ==> (#[trigger] self.free@[i]).1 < id,
            decreases len - pos,
        {
            pos = pos + 1;
        }
        if pos < len && self.free[pos].0 <= id {
            proof {
                assert(in_intervals(self.free@, id as int));
                assert(old(self).free_ids().insert(id as int) =~= old(self).free_ids());
            }
            return ;
        }
        proof {
            if pos < len {
                assert forall|j: int| pos <= j < len implies id < (#[trigger] self.free@[j]).0 by {
                    lemma_sorted_monotone(self.free@, pos as int, j);
                }
            }
        }
        self.free.insert(pos, (id, id));
        proof {
            let s = self.free@;
            let olds = old(self).free@;
            assert forall|i: int| 0 <= i < s.len() - 1 implies (#[trigger] s[i]).1 < s[i + 1].0 by {
                if i < pos as int - 1 {
                    assert(s[i] == olds[i]);
                    assert(s[i + 1] == olds[i + 1]);
                } else if i == pos as int - 1 {
                    assert(s[i] == olds[i]);
                } else if i == pos as int {
                    assert(s[i + 1] == olds[i]);
                } else {
                    assert(s[i] == olds[i - 1]);
                    assert(s[i + 1] == olds[i]);
                }
            }
            assert forall|n: int|
                in_intervals(s, n) <==> (in_intervals(olds, n) || n == id as int) by {
                lemma_in_intervals_insert_singleton(olds, pos as int, id, n);
            }
            assert(interval_set(s) =~= old(self).free_ids().insert(id as int));
        }
        self.compact();
    }

    /// The free intervals, each given as the numeric values of its first and
    /// last free address.  The intervals are sorted, disjoint and fully
    /// coalesced, and together they cover exactly the free addresses.
    pub fn free_intervals(&self) -> (r: Vec<(u32, u32)>)
        requires
            self.wf(),
        ensures
            coalesced(r@),
            forall|n: int|
                in_intervals(r@, n) <==> self.free_ids().contains(
                    n - self.spec_range().first.value,
                ),
    {
        let len = self.free.len();
        let mut r: Vec<(u32, u32)> = Vec::new();
        let mut k: usize = 0;
        while k < len
            invariant
                len == self.free@.len(),
                self.wf(),
                0 <= k <= len,
                r@.len() == k,
                forall|i: int|
                    0 <= i < k ==> #[trigger] r@[i] == ((self.free@[i].0
                        + self.ip.first.value) as u32, (self.free@[i].1
                        + self.ip.first.value) as u32),
            decreases len - k,
        {
            let (s, e) = self.free[k];
            proof {
                assert(self.free@[k as int].1 < self.ip.spec_size());
            }
            r.push((s + self.ip.first.value, e + self.ip.first.value));
            k = k + 1;
        }
        proof {
            let first = self.ip.first.value as int;
            assert forall|n: int|
                in_intervals(r@, n) <==> in_intervals(self.free@, n - first) by {
                if in_intervals(r@, n) {
                    let i = choose|i: int| 0 <= i < r@.len() && (#[trigger] r@[i]).0 <= n <= r@[i].1;
                    assert(self.free@[i].0 <= n - first <= self.free@[i].1);
                }
                if in_intervals(self.free@, n - first) {
                    let i = choose|i: int|
                        0 <= i < self.free@.len() && (#[trigger] self.free@[i]).0 <= n - first
                            <= self.free@[i].1;
                    assert(r@[i].0 <= n <= r@[i].1);
                }
            }
        }
        r
    }
}

/// A caller's exclusive lease of one TAP device: the device's name, its
/// generated MAC address and the guest IP address allocated to it.  Releasing
/// the lease destroys the device and returns the address to the allocator;
/// the release itself is driven outside this crate.
#[derive(Debug, Clone)]
pub struct TapUser {
    pub device_name: String,
    pub mac_addr: MacAddr,
    pub ip_addr: Ipv4Address,
}

impl TapUser {
    /// The leased device's name.
    pub fn device(&self) -> (r: String)
        ensures
            r@ == self.device_name@,
    {
        self.device_name.clone()
    }

    /// The leased device's MAC address.
    pub fn mac(&self) -> (r: &MacAddr)
        ensures
            r == self.mac_addr,
    {
        &self.mac_addr
    }

    /// The guest IP address allocated to the lease.
    pub fn ip(&self) -> (r: &Ipv4Address)
        ensures
            r == self.ip_addr,
    {
        &self.ip_addr
    }

    /// A field-by-field copy.
    pub fn duplicate(&self) -> (r: TapUser)
        ensures
            r == *self,
    {
        TapUser {
            device_name: self.device_name.clone(),
            mac_addr: self.mac_addr,
            ip_addr: self.ip_addr,
        }
    }
}

/// How to reconcile the desired bridge with what already exists on the
/// host under the bridge's name.
#[derive(Debug, PartialEq, Eq, Structural)]
pub enum BridgePlan {
    /// No bridge of that name exists: create it.
    Create,
    /// A bridge of that name exists with the same network: reuse it and
    /// create nothing.
    Reuse,
    /// A bridge of that name exists with another network: tear it down and
    /// recreate it.
    Recreate,
}

/// The reconciliation decision for a desired network against the network an
/// existing same-named bridge is configured with, if any.
pub open spec fn spec_reconcile_bridge(existing: Option<Ipv4Net>, desired: Ipv4Net) -> BridgePlan {
    match existing {
        None => BridgePlan::Create,
        Some(net) => if net == desired {
            BridgePlan::Reuse
        } else {
            BridgePlan::Recreate
        },
    }
}

/// Decides how to reconcile the bridge: reuse an identical one, recreate a
/// differing one, create a missing one.
pub fn reconcile_bridge(existing: Option<Ipv4Net>, desired: Ipv4Net) -> (r: BridgePlan)
    ensures
        r == spec_reconcile_bridge(existing, desired),
{
    match existing {
        None => BridgePlan::Create,
        Some(net) => {
            if net == desired {
                BridgePlan::Reuse
            } else {
                BridgePlan::Recreate
            }
        },
    }
}

/// Law: bridge creation is idempotent for an identical name and network.
/// After a first setup the bridge of that name carries the desired network,
/// and reconciling the same network against it decides to reuse it: no
/// second device is created and nothing fails.
pub proof fn lemma_bridge_setup_idempotent(net: Ipv4Net)
    ensures
        spec_reconcile_bridge(Some(net), net) == BridgePlan::Reuse,
{
}

/// A MAC address derived from one word: the fixed leading octets followed
/// by the word's three low-order bytes.
pub fn mac_from_word(x: u64) -> (r: MacAddr)
    ensures
        r.bytes@.len() == 6,
        r.bytes@[0] == 0x00,
        r.bytes@[1] == 0x60,
        r.bytes@[2] == 0x2f,
        r.bytes@[3] == (x & 0xff) as u8,
        r.bytes@[4] == ((x >> 8) & 0xff) as u8,
        r.bytes@[5] == ((x >> 16) & 0xff) as u8,
{
    MacAddr::from_bytes(
        [
            0x00,
            0x60,
            0x2f,
            (x & 0xff) as u8,
            ((x >> 8) & 0xff) as u8,
            ((x >> 16) & 0xff) as u8,
        ],
    )
}

/// A MAC address for a new TAP device: a randomly drawn word mapped by
/// `mac_from_word`, so only the fixed prefix is certain.
pub fn generate_mac() -> (r: MacAddr)
    ensures
        r.bytes@.len() == 6,
        r.bytes@[0] == 0x00,
        r.bytes@[1] == 0x60,
        r.bytes@[2] == 0x2f,
{
    mac_from_word(crate::qemu::random_u64())
}

/// The network resource manager's state: the bridge's name and network, and
/// the allocator over the guest address range.  The bridge device itself and
/// the TAP devices live on the host; the operations that create and destroy
/// them are driven outside this crate against this state.
#[derive(Debug)]
pub struct NetworkConfig {
    pub bridge_name: String,
    pub ip_net: Ipv4Net,
    pub ip_allocator: IpAddressAllocator,
}

/// The name of the one bridge this launcher manages.
pub const BRIDGE_NAME: &'static str = "tbr0";

impl NetworkConfig {
    /// The allocator covers exactly the guest range of the network: every
    /// host address except the network's own first host address, which the
    /// bridge takes.
    pub open spec fn wf(self) -> bool {
        &&& self.ip_net.well_formed()
        &&& self.ip_allocator.wf()
        &&& self.ip_allocator.spec_range().first.value == self.ip_net.spec_network() + 2
        &&& self.ip_allocator.spec_range().last.value == self.ip_net.spec_broadcast() - 1
    }

    /// The bridge's own address: the network's first host address.
    pub fn host_ip(&self) -> (r: Ipv4Address)
        requires
            self.ip_net.well_formed(),
        ensures
            r.value == self.ip_net.spec_network() + 1,
    {
        self.ip_net.host_address()
    }

    /// Leases the next free guest address: the numerically lowest free one,
    /// under the deterministic device name derived from its offset, with a
    /// freshly generated MAC address.  `None` when the range is exhausted.
    pub fn get_tap(&mut self) -> (r: Option<TapUser>)
        requires
            old(self).wf(),
        ensures
            final(self).wf(),
            final(self).bridge_name == old(self).bridge_name,
            final(self).ip_net == old(self).ip_net,
            r is None <==> old(self).ip_allocator.free_ids().is_empty(),
            r is Some ==> {
                let off = r.unwrap().ip_addr.value - old(self).ip_allocator.spec_range().first.value;
                &&& old(self).ip_allocator.spec_range().first.value <= r.unwrap().ip_addr.value
                    <= old(self).ip_allocator.spec_range().last.value
                &&& old(self).ip_allocator.free_ids().contains(off)
                &&& forall|o: int| old(self).ip_allocator.free_ids().contains(o) ==> off <= o
                &&& final(self).ip_allocator.free_ids() == old(self).ip_allocator.free_ids().remove(
                    off,
                )
                &&& r.unwrap().device_name@ == "tap"@ + dec_str(off as nat)
                &&& r.unwrap().mac_addr.bytes@.len() == 6
                &&& r.unwrap().mac_addr.bytes@[0] == 0x00
                &&& r.unwrap().mac_addr.bytes@[1] == 0x60
                &&& r.unwrap().mac_addr.bytes@[2] == 0x2f
            },
    {
        match self.ip_allocator.allocate() {
            None => None,
            Some(ip) => {
                let id = self.ip_allocator.to_id(ip);
                let mut name = "tap".to_owned();
                name.append(u64_to_dec_string(id).as_str());
                let mac = generate_mac();
                Some(TapUser { device_name: name, mac_addr: mac, ip_addr: ip })
            },
        }
    }

    /// Releases a lease: the address returns to the free pool.  The TAP
    /// device's destruction is driven outside this crate.
    pub fn release_tap(&mut self, tap: TapUser)
        requires
            old(self).wf(),
            old(self).ip_allocator.spec_range().first.value <= tap.ip_addr.value <= old(
                self,
            ).ip_allocator.spec_range().last.value,
        ensures
            final(self).wf(),
            final(self).bridge_name == old(self).bridge_name,
            final(self).ip_net == old(self).ip_net,
            final(self).ip_allocator.free_ids() == old(self).ip_allocator.free_ids().insert(
                tap.ip_addr.value - old(self).ip_allocator.spec_range().first.value,
            ),
    {
        self.ip_allocator.free(tap.ip_addr);
    }
}

/// The manager's state for a fresh network: the bridge under its fixed name
/// and every guest address free.  The guest range spans the network's host
/// addresses except the bridge's own.
pub fn network_setup(ip_net: Ipv4Net) -> (r: NetworkConfig)
    requires
        ip_net.well_formed(),
    ensures
        r.wf(),
        r.ip_net == ip_net,
        r.bridge_name@ == BRIDGE_NAME@,
        r.ip_allocator.free_ids() == Set::new(
            |n: int| 0 <= n < ip_net.spec_broadcast() - ip_net.spec_network() - 2,
        ),
{
    proof {
        ip_net.lemma_layout();
    }
    let network = ip_net.network();
    let broadcast = ip_net.broadcast();
    let range = Ipv4AddrRange::new(
        Ipv4Address::from_value(network.value + 2),
        Ipv4Address::from_value(broadcast.value - 1),
    );
    NetworkConfig {
        bridge_name: BRIDGE_NAME.to_owned(),
        ip_net,
        ip_allocator: IpAddressAllocator::new(range),
    }
}

/// Law: an address handed out is never handed out again while it is
/// outstanding.  `allocate`'s contract states that a successful allocation of
/// offset `a` removes `a` from the free set and that any later allocation
/// returns a member of the then-current free set; as long as `a` has not been
/// freed the free set stays a subset of one with `a` removed, so a later
/// allocation `b` differs from `a`.
pub proof fn lemma_no_double_allocation(ids0: Set<int>, ids1: Set<int>, a: int, b: int)
    requires
        ids0.contains(a),
        ids1 == ids0.remove(a),
        ids1.contains(b),
    ensures
        a != b,
{
}

} // verus!
