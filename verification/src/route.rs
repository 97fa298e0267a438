//! The routing table: longest-prefix match over destination, mask, gateway
//! and interface.

use vstd::prelude::*;
use crate::chassis::LinkLayerId;
use crate::ipv4::addr::{IpV4Addr, IpV4Mask};

verus! {

/// A mask over addresses of type `Addr`: it cuts an address down to its
/// network, and the longer its prefix the more specific it is.
pub trait AddrMask<Addr>: Sized {
    /// The length of the prefix that the mask keeps.
    spec fn spec_specifity(&self) -> nat;

    /// `mask AND addr`.
    spec fn spec_mask(&self, addr: Addr) -> Addr;

    fn specifity(&self) -> (s: u8)
        ensures
            s == self.spec_specifity(),
    ;

    fn mask(&self, addr: Addr) -> (net: Addr)
        ensures
            net == self.spec_mask(addr),
    ;
}

/// One row of the table: datagrams for `destination` under `mask` leave
/// through `iface` towards `gateway`.
#[derive(Debug, Clone, Copy, PartialEq, Eq)]
pub struct RoutingEntry {
    pub destination: IpV4Addr,
    pub gateway: IpV4Addr,
    pub mask: IpV4Mask,
    pub iface: LinkLayerId,
}

impl RoutingEntry {
    /// Whether the two rows are equal: the same destination, gateway and mask,
    /// and the same interface number.
    pub open spec fn same_route(&self, other: &RoutingEntry) -> bool {
        &&& self.destination == other.destination
        &&& self.gateway == other.gateway
        &&& self.mask == other.mask
        &&& self.iface.same_link(&other.iface)
    }

    /// Whether the row applies to `addr`: `mask & destination == mask & addr`.
    pub open spec fn covers(&self, addr: IpV4Addr) -> bool {
        self.mask.spec_apply(self.destination) == self.mask.spec_apply(addr)
    }

    /// The prefix length of the row's mask.
    pub open spec fn specifity(&self) -> nat {
        self.mask.spec_specifity()
    }

    pub fn new(destination: IpV4Addr, gateway: IpV4Addr, mask: IpV4Mask, iface: LinkLayerId) -> (e:
        Self)
        ensures
            e == (RoutingEntry { destination, gateway, mask, iface }),
    {
        Self { destination, gateway, mask, iface }
    }

    /// Whether the two rows are equal; interfaces are compared by number.
    pub fn is_same_route(&self, other: &RoutingEntry) -> (same: bool)
        ensures
            same == self.same_route(other),
    {
        self.destination == other.destination && self.gateway == other.gateway && self.mask
            == other.mask && self.iface == other.iface
    }

    /// Whether the row applies to `addr`.
    pub fn is_covering(&self, addr: IpV4Addr) -> (hit: bool)
        ensures
            hit == self.covers(addr),
    {
        self.mask.mask(self.destination) == self.mask.mask(addr)
    }
}

/// The rows of a table are in order: no row is more specific than one before it.
pub open spec fn sorted_by_specifity(rows: Seq<RoutingEntry>) -> bool {
    forall|i: int, j: int| 0 <= i <= j < rows.len() ==> rows[i].specifity() >= rows[j].specifity()
}

/// The index of the first row less specific than `specifity`, or the number of
/// rows where there is none. A new row of that specificity goes there: behind
/// the rows that are as specific, before those that are less.
pub open spec fn insertion_point(rows: Seq<RoutingEntry>, specifity: nat) -> int
    decreases rows.len(),
{
    if rows.len() == 0 {
        0
    } else if rows[0].specifity() < specifity {
        0
    } else {
        1 + insertion_point(rows.drop_first(), specifity)
    }
}

/// The index of the last row equal to `route`, or -1 where there is none.
pub open spec fn last_same(rows: Seq<RoutingEntry>, route: RoutingEntry) -> int
    decreases rows.len(),
{
    if rows.len() == 0 {
        -1
    } else if rows.last().same_route(&route) {
        rows.len() - 1
    } else {
        last_same(rows.drop_last(), route)
    }
}

/// The index of the first row that applies to `addr`, or the number of rows
/// where there is none.
pub open spec fn first_covering(rows: Seq<RoutingEntry>, addr: IpV4Addr) -> int
    decreases rows.len(),
{
    if rows.len() == 0 {
        0
    } else if rows[0].covers(addr) {
        0
    } else {
        1 + first_covering(rows.drop_first(), addr)
    }
}

/// The rows after `route` was added.
pub open spec fn spec_add_route(rows: Seq<RoutingEntry>, route: RoutingEntry) -> Seq<
    RoutingEntry,
> {
    rows.insert(insertion_point(rows, route.specifity()), route)
}

/// The rows after the last row equal to `route` was removed: of equal rows
/// the one added last goes first.
pub open spec fn spec_remove_route(rows: Seq<RoutingEntry>, route: RoutingEntry) -> Seq<
    RoutingEntry,
> {
    let i = last_same(rows, route);
    if i >= 0 {
        rows.remove(i)
    } else {
        rows
    }
}

/// Where a datagram for `addr` goes: the gateway and interface of the first
/// row that applies.
pub open spec fn spec_get_route(rows: Seq<RoutingEntry>, addr: IpV4Addr) -> Option<
    (IpV4Addr, LinkLayerId),
> {
    let i = first_covering(rows, addr);
    if i < rows.len() {
        Some((rows[i].gateway, rows[i].iface))
    } else {
        None
    }
}

/// `insertion_point` is an index into the rows or their number; the rows
/// before it are at least as specific as `specifity`, and the row at it is less.
pub proof fn lemma_insertion_point(rows: Seq<RoutingEntry>, specifity: nat)
    ensures
        0 <= insertion_point(rows, specifity) <= rows.len(),
        forall|k: int|
            0 <= k < insertion_point(rows, specifity) ==> rows[k].specifity() >= specifity,
        insertion_point(rows, specifity) < rows.len() ==> rows[insertion_point(
            rows,
            specifity,
        )].specifity() < specifity,
    decreases rows.len(),
{
    if rows.len() > 0 && rows[0].specifity() >= specifity {
        let rest = rows.drop_first();
        lemma_insertion_point(rest, specifity);
        assert forall|k: int| 0 <= k < insertion_point(rows, specifity) implies rows[k].specifity()
            >= specifity by {
            if k > 0 {
                assert(rows[k] == rest[k - 1]);
            }
        }
        if insertion_point(rows, specifity) < rows.len() {
            assert(rows[insertion_point(rows, specifity)] == rest[insertion_point(rest, specifity)]);
        }
    }
}

/// `last_same` is an index into the rows or -1; no row behind it equals
/// `route`, and the row at it does.
pub proof fn lemma_last_same(rows: Seq<RoutingEntry>, route: RoutingEntry)
    ensures
        -1 <= last_same(rows, route) < rows.len(),
        forall|k: int| last_same(rows, route) < k < rows.len() ==> !rows[k].same_route(&route),
        last_same(rows, route) >= 0 ==> rows[last_same(rows, route)].same_route(&route),
    decreases rows.len(),
{
    if rows.len() > 0 && !rows.last().same_route(&route) {
        let rest = rows.drop_last();
        lemma_last_same(rest, route);
        assert forall|k: int| last_same(rows, route) < k < rows.len() implies !rows[k].same_route(
            &route,
        ) by {
            if k < rows.len() - 1 {
                assert(rows[k] == rest[k]);
            }
        }
        if last_same(rows, route) >= 0 {
            assert(rows[last_same(rows, route)] == rest[last_same(rest, route)]);
        }
    }
}

/// `first_covering` is an index into the rows or their number; no row before
/// it applies to `addr`, and the row at it does.
pub proof fn lemma_first_covering(rows: Seq<RoutingEntry>, addr: IpV4Addr)
    ensures
        0 <= first_covering(rows, addr) <= rows.len(),
        forall|k: int| 0 <= k < first_covering(rows, addr) ==> !rows[k].covers(addr),
        first_covering(rows, addr) < rows.len() ==> rows[first_covering(rows, addr)].covers(addr),
    decreases rows.len(),
{
    if rows.len() > 0 && !rows[0].covers(addr) {
        let rest = rows.drop_first();
        lemma_first_covering(rest, addr);
        assert forall|k: int| 0 <= k < first_covering(rows, addr) implies !rows[k].covers(addr) by {
            if k > 0 {
                assert(rows[k] == rest[k - 1]);
            }
        }
        if first_covering(rows, addr) < rows.len() {
            assert(rows[first_covering(rows, addr)] == rest[first_covering(rest, addr)]);
        }
    }
}

/// An index with the properties of `insertion_point` is `insertion_point`.
pub proof fn lemma_insertion_point_unique(rows: Seq<RoutingEntry>, specifity: nat, i: int)
    requires
        0 <= i <= rows.len(),
        forall|k: int| 0 <= k < i ==> rows[k].specifity() >= specifity,
        i < rows.len() ==> rows[i].specifity() < specifity,
    ensures
        insertion_point(rows, specifity) == i,
{
    lemma_insertion_point(rows, specifity);
    let p = insertion_point(rows, specifity);
    if p < i {
        assert(rows[p].specifity() >= specifity);
    } else if i < p {
        assert(rows[i].specifity() >= specifity);
    }
}

/// An index with the properties of `last_same` is `last_same`.
pub proof fn lemma_last_same_unique(rows: Seq<RoutingEntry>, route: RoutingEntry, i: int)
    requires
        -1 <= i < rows.len(),
        forall|k: int| i < k < rows.len() ==> !rows[k].same_route(&route),
        i >= 0 ==> rows[i].same_route(&route),
    ensures
        last_same(rows, route) == i,
{
    lemma_last_same(rows, route);
    let p = last_same(rows, route);
    if p > i {
        assert(!rows[p].same_route(&route));
    } else if i > p {
        assert(!rows[i].same_route(&route));
    }
}

/// An index with the properties of `first_covering` is `first_covering`.
pub proof fn lemma_first_covering_unique(rows: Seq<RoutingEntry>, addr: IpV4Addr, i: int)
    requires
        0 <= i <= rows.len(),
        forall|k: int| 0 <= k < i ==> !rows[k].covers(addr),
        i < rows.len() ==> rows[i].covers(addr),
    ensures
        first_covering(rows, addr) == i,
{
    lemma_first_covering(rows, addr);
    let p = first_covering(rows, addr);
    if p < i {
        assert(!rows[p].covers(addr));
    } else if i < p {
        assert(!rows[i].covers(addr));
    }
}

/// Adding a row to rows in order leaves them in order.
pub proof fn lemma_add_keeps_order(rows: Seq<RoutingEntry>, route: RoutingEntry)
    requires
        sorted_by_specifity(rows),
    ensures
        sorted_by_specifity(spec_add_route(rows, route)),
{
    lemma_insertion_point(rows, route.specifity());
    let p = insertion_point(rows, route.specifity());
    let after = spec_add_route(rows, route);
    assert forall|i: int, j: int| 0 <= i <= j < after.len() implies after[i].specifity()
        >= after[j].specifity() by {
        if j < p {
            assert(after[i] == rows[i] && after[j] == rows[j]);
        } else if j == p {
            if i < p {
                assert(after[i] == rows[i]);
            }
        } else {
            assert(after[j] == rows[j - 1]);
            assert(rows[p].specifity() >= rows[j - 1].specifity());
            if i < p {
                assert(after[i] == rows[i]);
            } else if i > p {
                assert(after[i] == rows[i - 1]);
            }
        }
    }
}

/// Removing a row from rows in order leaves them in order.
pub proof fn lemma_remove_keeps_order(rows: Seq<RoutingEntry>, route: RoutingEntry)
    requires
        sorted_by_specifity(rows),
    ensures
        sorted_by_specifity(spec_remove_route(rows, route)),
{
    lemma_last_same(rows, route);
    let p = last_same(rows, route);
    let after = spec_remove_route(rows, route);
    if p >= 0 {
        assert forall|i: int, j: int| 0 <= i <= j < after.len() implies after[i].specifity()
            >= after[j].specifity() by {
            let oi = if i < p {
                i
            } else {
                i + 1
            };
            let oj = if j < p {
                j
            } else {
                j + 1
            };
            assert(after[i] == rows[oi] && after[j] == rows[oj]);
        }
    }
}

/// Adding a row and then removing it gives the rows back: the row that is
/// removed is the one that was added, whatever rows equal to it the table
/// held before.
pub proof fn lemma_add_then_remove(rows: Seq<RoutingEntry>, route: RoutingEntry)
    requires
        sorted_by_specifity(rows),
    ensures
        spec_remove_route(spec_add_route(rows, route), route) == rows,
{
    lemma_insertion_point(rows, route.specifity());
    let p = insertion_point(rows, route.specifity());
    let after = spec_add_route(rows, route);
    assert(after[p] == route);
    assert forall|k: int| p < k < after.len() implies !after[k].same_route(&route) by {
        // the rows behind the place are less specific, so their mask is another
        assert(after[k] == rows[k - 1]);
        assert(rows[p].specifity() >= rows[k - 1].specifity());
    }
    lemma_last_same_unique(after, route, p);
    assert(after.remove(p) =~= rows);
}

/// The headings of a printed table.
pub open spec fn spec_headings() -> Seq<Seq<char>> {
    seq!["destination"@, "mask"@, "gateway"@, "iface"@]
}

/// A row of the table as it is printed.
pub open spec fn printed_row(e: RoutingEntry) -> Seq<Seq<char>> {
    seq![
        e.destination.spec_to_string(),
        e.mask.spec_to_string(),
        e.gateway.spec_to_string(),
        e.iface.spec_to_string(),
    ]
}

/// The cells of the printed table: the headings, then the rows in order.
pub open spec fn printed(rows: Seq<RoutingEntry>) -> Seq<Seq<Seq<char>>>
    decreases rows.len(),
{
    if rows.len() == 0 {
        seq![spec_headings()]
    } else {
        printed(rows.drop_last()).push(printed_row(rows.last()))
    }
}

fn heading_destination() -> (s: String)
    ensures
        s@ == "destination"@,
        crate::text::plain_line(s@),
{
    proof {
        reveal_strlit("destination");
    }
    let mut s = String::new();
    crate::text::push_str(&mut s, "destination");
    assert(s@ =~= "destination"@);
    s
}

fn heading_mask() -> (s: String)
    ensures
        s@ == "mask"@,
        crate::text::plain_line(s@),
{
    proof {
        reveal_strlit("mask");
    }
    let mut s = String::new();
    crate::text::push_str(&mut s, "mask");
    assert(s@ =~= "mask"@);
    s
}

fn heading_gateway() -> (s: String)
    ensures
        s@ == "gateway"@,
        crate::text::plain_line(s@),
{
    proof {
        reveal_strlit("gateway");
    }
    let mut s = String::new();
    crate::text::push_str(&mut s, "gateway");
    assert(s@ =~= "gateway"@);
    s
}

fn heading_iface() -> (s: String)
    ensures
        s@ == "iface"@,
        crate::text::plain_line(s@),
{
    proof {
        reveal_strlit("iface");
    }
    let mut s = String::new();
    crate::text::push_str(&mut s, "iface");
    assert(s@ =~= "iface"@);
    s
}

/// An IPv4 routing table. Its rows are kept in order of specificity, the most
/// specific first; rows of one specificity are in the order they were added.
#[derive(Debug)]
pub struct RoutingTable {
    data: Vec<RoutingEntry>,
}

impl View for RoutingTable {
    type V = Seq<RoutingEntry>;

    closed spec fn view(&self) -> Seq<RoutingEntry> {
        self.data@
    }
}

impl RoutingTable {
    /// The rows are in order of specificity.
    pub open spec fn wf(&self) -> bool {
        sorted_by_specifity(self@)
    }

    pub fn new() -> (t: Self)
        ensures
            t@ == Seq::<RoutingEntry>::empty(),
            t.wf(),
    {
        Self { data: Vec::new() }
    }

    /// The number of rows.
    pub fn len(&self) -> (n: usize)
        ensures
            n == self@.len(),
    {
        self.data.len()
    }

    /// Row `i` of the table.
    pub fn row(&self, i: usize) -> (e: RoutingEntry)
        requires
            i < self@.len(),
        ensures
            e == self@[i as int],
    {
        self.data[i]
    }

    /// Adds a row: behind the rows that are at least as specific, before the
    /// rows that are less.
    pub fn add_route(&mut self, route: RoutingEntry)
        requires
            old(self).wf(),
        ensures
            final(self)@ == spec_add_route(old(self)@, route),
            final(self).wf(),
    {
        let s: u8 = route.mask.specifity();
        let mut i: usize = 0;
        while i < self.data.len() && self.data[i].mask.specifity() >= s
            invariant
                i <= self.data@.len(),
                s == route.specifity(),
                forall|k: int| 0 <= k < i ==> self.data@[k].specifity() >= route.specifity(),
            decreases self.data@.len() - i,
        {
            i += 1;
        }
        proof {
            lemma_insertion_point_unique(self.data@, route.specifity(), i as int);
            lemma_add_keeps_order(self.data@, route);
        }
        self.data.insert(i, route);
    }

    /// Removes the last row equal to `route`, if there is one: of equal
    /// rows the one added last.
    pub fn remove_route(&mut self, route: &RoutingEntry)
        requires
            old(self).wf(),
        ensures
            final(self)@ == spec_remove_route(old(self)@, *route),
            final(self).wf(),
    {
        let mut i: usize = self.data.len();
        while i > 0 && !self.data[i - 1].is_same_route(route)
            invariant
                i <= self.data@.len(),
                forall|k: int| i <= k < self.data@.len() ==> !self.data@[k].same_route(route),
            decreases i,
        {
            i -= 1;
        }
        proof {
            lemma_last_same_unique(self.data@, *route, i as int - 1);
            lemma_remove_keeps_order(self.data@, *route);
        }
        if i > 0 {
            self.data.remove(i - 1);
        }
    }

    /// The table for printing: a row of headings, then one row for each row
    /// of the table, in order, with its destination, mask, gateway and
    /// interface as text.
    pub fn print(&self) -> (t: prettytable::Table)
        ensures
            crate::table::table_cells(t) == printed(self@),
    {
        let mut t = crate::table::new_table();
        let mut headings: Vec<String> = Vec::new();
        headings.push(heading_destination());
        headings.push(heading_mask());
        headings.push(heading_gateway());
        headings.push(heading_iface());
        assert(headings@.map_values(|text: String| text@) =~= spec_headings());
        crate::table::add_row(&mut t, crate::table::row_of(&headings));
        let mut i: usize = 0;
        while i < self.data.len()
            invariant
                i <= self.data@.len(),
                crate::table::table_cells(t) == printed(self.data@.subrange(0, i as int)),
            decreases self.data@.len() - i,
        {
            let entry = self.data[i];
            let mut cells: Vec<String> = Vec::new();
            cells.push(entry.destination.to_string());
            cells.push(entry.mask.to_string());
            cells.push(entry.gateway.to_string());
            cells.push(entry.iface.to_string());
            assert(cells@.map_values(|text: String| text@) =~= printed_row(entry));
            crate::table::add_row(&mut t, crate::table::row_of(&cells));
            proof {
                let done = self.data@.subrange(0, i as int);
                let next = self.data@.subrange(0, i + 1);
                assert(next.drop_last() =~= done);
                assert(next.last() == entry);
            }
            i += 1;
        }
        assert(self.data@.subrange(0, i as int) =~= self.data@);
        t
    }

    /// The gateway and interface for `addr`: those of the first row whose
    /// masked destination equals the masked `addr`.
    pub fn get_route(&self, addr: IpV4Addr) -> (hop: Option<(IpV4Addr, LinkLayerId)>)
        ensures
            hop == spec_get_route(self@, addr),
    {
        let mut i: usize = 0;
        while i < self.data.len() && !self.data[i].is_covering(addr)
            invariant
                i <= self.data@.len(),
                forall|k: int| 0 <= k < i ==> !self.data@[k].covers(addr),
            decreases self.data@.len() - i,
        {
            i += 1;
        }
        proof {
            lemma_first_covering_unique(self.data@, addr, i as int);
        }
        if i < self.data.len() {
            Some((self.data[i].gateway, self.data[i].iface))
        } else {
            None
        }
    }
}

} // verus!
