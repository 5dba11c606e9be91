use vstd::prelude::*;

verus! {

/// A storage node as it appears in a committee.
///
/// Only the node identifier and the shards assigned to it matter for the functioning of the
/// committee; the name and the network address are informational.
#[derive(Clone, Debug)]
pub struct StorageNode {
    pub name: String,
    pub node_id: u64,
    pub network_address: String,
    pub shard_ids: Vec<u16>,
}

/// The committee of storage nodes of one epoch.
#[derive(Clone, Debug)]
pub struct Committee {
    pub members: Vec<StorageNode>,
    pub epoch: u32,
    pub n_shards: u16,
}

/// The current committee, together with the previous one while an epoch change is underway.
#[derive(Clone, Debug)]
pub struct ActiveCommittees {
    pub current_committee: Committee,
    pub previous_committee: Option<Committee>,
}

/// The storage and write prices per unit of encoded size.
#[derive(PartialEq, Eq, Structural, Clone, Copy, Debug)]
pub struct PriceComputation {
    pub storage_price_per_unit_size: u64,
    pub write_price_per_unit_size: u64,
}

/// Two nodes play the same role: same identifier, same shards in the same order.
pub open spec fn same_node(a: StorageNode, b: StorageNode) -> bool {
    a.node_id == b.node_id && a.shard_ids@ == b.shard_ids@
}

/// Some node of `members` plays the same role as `node`.
pub open spec fn has_node(members: Seq<StorageNode>, node: StorageNode) -> bool {
    exists|j: int| 0 <= j < members.len() && same_node(#[trigger] members[j], node)
}

/// Every node of `a` plays a role that some node of `b` plays too.
pub open spec fn covers(a: Seq<StorageNode>, b: Seq<StorageNode>) -> bool {
    forall|i: int| 0 <= i < a.len() ==> has_node(b, #[trigger] a[i])
}

/// Two committees are functionally equivalent: same epoch, same number of shards, and the same
/// node roles, irrespective of the order of the members and of their informational fields.
pub open spec fn functionally_equivalent(a: Committee, b: Committee) -> bool {
    &&& a.epoch == b.epoch
    &&& a.n_shards == b.n_shards
    &&& a.members@.len() == b.members@.len()
    &&& covers(a.members@, b.members@)
    &&& covers(b.members@, a.members@)
}

/// The previous committees of two sets are functionally equivalent, or both are absent.
pub open spec fn previous_equivalent(a: Option<Committee>, b: Option<Committee>) -> bool {
    match (a, b) {
        (Some(x), Some(y)) => functionally_equivalent(x, y),
        (None, None) => true,
        _ => false,
    }
}

/// Two sets of active committees differ enough that waiting callers must be told.
pub open spec fn committees_differ(first: ActiveCommittees, second: ActiveCommittees) -> bool {
    !functionally_equivalent(first.current_committee, second.current_committee)
        || !previous_equivalent(first.previous_committee, second.previous_committee)
}

impl PriceComputation {
    /// Creates a price computation from the two unit prices.
    pub fn new(storage_price_per_unit_size: u64, write_price_per_unit_size: u64) -> (r: Self)
        ensures
            r.storage_price_per_unit_size == storage_price_per_unit_size,
            r.write_price_per_unit_size == write_price_per_unit_size,
    {
        PriceComputation { storage_price_per_unit_size, write_price_per_unit_size }
    }
}

impl ActiveCommittees {
    /// Creates the set of active committees.
    pub fn new(current_committee: Committee, previous_committee: Option<Committee>) -> (r: Self)
        ensures
            r.current_committee == current_committee,
            r.previous_committee == previous_committee,
    {
        ActiveCommittees { current_committee, previous_committee }
    }

    /// The committee of the current epoch.
    pub fn current_committee(&self) -> (r: &Committee)
        ensures
            *r == self.current_committee,
    {
        &self.current_committee
    }

    /// The committee of the previous epoch, if it is still relevant.
    pub fn previous_committee(&self) -> (r: Option<&Committee>)
        ensures
            match r {
                Some(c) => self.previous_committee == Some(*c),
                None => self.previous_committee is None,
            },
    {
        match &self.previous_committee {
            Some(c) => Some(c),
            None => None,
        }
    }
}

/// Whether two shard lists are equal.
fn same_shards(a: &Vec<u16>, b: &Vec<u16>) -> (r: bool)
    ensures
        r == (a@ == b@),
{
    if a.len() != b.len() {
        return false;
    }
    let mut i: usize = 0;
    while i < a.len()
        invariant
            a@.len() == b@.len(),
            0 <= i <= a@.len(),
            forall|k: int| 0 <= k < i ==> a@[k] == b@[k],
        decreases a@.len() - i,
    {
        if a[i] != b[i] {
            return false;
        }
        i = i + 1;
    }
    assert(a@ =~= b@);
    true
}

/// Whether some member of `members` plays the same role as `node`.
fn contains_node(members: &Vec<StorageNode>, node: &StorageNode) -> (r: bool)
    ensures
        r == has_node(members@, *node),
{
    let mut j: usize = 0;
    while j < members.len()
        invariant
            0 <= j <= members@.len(),
            forall|k: int| 0 <= k < j ==> !same_node(#[trigger] members@[k], *node),
        decreases members@.len() - j,
    {
        if members[j].node_id == node.node_id && same_shards(&members[j].shard_ids, &node.shard_ids) {
            return true;
        }
        j = j + 1;
    }
    false
}

/// Whether every member of `a` plays a role that some member of `b` plays.
fn covers_all(a: &Vec<StorageNode>, b: &Vec<StorageNode>) -> (r: bool)
    ensures
        r == covers(a@, b@),
{
    let mut i: usize = 0;
    while i < a.len()
        invariant
            0 <= i <= a@.len(),
            forall|k: int| 0 <= k < i ==> has_node(b@, #[trigger] a@[k]),
        decreases a@.len() - i,
    {
        if !contains_node(b, &a[i]) {
            return false;
        }
        i = i + 1;
    }
    true
}

impl Committee {
    /// Checks that two committees are functionally equivalent.
    pub fn is_functionally_equivalent(&self, other: &Committee) -> (r: bool)
        ensures
            r == functionally_equivalent(*self, *other),
    {
        self.epoch == other.epoch && self.n_shards == other.n_shards
            && self.members.len() == other.members.len() && covers_all(&self.members, &other.members)
            && covers_all(&other.members, &self.members)
    }
}

/// Checks if two sets of committees are different enough to require a notification to the
/// clients: the current committees are not functionally equivalent, or the previous committees
/// are not (one set having a previous committee and the other not counts as a difference).
pub fn are_current_previous_different(first: &ActiveCommittees, second: &ActiveCommittees) -> (r:
    bool)
    ensures
        r == committees_differ(*first, *second),
{
    if !first.current_committee().is_functionally_equivalent(second.current_committee()) {
        return true;
    }
    match (first.previous_committee(), second.previous_committee()) {
        (Some(a), Some(b)) => !a.is_functionally_equivalent(b),
        (None, None) => false,
        _ => true,
    }
}

/// Every committee is functionally equivalent to itself.
pub proof fn lemma_functionally_equivalent_reflexive(c: Committee)
    ensures
        functionally_equivalent(c, c),
{
    assert forall|i: int| 0 <= i < c.members@.len() implies has_node(
        c.members@,
        #[trigger] c.members@[i],
    ) by {
        assert(same_node(c.members@[i], c.members@[i]));
    }
}

/// Two sets whose current committees are functionally equivalent, and whose previous committees
/// are functionally equivalent or both absent, do not differ.
pub proof fn lemma_equivalent_committees_do_not_differ(first: ActiveCommittees, second: ActiveCommittees)
    requires
        functionally_equivalent(first.current_committee, second.current_committee),
        previous_equivalent(first.previous_committee, second.previous_committee),
    ensures
        !committees_differ(first, second),
{
}

/// Two sets whose current committees are not functionally equivalent differ.
pub proof fn lemma_different_current_committees_differ(first: ActiveCommittees, second: ActiveCommittees)
    requires
        !functionally_equivalent(first.current_committee, second.current_committee),
    ensures
        committees_differ(first, second),
{
}

/// Two sets of which exactly one has a previous committee differ, whatever their current
/// committees.
pub proof fn lemma_previous_presence_mismatch_differs(first: ActiveCommittees, second: ActiveCommittees)
    requires
        first.previous_committee is Some != second.previous_committee is Some,
    ensures
        committees_differ(first, second),
{
}

/// A set of committees does not differ from itself.
pub proof fn lemma_same_committees_do_not_differ(committees: ActiveCommittees)
    ensures
        !committees_differ(committees, committees),
{
    lemma_functionally_equivalent_reflexive(committees.current_committee);
    if let Some(p) = committees.previous_committee {
        lemma_functionally_equivalent_reflexive(p);
    }
}

} // verus!
