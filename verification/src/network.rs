//! Nodes and the source routes that packets carry.
use vstd::prelude::*;

verus! {

/// The number by which a node is known in the network.
pub type NodeId = u8;

/// What kind of node left an entry in the trace of a flood.
#[derive(Clone, Copy, Debug, PartialEq, Eq, Structural)]
pub enum NodeType {
    Client,
    Drone,
    Server,
}

/// The route of a packet: every node on the way, and the position of the node that holds it now.
#[derive(Debug, PartialEq, Eq)]
pub struct SourceRoutingHeader {
    pub hop_index: usize,
    pub hops: Vec<NodeId>,
}

/// A route as a mathematical value.
#[verifier::ext_equal]
pub struct RouteView {
    pub hop_index: int,
    pub hops: Seq<NodeId>,
}

impl View for SourceRoutingHeader {
    type V = RouteView;

    open spec fn view(&self) -> RouteView {
        RouteView { hop_index: self.hop_index as int, hops: self.hops@ }
    }
}

impl RouteView {
    /// The node at position `index` of the route, if the route is that long.
    pub open spec fn hop(self, index: int) -> Option<NodeId> {
        if 0 <= index < self.hops.len() {
            Some(self.hops[index])
        } else {
            None
        }
    }

    /// The node that the packet is at.
    pub open spec fn current_hop(self) -> Option<NodeId> {
        self.hop(self.hop_index)
    }

    /// The node that the packet goes to from here.
    pub open spec fn next_hop(self) -> Option<NodeId> {
        self.hop(self.hop_index + 1)
    }

    /// The same route, one hop further on.
    pub open spec fn advanced(self) -> RouteView {
        RouteView { hop_index: self.hop_index + 1, hops: self.hops }
    }

    /// The route of a packet that needs none.
    pub open spec fn empty() -> RouteView {
        RouteView { hop_index: 0, hops: Seq::empty() }
    }

    /// How many hops the packet has seen, the current one included.
    pub open spec fn travelled(self) -> int {
        if self.hop_index < self.hops.len() {
            self.hop_index + 1
        } else {
            self.hops.len() as int
        }
    }

    /// The way back: the hops seen so far, in the opposite order, from the start.
    pub open spec fn way_back(self) -> RouteView {
        RouteView { hop_index: 0, hops: self.hops.take(self.travelled()).reverse() }
    }
}

impl Clone for SourceRoutingHeader {
    fn clone(&self) -> (copy: Self)
        ensures
            copy@ == self@,
    {
        let copy = SourceRoutingHeader { hop_index: self.hop_index, hops: self.hops.clone() };
        assert(copy.hops@ =~= self.hops@);
        copy
    }
}

impl SourceRoutingHeader {
    /// A header without a route.
    pub fn empty_route() -> (header: Self)
        ensures
            header@ == RouteView::empty(),
            header.hop_index == 0,
            header.hops@.len() == 0,
    {
        SourceRoutingHeader { hop_index: 0, hops: Vec::new() }
    }

    /// The node that holds the packet, if the index lies on the route.
    pub fn current_hop(&self) -> (hop: Option<NodeId>)
        ensures
            hop == self@.current_hop(),
            hop is Some <==> self.hop_index < self.hops@.len(),
            hop matches Some(id) ==> id == self.hops@[self.hop_index as int],
    {
        if self.hop_index < self.hops.len() {
            Some(self.hops[self.hop_index])
        } else {
            None
        }
    }

    /// The node after the current one, if the route goes on.
    pub fn next_hop(&self) -> (hop: Option<NodeId>)
        ensures
            hop == self@.next_hop(),
            hop is Some <==> self.hop_index + 1 < self.hops@.len(),
            hop matches Some(id) ==> id == self.hops@[self.hop_index + 1],
    {
        if self.hop_index < self.hops.len() && self.hop_index + 1 < self.hops.len() {
            Some(self.hops[self.hop_index + 1])
        } else {
            None
        }
    }

    /// Moves the packet one hop on.
    pub fn increase_hop_index(&mut self)
        requires
            old(self).hop_index < usize::MAX,
        ensures
            final(self)@ == old(self)@.advanced(),
            final(self).hop_index == old(self).hop_index + 1,
            final(self).hops@ == old(self).hops@,
    {
        self.hop_index = self.hop_index + 1;
    }

    /// Turns the route round: the nodes after the current hop are cut off, what is left is
    /// reversed, and the packet is put at its start.
    pub fn turn_back(&mut self)
        requires
            old(self).hop_index < usize::MAX,
        ensures
            final(self)@ == old(self)@.way_back(),
            final(self).hop_index == 0,
            final(self).hops@.len() == if old(self).hop_index < old(self).hops@.len() {
                old(self).hop_index + 1
            } else {
                old(self).hops@.len() as int
            },
            forall|j: int|
                0 <= j < final(self).hops@.len() ==> #[trigger] final(self).hops@[j]
                    == old(self).hops@[final(self).hops@.len() - 1 - j],
    {
        self.hops.truncate(self.hop_index + 1);
        assert(self.hops@ =~= old(self).hops@.take(old(self)@.travelled()));
        self.hops = reversed(&self.hops);
        self.hop_index = 0;
    }
}

/// The nodes of `hops`, last one first.
fn reversed(hops: &Vec<NodeId>) -> (back: Vec<NodeId>)
    ensures
        back@ == hops@.reverse(),
{
    let mut back: Vec<NodeId> = Vec::new();
    let mut left: usize = hops.len();
    while left > 0
        invariant
            left <= hops.len(),
            back@.len() == hops.len() - left,
            forall|i: int| 0 <= i < back@.len() ==> back@[i] == hops@[hops.len() - 1 - i],
        decreases left,
    {
        left = left - 1;
        back.push(hops[left]);
    }
    assert(back@ =~= hops@.reverse());
    back
}

} // verus!
