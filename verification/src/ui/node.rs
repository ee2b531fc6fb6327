//! Kinds of nodes, the items of the node selection list and the connections
//! between placed nodes, with the rules for adding and removing them.

use vstd::prelude::*;

verus! {

/// A kind of node that can be placed.
#[derive(Clone, Copy, Debug, PartialEq, Eq, Structural)]
pub enum NodeType {
    Blur,
    ColorCorrection,
    EdgeDetection,
    ColorGrading,
    Input,
}

/// The display name of each [NodeType].
pub open spec fn node_type_name(t: NodeType) -> Seq<char> {
    match t {
        NodeType::Blur => "Blur"@,
        NodeType::ColorCorrection => "Color Correction"@,
        NodeType::EdgeDetection => "Edge Detection"@,
        NodeType::ColorGrading => "Color Grading"@,
        NodeType::Input => "Data Input"@,
    }
}

impl NodeType {
    /// The display name of this kind of node.
    pub fn name(&self) -> (r: &'static str)
        ensures
            r@ == node_type_name(*self),
    {
        match self {
            NodeType::Blur => "Blur",
            NodeType::ColorCorrection => "Color Correction",
            NodeType::EdgeDetection => "Edge Detection",
            NodeType::ColorGrading => "Color Grading",
            NodeType::Input => "Data Input",
        }
    }

    /// Every kind of node, in the order of the selection list.
    pub fn all() -> (r: Vec<NodeType>)
        ensures
            r@ == seq![
                NodeType::Blur,
                NodeType::ColorCorrection,
                NodeType::EdgeDetection,
                NodeType::ColorGrading,
                NodeType::Input,
            ],
    {
        let r = vec![
            NodeType::Blur,
            NodeType::ColorCorrection,
            NodeType::EdgeDetection,
            NodeType::ColorGrading,
            NodeType::Input,
        ];
        assert(r@ =~= seq![
            NodeType::Blur,
            NodeType::ColorCorrection,
            NodeType::EdgeDetection,
            NodeType::ColorGrading,
            NodeType::Input,
        ]);
        r
    }
}

/// Identifies an item of the node selection list.
#[derive(Clone, Debug, PartialEq)]
pub enum NodeItemId {
    Stock(StockNodeId),
    /// A user-defined node, by name.
    UserMade(String),
}

/// The nodes that come with the editor.
#[derive(Clone, Debug, PartialEq)]
pub enum StockNodeId {
    // Effects
    Blur,
    ColorGrading,
    ColorCorrection,
    EdgeDetection,
    // I/O
    DataInput,
    VideoOutput,
}

/// The category a node is listed under.
#[derive(Clone, Debug, PartialEq)]
pub enum NodeCategory {
    Effect,
    IO,
    UserMade,
}

/// A connection between two placed nodes, by their indices.
#[derive(Clone, Debug)]
pub struct Connection {
    pub from_node_idx: usize,
    pub to_node_idx: usize,
}

/// Which side of a node a port is on.
#[derive(Clone, Copy, Debug)]
pub enum PortType {
    Input,
    Output,
}

/// Whether `connections` holds a connection from node `from` to node `to`.
pub open spec fn connected(connections: Seq<Connection>, from: usize, to: usize) -> bool {
    exists|i: int|
        0 <= i < connections.len() && (#[trigger] connections[i]).from_node_idx == from
            && connections[i].to_node_idx == to
}

/// A connection dragged from the output of node `from` is dropped on the
/// input of node `to`: it is added unless it would connect a node to itself
/// or the two nodes are already connected that way. Returns whether it was
/// added.
pub fn connect(connections: &mut Vec<Connection>, from: usize, to: usize) -> (r: bool)
    ensures
        r == (from != to && !connected(old(connections)@, from, to)),
        r ==> final(connections)@ == old(connections)@.push(
            Connection { from_node_idx: from, to_node_idx: to },
        ),
        !r ==> final(connections)@ == old(connections)@,
{
    if from == to {
        return false;
    }
    let mut i: usize = 0;
    while i < connections.len()
        invariant
            i <= connections@.len(),
            forall|j: int|
                0 <= j < i ==> !((#[trigger] connections@[j]).from_node_idx == from
                    && connections@[j].to_node_idx == to),
        decreases connections@.len() - i,
    {
        if connections[i].from_node_idx == from && connections[i].to_node_idx == to {
            return false;
        }
        i = i + 1;
    }
    connections.push(Connection { from_node_idx: from, to_node_idx: to });
    true
}

/// The input port of node `to` is right-clicked: the first connection into
/// it is removed, if there is one. Returns the index it had.
pub fn disconnect_input(connections: &mut Vec<Connection>, to: usize) -> (r: Option<usize>)
    ensures
        r is None <==> forall|i: int|
            0 <= i < old(connections)@.len() ==> (#[trigger] old(connections)@[i]).to_node_idx
                != to,
        r is None ==> final(connections)@ == old(connections)@,
        r matches Some(k) ==> {
            &&& k < old(connections)@.len()
            &&& old(connections)@[k as int].to_node_idx == to
            &&& forall|i: int|
                0 <= i < k ==> (#[trigger] old(connections)@[i]).to_node_idx != to
            &&& final(connections)@ == old(connections)@.remove(k as int)
        },
{
    let mut i: usize = 0;
    while i < connections.len()
        invariant
            i <= connections@.len(),
            connections@ == old(connections)@,
            forall|j: int| 0 <= j < i ==> (#[trigger] connections@[j]).to_node_idx != to,
        decreases connections@.len() - i,
    {
        if connections[i].to_node_idx == to {
            connections.remove(i);
            return Some(i);
        }
        i = i + 1;
    }
    None
}

} // verus!
