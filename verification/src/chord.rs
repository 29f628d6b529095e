//! Chord finger table of a node.
use vstd::prelude::*;

verus! {

/// One row of the finger table: a ring position and the node that owns it.
struct FingerTableEntry {
    position: u128,
    dht_id: u128,
}

/// The finger table of a node on the Chord ring.
pub struct FingerTable {
    table: Vec<FingerTableEntry>,
}

impl View for FingerTable {
    type V = Seq<(u128, u128)>;

    /// The rows of the table, each as `(position, dht_id)`.
    closed spec fn view(&self) -> Seq<(u128, u128)> {
        self.table@.map_values(|e: FingerTableEntry| (e.position, e.dht_id))
    }
}

impl FingerTable {
    /// An empty finger table.
    pub fn new() -> (t: FingerTable)
        ensures
            t@ == Seq::<(u128, u128)>::empty(),
    {
        let t = FingerTable { table: Vec::new() };
        assert(t@ =~= Seq::<(u128, u128)>::empty());
        t
    }
}

} // verus!
