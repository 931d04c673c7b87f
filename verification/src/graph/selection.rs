//! The selection, and lists without repeats.
use vstd::prelude::*;

verus! {

/// What is selected: nothing, some nodes, or some edges, each by its slot.
#[derive(Clone, Debug)]
pub enum GraphSelection {
    Empty,
    Node(Vec<u32>),
    Edge(Vec<u32>),
}

/// `base` followed by the items of `extra` that are not yet in it, each taken
/// once, in the order they come.
pub open spec fn merged(base: Seq<u32>, extra: Seq<u32>) -> Seq<u32>
    decreases extra.len(),
{
    if extra.len() == 0 {
        base
    } else if base.contains(extra[0]) {
        merged(base, extra.drop_first())
    } else {
        merged(base.push(extra[0]), extra.drop_first())
    }
}

/// Merging keeps a list free of repeats, keeps what it held, and adds exactly
/// the items of `extra`.
pub proof fn lemma_merged(base: Seq<u32>, extra: Seq<u32>)
    requires
        base.no_duplicates(),
    ensures
        merged(base, extra).no_duplicates(),
        forall|a: u32|
            #![trigger merged(base, extra).contains(a)]
            merged(base, extra).contains(a) <==> base.contains(a) || extra.contains(a),
        base.is_prefix_of(merged(base, extra)),
    decreases extra.len(),
{
    if extra.len() == 0 {
    } else {
        let rest = extra.drop_first();
        let head = extra[0];
        assert(forall|a: u32| extra.contains(a) <==> a == head || rest.contains(a)) by {
            assert forall|a: u32| extra.contains(a) implies a == head || rest.contains(a) by {
                let i = choose|i: int| 0 <= i < extra.len() && extra[i] == a;
                if i > 0 {
                    assert(rest[i - 1] == a);
                }
            }
            assert forall|a: u32| a == head || rest.contains(a) implies extra.contains(a) by {}
        }
        if base.contains(head) {
            lemma_merged(base, rest);
        } else {
            let grown = base.push(head);
            lemma_merged(grown, rest);
            assert(forall|a: u32| grown.contains(a) <==> base.contains(a) || a == head) by {
                assert forall|a: u32| grown.contains(a) implies base.contains(a) || a == head by {}
                assert forall|a: u32| base.contains(a) || a == head implies grown.contains(a) by {
                    if base.contains(a) {
                        let i = choose|i: int| 0 <= i < base.len() && base[i] == a;
                        assert(grown[i] == a);
                    } else {
                        assert(grown[base.len() as int] == a);
                    }
                }
            }
        }
    }
}

impl Default for GraphSelection {
    fn default() -> (selection: Self)
        ensures
            selection is Empty,
    {
        GraphSelection::Empty
    }
}

impl GraphSelection {
    /// The selected nodes, in the order they were selected.
    pub open spec fn nodes(self) -> Seq<u32> {
        match self {
            GraphSelection::Node(nodes) => nodes@,
            _ => Seq::empty(),
        }
    }

    /// The selected edges, in the order they were selected.
    pub open spec fn edges(self) -> Seq<u32> {
        match self {
            GraphSelection::Edge(edges) => edges@,
            _ => Seq::empty(),
        }
    }

    /// A selection is a set: nothing is in it twice.
    pub open spec fn wf(self) -> bool {
        self.nodes().no_duplicates() && self.edges().no_duplicates()
    }

    pub fn clear(&mut self)
        ensures
            *final(self) is Empty,
    {
        *self = GraphSelection::Empty;
    }

    pub fn is_nodes(&self) -> (yes: bool)
        ensures
            yes == (*self is Node),
    {
        matches!(self, GraphSelection::Node(_))
    }

    pub fn is_edge(&self) -> (yes: bool)
        ensures
            yes == (*self is Edge),
    {
        matches!(self, GraphSelection::Edge(_))
    }
}

/// Whether `item` is among `items`.
pub fn list_contains(items: &Vec<u32>, item: u32) -> (found: bool)
    ensures
        found == items@.contains(item),
{
    let mut i: usize = 0;
    while i < items.len()
        invariant
            i <= items.len(),
            forall|j: int| 0 <= j < i ==> items[j] != item,
        decreases items.len() - i,
    {
        if items[i] == item {
            return true;
        }
        i += 1;
    }
    false
}

/// Appends to `base` the items of `extra` that it does not hold yet.
pub fn merge_into(base: &mut Vec<u32>, extra: &Vec<u32>)
    ensures
        final(base)@ == merged(old(base)@, extra@),
{
    let mut i: usize = 0;
    proof {
        assert(extra@.skip(0) == extra@);
    }
    while i < extra.len()
        invariant
            i <= extra.len(),
            merged(base@, extra@.skip(i as int)) == merged(old(base)@, extra@),
        decreases extra.len() - i,
    {
        let item = extra[i];
        proof {
            let rest = extra@.skip(i as int);
            assert(rest.drop_first() == extra@.skip(i + 1));
        }
        if !list_contains(base, item) {
            base.push(item);
        }
        i += 1;
    }
}

} // verus!
