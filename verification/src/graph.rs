//! The graph data model: nodes, their input slots and output slots, and the
//! directed connections between them.
//!
//! Node identity is an index into `nodes`; output-slot identity is an index
//! into `output_owner`, which maps every output slot back to the node that
//! owns it. A connection is stored on the consuming input slot as the id of
//! the producing output slot (exactly one producer per input; fan-out from an
//! output to many inputs is free). Well-formedness ties every node's socket
//! layout to the registry entry of its kind.

use vstd::prelude::*;

use crate::registry::{lemma_default_values_defined, node_type_info, spec_info};
use crate::types::{value_defined, InputSocketType, MyNodeType, MyValueType};

verus! {

/// One input slot: its socket name, the producing output slot when connected,
/// and the stored literal value used when unconnected.
#[derive(Debug)]
pub struct MyInput {
    pub name: String,
    pub connection: Option<usize>,
    pub value: MyValueType,
}

/// One node: its kind, display label, input slots in registry order, and the
/// ids of its output slots in registry order.
#[derive(Debug)]
pub struct MyNode {
    pub node_type: MyNodeType,
    pub label: String,
    pub inputs: Vec<MyInput>,
    pub output_ids: Vec<usize>,
}

/// The graph: all nodes plus the owner table for output-slot ids.
#[derive(Debug)]
pub struct MyGraph {
    pub nodes: Vec<MyNode>,
    pub output_owner: Vec<usize>,
}

impl MyGraph {
    /// Node `i` agrees with the registry entry of its kind: label, socket
    /// count, socket names; every literal-default slot holds a value; every
    /// connection and output id points into the owner table; output ids are
    /// distinct and owned back by `i`.
    pub open spec fn wf_node(self, i: int) -> bool {
        let n = self.nodes@[i];
        let info = spec_info(n.node_type);
        &&& n.label@ == info.label
        &&& n.inputs@.len() == info.input_sockets.len()
        &&& (forall|j: int|
            0 <= j < n.inputs@.len() ==> (#[trigger] n.inputs@[j]).name@
                == info.input_sockets[j].name)
        &&& (forall|j: int|
            0 <= j < n.inputs@.len() && info.input_sockets[j].default is Ok
                ==> value_defined((#[trigger] n.inputs@[j]).value@))
        &&& (forall|j: int|
            0 <= j < n.inputs@.len() && (#[trigger] n.inputs@[j]).connection is Some
                ==> n.inputs@[j].connection->0 < self.output_owner@.len())
        &&& n.output_ids@.len() == info.output_sockets.len()
        &&& (forall|k: int|
            0 <= k < n.output_ids@.len() ==> (#[trigger] n.output_ids@[k])
                < self.output_owner@.len() && self.output_owner@[n.output_ids@[k] as int] == i)
        &&& (forall|k1: int, k2: int|
            #![trigger n.output_ids@[k1], n.output_ids@[k2]]
            0 <= k1 < n.output_ids@.len() && 0 <= k2 < n.output_ids@.len() && k1 != k2
                ==> n.output_ids@[k1] != n.output_ids@[k2])
    }

    /// Output slot `oid` is owned by an in-range node whose output list
    /// actually carries `oid`.
    pub open spec fn wf_owner(self, oid: int) -> bool {
        let p = self.output_owner@[oid];
        &&& p < self.nodes@.len()
        &&& exists|k: int|
            0 <= k < self.nodes@[p as int].output_ids@.len()
                && self.nodes@[p as int].output_ids@[k] == oid
    }

    /// The graph invariant: every node and every output slot is well formed.
    pub open spec fn wf(self) -> bool {
        &&& (forall|i: int| 0 <= i < self.nodes@.len() ==> #[trigger] self.wf_node(i))
        &&& (forall|oid: int|
            0 <= oid < self.output_owner@.len() ==> #[trigger] self.wf_owner(oid))
    }

    pub fn new() -> (g: MyGraph)
        ensures
            g.wf(),
            g.nodes@.len() == 0,
            g.output_owner@.len() == 0,
    {
        MyGraph { nodes: Vec::new(), output_owner: Vec::new() }
    }

    /// Wire input slot `input_idx` of node `consumer` to output slot
    /// `output_idx` of node `producer`. Everything else is untouched.
    pub fn add_connection(
        &mut self,
        consumer: usize,
        input_idx: usize,
        producer: usize,
        output_idx: usize,
    )
        requires
            old(self).wf(),
            consumer < old(self).nodes@.len(),
            input_idx < old(self).nodes@[consumer as int].inputs@.len(),
            producer < old(self).nodes@.len(),
            output_idx < old(self).nodes@[producer as int].output_ids@.len(),
        ensures
            final(self).wf(),
            final(self).output_owner@ == old(self).output_owner@,
            final(self).nodes@.len() == old(self).nodes@.len(),
            forall|i: int|
                0 <= i < old(self).nodes@.len() && i != consumer ==> final(self).nodes@[i]
                    == old(self).nodes@[i],
            final(self).nodes@[consumer as int].node_type
                == old(self).nodes@[consumer as int].node_type,
            final(self).nodes@[consumer as int].label
                == old(self).nodes@[consumer as int].label,
            final(self).nodes@[consumer as int].output_ids
                == old(self).nodes@[consumer as int].output_ids,
            final(self).nodes@[consumer as int].inputs@.len()
                == old(self).nodes@[consumer as int].inputs@.len(),
            forall|j: int|
                0 <= j < old(self).nodes@[consumer as int].inputs@.len() && j != input_idx
                    ==> final(self).nodes@[consumer as int].inputs@[j]
                    == old(self).nodes@[consumer as int].inputs@[j],
            final(self).nodes@[consumer as int].inputs@[input_idx as int].name
                == old(self).nodes@[consumer as int].inputs@[input_idx as int].name,
            final(self).nodes@[consumer as int].inputs@[input_idx as int].value@
                == old(self).nodes@[consumer as int].inputs@[input_idx as int].value@,
            final(self).nodes@[consumer as int].inputs@[input_idx as int].connection
                == Some(old(self).nodes@[producer as int].output_ids@[output_idx as int]),
    {
        let oid = self.nodes[producer].output_ids[output_idx];
        let mut node = self.nodes.remove(consumer);
        let mut inp = node.inputs.remove(input_idx);
        inp.connection = Some(oid);
        node.inputs.insert(input_idx, inp);
        self.nodes.insert(consumer, node);
        proof {
            assert(self.nodes@ =~= old(self).nodes@.update(
                consumer as int,
                self.nodes@[consumer as int],
            ));
            assert(self.nodes@[consumer as int].inputs@
                =~= old(self).nodes@[consumer as int].inputs@.update(
                input_idx as int,
                self.nodes@[consumer as int].inputs@[input_idx as int],
            ));
            assert forall|i: int| 0 <= i < self.nodes@.len() implies #[trigger] self.wf_node(
                i,
            ) by {
                assert(old(self).wf_node(i));
                if i == consumer {
                    assert(old(self).wf_node(producer as int));
                }
            }
            assert(self.nodes@[consumer as int].output_ids
                == old(self).nodes@[consumer as int].output_ids);
            assert forall|oid2: int|
                0 <= oid2 < self.output_owner@.len() implies #[trigger] self.wf_owner(
                oid2,
            ) by {
                assert(old(self).wf_owner(oid2));
                let p = old(self).output_owner@[oid2];
                let k = choose|k: int|
                    0 <= k < old(self).nodes@[p as int].output_ids@.len()
                        && old(self).nodes@[p as int].output_ids@[k] == oid2;
                assert(self.nodes@[p as int].output_ids@[k] == oid2);
            }
        }
    }

    /// Remove the connection into input slot `input_idx` of node `consumer`;
    /// the slot falls back to its stored literal or builtin default at the
    /// next generation. Everything else is untouched.
    pub fn remove_connection(&mut self, consumer: usize, input_idx: usize)
        requires
            old(self).wf(),
            consumer < old(self).nodes@.len(),
            input_idx < old(self).nodes@[consumer as int].inputs@.len(),
        ensures
            final(self).wf(),
            final(self).output_owner@ == old(self).output_owner@,
            final(self).nodes@.len() == old(self).nodes@.len(),
            forall|i: int|
                0 <= i < old(self).nodes@.len() && i != consumer ==> final(self).nodes@[i]
                    == old(self).nodes@[i],
            final(self).nodes@[consumer as int].node_type
                == old(self).nodes@[consumer as int].node_type,
            final(self).nodes@[consumer as int].label
                == old(self).nodes@[consumer as int].label,
            final(self).nodes@[consumer as int].output_ids
                == old(self).nodes@[consumer as int].output_ids,
            final(self).nodes@[consumer as int].inputs@.len()
                == old(self).nodes@[consumer as int].inputs@.len(),
            forall|j: int|
                0 <= j < old(self).nodes@[consumer as int].inputs@.len() && j != input_idx
                    ==> final(self).nodes@[consumer as int].inputs@[j]
                    == old(self).nodes@[consumer as int].inputs@[j],
            final(self).nodes@[consumer as int].inputs@[input_idx as int].name
                == old(self).nodes@[consumer as int].inputs@[input_idx as int].name,
            final(self).nodes@[consumer as int].inputs@[input_idx as int].value@
                == old(self).nodes@[consumer as int].inputs@[input_idx as int].value@,
            final(self).nodes@[consumer as int].inputs@[input_idx as int].connection
                is None,
    {
        let mut node = self.nodes.remove(consumer);
        let mut inp = node.inputs.remove(input_idx);
        inp.connection = None;
        node.inputs.insert(input_idx, inp);
        self.nodes.insert(consumer, node);
        proof {
            assert(self.nodes@ =~= old(self).nodes@.update(
                consumer as int,
                self.nodes@[consumer as int],
            ));
            assert(self.nodes@[consumer as int].inputs@
                =~= old(self).nodes@[consumer as int].inputs@.update(
                input_idx as int,
                self.nodes@[consumer as int].inputs@[input_idx as int],
            ));
            assert forall|i: int| 0 <= i < self.nodes@.len() implies #[trigger] self.wf_node(
                i,
            ) by {
                assert(old(self).wf_node(i));
            }
            assert(self.nodes@[consumer as int].output_ids
                == old(self).nodes@[consumer as int].output_ids);
            assert forall|oid2: int|
                0 <= oid2 < self.output_owner@.len() implies #[trigger] self.wf_owner(
                oid2,
            ) by {
                assert(old(self).wf_owner(oid2));
                let p = old(self).output_owner@[oid2];
                let k = choose|k: int|
                    0 <= k < old(self).nodes@[p as int].output_ids@.len()
                        && old(self).nodes@[p as int].output_ids@[k] == oid2;
                assert(self.nodes@[p as int].output_ids@[k] == oid2);
            }
        }
    }
}

impl MyNodeType {
    /// Instantiate a node of this kind: input slots named and defaulted from
    /// the registry, fresh output-slot ids appended to the owner table. The
    /// new node's id is returned.
    pub fn build_node(&self, graph: &mut MyGraph) -> (nid: usize)
        requires
            old(graph).wf(),
        ensures
            final(graph).wf(),
            nid == old(graph).nodes@.len(),
            final(graph).nodes@.len() == old(graph).nodes@.len() + 1,
            forall|i: int|
                0 <= i < old(graph).nodes@.len() ==> final(graph).nodes@[i]
                    == old(graph).nodes@[i],
            old(graph).output_owner@.is_prefix_of(final(graph).output_owner@),
            final(graph).output_owner@.len() == old(graph).output_owner@.len()
                + spec_info(*self).output_sockets.len(),
            final(graph).nodes@[nid as int].node_type == *self,
            final(graph).nodes@[nid as int].label@ == spec_info(*self).label,
            final(graph).nodes@[nid as int].inputs@.len()
                == spec_info(*self).input_sockets.len(),
            forall|j: int|
                0 <= j < spec_info(*self).input_sockets.len() ==> {
                    let inp = #[trigger] final(graph).nodes@[nid as int].inputs@[j];
                    &&& inp.name@ == spec_info(*self).input_sockets[j].name
                    &&& inp.connection is None
                },
            final(graph).nodes@[nid as int].output_ids@.len()
                == spec_info(*self).output_sockets.len(),
            forall|k: int|
                0 <= k < spec_info(*self).output_sockets.len()
                    ==> #[trigger] final(graph).nodes@[nid as int].output_ids@[k]
                    == old(graph).output_owner@.len() + k,
    {
        let info = node_type_info(*self);
        let nid = graph.nodes.len();
        let mut inputs: Vec<MyInput> = Vec::new();
        let mut j: usize = 0;
        while j < info.input_sockets.len()
            invariant
                j <= info.input_sockets.len(),
                info@ == spec_info(*self),
                inputs@.len() == j,
                forall|x: int|
                    0 <= x < j ==> {
                        let inp = #[trigger] inputs@[x];
                        &&& inp.name@ == spec_info(*self).input_sockets[x].name
                        &&& inp.connection is None
                        &&& (spec_info(*self).input_sockets[x].default is Ok
                            ==> value_defined(inp.value@))
                    },
            decreases info.input_sockets@.len() - j,
        {
            let sock = &info.input_sockets[j];
            proof {
                assert(info.input_sockets@.map_values(|s: InputSocketType| s@)[j as int]
                    == spec_info(*self).input_sockets[j as int]);
                lemma_default_values_defined(*self);
            }
            let value = sock.get_default_value();
            inputs.push(MyInput { name: sock.name.clone(), connection: None, value });
            j = j + 1;
        }
        let ghost owner0 = graph.output_owner@;
        let mut output_ids: Vec<usize> = Vec::new();
        let mut k: usize = 0;
        while k < info.output_sockets.len()
            invariant
                k <= info.output_sockets.len(),
                info@ == spec_info(*self),
                nid == old(graph).nodes@.len(),
                graph.nodes@ == old(graph).nodes@,
                output_ids@.len() == k,
                graph.output_owner@.len() == owner0.len() + k,
                owner0.is_prefix_of(graph.output_owner@),
                forall|x: int|
                    0 <= x < k ==> #[trigger] output_ids@[x] == owner0.len() + x,
                forall|x: int|
                    owner0.len() <= x < graph.output_owner@.len()
                        ==> #[trigger] graph.output_owner@[x] == old(graph).nodes@.len(),
            decreases info.output_sockets@.len() - k,
        {
            output_ids.push(graph.output_owner.len());
            graph.output_owner.push(nid);
            k = k + 1;
        }
        let node = MyNode { node_type: *self, label: info.label, inputs, output_ids };
        graph.nodes.push(node);
        proof {
            let g = *graph;
            let ni = nid as int;
            assert(g.nodes@[ni].inputs@.len() == spec_info(*self).input_sockets.len());
            assert forall|i: int| 0 <= i < g.nodes@.len() implies #[trigger] g.wf_node(i) by {
                if i < ni {
                    assert(old(graph).wf_node(i));
                } else {
                    assert(i == ni);
                }
            }
            assert forall|oid: int|
                0 <= oid < g.output_owner@.len() implies #[trigger] g.wf_owner(oid) by {
                if oid < owner0.len() {
                    assert(old(graph).wf_owner(oid));
                    let p = g.output_owner@[oid];
                    assert(g.nodes@[p as int] == old(graph).nodes@[p as int]);
                } else {
                    assert(g.output_owner@[oid] == ni);
                    assert(g.nodes@[ni].output_ids@[oid - owner0.len()] == oid);
                }
            }
        }
        nid
    }

}

} // verus!
