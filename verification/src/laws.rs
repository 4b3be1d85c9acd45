//! Cross-cutting guarantees of the generator, stated and proved over the
//! same spec functions its contracts use.

use vstd::prelude::*;

use crate::codegen::{
    adhoc_text, arg_text, args_upto, call_line, cg_name, custom_text, decl_line,
    decl_lines_upto, full_params, info_at, lemma_samplers_assigned, lit_text, node_kind_at,
    node_text, out_args_upto, ret_conversion, sampler_decl, sampler_item, sampler_ref,
    spec_ps_text, spec_sampler_text, spec_samplers, spec_vs_text, Stage,
};
use crate::graph::MyGraph;
use crate::order::{
    has_conn, is_acyclic, lemma_no_dup_len_bound, lemma_post_node_props, spec_order,
};
use crate::text::{dec_str, esc_str};
use crate::types::{GenCode, MyNodeType};

verus! {

/// For a socket with no incoming connection, the emitted argument is
/// exactly what its socket spec dictates — the stored literal for a
/// literal default, the builtin expression verbatim otherwise — and it is
/// independent of whatever traversal order the generator used.
pub proof fn lemma_unconnected_arg_fixed(
    g: MyGraph,
    ord1: Seq<usize>,
    ord2: Seq<usize>,
    nid: usize,
    j: int,
)
    requires
        !has_conn(g, nid, j),
    ensures
        arg_text(g, ord1, nid, j) == arg_text(g, ord2, nid, j),
        info_at(g, nid).input_sockets[j].default is Err ==> arg_text(g, ord1, nid, j)
            == info_at(g, nid).input_sockets[j].default->Err_0,
        info_at(g, nid).input_sockets[j].default is Ok ==> arg_text(g, ord1, nid, j)
            == lit_text(g.nodes@[nid as int].inputs@[j].value@),
{
}

/// Generation is idempotent: the generator's contract pins each output
/// buffer to a function of the graph, the root and the auxiliary data
/// alone, so any two results of the same snapshot are character-identical.
pub proof fn lemma_generate_idempotent(
    g: MyGraph,
    root: usize,
    aux: Seq<Option<String>>,
    c1: GenCode,
    c2: GenCode,
)
    requires
        c1.sampler_code@ == spec_sampler_text(g, root, aux),
        c1.vs_code@ == spec_vs_text(g, root, spec_samplers(g, root)),
        c1.ps_code@ == spec_ps_text(g, root, spec_samplers(g, root)),
        c2.sampler_code@ == spec_sampler_text(g, root, aux),
        c2.vs_code@ == spec_vs_text(g, root, spec_samplers(g, root)),
        c2.ps_code@ == spec_ps_text(g, root, spec_samplers(g, root)),
    ensures
        c1.sampler_code@ == c2.sampler_code@,
        c1.vs_code@ == c2.vs_code@,
        c1.ps_code@ == c2.ps_code@,
{
}

/// Sampler numbering is computed once and shared: for a custom-texture
/// node in the emission order, the shared assignment maps it to its
/// position `i` in that order, the sampler pass declares the block for
/// index `i`, and every body pass that references the node's sampler
/// spells the same index `i`. (Any graph held in memory satisfies the
/// length bound.)
pub proof fn lemma_sampler_index_consistent(g: MyGraph, root: usize, x: usize)
    requires
        g.wf(),
        is_acyclic(g),
        root < g.nodes@.len(),
        g.nodes@.len() <= usize::MAX,
        spec_order(g, root).contains(x),
        node_kind_at(g, x) == MyNodeType::CustomTexture2D,
    ensures
        ({
            let ord = spec_order(g, root);
            let i = ord.index_of(x);
            &&& 0 <= i < ord.len() && ord[i] == x
            &&& spec_samplers(g, root)[x as int] == Some(i as usize)
            &&& (forall|aux: Seq<Option<String>>|
                #[trigger] sampler_item(g, aux, ord, i) == sampler_decl(
                    i as nat,
                    esc_str(custom_text(aux, x)),
                ))
            &&& sampler_ref(spec_samplers(g, root), x) == ", _"@ + dec_str(i as nat)
                + "_sampler"@
        }),
{
    crate::order::lemma_prefix_closed_empty(g);
    lemma_post_node_props(g, root, Seq::empty());
    let ord = spec_order(g, root);
    assert(forall|t: int| 0 <= t < ord.len() ==> (#[trigger] ord[t]) < g.nodes@.len());
    lemma_no_dup_len_bound(ord, g.nodes@.len());
    let i = ord.index_of(x);
    assert(0 <= i < ord.len() && ord[i] == x);
    lemma_samplers_assigned(g, ord, ord.len() as int, g.nodes@.len());
    assert(spec_samplers(g, root)[ord[i] as int] == Some(i as usize));
    assert(i as usize as nat == i as nat);
    assert forall|aux: Seq<Option<String>>| #[trigger]
        sampler_item(g, aux, ord, i) == sampler_decl(i as nat, esc_str(custom_text(aux, x))) by {
        assert(node_kind_at(g, ord[i]) == MyNodeType::CustomTexture2D);
    }
}

/// The reference name of secondary output `k` of the node at position `i`.
pub open spec fn out_ref(g: MyGraph, ord: Seq<usize>, i: int, k: int) -> Seq<char> {
    cg_name(g, ord, i) + "_"@ + dec_str(k as nat)
}

/// The out-parameter references a node passes, one per secondary output.
pub open spec fn out_ref_list(g: MyGraph, ord: Seq<usize>, i: int) -> Seq<Seq<char>> {
    Seq::new(
        (info_at(g, ord[i]).output_sockets.len() - 1) as nat,
        |k: int| out_ref(g, ord, i, k + 1),
    )
}

/// The declaration lines a node emits, one per secondary output.
pub open spec fn decl_list(g: MyGraph, ord: Seq<usize>, i: int) -> Seq<Seq<char>> {
    Seq::new(
        (info_at(g, ord[i]).output_sockets.len() - 1) as nat,
        |k: int| decl_line(g, ord, i, k + 1),
    )
}

/// Comma-joins `parts` onto a parameter list that was empty iff `first`.
pub open spec fn joined(parts: Seq<Seq<char>>, first: bool) -> Seq<char>
    decreases parts.len(),
{
    if parts.len() == 0 {
        Seq::empty()
    } else {
        joined(parts.drop_last(), first) + (if parts.len() == 1 && first {
            Seq::empty()
        } else {
            ", "@
        }) + parts.last()
    }
}

proof fn lemma_decl_upto_is_list(g: MyGraph, ord: Seq<usize>, i: int, k: int)
    requires
        1 <= k,
    ensures
        decl_lines_upto(g, ord, i, k) == Seq::new(
            (k - 1) as nat,
            |t: int| decl_line(g, ord, i, t + 1),
        ).flatten_alt(),
    decreases k,
{
    let l = Seq::new((k - 1) as nat, |t: int| decl_line(g, ord, i, t + 1));
    if k == 1 {
        assert(l.len() == 0);
        assert(l.flatten_alt() == Seq::<char>::empty());
    } else {
        lemma_decl_upto_is_list(g, ord, i, k - 1);
        assert(l.drop_last() =~= Seq::new((k - 2) as nat, |t: int| decl_line(g, ord, i, t + 1)));
        assert(l.last() == decl_line(g, ord, i, k - 1));
        assert(l.flatten_alt() == l.drop_last().flatten_alt() + l.last());
    }
}

proof fn lemma_out_args_is_joined(g: MyGraph, ord: Seq<usize>, i: int, k: int, first: bool)
    requires
        1 <= k,
    ensures
        out_args_upto(g, ord, i, k, first) == joined(
            Seq::new((k - 1) as nat, |t: int| out_ref(g, ord, i, t + 1)),
            first,
        ),
    decreases k,
{
    let l = Seq::new((k - 1) as nat, |t: int| out_ref(g, ord, i, t + 1));
    if k == 1 {
        assert(l.len() == 0);
    } else {
        lemma_out_args_is_joined(g, ord, i, k - 1, first);
        assert(l.drop_last() =~= Seq::new((k - 2) as nat, |t: int| out_ref(g, ord, i, t + 1)));
        assert(l.last() == out_ref(g, ord, i, k - 1));
        assert(out_args_upto(g, ord, i, k, first) =~= joined(l, first));
    }
}

/// A node with `m ≥ 1` output sockets emits exactly `m - 1` secondary
/// declaration lines ahead of its call, and passes exactly `m - 1`
/// trailing out-parameter references in the call's argument list.
pub proof fn lemma_multi_output_emission(
    stage: Stage,
    g: MyGraph,
    ord: Seq<usize>,
    samplers: Seq<Option<usize>>,
    i: int,
)
    requires
        0 <= i < ord.len(),
        info_at(g, ord[i]).output_sockets.len() >= 1,
    ensures
        ({
            let m = info_at(g, ord[i]).output_sockets.len() as int;
            let pair = args_upto(stage, g, ord, i, info_at(g, ord[i]).input_sockets.len() as int);
            &&& decl_list(g, ord, i).len() == m - 1
            &&& out_ref_list(g, ord, i).len() == m - 1
            &&& node_text(stage, g, ord, samplers, i) == decl_list(g, ord, i).flatten_alt()
                + call_line(stage, g, ord, samplers, i) + (if stage == Stage::Pixel && i
                == ord.len() - 1 {
                ret_conversion(g, ord, i)
            } else {
                Seq::empty()
            })
            &&& full_params(stage, g, ord, samplers, i) == pair.0 + adhoc_text(
                stage,
                g,
                samplers,
                ord[i],
            ) + joined(out_ref_list(g, ord, i), pair.1)
        }),
{
    let m = info_at(g, ord[i]).output_sockets.len() as int;
    let pair = args_upto(stage, g, ord, i, info_at(g, ord[i]).input_sockets.len() as int);
    lemma_decl_upto_is_list(g, ord, i, m);
    lemma_out_args_is_joined(g, ord, i, m, pair.1);
}

} // verus!
