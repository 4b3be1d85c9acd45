//! The code generator: walks a topological order of the graph and emits the
//! pixel-shader body, the vertex-shader body and the sampler declarations.
//!
//! Every emitted buffer is pinned down, character for character, by a spec
//! function over the graph, the emission order and the sampler assignment,
//! so generation is a pure function of its inputs.

use vstd::pervasive::unreached;
use vstd::prelude::*;

use crate::graph::MyGraph;
use crate::order::{
    all_valid, edge, has_conn, is_acyclic, is_vertex_socket,
    lemma_closed_complete, lemma_conn_edge, lemma_post_node_props,
    lemma_role_order_props, order,
    postorder_traversal_pixel_shader, postorder_traversal_vertex_shader, producer_at,
    reaches, spec_order, spec_px_order, spec_vs_order,
};
use crate::registry::{lemma_main_label_unique, node_type_info, spec_info};
use crate::text::{dec_str, esc_str, escape_backslashes, usize_to_string};
use crate::types::{GenCode, InfoView, InputSocketType, MyDataType, MyNodeType, MyValueType, NodeTypeInfo, OutputSocketType, ValueView};

verus! {

/// Which shader section a body is being emitted for.
#[derive(PartialEq, Eq, Clone, Copy, Structural, Debug)]
pub enum Stage {
    Pixel,
    Vertex,
}

/// The emitted HLSL type of a socket data type.
pub open spec fn type_str(ty: MyDataType) -> Seq<char> {
    match ty {
        MyDataType::Scalar => "float "@,
        MyDataType::Vec3 => "float3"@,
    }
}

/// The kind of the node with id `nid`.
pub open spec fn node_kind_at(g: MyGraph, nid: usize) -> MyNodeType {
    g.nodes@[nid as int].node_type
}

/// The registry entry of the node with id `nid`.
pub open spec fn info_at(g: MyGraph, nid: usize) -> InfoView {
    spec_info(node_kind_at(g, nid))
}

/// Generated identifier of the node at position `i` of the order.
pub open spec fn cg_name(g: MyGraph, ord: Seq<usize>, i: int) -> Seq<char> {
    "_"@ + dec_str(i as nat) + "_"@ + g.nodes@[ord[i] as int].label@
}

/// Position of the (unique, by well-formedness) output slot `oid` in node
/// `p`'s output list.
pub open spec fn out_index(g: MyGraph, p: usize, oid: usize) -> int {
    choose|k: int|
        0 <= k < g.nodes@[p as int].output_ids@.len() && g.nodes@[p as int].output_ids@[k]
            == oid
}

/// Reference to the producer variable feeding input `j` of node `nid`.
pub open spec fn ref_text(g: MyGraph, ord: Seq<usize>, nid: usize, j: int) -> Seq<char> {
    let oid = g.nodes@[nid as int].inputs@[j].connection->0;
    let p = producer_at(g, nid, j);
    cg_name(g, ord, ord.index_of(p)) + "_"@ + dec_str(out_index(g, p, oid) as nat)
}

/// The literal text of a stored socket value.
pub open spec fn lit_text(v: ValueView) -> Seq<char> {
    match v {
        ValueView::Scalar(Some(s)) => s,
        ValueView::Scalar(None) => Seq::empty(),
        ValueView::Vec3(Some(t)) => "float3("@ + t.0 + ", "@ + t.1 + ", "@ + t.2 + ")"@,
        ValueView::Vec3(None) => Seq::empty(),
    }
}

/// The argument emitted for input `j` of node `nid`: a producer reference
/// when connected, otherwise the stored literal or the builtin expression
/// from the registry.
pub open spec fn arg_text(g: MyGraph, ord: Seq<usize>, nid: usize, j: int) -> Seq<char> {
    if has_conn(g, nid, j) {
        ref_text(g, ord, nid, j)
    } else {
        match info_at(g, nid).input_sockets[j].default {
            Ok(_) => lit_text(g.nodes@[nid as int].inputs@[j].value@),
            Err(d) => d,
        }
    }
}

/// Whether `stage` keeps input `j` of the node at position `i`: the pixel
/// stage drops vertex-role sockets everywhere; the vertex stage keeps only
/// vertex-role sockets on the final (root) node and everything elsewhere.
pub open spec fn keep_input(stage: Stage, g: MyGraph, ord: Seq<usize>, i: int, j: int) -> bool {
    let name = g.nodes@[ord[i] as int].inputs@[j].name@;
    match stage {
        Stage::Pixel => !is_vertex_socket(name),
        Stage::Vertex => (i == ord.len() - 1) ==> is_vertex_socket(name),
    }
}

/// Comma-joined kept arguments of inputs `0..j` of the node at position `i`,
/// together with the is-still-empty flag the emitter tracks.
pub open spec fn args_upto(stage: Stage, g: MyGraph, ord: Seq<usize>, i: int, j: int) -> (
    Seq<char>,
    bool,
)
    decreases j,
{
    if j <= 0 {
        (Seq::empty(), true)
    } else {
        let (acc, first) = args_upto(stage, g, ord, i, j - 1);
        if keep_input(stage, g, ord, i, j - 1) {
            (
                acc + (if first {
                    Seq::empty()
                } else {
                    ", "@
                }) + arg_text(g, ord, ord[i], j - 1),
                false,
            )
        } else {
            (acc, first)
        }
    }
}

/// The generated sampler-variable reference for a custom-texture node.
pub open spec fn sampler_ref(samplers: Seq<Option<usize>>, nid: usize) -> Seq<char> {
    ", _"@ + dec_str(samplers[nid as int]->0 as nat) + "_sampler"@
}

/// The fixed trailing arguments certain node kinds append after their
/// declared-socket arguments.
pub open spec fn adhoc_text(
    stage: Stage,
    g: MyGraph,
    samplers: Seq<Option<usize>>,
    nid: usize,
) -> Seq<char> {
    let kind = node_kind_at(g, nid);
    match stage {
        Stage::Pixel => {
            if kind == MyNodeType::NrmWS {
                "vso.nrm"@
            } else if kind == MyNodeType::FaceNrmWS {
                "vso.posWS"@
            } else if kind == MyNodeType::UV0 {
                "vso.uv"@
            } else if kind == MyNodeType::ScreenPos {
                "vso.screenPos"@
            } else if kind == MyNodeType::PosWS {
                "vso.posWS"@
            } else if kind == MyNodeType::ViewDirWS {
                "vso.posWS"@
            } else if kind == MyNodeType::HalfDirection {
                "ViewDirWS(vso.posWS)"@
            } else if kind == MyNodeType::Fresnel {
                ", vso.posWS, vso.nrm"@
            } else if kind == MyNodeType::Depth {
                "vso.posWS"@
            } else if kind == MyNodeType::CustomTexture2D {
                sampler_ref(samplers, nid)
            } else {
                Seq::empty()
            }
        },
        Stage::Vertex => {
            if kind == MyNodeType::VSPosWS {
                "pos"@
            } else if kind == MyNodeType::VSUV0 {
                "uv"@
            } else if kind == MyNodeType::VSNrmWS {
                "normal"@
            } else if kind == MyNodeType::CustomTexture2D {
                sampler_ref(samplers, nid)
            } else {
                Seq::empty()
            }
        },
    }
}

/// Out-parameter references for output sockets `1..k` of the node at
/// position `i`, appended to a parameter list whose emptiness flag was
/// `first` before the loop.
pub open spec fn out_args_upto(g: MyGraph, ord: Seq<usize>, i: int, k: int, first: bool) -> Seq<
    char,
>
    decreases k,
{
    if k <= 1 {
        Seq::empty()
    } else {
        out_args_upto(g, ord, i, k - 1, first) + (if k - 1 == 1 && first {
            Seq::empty()
        } else {
            ", "@
        }) + cg_name(g, ord, i) + "_"@ + dec_str((k - 1) as nat)
    }
}

/// The declaration line emitted for secondary output socket `k`.
pub open spec fn decl_line(g: MyGraph, ord: Seq<usize>, i: int, k: int) -> Seq<char> {
    type_str(info_at(g, ord[i]).output_sockets[k].ty) + " "@ + cg_name(g, ord, i) + "_"@
        + dec_str(k as nat) + ";\n"@
}

/// Declaration lines for secondary output sockets `1..k`.
pub open spec fn decl_lines_upto(g: MyGraph, ord: Seq<usize>, i: int, k: int) -> Seq<char>
    decreases k,
{
    if k <= 1 {
        Seq::empty()
    } else {
        decl_lines_upto(g, ord, i, k - 1) + decl_line(g, ord, i, k - 1)
    }
}

/// The complete argument list of the call emitted for the node at position
/// `i`: kept socket arguments, fixed trailing arguments, out parameters.
pub open spec fn full_params(
    stage: Stage,
    g: MyGraph,
    ord: Seq<usize>,
    samplers: Seq<Option<usize>>,
    i: int,
) -> Seq<char> {
    let nid = ord[i];
    let pair = args_upto(stage, g, ord, i, info_at(g, nid).input_sockets.len() as int);
    pair.0 + adhoc_text(stage, g, samplers, nid) + out_args_upto(
        g,
        ord,
        i,
        info_at(g, nid).output_sockets.len() as int,
        pair.1,
    )
}

/// The declaration-plus-call line for a node with outputs.
pub open spec fn call_line(
    stage: Stage,
    g: MyGraph,
    ord: Seq<usize>,
    samplers: Seq<Option<usize>>,
    i: int,
) -> Seq<char> {
    let nid = ord[i];
    type_str(info_at(g, nid).output_sockets[0].ty) + " "@ + cg_name(g, ord, i) + "_0 = "@
        + g.nodes@[nid as int].label@ + "("@ + full_params(stage, g, ord, samplers, i)
        + ");"@ + "\n"@
}

/// The synthesized return statement when the final (root) node is an
/// expression with outputs: a scalar is broadcast across the color channels.
pub open spec fn ret_conversion(g: MyGraph, ord: Seq<usize>, i: int) -> Seq<char> {
    let name = cg_name(g, ord, i);
    match info_at(g, ord[i]).output_sockets[0].ty {
        MyDataType::Scalar => "return float4("@ + name + "_0, "@ + name + "_0, "@ + name
            + "_0, 1.0);\n"@,
        MyDataType::Vec3 => "return float4("@ + name + "_0, 1.0);\n"@,
    }
}

/// The statement emitted for a node without outputs (the terminal node).
pub open spec fn terminal_line(
    stage: Stage,
    g: MyGraph,
    ord: Seq<usize>,
    samplers: Seq<Option<usize>>,
    i: int,
) -> Seq<char> {
    match stage {
        Stage::Pixel => "return "@ + g.nodes@[ord[i] as int].label@ + "("@ + full_params(
            stage,
            g,
            ord,
            samplers,
            i,
        ) + ");"@ + "\n"@,
        Stage::Vertex => "SetPosNrm("@ + full_params(stage, g, ord, samplers, i)
            + ", posWS, nrmWS);"@ + "\n"@,
    }
}

/// Everything emitted for the node at position `i`.
pub open spec fn node_text(
    stage: Stage,
    g: MyGraph,
    ord: Seq<usize>,
    samplers: Seq<Option<usize>>,
    i: int,
) -> Seq<char> {
    let nid = ord[i];
    let outs = info_at(g, nid).output_sockets;
    if outs.len() > 0 {
        decl_lines_upto(g, ord, i, outs.len() as int) + call_line(stage, g, ord, samplers, i)
            + (if stage == Stage::Pixel && i == ord.len() - 1 {
            ret_conversion(g, ord, i)
        } else {
            Seq::empty()
        })
    } else {
        terminal_line(stage, g, ord, samplers, i)
    }
}

/// The emitted body for the first `n` nodes of the order.
pub open spec fn body_upto(
    stage: Stage,
    g: MyGraph,
    ord: Seq<usize>,
    samplers: Seq<Option<usize>>,
    n: int,
) -> Seq<char>
    decreases n,
{
    if n <= 0 {
        Seq::empty()
    } else {
        body_upto(stage, g, ord, samplers, n - 1) + node_text(stage, g, ord, samplers, n - 1)
    }
}

/// The auxiliary text attached to node `nid`, empty when absent.
pub open spec fn custom_text(aux: Seq<Option<String>>, nid: usize) -> Seq<char> {
    if nid < aux.len() && aux[nid as int] is Some {
        aux[nid as int]->0@
    } else {
        Seq::empty()
    }
}

/// The draw-edge flag stored on the main node; missing or unrecognized
/// auxiliary text means the default, which is on.
pub open spec fn draw_edge_flag(aux: Seq<Option<String>>, nid: usize) -> bool {
    if nid < aux.len() && aux[nid as int] is Some {
        !(aux[nid as int]->0@ == "false"@)
    } else {
        true
    }
}

/// The texture/sampler declaration block for sampler index `i` and the
/// (already escaped) resource path `path`.
pub open spec fn sampler_decl(i: nat, path: Seq<char>) -> Seq<char> {
    "\n                texture _"@ + dec_str(i) + "_tex < string ResourceName = \""@ + path
        + "\"; >;\n                sampler _"@ + dec_str(i)
        + "_sampler = sampler_state {\n                    texture = <_"@ + dec_str(i)
        + "_tex>;\n                };\n                "@
}

/// What the sampler pass emits for the node at position `i` of the order.
pub open spec fn sampler_item(
    g: MyGraph,
    aux: Seq<Option<String>>,
    ord: Seq<usize>,
    i: int,
) -> Seq<char> {
    let nid = ord[i];
    let kind = node_kind_at(g, nid);
    if kind == MyNodeType::CustomTexture2D {
        sampler_decl(i as nat, esc_str(custom_text(aux, nid)))
    } else if kind == MyNodeType::Main {
        if draw_edge_flag(aux, nid) {
            "#define ENABLE_DRAW_EDGE_PASS\n"@
        } else {
            Seq::empty()
        }
    } else {
        Seq::empty()
    }
}

/// The sampler section emitted for the first `n` nodes of the order.
pub open spec fn sampler_upto(
    g: MyGraph,
    aux: Seq<Option<String>>,
    ord: Seq<usize>,
    n: int,
) -> Seq<char>
    decreases n,
{
    if n <= 0 {
        Seq::empty()
    } else {
        sampler_upto(g, aux, ord, n - 1) + sampler_item(g, aux, ord, n - 1)
    }
}

/// The sampler-index assignment after the first `n` nodes of the order:
/// every custom-texture node maps to its position in the order.
pub open spec fn samplers_upto(g: MyGraph, ord: Seq<usize>, n: int, nodes_len: nat) -> Seq<
    Option<usize>,
>
    decreases n,
{
    if n <= 0 {
        Seq::new(nodes_len, |x: int| None)
    } else {
        let prev = samplers_upto(g, ord, n - 1, nodes_len);
        let nid = ord[n - 1];
        if node_kind_at(g, nid) == MyNodeType::CustomTexture2D && nid < nodes_len {
            prev.update(nid as int, Some((n - 1) as usize))
        } else {
            prev
        }
    }
}

/// The sampler-index assignment computed once by the sampler pass and
/// shared by the pixel and vertex passes.
pub open spec fn spec_samplers(g: MyGraph, root: usize) -> Seq<Option<usize>> {
    samplers_upto(g, spec_order(g, root), spec_order(g, root).len() as int, g.nodes@.len())
}

/// The sampler section for root `root`.
pub open spec fn spec_sampler_text(g: MyGraph, root: usize, aux: Seq<Option<String>>) -> Seq<
    char,
> {
    sampler_upto(g, aux, spec_order(g, root), spec_order(g, root).len() as int)
}

/// The pixel-shader body for root `root` under sampler assignment
/// `samplers`.
pub open spec fn spec_ps_text(g: MyGraph, root: usize, samplers: Seq<Option<usize>>) -> Seq<
    char,
> {
    body_upto(
        Stage::Pixel,
        g,
        spec_px_order(g, root),
        samplers,
        spec_px_order(g, root).len() as int,
    )
}

/// The vertex-shader body for root `root` under sampler assignment
/// `samplers`; nothing unless the root is a main node.
pub open spec fn spec_vs_text(g: MyGraph, root: usize, samplers: Seq<Option<usize>>) -> Seq<
    char,
> {
    if node_kind_at(g, root) != MyNodeType::Main {
        Seq::empty()
    } else {
        body_upto(
            Stage::Vertex,
            g,
            spec_vs_order(g, root),
            samplers,
            spec_vs_order(g, root).len() as int,
        )
    }
}

/// Replace element `i` of a vector.
fn vec_update<T>(v: &mut Vec<T>, i: usize, x: T)
    requires
        i < old(v)@.len(),
    ensures
        final(v)@ == old(v)@.update(i as int, x),
{
    let _ = v.remove(i);
    v.insert(i, x);
    proof {
        assert(v@ =~= old(v)@.update(i as int, x));
    }
}

/// The sampler pass: walks the full order, assigns each custom-texture node
/// its sampler index (its position in the order), and emits the sampler
/// declarations and the optional draw-edge define.
pub fn code_gen_sampler(
    graph: &MyGraph,
    node_id: usize,
    node_custom_data: &Vec<Option<String>>,
    samplers: &mut Vec<Option<usize>>,
) -> (r: String)
    requires
        graph.wf(),
        is_acyclic(*graph),
        node_id < graph.nodes@.len(),
        old(samplers)@ == Seq::new(graph.nodes@.len(), |x: int| None::<usize>),
    ensures
        r@ == spec_sampler_text(*graph, node_id, node_custom_data@),
        final(samplers)@ == spec_samplers(*graph, node_id),
{
    let topological_order = order(graph, node_id);
    let falsestr = String::from_str("false");
    let mut sampler_code = String::new();
    let mut i: usize = 0;
    while i < topological_order.len()
        invariant
            graph.wf(),
            topological_order@ == spec_order(*graph, node_id),
            all_valid(*graph, topological_order@),
            falsestr@ == "false"@,
            i <= topological_order@.len(),
            samplers@ == samplers_upto(
                *graph,
                topological_order@,
                i as int,
                graph.nodes@.len(),
            ),
            samplers@.len() == graph.nodes@.len(),
            sampler_code@ == sampler_upto(
                *graph,
                node_custom_data@,
                topological_order@,
                i as int,
            ),
        decreases topological_order@.len() - i,
    {
        let nid = topological_order[i];
        let kind = graph.nodes[nid].node_type;
        let ghost pre = sampler_code@;
        if kind == MyNodeType::CustomTexture2D {
            vec_update(samplers, nid, Some(i));
            let idx = usize_to_string(i);
            sampler_code.append("\n                texture _");
            sampler_code.append(idx.as_str());
            sampler_code.append("_tex < string ResourceName = \"");
            let path_escaped = if nid < node_custom_data.len() {
                match &node_custom_data[nid] {
                    Some(s) => escape_backslashes(s.as_str()),
                    None => String::new(),
                }
            } else {
                String::new()
            };
            proof {
                assert(path_escaped@ == esc_str(custom_text(node_custom_data@, nid)));
            }
            sampler_code.append(path_escaped.as_str());
            sampler_code.append("\"; >;\n                sampler _");
            sampler_code.append(idx.as_str());
            sampler_code.append("_sampler = sampler_state {\n                    texture = <_");
            sampler_code.append(idx.as_str());
            sampler_code.append("_tex>;\n                };\n                ");
            proof {
                assert(sampler_code@ =~= pre + sampler_item(
                    *graph,
                    node_custom_data@,
                    topological_order@,
                    i as int,
                ));
            }
        } else if kind == MyNodeType::Main {
            let flag = if nid < node_custom_data.len() {
                match &node_custom_data[nid] {
                    Some(s) => !(*s == falsestr),
                    None => true,
                }
            } else {
                true
            };
            proof {
                assert(flag == draw_edge_flag(node_custom_data@, nid));
            }
            if flag {
                sampler_code.append("#define ENABLE_DRAW_EDGE_PASS\n");
            }
            proof {
                assert(sampler_code@ =~= pre + sampler_item(
                    *graph,
                    node_custom_data@,
                    topological_order@,
                    i as int,
                ));
            }
        } else {
            proof {
                assert(sampler_code@ =~= pre + sampler_item(
                    *graph,
                    node_custom_data@,
                    topological_order@,
                    i as int,
                ));
            }
        }
        i = i + 1;
    }
    sampler_code
}


/// The stored literal rendered as an argument.
fn lit_arg(value: &MyValueType) -> (r: String)
    ensures
        r@ == lit_text(value@),
{
    match value {
        MyValueType::Scalar { value: Some(s) } => s.clone(),
        MyValueType::Scalar { value: None } => String::new(),
        MyValueType::Vec3 { value: Some((x, y, z)) } => {
            let mut r = String::from_str("float3(");
            r.append(x.as_str());
            r.append(", ");
            r.append(y.as_str());
            r.append(", ");
            r.append(z.as_str());
            r.append(")");
            proof {
                assert(r@ =~= lit_text(value@));
            }
            r
        },
        MyValueType::Vec3 { value: None } => String::new(),
    }
}

/// The reference to the producer variable feeding input `j` of node `nid`,
/// resolved positionally: the producer's position in the order and the
/// output slot's position in the producer's output list.
fn emit_ref_arg(
    graph: &MyGraph,
    ord: &Vec<usize>,
    cg_names: &Vec<String>,
    indexs: &Vec<Option<usize>>,
    nid: usize,
    j: usize,
) -> (r: String)
    requires
        graph.wf(),
        nid < graph.nodes@.len(),
        (j as int) < graph.nodes@[nid as int].inputs@.len(),
        has_conn(*graph, nid, j as int),
        ord@.no_duplicates(),
        ord@.contains(producer_at(*graph, nid, j as int)),
        cg_names@.len() == ord@.len(),
        forall|t: int|
            0 <= t < ord@.len() ==> (#[trigger] cg_names@[t])@ == cg_name(*graph, ord@, t),
        indexs@.len() == graph.nodes@.len(),
        forall|t: usize|
            t < ord@.len() ==> indexs@[#[trigger] ord@[t as int] as int] == Some(t),
    ensures
        r@ == ref_text(*graph, ord@, nid, j as int),
{
    let olen = ord.len();
    proof {
        assert(ord@.len() == olen);
    }
    let oid = match graph.nodes[nid].inputs[j].connection {
        Some(o) => o,
        None => unreached(),
    };
    proof {
        assert(graph.wf_node(nid as int));
        assert(oid < graph.output_owner@.len());
        assert(graph.wf_owner(oid as int));
    }
    let p = graph.output_owner[oid];
    let pouts = graph.nodes[p].output_ids.len();
    let mut output_index: usize = usize::MAX;
    let mut k: usize = 0;
    while k < pouts
        invariant
            graph.wf(),
            p < graph.nodes@.len(),
            pouts == graph.nodes@[p as int].output_ids@.len(),
            k <= pouts,
            forall|t: int|
                0 <= t < k && graph.nodes@[p as int].output_ids@[t] == oid ==> output_index
                    == t,
            output_index == usize::MAX || (output_index < k
                && graph.nodes@[p as int].output_ids@[output_index as int] == oid),
        decreases pouts - k,
    {
        proof {
            assert(graph.wf_node(p as int));
        }
        if graph.nodes[p].output_ids[k] == oid {
            output_index = k;
        }
        k = k + 1;
    }
    proof {
        assert(graph.wf_owner(oid as int));
        let kk = choose|kk: int|
            0 <= kk < graph.nodes@[p as int].output_ids@.len()
                && graph.nodes@[p as int].output_ids@[kk] == oid;
        assert(output_index == kk);
        assert(graph.wf_node(p as int));
        let ci = out_index(*graph, p, oid);
        assert(0 <= ci < graph.nodes@[p as int].output_ids@.len()
            && graph.nodes@[p as int].output_ids@[ci] == oid);
        assert(ci == kk);
    }
    proof {
        let ii = choose|ii: int| 0 <= ii < ord@.len() && ord@[ii] == p;
        let t = ii as usize;
        assert(ord@[t as int] == p);
        assert(indexs@[ord@[t as int] as int] == Some(t));
    }
    let idx = match indexs[p] {
        Some(t) => t,
        None => unreached(),
    };
    proof {
        let ii = choose|ii: int| 0 <= ii < ord@.len() && ord@[ii] == p;
        let t = ii as usize;
        assert(ord@[t as int] == p);
        assert(indexs@[ord@[t as int] as int] == Some(t));
        assert(idx == t);
        let io = ord@.index_of(p);
        assert(ord@.contains(p));
        assert(0 <= io < ord@.len() && ord@[io] == p);
        assert(io == t as int);
    }
    let mut r = cg_names[idx].clone();
    r.append("_");
    let ks = usize_to_string(output_index);
    r.append(ks.as_str());
    proof {
        assert(r@ =~= ref_text(*graph, ord@, nid, j as int));
    }
    r
}

/// The argument emitted for input `j` of node `nid`.
fn emit_arg(
    graph: &MyGraph,
    ord: &Vec<usize>,
    cg_names: &Vec<String>,
    indexs: &Vec<Option<usize>>,
    info: &NodeTypeInfo,
    nid: usize,
    j: usize,
) -> (r: String)
    requires
        graph.wf(),
        nid < graph.nodes@.len(),
        (j as int) < graph.nodes@[nid as int].inputs@.len(),
        info@ == info_at(*graph, nid),
        has_conn(*graph, nid, j as int) ==> ord@.contains(
            producer_at(*graph, nid, j as int),
        ),
        ord@.no_duplicates(),
        cg_names@.len() == ord@.len(),
        forall|t: int|
            0 <= t < ord@.len() ==> (#[trigger] cg_names@[t])@ == cg_name(*graph, ord@, t),
        indexs@.len() == graph.nodes@.len(),
        forall|t: usize|
            t < ord@.len() ==> indexs@[#[trigger] ord@[t as int] as int] == Some(t),
    ensures
        r@ == arg_text(*graph, ord@, nid, j as int),
{
    proof {
        assert(graph.wf_node(nid as int));
        assert(info.input_sockets@.map_values(|s: InputSocketType| s@)[j as int]
            == info_at(*graph, nid).input_sockets[j as int]);
    }
    let connected = graph.nodes[nid].inputs[j].connection.is_some();
    if connected {
        emit_ref_arg(graph, ord, cg_names, indexs, nid, j)
    } else {
        match &info.input_sockets[j].default {
            Ok(_) => lit_arg(&graph.nodes[nid].inputs[j].value),
            Err(d) => d.clone(),
        }
    }
}

/// Appends the generated sampler-variable reference of node `nid`.
fn append_sampler_ref(params: &mut String, samplers: &Vec<Option<usize>>, nid: usize)
    requires
        nid < samplers@.len(),
        samplers@[nid as int] is Some,
    ensures
        final(params)@ == old(params)@ + sampler_ref(samplers@, nid),
{
    let s = match samplers[nid] {
        Some(s) => s,
        None => unreached(),
    };
    params.append(", _");
    let t = usize_to_string(s);
    params.append(t.as_str());
    params.append("_sampler");
    proof {
        assert(params@ =~= old(params)@ + sampler_ref(samplers@, nid));
    }
}

/// Appends the fixed trailing arguments of node `nid`'s kind, if any.
fn adhoc_append(
    params: &mut String,
    stage: Stage,
    graph: &MyGraph,
    samplers: &Vec<Option<usize>>,
    nid: usize,
)
    requires
        nid < graph.nodes@.len(),
        samplers@.len() == graph.nodes@.len(),
        node_kind_at(*graph, nid) == MyNodeType::CustomTexture2D ==> samplers@[nid as int]
            is Some,
    ensures
        final(params)@ == old(params)@ + adhoc_text(stage, *graph, samplers@, nid),
{
    let kind = graph.nodes[nid].node_type;
    match stage {
        Stage::Pixel => {
            if kind == MyNodeType::NrmWS {
                params.append("vso.nrm");
            } else if kind == MyNodeType::FaceNrmWS {
                params.append("vso.posWS");
            } else if kind == MyNodeType::UV0 {
                params.append("vso.uv");
            } else if kind == MyNodeType::ScreenPos {
                params.append("vso.screenPos");
            } else if kind == MyNodeType::PosWS {
                params.append("vso.posWS");
            } else if kind == MyNodeType::ViewDirWS {
                params.append("vso.posWS");
            } else if kind == MyNodeType::HalfDirection {
                params.append("ViewDirWS(vso.posWS)");
            } else if kind == MyNodeType::Fresnel {
                params.append(", vso.posWS, vso.nrm");
            } else if kind == MyNodeType::Depth {
                params.append("vso.posWS");
            } else if kind == MyNodeType::CustomTexture2D {
                append_sampler_ref(params, samplers, nid);
            }
        },
        Stage::Vertex => {
            if kind == MyNodeType::VSPosWS {
                params.append("pos");
            } else if kind == MyNodeType::VSUV0 {
                params.append("uv");
            } else if kind == MyNodeType::VSNrmWS {
                params.append("normal");
            } else if kind == MyNodeType::CustomTexture2D {
                append_sampler_ref(params, samplers, nid);
            }
        },
    }
}



/// The name table and position index built for an emission order.
pub open spec fn tables_ok(
    g: MyGraph,
    ord: Seq<usize>,
    cg_names: Seq<String>,
    indexs: Seq<Option<usize>>,
) -> bool {
    &&& cg_names.len() == ord.len()
    &&& (forall|t: int| 0 <= t < ord.len() ==> (#[trigger] cg_names[t])@ == cg_name(g, ord, t))
    &&& indexs.len() == g.nodes@.len()
    &&& (forall|t: usize| t < ord.len() ==> indexs[#[trigger] ord[t as int] as int] == Some(t))
}

/// What the emitter needs of an order: nonempty, valid, duplicate-free,
/// dependency-closed for every kept socket, and a sampler index for every
/// custom-texture node in it.
pub open spec fn ord_ok(
    stage: Stage,
    g: MyGraph,
    ord: Seq<usize>,
    samplers: Seq<Option<usize>>,
) -> bool {
    &&& ord.len() >= 1
    &&& all_valid(g, ord)
    &&& ord.no_duplicates()
    &&& samplers.len() == g.nodes@.len()
    &&& (forall|x: usize, p: usize|
        ord.contains(x) && x != ord.last() && #[trigger] edge(g, x, p)
            ==> #[trigger] ord.contains(p))
    &&& (forall|j: int|
        0 <= j < g.nodes@[ord.last() as int].inputs@.len() && keep_input(
            stage,
            g,
            ord,
            ord.len() - 1,
            j,
        ) && #[trigger] has_conn(g, ord.last(), j) ==> ord.contains(
            producer_at(g, ord.last(), j),
        ))
    &&& (forall|x: usize|
        ord.contains(x) && node_kind_at(g, x) == MyNodeType::CustomTexture2D
            ==> samplers[x as int] is Some)
}

/// Assembles the complete argument list of the call for the node at
/// position `ip`: kept socket arguments in declaration order, the kind's
/// fixed trailing arguments, then the out-parameter references.
#[verifier::rlimit(100)]
fn emit_params(
    graph: &MyGraph,
    ord: &Vec<usize>,
    samplers: &Vec<Option<usize>>,
    cg_names: &Vec<String>,
    indexs: &Vec<Option<usize>>,
    info: &NodeTypeInfo,
    stage: Stage,
    ip: usize,
) -> (pr: String)
    requires
        graph.wf(),
        ord_ok(stage, *graph, ord@, samplers@),
        tables_ok(*graph, ord@, cg_names@, indexs@),
        ip < ord@.len(),
        info@ == info_at(*graph, ord@[ip as int]),
    ensures
        pr@ == full_params(stage, *graph, ord@, samplers@, ip as int),
{
    let n = ord.len();
    let nid = ord[ip];
    proof {
        assert(ord@.contains(nid));
        assert(graph.wf_node(nid as int));
    }
    let num_inputs = graph.nodes[nid].inputs.len();
    proof {
        assert(num_inputs == info_at(*graph, nid).input_sockets.len());
    }
    let posws = String::from_str("posWS");
    let nrmws = String::from_str("nrmWS");
    let mut params = String::new();
    let mut is_first = true;
    let mut j: usize = 0;
    while j < num_inputs
        invariant
            graph.wf(),
            ord_ok(stage, *graph, ord@, samplers@),
            tables_ok(*graph, ord@, cg_names@, indexs@),
            n == ord@.len(),
            ip < n,
            nid == ord@[ip as int],
            nid < graph.nodes@.len(),
            num_inputs == graph.nodes@[nid as int].inputs@.len(),
            info@ == info_at(*graph, nid),
            posws@ == "posWS"@,
            nrmws@ == "nrmWS"@,
            j <= num_inputs,
            params@ == args_upto(stage, *graph, ord@, ip as int, j as int).0,
            is_first == args_upto(stage, *graph, ord@, ip as int, j as int).1,
        decreases num_inputs - j,
    {
        let name = &graph.nodes[nid].inputs[j].name;
        let is_vs_socket = *name == posws || *name == nrmws;
        let keep = match stage {
            Stage::Pixel => !is_vs_socket,
            Stage::Vertex => if ip == n - 1 {
                is_vs_socket
            } else {
                true
            },
        };
        proof {
            assert(keep == keep_input(stage, *graph, ord@, ip as int, j as int));
        }
        if keep {
            if !is_first {
                params.append(", ");
            }
            proof {
                if has_conn(*graph, nid, j as int) {
                    lemma_conn_edge(*graph, nid, j as int);
                    if ip < n - 1 {
                        assert(ord@[ip as int] == nid);
                        assert(ord@.last() == ord@[n - 1]);
                        assert(nid != ord@.last());
                        assert(ord@.contains(producer_at(*graph, nid, j as int)));
                    } else {
                        assert(ip == n - 1);
                        assert(nid == ord@.last());
                        assert(ord@.contains(producer_at(*graph, nid, j as int)));
                    }
                }
            }
            let a = emit_arg(graph, ord, cg_names, indexs, info, nid, j);
            params.append(a.as_str());
            is_first = false;
            proof {
                assert(params@ =~= args_upto(stage, *graph, ord@, ip as int, j as int + 1).0);
            }
        } else {
            proof {
                assert(params@ == args_upto(stage, *graph, ord@, ip as int, j as int + 1).0);
            }
        }
        j = j + 1;
    }
    proof {
        if node_kind_at(*graph, nid) == MyNodeType::CustomTexture2D {
            assert(samplers@[nid as int] is Some);
        }
    }
    adhoc_append(&mut params, stage, graph, samplers, nid);
    let ghost base_params = params@;
    let ghost f1 = is_first;
    proof {
        assert(base_params == args_upto(
            stage,
            *graph,
            ord@,
            ip as int,
            info_at(*graph, nid).input_sockets.len() as int,
        ).0 + adhoc_text(stage, *graph, samplers@, nid));
    }
    let out_len = graph.nodes[nid].output_ids.len();
    proof {
        assert(out_len == info_at(*graph, nid).output_sockets.len());
    }
    let mut k: usize = 1;
    if out_len > 0 {
        while k < out_len
            invariant
                graph.wf(),
                tables_ok(*graph, ord@, cg_names@, indexs@),
                n == ord@.len(),
                ip < n,
                nid == ord@[ip as int],
                out_len == info_at(*graph, nid).output_sockets.len(),
                1 <= k <= out_len,
                params@ == base_params + out_args_upto(*graph, ord@, ip as int, k as int, f1),
                is_first == (f1 && k == 1),
            decreases out_len - k,
        {
            if !is_first {
                params.append(", ");
            }
            params.append(cg_names[ip].as_str());
            params.append("_");
            let kt = usize_to_string(k);
            params.append(kt.as_str());
            is_first = false;
            proof {
                assert(params@ =~= base_params + out_args_upto(
                    *graph,
                    ord@,
                    ip as int,
                    k as int + 1,
                    f1,
                ));
            }
            k = k + 1;
        }
    }
    proof {
        assert(params@ == full_params(stage, *graph, ord@, samplers@, ip as int));
    }
    params
}

/// Appends the declarations of the secondary output variables of the node
/// at position `ip`, ahead of its call line.
fn emit_decls(
    body: &mut String,
    graph: &MyGraph,
    ord: &Vec<usize>,
    cg_names: &Vec<String>,
    info: &NodeTypeInfo,
    ip: usize,
)
    requires
        graph.wf(),
        ip < ord@.len(),
        all_valid(*graph, ord@),
        cg_names@.len() == ord@.len(),
        forall|t: int|
            0 <= t < ord@.len() ==> (#[trigger] cg_names@[t])@ == cg_name(*graph, ord@, t),
        info@ == info_at(*graph, ord@[ip as int]),
    ensures
        final(body)@ == old(body)@ + decl_lines_upto(
            *graph,
            ord@,
            ip as int,
            info_at(*graph, ord@[ip as int]).output_sockets.len() as int,
        ),
{
    let nid = ord[ip];
    proof {
        assert(graph.wf_node(nid as int));
    }
    let out_len = graph.nodes[nid].output_ids.len();
    proof {
        assert(out_len == info_at(*graph, nid).output_sockets.len());
        assert(info.output_sockets@.len() == out_len);
    }
    if out_len == 0 {
        return ;
    }
    let mut k: usize = 1;
    while k < out_len
        invariant
            graph.wf(),
            ip < ord@.len(),
            nid == ord@[ip as int],
            nid < graph.nodes@.len(),
            out_len == info_at(*graph, nid).output_sockets.len(),
            info@ == info_at(*graph, nid),
            info.output_sockets@.len() == out_len,
            cg_names@.len() == ord@.len(),
            forall|t: int|
                0 <= t < ord@.len() ==> (#[trigger] cg_names@[t])@ == cg_name(
                    *graph,
                    ord@,
                    t,
                ),
            1 <= k <= out_len,
            body@ == old(body)@ + decl_lines_upto(*graph, ord@, ip as int, k as int),
        decreases out_len - k,
    {
        let oty = info.output_sockets[k].ty;
        proof {
            assert(info.output_sockets@.map_values(|s: OutputSocketType| s@)[k as int]
                == info_at(*graph, nid).output_sockets[k as int]);
        }
        match oty {
            MyDataType::Scalar => body.append("float "),
            MyDataType::Vec3 => body.append("float3"),
        }
        body.append(" ");
        body.append(cg_names[ip].as_str());
        body.append("_");
        let kt = usize_to_string(k);
        body.append(kt.as_str());
        body.append(";\n");
        proof {
            assert(body@ =~= old(body)@ + decl_lines_upto(
                *graph,
                ord@,
                ip as int,
                k as int + 1,
            ));
        }
        k = k + 1;
    }
}

/// Appends the typed declaration-and-call line of a node with outputs.
#[verifier::rlimit(100)]
fn append_call_line(
    body: &mut String,
    graph: &MyGraph,
    ord: &Vec<usize>,
    cg_names: &Vec<String>,
    info: &NodeTypeInfo,
    ip: usize,
    params: &String,
    stage: Stage,
    samplers: &Vec<Option<usize>>,
)
    requires
        graph.wf(),
        ip < ord@.len(),
        all_valid(*graph, ord@),
        cg_names@.len() == ord@.len(),
        forall|t: int|
            0 <= t < ord@.len() ==> (#[trigger] cg_names@[t])@ == cg_name(*graph, ord@, t),
        info@ == info_at(*graph, ord@[ip as int]),
        info_at(*graph, ord@[ip as int]).output_sockets.len() > 0,
        params@ == full_params(stage, *graph, ord@, samplers@, ip as int),
    ensures
        final(body)@ == old(body)@ + call_line(stage, *graph, ord@, samplers@, ip as int),
{
    let nid = ord[ip];
    proof {
        assert(graph.wf_node(nid as int));
        assert(info.output_sockets@.len() == info_at(*graph, nid).output_sockets.len());
        assert(info.output_sockets@.map_values(|s: OutputSocketType| s@)[0]
            == info_at(*graph, nid).output_sockets[0]);
    }
    let oty0 = info.output_sockets[0].ty;
    match oty0 {
        MyDataType::Scalar => body.append("float "),
        MyDataType::Vec3 => body.append("float3"),
    }
    body.append(" ");
    body.append(cg_names[ip].as_str());
    body.append("_0 = ");
    body.append(graph.nodes[nid].label.as_str());
    body.append("(");
    body.append(params.as_str());
    body.append(");");
    body.append("
");
    proof {
        assert(body@ =~= old(body)@ + call_line(stage, *graph, ord@, samplers@, ip as int));
    }
}

/// Appends the synthesized return statement of the final pixel-stage node.
#[verifier::rlimit(100)]
fn append_ret_conversion(
    body: &mut String,
    graph: &MyGraph,
    ord: &Vec<usize>,
    cg_names: &Vec<String>,
    info: &NodeTypeInfo,
    ip: usize,
)
    requires
        graph.wf(),
        ip < ord@.len(),
        all_valid(*graph, ord@),
        cg_names@.len() == ord@.len(),
        forall|t: int|
            0 <= t < ord@.len() ==> (#[trigger] cg_names@[t])@ == cg_name(*graph, ord@, t),
        info@ == info_at(*graph, ord@[ip as int]),
        info_at(*graph, ord@[ip as int]).output_sockets.len() > 0,
    ensures
        final(body)@ == old(body)@ + ret_conversion(*graph, ord@, ip as int),
{
    let nid = ord[ip];
    proof {
        assert(graph.wf_node(nid as int));
        assert(info.output_sockets@.len() == info_at(*graph, nid).output_sockets.len());
        assert(info.output_sockets@.map_values(|s: OutputSocketType| s@)[0]
            == info_at(*graph, nid).output_sockets[0]);
    }
    let oty0 = info.output_sockets[0].ty;
    match oty0 {
        MyDataType::Scalar => {
            body.append("return float4(");
            body.append(cg_names[ip].as_str());
            body.append("_0, ");
            body.append(cg_names[ip].as_str());
            body.append("_0, ");
            body.append(cg_names[ip].as_str());
            body.append("_0, 1.0);
");
        },
        MyDataType::Vec3 => {
            body.append("return float4(");
            body.append(cg_names[ip].as_str());
            body.append("_0, 1.0);
");
        },
    }
    proof {
        assert(body@ =~= old(body)@ + ret_conversion(*graph, ord@, ip as int));
    }
}

/// Appends the terminal statement of a node without outputs.
#[verifier::rlimit(100)]
fn append_terminal(
    body: &mut String,
    graph: &MyGraph,
    ord: &Vec<usize>,
    ip: usize,
    params: &String,
    stage: Stage,
    samplers: &Vec<Option<usize>>,
)
    requires
        graph.wf(),
        ip < ord@.len(),
        all_valid(*graph, ord@),
        params@ == full_params(stage, *graph, ord@, samplers@, ip as int),
    ensures
        final(body)@ == old(body)@ + terminal_line(stage, *graph, ord@, samplers@, ip as int),
{
    let nid = ord[ip];
    match stage {
        Stage::Pixel => {
            body.append("return ");
            body.append(graph.nodes[nid].label.as_str());
            body.append("(");
            body.append(params.as_str());
            body.append(");");
            body.append("
");
        },
        Stage::Vertex => {
            body.append("SetPosNrm(");
            body.append(params.as_str());
            body.append(", posWS, nrmWS);");
            body.append("
");
        },
    }
    proof {
        assert(body@ =~= old(body)@ + terminal_line(stage, *graph, ord@, samplers@, ip as int));
    }
}

/// Emits everything for the node at position `ip`: declarations, the call
/// (or the terminal statement), and, for the final pixel-stage node with
/// outputs, the synthesized return conversion.
#[verifier::rlimit(100)]
fn emit_node(
    body: &mut String,
    graph: &MyGraph,
    ord: &Vec<usize>,
    samplers: &Vec<Option<usize>>,
    cg_names: &Vec<String>,
    indexs: &Vec<Option<usize>>,
    stage: Stage,
    ip: usize,
)
    requires
        graph.wf(),
        ord_ok(stage, *graph, ord@, samplers@),
        tables_ok(*graph, ord@, cg_names@, indexs@),
        ip < ord@.len(),
    ensures
        final(body)@ == old(body)@ + node_text(stage, *graph, ord@, samplers@, ip as int),
{
    let n = ord.len();
    let nid = ord[ip];
    proof {
        assert(ord@.contains(nid));
        assert(graph.wf_node(nid as int));
    }
    let info = node_type_info(graph.nodes[nid].node_type);
    proof {
        assert(info@ == info_at(*graph, nid));
    }
    emit_decls(body, graph, ord, cg_names, &info, ip);
    let params = emit_params(graph, ord, samplers, cg_names, indexs, &info, stage, ip);
    let out_len = graph.nodes[nid].output_ids.len();
    proof {
        assert(out_len == info_at(*graph, nid).output_sockets.len());
    }
    if out_len > 0 {
        append_call_line(body, graph, ord, cg_names, &info, ip, &params, stage, samplers);
        if stage == Stage::Pixel && ip == n - 1 {
            append_ret_conversion(body, graph, ord, cg_names, &info, ip);
            proof {
                assert(body@ =~= old(body)@ + node_text(
                    stage,
                    *graph,
                    ord@,
                    samplers@,
                    ip as int,
                ));
            }
        } else {
            proof {
                assert(body@ =~= old(body)@ + node_text(
                    stage,
                    *graph,
                    ord@,
                    samplers@,
                    ip as int,
                ));
            }
        }
    } else {
        append_terminal(body, graph, ord, ip, &params, stage, samplers);
        proof {
            assert(decl_lines_upto(*graph, ord@, ip as int, 0) == Seq::<char>::empty());
            assert(body@ =~= old(body)@ + node_text(
                stage,
                *graph,
                ord@,
                samplers@,
                ip as int,
            ));
        }
    }
}

/// Emits a full stage body by walking the order.
fn emit_body(
    graph: &MyGraph,
    ord: &Vec<usize>,
    samplers: &Vec<Option<usize>>,
    stage: Stage,
) -> (r: String)
    requires
        graph.wf(),
        ord_ok(stage, *graph, ord@, samplers@),
    ensures
        r@ == body_upto(stage, *graph, ord@, samplers@, ord@.len() as int),
{
    let n = ord.len();
    let nodes_len = graph.nodes.len();
    let mut cg_names: Vec<String> = Vec::new();
    let mut indexs: Vec<Option<usize>> = Vec::new();
    let mut z: usize = 0;
    while z < nodes_len
        invariant
            indexs@.len() == z,
            z <= nodes_len,
        decreases nodes_len - z,
    {
        indexs.push(None);
        z = z + 1;
    }
    let mut i: usize = 0;
    while i < n
        invariant
            graph.wf(),
            n == ord@.len(),
            all_valid(*graph, ord@),
            ord@.no_duplicates(),
            i <= n,
            cg_names@.len() == i,
            forall|t: int|
                0 <= t < i ==> (#[trigger] cg_names@[t])@ == cg_name(*graph, ord@, t),
            indexs@.len() == graph.nodes@.len(),
            forall|t: usize|
                t < i ==> indexs@[#[trigger] ord@[t as int] as int] == Some(t),
        decreases n - i,
    {
        let nid = ord[i];
        let mut nm = String::from_str("_");
        let it = usize_to_string(i);
        nm.append(it.as_str());
        nm.append("_");
        nm.append(graph.nodes[nid].label.as_str());
        proof {
            assert(nm@ =~= cg_name(*graph, ord@, i as int));
        }
        cg_names.push(nm);
        vec_update(&mut indexs, nid, Some(i));
        proof {
            assert forall|t: usize|
                t < i + 1 implies indexs@[#[trigger] ord@[t as int] as int] == Some(t) by {
                if t < i {
                    assert(ord@[t as int] != ord@[i as int]);
                }
            }
        }
        i = i + 1;
    }
    let mut body = String::new();
    let mut ip: usize = 0;
    while ip < n
        invariant
            graph.wf(),
            ord_ok(stage, *graph, ord@, samplers@),
            tables_ok(*graph, ord@, cg_names@, indexs@),
            n == ord@.len(),
            ip <= n,
            body@ == body_upto(stage, *graph, ord@, samplers@, ip as int),
        decreases n - ip,
    {
        emit_node(&mut body, graph, ord, samplers, &cg_names, &indexs, stage, ip);
        ip = ip + 1;
    }
    body
}


/// After folding the first `n` nodes, every custom-texture node among them
/// has a sampler index, namely its position in the order.
pub proof fn lemma_samplers_assigned(g: MyGraph, ord: Seq<usize>, n: int, nodes_len: nat)
    requires
        0 <= n <= ord.len(),
        ord.no_duplicates(),
        forall|i: int| 0 <= i < ord.len() ==> (#[trigger] ord[i]) < nodes_len,
    ensures
        ({
            let r = samplers_upto(g, ord, n, nodes_len);
            &&& r.len() == nodes_len
            &&& (forall|t: int|
                0 <= t < n && node_kind_at(g, #[trigger] ord[t])
                    == MyNodeType::CustomTexture2D ==> r[ord[t] as int] == Some(
                    t as usize,
                ))
        }),
    decreases n,
{
    if n > 0 {
        lemma_samplers_assigned(g, ord, n - 1, nodes_len);
        let r = samplers_upto(g, ord, n, nodes_len);
        let prev = samplers_upto(g, ord, n - 1, nodes_len);
        assert forall|t: int|
            0 <= t < n && node_kind_at(g, #[trigger] ord[t]) == MyNodeType::CustomTexture2D
            implies r[ord[t] as int] == Some(t as usize) by {
            if t < n - 1 {
                assert(ord[t] != ord[n - 1]);
            }
        }
    }
}

/// The pixel-shader pass: emits the pixel body over the pixel-stage order,
/// referencing the sampler indices assigned by the sampler pass.
pub fn code_gen_pixel_shader(
    graph: &MyGraph,
    node_id: usize,
    samplers: &Vec<Option<usize>>,
) -> (r: String)
    requires
        graph.wf(),
        is_acyclic(*graph),
        node_id < graph.nodes@.len(),
        samplers@.len() == graph.nodes@.len(),
        forall|x: usize|
            reaches(*graph, node_id, x) && node_kind_at(*graph, x)
                == MyNodeType::CustomTexture2D ==> samplers@[x as int] is Some,
    ensures
        r@ == spec_ps_text(*graph, node_id, samplers@),
{
    let mut topological_order: Vec<usize> = Vec::new();
    postorder_traversal_pixel_shader(graph, node_id, &mut topological_order);
    proof {
        assert(topological_order@ == spec_px_order(*graph, node_id));
        lemma_role_order_props(*graph, node_id, false);
        let ord = topological_order@;
        assert(ord.last() == node_id);
        assert forall|j: int|
            0 <= j < graph.nodes@[ord.last() as int].inputs@.len() && keep_input(
                Stage::Pixel,
                *graph,
                ord,
                ord.len() - 1,
                j,
            ) && #[trigger] has_conn(*graph, ord.last(), j) implies ord.contains(
            producer_at(*graph, ord.last(), j),
        ) by {
            assert(ord[ord.len() - 1] == node_id);
            assert(is_vertex_socket(graph.nodes@[node_id as int].inputs@[j].name@) == false);
        }
        assert forall|x: usize|
            ord.contains(x) && node_kind_at(*graph, x) == MyNodeType::CustomTexture2D
            implies samplers@[x as int] is Some by {
            assert(reaches(*graph, node_id, x));
        }
        assert(ord_ok(Stage::Pixel, *graph, ord, samplers@));
    }
    emit_body(graph, &topological_order, samplers, Stage::Pixel)
}

/// The vertex-shader pass: nothing unless the root is a main node;
/// otherwise the vertex body over the vertex-stage order, sharing the
/// sampler assignment of the sampler pass.
pub fn code_gen_vertex_shader(
    graph: &MyGraph,
    node_id: usize,
    samplers: &Vec<Option<usize>>,
) -> (r: String)
    requires
        graph.wf(),
        is_acyclic(*graph),
        node_id < graph.nodes@.len(),
        samplers@.len() == graph.nodes@.len(),
        forall|x: usize|
            reaches(*graph, node_id, x) && node_kind_at(*graph, x)
                == MyNodeType::CustomTexture2D ==> samplers@[x as int] is Some,
    ensures
        r@ == spec_vs_text(*graph, node_id, samplers@),
{
    let mainstr = String::from_str("Main");
    let is_main = graph.nodes[node_id].label == mainstr;
    proof {
        assert(graph.wf_node(node_id as int));
        lemma_main_label_unique(graph.nodes@[node_id as int].node_type);
        assert(is_main == (node_kind_at(*graph, node_id) == MyNodeType::Main));
    }
    if !is_main {
        let r = String::new();
        proof {
            assert(r@ =~= spec_vs_text(*graph, node_id, samplers@));
        }
        return r;
    }
    let mut topological_order: Vec<usize> = Vec::new();
    postorder_traversal_vertex_shader(graph, node_id, &mut topological_order);
    proof {
        assert(topological_order@ == spec_vs_order(*graph, node_id));
        lemma_role_order_props(*graph, node_id, true);
        let ord = topological_order@;
        assert(ord.last() == node_id);
        assert forall|j: int|
            0 <= j < graph.nodes@[ord.last() as int].inputs@.len() && keep_input(
                Stage::Vertex,
                *graph,
                ord,
                ord.len() - 1,
                j,
            ) && #[trigger] has_conn(*graph, ord.last(), j) implies ord.contains(
            producer_at(*graph, ord.last(), j),
        ) by {
            assert(ord[ord.len() - 1] == node_id);
            assert(is_vertex_socket(graph.nodes@[node_id as int].inputs@[j].name@) == true);
        }
        assert forall|x: usize|
            ord.contains(x) && node_kind_at(*graph, x) == MyNodeType::CustomTexture2D
            implies samplers@[x as int] is Some by {
            assert(reaches(*graph, node_id, x));
        }
        assert(ord_ok(Stage::Vertex, *graph, ord, samplers@));
    }
    emit_body(graph, &topological_order, samplers, Stage::Vertex)
}

/// One full generation run: the sampler pass assigns sampler indices and
/// emits the sampler section; the vertex and pixel passes then emit their
/// bodies against that same assignment. The result is a pure function of
/// the graph, the chosen root and the auxiliary data.
pub fn code_gen(
    graph: &MyGraph,
    node_id: usize,
    node_custom_data: &Vec<Option<String>>,
) -> (r: GenCode)
    requires
        graph.wf(),
        is_acyclic(*graph),
        node_id < graph.nodes@.len(),
    ensures
        r.sampler_code@ == spec_sampler_text(*graph, node_id, node_custom_data@),
        r.vs_code@ == spec_vs_text(*graph, node_id, spec_samplers(*graph, node_id)),
        r.ps_code@ == spec_ps_text(*graph, node_id, spec_samplers(*graph, node_id)),
{
    let nodes_len = graph.nodes.len();
    let mut samplers: Vec<Option<usize>> = Vec::new();
    let mut z: usize = 0;
    while z < nodes_len
        invariant
            samplers@.len() == z,
            z <= nodes_len,
            forall|x: int| 0 <= x < z ==> samplers@[x] is None,
        decreases nodes_len - z,
    {
        samplers.push(None);
        z = z + 1;
    }
    proof {
        assert(samplers@ =~= Seq::new(graph.nodes@.len(), |x: int| None::<usize>));
    }
    let sampler_code = code_gen_sampler(graph, node_id, node_custom_data, &mut samplers);
    proof {
        crate::order::lemma_prefix_closed_empty(*graph);
        lemma_post_node_props(*graph, node_id, Seq::empty());
        let ord = spec_order(*graph, node_id);
        lemma_samplers_assigned(*graph, ord, ord.len() as int, graph.nodes@.len());
        assert forall|x: usize|
            reaches(*graph, node_id, x) && node_kind_at(*graph, x)
                == MyNodeType::CustomTexture2D implies spec_samplers(*graph, node_id)[x as int]
            is Some by {
            assert(ord.contains(node_id));
            lemma_closed_complete(*graph, ord, node_id, x);
            let t = choose|t: int| 0 <= t < ord.len() && ord[t] == x;
            assert(ord[t] == x && node_kind_at(*graph, ord[t]) == MyNodeType::CustomTexture2D);
            assert(spec_samplers(*graph, node_id)[ord[t] as int] is Some);
        }
        assert(spec_samplers(*graph, node_id).len() == graph.nodes@.len());
    }
    let vs_code = code_gen_vertex_shader(graph, node_id, &samplers);
    let ps_code = code_gen_pixel_shader(graph, node_id, &samplers);
    GenCode { vs_code, ps_code, sampler_code }
}

} // verus!
