use mme_shader_graph::assemble::assemble;
use mme_shader_graph::graph::MyGraph;
use mme_shader_graph::order::order;
use mme_shader_graph::registry::{all_node_types, node_type_info};
use mme_shader_graph::text::{escape_backslashes, usize_to_string};
use mme_shader_graph::types::{GenCode, MyDataType, MyGraphState, MyNodeType, MyValueType};

#[test]
fn registry_is_total_over_all_kinds() {
    let kinds = all_node_types();
    assert_eq!(kinds.len(), 58);
    for kind in kinds {
        let info = node_type_info(kind);
        assert!(!info.label.is_empty());
        assert!(!info.categories.is_empty());
        // every input socket carries a usable default resolution
        for sock in &info.input_sockets {
            match &sock.default {
                Ok(v) => match v {
                    MyValueType::Scalar { value } => assert!(value.is_some()),
                    MyValueType::Vec3 { value } => assert!(value.is_some()),
                },
                Err(expr) => assert!(!expr.is_empty()),
            }
        }
    }
}

#[test]
fn registry_lookup_is_stable() {
    let a = node_type_info(MyNodeType::Add);
    let b = node_type_info(MyNodeType::Add);
    assert_eq!(a.label, b.label);
    assert_eq!(a.input_sockets.len(), b.input_sockets.len());
    for (x, y) in a.input_sockets.iter().zip(b.input_sockets.iter()) {
        assert_eq!(x.name, y.name);
    }
}

#[test]
fn add_entry_matches_declaration() {
    let info = node_type_info(MyNodeType::Add);
    assert_eq!(info.label, "Add");
    assert_eq!(info.input_sockets.len(), 2);
    assert_eq!(info.input_sockets[0].name, "v1");
    assert_eq!(info.input_sockets[1].name, "v2");
    assert!(matches!(info.input_sockets[0].ty, MyDataType::Scalar));
    assert_eq!(info.output_sockets.len(), 1);
    assert_eq!(info.output_sockets[0].name, "out");
}

#[test]
fn built_node_follows_registry_layout() {
    let mut g = MyGraph::new();
    let nid = MyNodeType::Main.build_node(&mut g);
    let node = &g.nodes[nid];
    assert_eq!(node.label, "Main");
    assert_eq!(node.inputs.len(), 4);
    assert_eq!(node.inputs[0].name, "color");
    assert_eq!(node.inputs[1].name, "alpha");
    assert_eq!(node.inputs[2].name, "posWS");
    assert_eq!(node.inputs[3].name, "nrmWS");
    for inp in &node.inputs {
        assert!(inp.connection.is_none());
    }
    assert_eq!(node.output_ids.len(), 0);
}

#[test]
fn order_visits_shared_dependency_once_and_root_last() {
    let mut g = MyGraph::new();
    let ms = MyNodeType::MakeScalar.build_node(&mut g);
    let a1 = MyNodeType::Add.build_node(&mut g);
    let a2 = MyNodeType::Add.build_node(&mut g);
    let top = MyNodeType::Add.build_node(&mut g);
    g.add_connection(a1, 0, ms, 0);
    g.add_connection(a2, 0, ms, 0);
    g.add_connection(top, 0, a1, 0);
    g.add_connection(top, 1, a2, 0);
    let o = order(&g, top);
    assert_eq!(o, vec![ms, a1, a2, top]);
}

#[test]
fn order_excludes_unreachable_nodes() {
    let mut g = MyGraph::new();
    let ms = MyNodeType::MakeScalar.build_node(&mut g);
    let add = MyNodeType::Add.build_node(&mut g);
    let stray = MyNodeType::Sin.build_node(&mut g);
    g.add_connection(add, 0, ms, 0);
    let o = order(&g, add);
    assert_eq!(o, vec![ms, add]);
    assert!(!o.contains(&stray));
}

#[test]
fn assemble_concatenates_in_slot_order() {
    let full = assemble("H0|", "S|", "H1|", "V|", "H2|", "P|", "H3");
    assert_eq!(full, "H0|S|H1|V|H2|P|H3");
}

#[test]
fn index_rendering_is_decimal() {
    assert_eq!(usize_to_string(0), "0");
    assert_eq!(usize_to_string(7), "7");
    assert_eq!(usize_to_string(12345), "12345");
}

#[test]
fn backslashes_are_doubled() {
    assert_eq!(escape_backslashes("C:\\a\\b.png"), "C:\\\\a\\\\b.png");
    assert_eq!(escape_backslashes("plain"), "plain");
    assert_eq!(escape_backslashes(""), "");
}

#[test]
fn default_values_are_zero_texts() {
    match MyValueType::default_scalar() {
        MyValueType::Scalar { value } => assert_eq!(value.as_deref(), Some("0")),
        _ => panic!("expected a scalar"),
    }
    match MyValueType::default_vector() {
        MyValueType::Vec3 { value } => {
            let (x, y, z) = value.unwrap();
            assert_eq!((x.as_str(), y.as_str(), z.as_str()), ("0", "0", "0"));
        },
        _ => panic!("expected a vector"),
    }
}

#[test]
fn get_default_value_prefers_literal() {
    let info = node_type_info(MyNodeType::Sub);
    match info.input_sockets[0].get_default_value() {
        MyValueType::Scalar { value } => assert_eq!(value.as_deref(), Some("1")),
        _ => panic!("expected a scalar"),
    }
    let tex = node_type_info(MyNodeType::MainTexure2D);
    match tex.input_sockets[0].get_default_value() {
        MyValueType::Vec3 { value } => assert!(value.is_none()),
        _ => panic!("expected a vector slot"),
    }
}

#[test]
fn fresh_state_is_empty() {
    let state = MyGraphState::default();
    assert!(state.active_node.is_none());
    assert!(state.node_custom_data.is_empty());
    let code = GenCode::default();
    assert_eq!(code.vs_code, "");
    assert_eq!(code.ps_code, "");
    assert_eq!(code.sampler_code, "");
}

#[test]
fn data_type_names() {
    assert_eq!(MyDataType::Scalar.name(), "scalar");
    assert_eq!(MyDataType::Vec3.name(), "3d vector");
}

#[test]
fn template_accessors_read_the_registry() {
    assert_eq!(MyNodeType::DotProduct.node_finder_label(), "DotProduct");
    assert_eq!(MyNodeType::DotProduct.node_graph_label(), "DotProduct");
    assert_eq!(
        MyNodeType::DotProduct.node_finder_categories(),
        vec!["VectorOperations".to_string()]
    );
    assert!(matches!(MyNodeType::Lerp.node_type(), MyNodeType::Lerp));
}
