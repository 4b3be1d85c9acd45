use mme_shader_graph::codegen::code_gen;
use mme_shader_graph::graph::MyGraph;
use mme_shader_graph::types::{MyNodeType, MyValueType};

fn no_aux() -> Vec<Option<String>> {
    Vec::new()
}

/// MakeScalar(2) feeding Add(v1, 3), with Add as the active node.
fn scalar_chain() -> MyGraph {
    let mut g = MyGraph::new();
    let ms = MyNodeType::MakeScalar.build_node(&mut g);
    let add = MyNodeType::Add.build_node(&mut g);
    g.nodes[ms].inputs[0].value = MyValueType::scalar("2".to_string());
    g.nodes[add].inputs[1].value = MyValueType::scalar("3".to_string());
    g.add_connection(add, 0, ms, 0);
    g
}

#[test]
fn scalar_chain_pixel_body() {
    let g = scalar_chain();
    let code = code_gen(&g, 1, &no_aux());
    let expected = "float  _0_MakeScalar_0 = MakeScalar(2);\n\
                    float  _1_Add_0 = Add(_0_MakeScalar_0, 3);\n\
                    return float4(_1_Add_0, _1_Add_0, _1_Add_0, 1.0);\n";
    assert_eq!(code.ps_code, expected);
    assert_eq!(code.vs_code, "");
    assert_eq!(code.sampler_code, "");
}

#[test]
fn generation_is_idempotent() {
    let g = scalar_chain();
    let first = code_gen(&g, 1, &no_aux());
    let second = code_gen(&g, 1, &no_aux());
    assert_eq!(first.ps_code, second.ps_code);
    assert_eq!(first.vs_code, second.vs_code);
    assert_eq!(first.sampler_code, second.sampler_code);
}

#[test]
fn texture_sample_uses_builtin_uv() {
    let mut g = MyGraph::new();
    let tex = MyNodeType::MainTexure2D.build_node(&mut g);
    let code = code_gen(&g, tex, &no_aux());
    let expected = "float  _0_MainTexure2D_1;\n\
                    float3 _0_MainTexure2D_0 = MainTexure2D(vso.uv, _0_MainTexure2D_1);\n\
                    return float4(_0_MainTexure2D_0, 1.0);\n";
    assert_eq!(code.ps_code, expected);
    assert!(code.ps_code.contains("MainTexure2D(vso.uv"));
}

#[test]
fn removed_connection_falls_back_to_literal() {
    let mut g = scalar_chain();
    let wired = code_gen(&g, 1, &no_aux());
    assert!(wired.ps_code.contains("Add(_0_MakeScalar_0, 3)"));
    g.remove_connection(1, 0);
    let unwired = code_gen(&g, 1, &no_aux());
    assert!(unwired.ps_code.contains("Add(0, 3)"));
    assert!(!unwired.ps_code.contains("_0_MakeScalar_0"));
    let expected = "float  _0_Add_0 = Add(0, 3);\n\
                    return float4(_0_Add_0, _0_Add_0, _0_Add_0, 1.0);\n";
    assert_eq!(unwired.ps_code, expected);
}

#[test]
fn custom_texture_sampler_and_main() {
    let mut g = MyGraph::new();
    let tex = MyNodeType::CustomTexture2D.build_node(&mut g);
    let main = MyNodeType::Main.build_node(&mut g);
    g.add_connection(main, 0, tex, 0);
    let mut aux: Vec<Option<String>> = vec![None, None];
    aux[tex] = Some("C:\\tex\\a.png".to_string());
    let code = code_gen(&g, main, &aux);
    let expected_sampler = "\n                texture _0_tex < string ResourceName = \"C:\\\\tex\\\\a.png\"; >;\n                sampler _0_sampler = sampler_state {\n                    texture = <_0_tex>;\n                };\n                #define ENABLE_DRAW_EDGE_PASS\n";
    assert_eq!(code.sampler_code, expected_sampler);
    let expected_ps = "float  _0_CustomTexture2D_1;\n\
                       float  _0_CustomTexture2D_2;\n\
                       float  _0_CustomTexture2D_3;\n\
                       float  _0_CustomTexture2D_4;\n\
                       float3 _0_CustomTexture2D_0 = CustomTexture2D(vso.uv, _0_sampler, _0_CustomTexture2D_1, _0_CustomTexture2D_2, _0_CustomTexture2D_3, _0_CustomTexture2D_4);\n\
                       return Main(_0_CustomTexture2D_0, MatAlpha());\n";
    assert_eq!(code.ps_code, expected_ps);
    assert_eq!(code.vs_code, "SetPosNrm(pos.xyz, normal, posWS, nrmWS);\n");
    // the sampler pass and the pixel pass spell the same index
    assert!(code.sampler_code.contains("_0_sampler"));
    assert!(code.ps_code.contains("_0_sampler"));
}

#[test]
fn draw_edge_flag_off_omits_define() {
    let mut g = MyGraph::new();
    let main = MyNodeType::Main.build_node(&mut g);
    let aux = vec![Some("false".to_string())];
    let code = code_gen(&g, main, &aux);
    assert_eq!(code.sampler_code, "");
    let on = code_gen(&g, main, &no_aux());
    assert_eq!(on.sampler_code, "#define ENABLE_DRAW_EDGE_PASS\n");
    let garbled = code_gen(&g, main, &vec![Some("maybe".to_string())]);
    assert_eq!(garbled.sampler_code, "#define ENABLE_DRAW_EDGE_PASS\n");
}

#[test]
fn vertex_stage_follows_wired_position_socket() {
    let mut g = MyGraph::new();
    let vsp = MyNodeType::VSPosWS.build_node(&mut g);
    let main = MyNodeType::Main.build_node(&mut g);
    g.add_connection(main, 2, vsp, 0);
    let code = code_gen(&g, main, &no_aux());
    let expected_vs = "float3 _0_VSPosWS_0 = VSPosWS(pos);\n\
                       SetPosNrm(_0_VSPosWS_0, normal, posWS, nrmWS);\n";
    assert_eq!(code.vs_code, expected_vs);
    // the pixel pass ignores the vertex-role socket, so the producer is absent
    assert_eq!(code.ps_code, "return Main(float3(0, 0, 0), MatAlpha());\n");
}

#[test]
fn fresnel_appends_implicit_arguments() {
    let mut g = MyGraph::new();
    let f = MyNodeType::Fresnel.build_node(&mut g);
    let code = code_gen(&g, f, &no_aux());
    let expected = "float  _0_Fresnel_0 = Fresnel(1, vso.posWS, vso.nrm);\n\
                    return float4(_0_Fresnel_0, _0_Fresnel_0, _0_Fresnel_0, 1.0);\n";
    assert_eq!(code.ps_code, expected);
}

#[test]
fn source_node_without_inputs_gets_builtin_argument() {
    let mut g = MyGraph::new();
    let n = MyNodeType::NrmWS.build_node(&mut g);
    let code = code_gen(&g, n, &no_aux());
    let expected = "float3 _0_NrmWS_0 = NrmWS(vso.nrm);\n\
                    return float4(_0_NrmWS_0, 1.0);\n";
    assert_eq!(code.ps_code, expected);
}

#[test]
fn component_mask_emits_two_out_parameters() {
    let mut g = MyGraph::new();
    let n = MyNodeType::ComponentMask.build_node(&mut g);
    let code = code_gen(&g, n, &no_aux());
    let expected = "float  _0_ComponentMask_1;\n\
                    float  _0_ComponentMask_2;\n\
                    float  _0_ComponentMask_0 = ComponentMask(float3(0, 0, 0), _0_ComponentMask_1, _0_ComponentMask_2);\n\
                    return float4(_0_ComponentMask_0, _0_ComponentMask_0, _0_ComponentMask_0, 1.0);\n";
    assert_eq!(code.ps_code, expected);
}

#[test]
fn vector_literal_argument_is_formatted() {
    let mut g = MyGraph::new();
    let n = MyNodeType::Normalize.build_node(&mut g);
    g.nodes[n].inputs[0].value = MyValueType::vector(
        "1".to_string(),
        "0.5".to_string(),
        "0".to_string(),
    );
    let code = code_gen(&g, n, &no_aux());
    assert!(code.ps_code.contains("Normalize(float3(1, 0.5, 0))"));
}
