use std::collections::HashMap;

use engine::pbr::codegen::{NodeKindText, NodeText};
use engine::pbr::graph::{CycleError, Edge, EdgeId, NodeId, ShaderGraphTopology, ShaderNodeType};

/// A shader graph as its users hold it: the library's topology, and the node
/// kinds by id, with float constants given as their `Display` text.
struct ShaderGraph {
    topology: ShaderGraphTopology,
    nodes: HashMap<NodeId, NodeText>,
}

impl ShaderGraph {
    fn new() -> Self {
        ShaderGraph { topology: ShaderGraphTopology::new(), nodes: HashMap::new() }
    }

    fn name(&self) -> &str {
        self.topology.name()
    }

    fn nodes(&self) -> &HashMap<NodeId, NodeText> {
        &self.nodes
    }

    fn edges(&self) -> HashMap<EdgeId, Edge> {
        self.topology.edge_list().into_iter().map(|e| (e.id, e)).collect()
    }

    fn add_node(&mut self, kind: NodeKindText) -> NodeId {
        let id = self.topology.add_node();
        let debug = format!("{:?}", kind);
        self.nodes.insert(id, NodeText { kind, debug });
        id
    }

    fn remove_node(&mut self, id: NodeId) {
        self.nodes.remove(&id);
        self.topology.remove_node(id);
    }

    fn add_edge(&mut self, from: NodeId, to: NodeId, from_slot: u32, to_slot: u32) -> EdgeId {
        self.topology.add_edge(from, to, from_slot, to_slot)
    }

    fn remove_edge(&mut self, id: EdgeId) {
        self.topology.remove_edge(id);
    }

    fn topological_order(&self) -> Result<Vec<NodeId>, CycleError> {
        self.topology.topological_order()
    }

    fn validate(&self) -> Result<(), CycleError> {
        self.topology.validate()
    }

    fn texts(&self) -> HashMap<u32, NodeText> {
        self.nodes.iter().map(|(id, n)| (id.0, n.clone())).collect()
    }

    fn generate_glsl(&self) -> Result<String, CycleError> {
        self.topology.generate_glsl(&self.texts())
    }

    fn generate_wgsl(&self) -> Result<String, CycleError> {
        self.topology.generate_wgsl(&self.texts())
    }
}

fn f(v: f32) -> String {
    format!("{}", v)
}

#[test]
fn test_graph_new() {
    let graph = ShaderGraph::new();
    assert_eq!(graph.name(), "");
    assert!(graph.nodes().is_empty());
    assert!(graph.edges().is_empty());
}

#[test]
fn test_graph_add_node() {
    let mut graph = ShaderGraph::new();
    let id = graph.add_node(NodeKindText::ConstantFloat(f(1.0)));
    assert!(graph.nodes().contains_key(&id));
}

#[test]
fn test_graph_remove_node() {
    let mut graph = ShaderGraph::new();
    let id = graph.add_node(NodeKindText::ConstantFloat(f(1.0)));
    graph.remove_node(id);
    assert!(!graph.nodes().contains_key(&id));
}

#[test]
fn test_graph_add_edge() {
    let mut graph = ShaderGraph::new();
    let a = graph.add_node(NodeKindText::ConstantFloat(f(1.0)));
    let b = graph.add_node(NodeKindText::Add);
    let edge_id = graph.add_edge(a, b, 0, 0);
    assert!(graph.edges().contains_key(&edge_id));
}

#[test]
fn test_graph_remove_edge() {
    let mut graph = ShaderGraph::new();
    let a = graph.add_node(NodeKindText::ConstantFloat(f(1.0)));
    let b = graph.add_node(NodeKindText::Add);
    let edge_id = graph.add_edge(a, b, 0, 0);
    graph.remove_edge(edge_id);
    assert!(!graph.edges().contains_key(&edge_id));
}

#[test]
fn test_graph_topological_order_simple() {
    let mut graph = ShaderGraph::new();
    let a = graph.add_node(NodeKindText::ConstantFloat(f(1.0)));
    let b = graph.add_node(NodeKindText::ConstantFloat(f(2.0)));
    let c = graph.add_node(NodeKindText::Add);
    graph.add_edge(a, c, 0, 0);
    graph.add_edge(b, c, 0, 1);

    let order = graph.topological_order().unwrap();
    // a and b should come before c
    let a_pos = order.iter().position(|&id| id == a).unwrap();
    let b_pos = order.iter().position(|&id| id == b).unwrap();
    let c_pos = order.iter().position(|&id| id == c).unwrap();
    assert!(a_pos < c_pos);
    assert!(b_pos < c_pos);
}

#[test]
fn test_graph_cycle_detection() {
    let mut graph = ShaderGraph::new();
    let a = graph.add_node(NodeKindText::Add);
    let b = graph.add_node(NodeKindText::Add);
    graph.add_edge(a, b, 0, 0);
    graph.add_edge(b, a, 0, 0); // Creates cycle

    let result = graph.topological_order();
    assert!(result.is_err());
}

#[test]
fn test_graph_generate_wgsl() {
    let mut graph = ShaderGraph::new();
    graph.add_node(NodeKindText::ConstantFloat(f(1.0)));
    graph.add_node(NodeKindText::Time);

    let code = graph.generate_wgsl().unwrap();
    assert!(code.contains("f32"));
}

#[test]
fn test_graph_generate_glsl() {
    let mut graph = ShaderGraph::new();
    graph.add_node(NodeKindText::ConstantFloat(f(1.0)));
    graph.add_node(NodeKindText::Time);

    let code = graph.generate_glsl().unwrap();
    assert!(code.contains("#version 330"));
    assert!(code.contains("float"));
}

#[test]
fn test_graph_generate_glsl_vec3() {
    let mut graph = ShaderGraph::new();
    graph.add_node(NodeKindText::ConstantVec3(f(1.0), f(0.5), f(0.2)));

    let code = graph.generate_glsl().unwrap();
    assert!(code.contains("vec3"));
    assert!(code.contains("1.0"));
}

#[test]
fn test_graph_generate_glsl_vec4() {
    let mut graph = ShaderGraph::new();
    graph.add_node(NodeKindText::ConstantVec4(f(1.0), f(0.5), f(0.2), f(0.8)));

    let code = graph.generate_glsl().unwrap();
    assert!(code.contains("vec4"));
}

#[test]
fn test_graph_generate_glsl_color() {
    let mut graph = ShaderGraph::new();
    graph.add_node(NodeKindText::ConstantColor(f(1.0), f(0.0), f(0.0), f(1.0)));

    let code = graph.generate_glsl().unwrap();
    assert!(code.contains("vec4"));
}

#[test]
fn test_graph_generate_glsl_bool() {
    let mut graph = ShaderGraph::new();
    graph.add_node(NodeKindText::ConstantBool(true));

    let code = graph.generate_glsl().unwrap();
    assert!(code.contains("bool"));
}

#[test]
fn test_graph_generate_glsl_add() {
    let mut graph = ShaderGraph::new();
    let a = graph.add_node(NodeKindText::ConstantFloat(f(1.0)));
    let b = graph.add_node(NodeKindText::ConstantFloat(f(2.0)));
    let c = graph.add_node(NodeKindText::Add);
    graph.add_edge(a, c, 0, 0);
    graph.add_edge(b, c, 0, 1);

    let code = graph.generate_glsl().unwrap();
    assert!(code.contains("+"));
}

#[test]
fn test_graph_generate_glsl_sub() {
    let mut graph = ShaderGraph::new();
    graph.add_node(NodeKindText::Sub);

    let code = graph.generate_glsl().unwrap();
    assert!(code.contains("-"));
}

#[test]
fn test_graph_generate_glsl_mul() {
    let mut graph = ShaderGraph::new();
    graph.add_node(NodeKindText::Mul);

    let code = graph.generate_glsl().unwrap();
    assert!(code.contains("*"));
}

#[test]
fn test_graph_generate_glsl_div() {
    let mut graph = ShaderGraph::new();
    graph.add_node(NodeKindText::Div);

    let code = graph.generate_glsl().unwrap();
    assert!(code.contains("/"));
}

#[test]
fn test_graph_generate_glsl_math_functions() {
    let mut graph = ShaderGraph::new();
    graph.add_node(NodeKindText::Sin);
    graph.add_node(NodeKindText::Cos);
    graph.add_node(NodeKindText::Abs);
    graph.add_node(NodeKindText::Sqrt);

    let code = graph.generate_glsl().unwrap();
    assert!(code.contains("sin("));
    assert!(code.contains("cos("));
    assert!(code.contains("abs("));
    assert!(code.contains("sqrt("));
}

#[test]
fn test_graph_generate_glsl_normalize_length() {
    let mut graph = ShaderGraph::new();
    graph.add_node(NodeKindText::Normalize);
    graph.add_node(NodeKindText::Length);

    let code = graph.generate_glsl().unwrap();
    assert!(code.contains("normalize("));
    assert!(code.contains("length("));
}

#[test]
fn test_graph_generate_glsl_dot_cross() {
    let mut graph = ShaderGraph::new();
    graph.add_node(NodeKindText::Dot);
    graph.add_node(NodeKindText::Cross);

    let code = graph.generate_glsl().unwrap();
    assert!(code.contains("dot("));
    assert!(code.contains("cross("));
}

#[test]
fn test_graph_generate_glsl_texture_sample() {
    let mut graph = ShaderGraph::new();
    graph.add_node(NodeKindText::TextureSample {
        name: "albedo_tex".to_string(),
    });

    let code = graph.generate_glsl().unwrap();
    assert!(code.contains("texture("));
    assert!(code.contains("albedo_tex"));
}

#[test]
fn test_graph_generate_glsl_vertex_data() {
    let mut graph = ShaderGraph::new();
    graph.add_node(NodeKindText::VertexPosition);
    graph.add_node(NodeKindText::VertexNormal);
    graph.add_node(NodeKindText::VertexUV0);
    graph.add_node(NodeKindText::VertexColor);

    let code = graph.generate_glsl().unwrap();
    assert!(code.contains("in_position"));
    assert!(code.contains("in_normal"));
    assert!(code.contains("in_uv0"));
    assert!(code.contains("in_color"));
}

#[test]
fn test_graph_generate_glsl_fragment_data() {
    let mut graph = ShaderGraph::new();
    graph.add_node(NodeKindText::FragmentNormalWS);
    graph.add_node(NodeKindText::FragmentViewDirWS);
    graph.add_node(NodeKindText::FragmentLightDirWS);

    let code = graph.generate_glsl().unwrap();
    assert!(code.contains("normal_ws"));
    assert!(code.contains("view_dir_ws"));
    assert!(code.contains("light_dir_ws"));
}

#[test]
fn test_graph_generate_glsl_time_nodes() {
    let mut graph = ShaderGraph::new();
    graph.add_node(NodeKindText::Time);
    graph.add_node(NodeKindText::SinTime);
    graph.add_node(NodeKindText::CosTime);

    let code = graph.generate_glsl().unwrap();
    assert!(code.contains("time_uniform"));
    assert!(code.contains("sin("));
    assert!(code.contains("cos("));
}

#[test]
fn test_graph_generate_glsl_normal_map() {
    let mut graph = ShaderGraph::new();
    graph.add_node(NodeKindText::NormalMap { strength: f(1.5) });

    let code = graph.generate_glsl().unwrap();
    assert!(code.contains("normalMap"));
    assert!(code.contains("1.5"));
}

#[test]
fn test_graph_generate_glsl_pbr_master() {
    let mut graph = ShaderGraph::new();
    graph.add_node(NodeKindText::PbrMaster);

    let code = graph.generate_glsl().unwrap();
    assert!(code.contains("PBR Master"));
}

#[test]
fn test_graph_generate_glsl_custom() {
    let mut graph = ShaderGraph::new();
    graph.add_node(NodeKindText::Custom {
        name: "my_func".to_string(),
        code: "float my_func() { return 1.0; }".to_string(),
    });

    let code = graph.generate_glsl().unwrap();
    assert!(code.contains("my_func"));
    assert!(code.contains("return 1.0"));
}

#[test]
fn test_graph_generate_glsl_swizzle() {
    let mut graph = ShaderGraph::new();
    graph.add_node(NodeKindText::Swizzle {
        pattern: "xyz".to_string(),
    });

    let code = graph.generate_glsl().unwrap();
    assert!(code.contains(".xyz"));
}

#[test]
fn test_graph_generate_glsl_mix() {
    let mut graph = ShaderGraph::new();
    graph.add_node(NodeKindText::Mix);

    let code = graph.generate_glsl().unwrap();
    assert!(code.contains("mix("));
}

#[test]
fn test_graph_generate_glsl_input_output() {
    let mut graph = ShaderGraph::new();
    graph.add_node(NodeKindText::Input {
        name: "albedo".to_string(),
        ty: ShaderNodeType::Vec3,
    });
    graph.add_node(NodeKindText::Output {
        name: "frag_color".to_string(),
        ty: ShaderNodeType::Color,
    });

    let code = graph.generate_glsl().unwrap();
    assert!(code.contains("vec3 albedo"));
    assert!(code.contains("vec4 frag_color"));
}

#[test]
fn test_graph_generate_glsl_if() {
    let mut graph = ShaderGraph::new();
    graph.add_node(NodeKindText::If);

    let code = graph.generate_glsl().unwrap();
    assert!(code.contains("?"));
    assert!(code.contains(":"));
}

#[test]
fn test_graph_generate_glsl_switch() {
    let mut graph = ShaderGraph::new();
    graph.add_node(NodeKindText::Switch { cases: 3 });

    let code = graph.generate_glsl().unwrap();
    assert!(code.contains("switch"));
    assert!(code.contains("case"));
}

#[test]
fn test_graph_generate_glsl_cycle_error() {
    let mut graph = ShaderGraph::new();
    let a = graph.add_node(NodeKindText::Add);
    let b = graph.add_node(NodeKindText::Add);
    graph.add_edge(a, b, 0, 0);
    graph.add_edge(b, a, 0, 0);

    let result = graph.generate_glsl();
    assert!(result.is_err());
}

#[test]
fn test_graph_generate_glsl_empty() {
    let graph = ShaderGraph::new();
    let code = graph.generate_glsl().unwrap();
    assert!(code.contains("#version 330"));
}

#[test]
fn test_graph_generate_glsl_pow_min_max() {
    let mut graph = ShaderGraph::new();
    graph.add_node(NodeKindText::Pow);
    graph.add_node(NodeKindText::Min);
    graph.add_node(NodeKindText::Max);

    let code = graph.generate_glsl().unwrap();
    assert!(code.contains("pow("));
    assert!(code.contains("min("));
    assert!(code.contains("max("));
}

#[test]
fn test_graph_generate_glsl_floor_ceil_round() {
    let mut graph = ShaderGraph::new();
    graph.add_node(NodeKindText::Floor);
    graph.add_node(NodeKindText::Ceil);
    graph.add_node(NodeKindText::Round);

    let code = graph.generate_glsl().unwrap();
    assert!(code.contains("floor("));
    assert!(code.contains("ceil("));
    assert!(code.contains("round("));
}

#[test]
fn test_graph_generate_glsl_distance() {
    let mut graph = ShaderGraph::new();
    graph.add_node(NodeKindText::Distance);

    let code = graph.generate_glsl().unwrap();
    assert!(code.contains("distance("));
}

#[test]
fn test_graph_generate_glsl_negate() {
    let mut graph = ShaderGraph::new();
    graph.add_node(NodeKindText::Negate);

    let code = graph.generate_glsl().unwrap();
    assert!(code.contains("-v"));
}

#[test]
fn test_graph_generate_glsl_sign() {
    let mut graph = ShaderGraph::new();
    graph.add_node(NodeKindText::Sign);

    let code = graph.generate_glsl().unwrap();
    assert!(code.contains("sign("));
}

#[test]
fn test_graph_generate_glsl_log_exp() {
    let mut graph = ShaderGraph::new();
    graph.add_node(NodeKindText::Log);
    graph.add_node(NodeKindText::Exp);

    let code = graph.generate_glsl().unwrap();
    assert!(code.contains("log("));
    assert!(code.contains("exp("));
}

#[test]
fn test_graph_generate_glsl_tan() {
    let mut graph = ShaderGraph::new();
    graph.add_node(NodeKindText::Tan);

    let code = graph.generate_glsl().unwrap();
    assert!(code.contains("tan("));
}

#[test]
fn test_graph_generate_glsl_to_srgb() {
    let mut graph = ShaderGraph::new();
    graph.add_node(NodeKindText::ToSrgb);

    let code = graph.generate_glsl().unwrap();
    assert!(code.contains("pow("));
    assert!(code.contains("2.2"));
}

#[test]
fn test_graph_generate_glsl_to_linear() {
    let mut graph = ShaderGraph::new();
    graph.add_node(NodeKindText::ToLinear);

    let code = graph.generate_glsl().unwrap();
    assert!(code.contains("pow("));
    assert!(code.contains("2.2"));
}

#[test]
fn test_graph_generate_glsl_uv_operations() {
    let mut graph = ShaderGraph::new();
    graph.add_node(NodeKindText::Tiling);
    graph.add_node(NodeKindText::Offset);

    let code = graph.generate_glsl().unwrap();
    assert!(code.contains("uv"));
}

#[test]
fn test_graph_generate_glsl_pan() {
    let mut graph = ShaderGraph::new();
    graph.add_node(NodeKindText::Pan);

    let code = graph.generate_glsl().unwrap();
    assert!(code.contains("time"));
}

#[test]
fn test_graph_generate_both_wgsl_and_glsl() {
    let mut graph = ShaderGraph::new();
    graph.add_node(NodeKindText::ConstantFloat(f(1.0)));
    graph.add_node(NodeKindText::ConstantVec3(f(1.0), f(0.0), f(0.0)));
    graph.add_node(NodeKindText::Add);

    let wgsl = graph.generate_wgsl().unwrap();
    let glsl = graph.generate_glsl().unwrap();

    // WGSL uses f32, GLSL uses float
    assert!(wgsl.contains("f32"));
    assert!(glsl.contains("float"));
    // WGSL uses vec3<f32>, GLSL uses vec3
    assert!(wgsl.contains("vec3<f32>"));
    assert!(!glsl.contains("vec3<f32>"));
}

#[test]
fn test_graph_generate_glsl_shadow_coord() {
    let mut graph = ShaderGraph::new();
    graph.add_node(NodeKindText::FragmentShadowCoord);

    let code = graph.generate_glsl().unwrap();
    assert!(code.contains("shadow_coord"));
}

#[test]
fn test_graph_generate_glsl_vertex_tangent_uv1() {
    let mut graph = ShaderGraph::new();
    graph.add_node(NodeKindText::VertexTangent);
    graph.add_node(NodeKindText::VertexUV1);

    let code = graph.generate_glsl().unwrap();
    assert!(code.contains("in_tangent"));
    assert!(code.contains("in_uv1"));
}

#[test]
fn test_graph_generate_glsl_gamma() {
    let mut graph = ShaderGraph::new();
    graph.add_node(NodeKindText::Gamma);

    let code = graph.generate_glsl().unwrap();
    assert!(code.contains("pow("));
}

#[test]
fn test_graph_add_multiple_nodes() {
    let mut graph = ShaderGraph::new();
    let id1 = graph.add_node(NodeKindText::ConstantFloat(f(1.0)));
    let id2 = graph.add_node(NodeKindText::ConstantFloat(f(2.0)));
    let id3 = graph.add_node(NodeKindText::Add);
    let _edge1 = graph.add_edge(id1, id3, 0, 0);
    let _edge2 = graph.add_edge(id2, id3, 0, 1);

    assert_eq!(graph.nodes().len(), 3);
    assert_eq!(graph.edges().len(), 2);
}

#[test]
fn test_graph_remove_node_removes_edges() {
    let mut graph = ShaderGraph::new();
    let id1 = graph.add_node(NodeKindText::ConstantFloat(f(1.0)));
    let id2 = graph.add_node(NodeKindText::Add);
    let _edge = graph.add_edge(id1, id2, 0, 0);

    assert_eq!(graph.nodes().len(), 2);
    assert_eq!(graph.edges().len(), 1);

    graph.remove_node(id1);
    assert_eq!(graph.nodes().len(), 1);
    assert_eq!(graph.edges().len(), 0);
}

#[test]
fn test_graph_validate_empty() {
    let graph = ShaderGraph::new();
    assert!(graph.validate().is_ok());
}

#[test]
fn test_graph_validate_with_cycle_fails() {
    let mut graph = ShaderGraph::new();
    let a = graph.add_node(NodeKindText::Add);
    let b = graph.add_node(NodeKindText::Add);
    graph.add_edge(a, b, 0, 0);
    graph.add_edge(b, a, 0, 0);

    assert!(graph.validate().is_err());
}

#[test]
fn test_graph_validate_with_valid_graph() {
    let mut graph = ShaderGraph::new();
    let a = graph.add_node(NodeKindText::ConstantFloat(f(1.0)));
    let b = graph.add_node(NodeKindText::ConstantFloat(f(2.0)));
    let c = graph.add_node(NodeKindText::Add);
    graph.add_edge(a, c, 0, 0);
    graph.add_edge(b, c, 0, 1);

    assert!(graph.validate().is_ok());
}

#[test]
fn test_graph_topological_order_long_chain() {
    let mut graph = ShaderGraph::new();
    let nodes: Vec<NodeId> = (0..5)
        .map(|_| graph.add_node(NodeKindText::ConstantFloat(f(1.0))))
        .collect();
    for i in 0..4 {
        graph.add_edge(nodes[i], nodes[i + 1], 0, 0);
    }
    let _order = graph.topological_order().unwrap();
    // Just verify topological order succeeds for a chain graph
}
