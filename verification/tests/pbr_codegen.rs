use std::collections::HashMap;

use engine::pbr::codegen::{
    fmt_float, generate_node_code_glsl, generate_node_code_wgsl, glsl_program_code, type_to_glsl,
    type_to_wgsl, wgsl_program_code, NodeKindText, NodeText,
};
use engine::pbr::graph::{CycleError, NodeId, ShaderGraphTopology, ShaderNodeType};

fn node(kind: NodeKindText, debug: &str) -> NodeText {
    NodeText { kind, debug: debug.to_string() }
}

#[test]
fn codegen_fmt_float_adds_point_only_when_needed() {
    assert_eq!(fmt_float("1"), "1.0");
    assert_eq!(fmt_float("-3"), "-3.0");
    assert_eq!(fmt_float("0.5"), "0.5");
    assert_eq!(fmt_float("1e-7"), "1e-7");
    assert_eq!(fmt_float("inf"), "inf");
    assert_eq!(fmt_float("-inf"), "-inf");
    assert_eq!(fmt_float("NaN"), "NaN");
    assert_eq!(fmt_float(&format!("{}", 2.0f32)), "2.0");
    assert_eq!(fmt_float(&format!("{}", 0.25f32)), "0.25");
}

#[test]
fn codegen_type_names() {
    assert_eq!(type_to_glsl(ShaderNodeType::Sampler), "sampler2D");
    assert_eq!(type_to_glsl(ShaderNodeType::Color), "vec4");
    assert_eq!(type_to_glsl(ShaderNodeType::Void), "void");
    assert_eq!(type_to_wgsl(ShaderNodeType::Vec3), "vec3<f32>");
    assert_eq!(type_to_wgsl(ShaderNodeType::Sampler), "sampler");
    assert_eq!(type_to_wgsl(ShaderNodeType::Void), "()");
}

#[test]
fn codegen_glsl_constants() {
    let id = NodeId(7);
    assert_eq!(
        generate_node_code_glsl(id, &NodeKindText::ConstantFloat("1".to_string())),
        "float n7 = 1.0;"
    );
    assert_eq!(
        generate_node_code_glsl(
            id,
            &NodeKindText::ConstantVec3("1".to_string(), "0.5".to_string(), "0.2".to_string())
        ),
        "vec3 n7 = vec3(1.0, 0.5, 0.2);"
    );
    assert_eq!(
        generate_node_code_glsl(
            id,
            &NodeKindText::ConstantColor(
                "1".to_string(),
                "0".to_string(),
                "0".to_string(),
                "1".to_string()
            )
        ),
        "vec4 n7 = vec4(1, 0, 0, 1);"
    );
    assert_eq!(generate_node_code_glsl(id, &NodeKindText::ConstantBool(true)), "bool n7 = true;");
}

#[test]
fn codegen_glsl_operations() {
    let id = NodeId(12);
    assert_eq!(generate_node_code_glsl(id, &NodeKindText::Add), "n12 = a12 + b12;");
    assert_eq!(generate_node_code_glsl(id, &NodeKindText::Div), "n12 = a12 / b12;");
    assert_eq!(generate_node_code_glsl(id, &NodeKindText::Pow), "n12 = pow(a12, b12);");
    assert_eq!(generate_node_code_glsl(id, &NodeKindText::Negate), "n12 = -v12;");
    assert_eq!(generate_node_code_glsl(id, &NodeKindText::Sqrt), "n12 = sqrt(v12);");
    assert_eq!(generate_node_code_glsl(id, &NodeKindText::Mix), "n12 = mix(a12, b12, t12);");
    assert_eq!(generate_node_code_glsl(id, &NodeKindText::If), "n12 = (c12) ? a12 : b12;");
    assert_eq!(
        generate_node_code_glsl(id, &NodeKindText::Swizzle { pattern: "xyz".to_string() }),
        "n12 = v12.xyz;"
    );
    assert_eq!(generate_node_code_glsl(id, &NodeKindText::Gamma), "n12 = pow(v12, vec3(g12));");
    assert_eq!(generate_node_code_glsl(id, &NodeKindText::Pan), "n12 = uv12 + time * s12;");
}

#[test]
fn codegen_glsl_named_nodes() {
    let id = NodeId(3);
    assert_eq!(
        generate_node_code_glsl(
            id,
            &NodeKindText::Input { name: "albedo".to_string(), ty: ShaderNodeType::Vec3 }
        ),
        "vec3 albedo;"
    );
    assert_eq!(
        generate_node_code_glsl(id, &NodeKindText::TextureSample { name: "albedo_tex".to_string() }),
        "vec4 n3 = texture(albedo_tex, uv3);"
    );
    assert_eq!(
        generate_node_code_glsl(id, &NodeKindText::NormalMap { strength: "1.5".to_string() }),
        "vec3 n3 = normalize(texture(normalMap, uv3).xyz * 2.0 - 1.0 * 1.5);"
    );
    assert_eq!(
        generate_node_code_glsl(
            id,
            &NodeKindText::Custom { name: "my_func".to_string(), code: "return 1.0;".to_string() }
        ),
        "// Custom node: my_func\nreturn 1.0;"
    );
    assert_eq!(generate_node_code_glsl(id, &NodeKindText::VertexUV1), "vec2 vertex_uv1 = in_uv1;");
}

#[test]
fn codegen_glsl_switch() {
    assert_eq!(
        generate_node_code_glsl(NodeId(4), &NodeKindText::Switch { cases: 2 }),
        "switch(v4) {\n  case 0: r4 = v4_0;\n  case 1: r4 = v4_1;\n}\nn4 = r4;"
    );
    assert_eq!(
        generate_node_code_glsl(NodeId(4), &NodeKindText::Switch { cases: 0 }),
        "switch(v4) {\n}\nn4 = r4;"
    );
}

#[test]
fn codegen_wgsl_nodes() {
    let id = NodeId(0);
    assert_eq!(
        generate_node_code_wgsl(id, &node(NodeKindText::ConstantFloat("1".to_string()), "")),
        "let n0: f32 = 1f;"
    );
    assert_eq!(
        generate_node_code_wgsl(
            id,
            &node(NodeKindText::Output { name: "out".to_string(), ty: ShaderNodeType::Color }, "")
        ),
        "let out: vec4<f32>;"
    );
    assert_eq!(generate_node_code_wgsl(id, &node(NodeKindText::Mul, "Mul")), "let n0 = a0 * b0;");
    assert_eq!(
        generate_node_code_wgsl(id, &node(NodeKindText::Length, "Length")),
        "let n0 = length(v0);"
    );
    assert_eq!(generate_node_code_wgsl(id, &node(NodeKindText::Pow, "Pow")), "// Node: Pow");
    assert_eq!(
        generate_node_code_wgsl(
            id,
            &node(
                NodeKindText::TextureSample { name: "tex".to_string() },
                "TextureSample { name: \"tex\" }"
            )
        ),
        "// Node: TextureSample { name: \"tex\" }"
    );
}

#[test]
fn codegen_programs_follow_order_and_skip_missing_nodes() {
    let mut nodes = HashMap::new();
    nodes.insert(0, node(NodeKindText::ConstantFloat("2".to_string()), "ConstantFloat(2.0)"));
    nodes.insert(1, node(NodeKindText::Sin, "Sin"));
    let order = [NodeId(0), NodeId(5), NodeId(1)];
    assert_eq!(
        glsl_program_code(&order, &nodes),
        "#version 330\n// Generated shader from ShaderGraph\n\nfloat n0 = 2.0;\nn1 = sin(v1);\n"
    );
    assert_eq!(
        wgsl_program_code(&order, &nodes),
        "// Generated shader from ShaderGraph\n\nlet n0: f32 = 2f;\n// Node: Sin\n"
    );
    assert_eq!(glsl_program_code(&[], &nodes), "#version 330\n// Generated shader from ShaderGraph\n\n");
}

#[test]
fn codegen_graph_generation() {
    let mut g = ShaderGraphTopology::new();
    let a = g.add_node();
    let b = g.add_node();
    g.add_edge(a, b, 0, 0);
    let mut nodes = HashMap::new();
    nodes.insert(a.0, node(NodeKindText::ConstantFloat("1".to_string()), "ConstantFloat(1.0)"));
    nodes.insert(b.0, node(NodeKindText::Normalize, "Normalize"));
    assert_eq!(
        g.generate_glsl(&nodes).unwrap(),
        "#version 330\n// Generated shader from ShaderGraph\n\nfloat n0 = 1.0;\nn1 = normalize(v1);\n"
    );
    assert_eq!(
        g.generate_wgsl(&nodes).unwrap(),
        "// Generated shader from ShaderGraph\n\nlet n0: f32 = 1f;\nlet n1 = normalize(v1);\n"
    );
    g.add_edge(b, a, 0, 0);
    assert_eq!(g.generate_glsl(&nodes), Err(CycleError));
    assert_eq!(g.generate_wgsl(&nodes), Err(CycleError));
}
