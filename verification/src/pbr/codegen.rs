//! Shader source generation from a shader graph: each node becomes one
//! statement of GLSL or WGSL, emitted in a topological order of the graph.
//!
//! Node payloads reach this module as text: every floating-point constant
//! comes as its `Display` text, and the whole node kind as its `Debug` text
//! (used for nodes that WGSL output only names in a comment).

use vstd::prelude::*;
use std::collections::HashMap;
use vstd::string::StrSliceExecFns;
use crate::pbr::graph::{CycleError, NodeId, ShaderGraphTopology, ShaderNodeType, is_topological_order};
use crate::pbr::permutation::{decimal_text, digit_str, digit_text};

verus! {

/// The decimal text of an id
pub open spec fn dec(n: u32) -> Seq<char> {
    decimal_text(n as nat)
}

/// Append the decimal text of `n`.
fn push_dec(s: &mut String, n: u32)
    ensures
        final(s)@ == old(s)@ + dec(n),
    decreases n,
{
    if n >= 10 {
        push_dec(s, n / 10);
    }
    let d = (n % 10) as u8;
    s.append(digit_str(d));
    proof {
        if n >= 10 {
            assert(decimal_text(n as nat) == decimal_text((n / 10) as nat) + digit_text(
                (n % 10) as nat,
            ));
            assert(final(s)@ =~= old(s)@ + dec(n));
        }
    }
}

/// Whether `s` holds the three characters `a`, `b`, `c` in a row.
pub open spec fn has_infix3(s: Seq<char>, a: char, b: char, c: char) -> bool {
    exists|i: int| 0 <= i && i + 3 <= s.len() && #[trigger] s[i] == a && s[i + 1] == b && s[i + 2] == c
}

/// Whether the `Display` text of a float already reads as a GLSL float:
/// it has a decimal point or an exponent, or names infinity or NaN.
pub open spec fn reads_as_float(s: Seq<char>) -> bool {
    s.contains('.') || s.contains('e') || s.contains('E') || has_infix3(s, 'i', 'n', 'f') || has_infix3(
        s,
        'N',
        'a',
        'N',
    )
}

/// A float constant for GLSL, from its `Display` text: kept when it reads
/// as a float, else given a `.0` suffix.
pub open spec fn glsl_float(s: Seq<char>) -> Seq<char> {
    if reads_as_float(s) {
        s
    } else {
        s + ".0"@
    }
}

/// The characters of a string
fn chars_of(s: &str) -> (r: Vec<char>)
    ensures
        r@ == s@,
{
    let n = s.unicode_len();
    let mut v: Vec<char> = Vec::new();
    let mut i: usize = 0;
    while i < n
        invariant
            n == s@.len(),
            0 <= i <= n,
            v@ == s@.take(i as int),
        decreases n - i,
    {
        let c = s.get_char(i);
        v.push(c);
        proof {
            assert(s@.take(i as int + 1) =~= s@.take(i as int).push(c));
        }
        i += 1;
    }
    proof {
        assert(s@.take(n as int) =~= s@);
    }
    v
}

/// Whether the `Display` text of a float already reads as a float
fn text_reads_as_float(s: &str) -> (r: bool)
    ensures
        r == reads_as_float(s@),
{
    let v = chars_of(s);
    let n = v.len();
    let mut i: usize = 0;
    while i < n
        invariant
            n == v@.len(),
            v@ == s@,
            0 <= i <= n,
            forall|j: int|
                0 <= j < i ==> #[trigger] v@[j] != '.' && v@[j] != 'e' && v@[j] != 'E' && !(j + 3 <= n
                    && v@[j] == 'i' && v@[j + 1] == 'n' && v@[j + 2] == 'f') && !(j + 3 <= n
                    && v@[j] == 'N' && v@[j + 1] == 'a' && v@[j + 2] == 'N'),
        decreases n - i,
    {
        let c = v[i];
        if c == '.' || c == 'e' || c == 'E' {
            proof {
                assert(v@[i as int] == c);
            }
            return true;
        }
        if n - i >= 3 {
            if c == 'i' && v[i + 1] == 'n' && v[i + 2] == 'f' {
                return true;
            }
            if c == 'N' && v[i + 1] == 'a' && v[i + 2] == 'N' {
                return true;
            }
        }
        i += 1;
    }
    false
}

/// Format a float for GLSL output, from its `Display` text, so that it
/// always reads as a float.
pub fn fmt_float(display: &str) -> (r: String)
    ensures
        r@ == glsl_float(display@),
{
    let mut r = String::from_str(display);
    if !text_reads_as_float(display) {
        r.append(".0");
    }
    r
}

/// A node kind as code generation reads it: the kinds of a shader graph
/// node, with each floating-point constant given as its `Display` text.
#[derive(Clone, Debug, PartialEq, Eq)]
pub enum NodeKindText {
    /// Shader input
    Input { name: String, ty: ShaderNodeType },
    /// Shader output
    Output { name: String, ty: ShaderNodeType },
    /// Float constant
    ConstantFloat(String),
    /// 2D vector constant
    ConstantVec2(String, String),
    /// 3D vector constant
    ConstantVec3(String, String, String),
    /// 4D vector constant
    ConstantVec4(String, String, String, String),
    /// RGBA color constant
    ConstantColor(String, String, String, String),
    /// Boolean constant
    ConstantBool(bool),
    /// Texture sample
    TextureSample { name: String },
    /// a + b
    Add,
    /// a - b
    Sub,
    /// a * b
    Mul,
    /// a / b
    Div,
    /// pow(a, b)
    Pow,
    /// min(a, b)
    Min,
    /// max(a, b)
    Max,
    /// dot(a, b)
    Dot,
    /// cross(a, b)
    Cross,
    /// distance(a, b)
    Distance,
    /// -v
    Negate,
    /// abs(v)
    Abs,
    /// sign(v)
    Sign,
    /// sqrt(v)
    Sqrt,
    /// log(v)
    Log,
    /// exp(v)
    Exp,
    /// sin(v)
    Sin,
    /// cos(v)
    Cos,
    /// tan(v)
    Tan,
    /// floor(v)
    Floor,
    /// ceil(v)
    Ceil,
    /// round(v)
    Round,
    /// normalize(v)
    Normalize,
    /// length(v)
    Length,
    /// Component swizzle
    Swizzle { pattern: String },
    /// Linear interpolation
    Mix,
    /// Linear to sRGB
    ToSrgb,
    /// sRGB to linear
    ToLinear,
    /// Gamma correction
    Gamma,
    /// UV tiling
    Tiling,
    /// UV offset
    Offset,
    /// UV rotation
    Rotate,
    /// UV panning
    Pan,
    /// Time
    Time,
    /// Sine of time
    SinTime,
    /// Cosine of time
    CosTime,
    /// Normal map sample, with its strength
    NormalMap { strength: String },
    /// PBR master output
    PbrMaster,
    /// Vertex position
    VertexPosition,
    /// Vertex normal
    VertexNormal,
    /// First UV set
    VertexUV0,
    /// Second UV set
    VertexUV1,
    /// Vertex color
    VertexColor,
    /// Vertex tangent
    VertexTangent,
    /// World-space normal
    FragmentNormalWS,
    /// World-space view direction
    FragmentViewDirWS,
    /// World-space light direction
    FragmentLightDirWS,
    /// Shadow coordinate
    FragmentShadowCoord,
    /// Conditional select
    If,
    /// Switch over a number of cases
    Switch { cases: u32 },
    /// Custom code
    Custom { name: String, code: String },
}

/// A graph node as code generation reads it: its kind, and the `Debug`
/// text of its kind.
#[derive(Clone, Debug, PartialEq, Eq)]
pub struct NodeText {
    /// The node kind
    pub kind: NodeKindText,
    /// The `Debug` text of the node kind
    pub debug: String,
}

/// The GLSL name of a value type
pub open spec fn glsl_type(ty: ShaderNodeType) -> Seq<char> {
    match ty {
        ShaderNodeType::Float => "float"@,
        ShaderNodeType::Vec2 => "vec2"@,
        ShaderNodeType::Vec3 => "vec3"@,
        ShaderNodeType::Vec4 => "vec4"@,
        ShaderNodeType::Color => "vec4"@,
        ShaderNodeType::Bool => "bool"@,
        ShaderNodeType::Sampler => "sampler2D"@,
        ShaderNodeType::Void => "void"@,
    }
}

/// The WGSL name of a value type
pub open spec fn wgsl_type(ty: ShaderNodeType) -> Seq<char> {
    match ty {
        ShaderNodeType::Float => "f32"@,
        ShaderNodeType::Vec2 => "vec2<f32>"@,
        ShaderNodeType::Vec3 => "vec3<f32>"@,
        ShaderNodeType::Vec4 => "vec4<f32>"@,
        ShaderNodeType::Color => "vec4<f32>"@,
        ShaderNodeType::Bool => "bool"@,
        ShaderNodeType::Sampler => "sampler"@,
        ShaderNodeType::Void => "()"@,
    }
}

/// Convert a shader node type to its GLSL type name
pub fn type_to_glsl(ty: ShaderNodeType) -> (r: &'static str)
    ensures
        r@ == glsl_type(ty),
{
    match ty {
        ShaderNodeType::Float => "float",
        ShaderNodeType::Vec2 => "vec2",
        ShaderNodeType::Vec3 => "vec3",
        ShaderNodeType::Vec4 => "vec4",
        ShaderNodeType::Color => "vec4",
        ShaderNodeType::Bool => "bool",
        ShaderNodeType::Sampler => "sampler2D",
        ShaderNodeType::Void => "void",
    }
}

/// Convert a shader node type to its WGSL type name
pub fn type_to_wgsl(ty: ShaderNodeType) -> (r: &'static str)
    ensures
        r@ == wgsl_type(ty),
{
    match ty {
        ShaderNodeType::Float => "f32",
        ShaderNodeType::Vec2 => "vec2<f32>",
        ShaderNodeType::Vec3 => "vec3<f32>",
        ShaderNodeType::Vec4 => "vec4<f32>",
        ShaderNodeType::Color => "vec4<f32>",
        ShaderNodeType::Bool => "bool",
        ShaderNodeType::Sampler => "sampler",
        ShaderNodeType::Void => "()",
    }
}

/// `true` or `false`
pub open spec fn bool_text(b: bool) -> Seq<char> {
    if b {
        "true"@
    } else {
        "false"@
    }
}

fn bool_str(b: bool) -> (r: &'static str)
    ensures
        r@ == bool_text(b),
{
    if b {
        "true"
    } else {
        "false"
    }
}

/// GLSL `n{id} = a{id} <op> b{id};`
pub open spec fn glsl_binop(id: u32, op: Seq<char>) -> Seq<char> {
    "n"@ + dec(id) + " = a"@ + dec(id) + " "@ + op + " b"@ + dec(id) + ";"@
}

/// GLSL `n{id} = <f>(a{id}, b{id});`
pub open spec fn glsl_call2(id: u32, f: Seq<char>) -> Seq<char> {
    "n"@ + dec(id) + " = "@ + f + "(a"@ + dec(id) + ", b"@ + dec(id) + ");"@
}

/// GLSL `n{id} = <f>(v{id});`
pub open spec fn glsl_call1(id: u32, f: Seq<char>) -> Seq<char> {
    "n"@ + dec(id) + " = "@ + f + "(v"@ + dec(id) + ");"@
}

/// The case lines of a GLSL switch node after `head`, for cases `0..k`
pub open spec fn glsl_switch_cases(id: u32, head: Seq<char>, k: nat) -> Seq<char>
    decreases k,
{
    if k == 0 {
        head
    } else {
        glsl_switch_cases(id, head, (k - 1) as nat) + "  case "@ + dec((k - 1) as u32) + ": r"@
            + dec(id) + " = v"@ + dec(id) + "_"@ + dec((k - 1) as u32) + ";\n"@
    }
}

/// The GLSL statement of the node `id` of the given kind
pub open spec fn glsl_code(id: u32, k: NodeKindText) -> Seq<char> {
    match k {
        NodeKindText::Input { name, ty } => glsl_type(ty) + " "@ + name@ + ";"@,
        NodeKindText::Output { name, ty } => glsl_type(ty) + " "@ + name@ + ";"@,
        NodeKindText::ConstantFloat(v) => "float n"@ + dec(id) + " = "@ + glsl_float(v@) + ";"@,
        NodeKindText::ConstantVec2(x, y) => "vec2 n"@ + dec(id) + " = vec2("@ + glsl_float(x@) + ", "@
            + glsl_float(y@) + ");"@,
        NodeKindText::ConstantVec3(x, y, z) => "vec3 n"@ + dec(id) + " = vec3("@ + glsl_float(x@)
            + ", "@ + glsl_float(y@) + ", "@ + glsl_float(z@) + ");"@,
        NodeKindText::ConstantVec4(x, y, z, w) => "vec4 n"@ + dec(id) + " = vec4("@ + glsl_float(x@)
            + ", "@ + glsl_float(y@) + ", "@ + glsl_float(z@) + ", "@ + glsl_float(w@) + ");"@,
        NodeKindText::ConstantColor(r, g, b, a) => "vec4 n"@ + dec(id) + " = vec4("@ + r@ + ", "@ + g@
            + ", "@ + b@ + ", "@ + a@ + ");"@,
        NodeKindText::ConstantBool(v) => "bool n"@ + dec(id) + " = "@ + bool_text(v) + ";"@,
        NodeKindText::Add => glsl_binop(id, "+"@),
        NodeKindText::Sub => glsl_binop(id, "-"@),
        NodeKindText::Mul => glsl_binop(id, "*"@),
        NodeKindText::Div => glsl_binop(id, "/"@),
        NodeKindText::Pow => glsl_call2(id, "pow"@),
        NodeKindText::Min => glsl_call2(id, "min"@),
        NodeKindText::Max => glsl_call2(id, "max"@),
        NodeKindText::Dot => glsl_call2(id, "dot"@),
        NodeKindText::Cross => glsl_call2(id, "cross"@),
        NodeKindText::Distance => glsl_call2(id, "distance"@),
        NodeKindText::Negate => "n"@ + dec(id) + " = -v"@ + dec(id) + ";"@,
        NodeKindText::Abs => glsl_call1(id, "abs"@),
        NodeKindText::Sign => glsl_call1(id, "sign"@),
        NodeKindText::Sqrt => glsl_call1(id, "sqrt"@),
        NodeKindText::Log => glsl_call1(id, "log"@),
        NodeKindText::Exp => glsl_call1(id, "exp"@),
        NodeKindText::Sin => glsl_call1(id, "sin"@),
        NodeKindText::Cos => glsl_call1(id, "cos"@),
        NodeKindText::Tan => glsl_call1(id, "tan"@),
        NodeKindText::Floor => glsl_call1(id, "floor"@),
        NodeKindText::Ceil => glsl_call1(id, "ceil"@),
        NodeKindText::Round => glsl_call1(id, "round"@),
        NodeKindText::Normalize => glsl_call1(id, "normalize"@),
        NodeKindText::Length => glsl_call1(id, "length"@),
        NodeKindText::Swizzle { pattern } => "n"@ + dec(id) + " = v"@ + dec(id) + "."@ + pattern@
            + ";"@,
        NodeKindText::Mix => "n"@ + dec(id) + " = mix(a"@ + dec(id) + ", b"@ + dec(id) + ", t"@ + dec(
            id,
        ) + ");"@,
        NodeKindText::ToSrgb => "n"@ + dec(id) + " = pow(v"@ + dec(id) + ", vec3(1.0/2.2));"@,
        NodeKindText::ToLinear => "n"@ + dec(id) + " = pow(v"@ + dec(id) + ", vec3(2.2));"@,
        NodeKindText::Gamma => "n"@ + dec(id) + " = pow(v"@ + dec(id) + ", vec3(g"@ + dec(id) + "));"@,
        NodeKindText::Tiling => "n"@ + dec(id) + " = uv"@ + dec(id) + " * t"@ + dec(id) + ";"@,
        NodeKindText::Offset => "n"@ + dec(id) + " = uv"@ + dec(id) + " + o"@ + dec(id) + ";"@,
        NodeKindText::Rotate => "n"@ + dec(id) + " = rotateUV(uv"@ + dec(id) + ", a"@ + dec(id) + ");"@,
        NodeKindText::Pan => "n"@ + dec(id) + " = uv"@ + dec(id) + " + time * s"@ + dec(id) + ";"@,
        NodeKindText::Time => "float time = time_uniform;"@,
        NodeKindText::SinTime => "float sin_time = sin(time_uniform);"@,
        NodeKindText::CosTime => "float cos_time = cos(time_uniform);"@,
        NodeKindText::NormalMap { strength } => "vec3 n"@ + dec(id)
            + " = normalize(texture(normalMap, uv"@ + dec(id) + ").xyz * 2.0 - 1.0 * "@ + strength@
            + ");"@,
        NodeKindText::PbrMaster => "// PBR Master node - outputs to fragment shader"@,
        NodeKindText::VertexPosition => "vec3 vertex_pos = in_position;"@,
        NodeKindText::VertexNormal => "vec3 vertex_normal = in_normal;"@,
        NodeKindText::VertexUV0 => "vec2 vertex_uv0 = in_uv0;"@,
        NodeKindText::VertexUV1 => "vec2 vertex_uv1 = in_uv1;"@,
        NodeKindText::VertexColor => "vec4 vertex_color = in_color;"@,
        NodeKindText::VertexTangent => "vec3 vertex_tangent = in_tangent;"@,
        NodeKindText::FragmentNormalWS => "vec3 frag_normal_ws = normal_ws;"@,
        NodeKindText::FragmentViewDirWS => "vec3 frag_view_dir_ws = view_dir_ws;"@,
        NodeKindText::FragmentLightDirWS => "vec3 frag_light_dir_ws = light_dir_ws;"@,
        NodeKindText::FragmentShadowCoord => "vec4 frag_shadow_coord = shadow_coord;"@,
        NodeKindText::TextureSample { name } => "vec4 n"@ + dec(id) + " = texture("@ + name@ + ", uv"@
            + dec(id) + ");"@,
        NodeKindText::If => "n"@ + dec(id) + " = (c"@ + dec(id) + ") ? a"@ + dec(id) + " : b"@ + dec(
            id,
        ) + ";"@,
        NodeKindText::Switch { cases } => glsl_switch_cases(
            id,
            "switch(v"@ + dec(id) + ") {\n"@,
            cases as nat,
        ) + "}\n"@ + "n"@ + dec(id) + " = r"@ + dec(id) + ";"@,
        NodeKindText::Custom { name, code } => "// Custom node: "@ + name@ + "\n"@ + code@,
    }
}

fn emit_glsl_binop(id: u32, op: &str) -> (r: String)
    ensures
        r@ == glsl_binop(id, op@),
{
    let mut s = String::from_str("n");
    push_dec(&mut s, id);
    s.append(" = a");
    push_dec(&mut s, id);
    s.append(" ");
    s.append(op);
    s.append(" b");
    push_dec(&mut s, id);
    s.append(";");
    s
}

fn emit_glsl_call2(id: u32, f: &str) -> (r: String)
    ensures
        r@ == glsl_call2(id, f@),
{
    let mut s = String::from_str("n");
    push_dec(&mut s, id);
    s.append(" = ");
    s.append(f);
    s.append("(a");
    push_dec(&mut s, id);
    s.append(", b");
    push_dec(&mut s, id);
    s.append(");");
    s
}

fn emit_glsl_call1(id: u32, f: &str) -> (r: String)
    ensures
        r@ == glsl_call1(id, f@),
{
    let mut s = String::from_str("n");
    push_dec(&mut s, id);
    s.append(" = ");
    s.append(f);
    s.append("(v");
    push_dec(&mut s, id);
    s.append(");");
    s
}

/// `<head><id><mid><id><tail>`
fn emit_id2(head: &str, id: u32, mid: &str, tail: &str) -> (r: String)
    ensures
        r@ == head@ + dec(id) + mid@ + dec(id) + tail@,
{
    let mut s = String::from_str(head);
    push_dec(&mut s, id);
    s.append(mid);
    push_dec(&mut s, id);
    s.append(tail);
    s
}

/// `<head><id><mid1><id><mid2><id><tail>`
fn emit_id3(head: &str, id: u32, mid1: &str, mid2: &str, tail: &str) -> (r: String)
    ensures
        r@ == head@ + dec(id) + mid1@ + dec(id) + mid2@ + dec(id) + tail@,
{
    let mut s = String::from_str(head);
    push_dec(&mut s, id);
    s.append(mid1);
    push_dec(&mut s, id);
    s.append(mid2);
    push_dec(&mut s, id);
    s.append(tail);
    s
}

fn emit_glsl_switch(id: u32, cases: u32) -> (r: String)
    ensures
        r@ == glsl_switch_cases(id, "switch(v"@ + dec(id) + ") {\n"@, cases as nat) + "}\n"@ + "n"@
            + dec(id) + " = r"@ + dec(id) + ";"@,
{
    let mut s = String::from_str("switch(v");
    push_dec(&mut s, id);
    s.append(") {\n");
    let ghost head = s@;
    let mut i: u32 = 0;
    while i < cases
        invariant
            0 <= i <= cases,
            head == "switch(v"@ + dec(id) + ") {\n"@,
            s@ == glsl_switch_cases(id, head, i as nat),
        decreases cases - i,
    {
        s.append("  case ");
        push_dec(&mut s, i);
        s.append(": r");
        push_dec(&mut s, id);
        s.append(" = v");
        push_dec(&mut s, id);
        s.append("_");
        push_dec(&mut s, i);
        s.append(";\n");
        i += 1;
    }
    s.append("}\n");
    s.append("n");
    push_dec(&mut s, id);
    s.append(" = r");
    push_dec(&mut s, id);
    s.append(";");
    s
}

/// The GLSL statement of the node `id` of the given kind
pub fn generate_node_code_glsl(id: NodeId, kind: &NodeKindText) -> (r: String)
    ensures
        r@ == glsl_code(id.0, *kind),
{
    let n = id.0;
    match kind {
        NodeKindText::Input { name, ty } | NodeKindText::Output { name, ty } => {
            let mut s = String::from_str(type_to_glsl(*ty));
            s.append(" ");
            s.append(name.as_str());
            s.append(";");
            s
        },
        NodeKindText::ConstantFloat(v) => {
            let mut s = String::from_str("float n");
            push_dec(&mut s, n);
            s.append(" = ");
            s.append(fmt_float(v.as_str()).as_str());
            s.append(";");
            s
        },
        NodeKindText::ConstantVec2(x, y) => {
            let mut s = String::from_str("vec2 n");
            push_dec(&mut s, n);
            s.append(" = vec2(");
            s.append(fmt_float(x.as_str()).as_str());
            s.append(", ");
            s.append(fmt_float(y.as_str()).as_str());
            s.append(");");
            s
        },
        NodeKindText::ConstantVec3(x, y, z) => {
            let mut s = String::from_str("vec3 n");
            push_dec(&mut s, n);
            s.append(" = vec3(");
            s.append(fmt_float(x.as_str()).as_str());
            s.append(", ");
            s.append(fmt_float(y.as_str()).as_str());
            s.append(", ");
            s.append(fmt_float(z.as_str()).as_str());
            s.append(");");
            s
        },
        NodeKindText::ConstantVec4(x, y, z, w) => {
            let mut s = String::from_str("vec4 n");
            push_dec(&mut s, n);
            s.append(" = vec4(");
            s.append(fmt_float(x.as_str()).as_str());
            s.append(", ");
            s.append(fmt_float(y.as_str()).as_str());
            s.append(", ");
            s.append(fmt_float(z.as_str()).as_str());
            s.append(", ");
            s.append(fmt_float(w.as_str()).as_str());
            s.append(");");
            s
        },
        NodeKindText::ConstantColor(r, g, b, a) => {
            let mut s = String::from_str("vec4 n");
            push_dec(&mut s, n);
            s.append(" = vec4(");
            s.append(r.as_str());
            s.append(", ");
            s.append(g.as_str());
            s.append(", ");
            s.append(b.as_str());
            s.append(", ");
            s.append(a.as_str());
            s.append(");");
            s
        },
        NodeKindText::ConstantBool(v) => {
            let mut s = String::from_str("bool n");
            push_dec(&mut s, n);
            s.append(" = ");
            s.append(bool_str(*v));
            s.append(";");
            s
        },
        NodeKindText::Add => emit_glsl_binop(n, "+"),
        NodeKindText::Sub => emit_glsl_binop(n, "-"),
        NodeKindText::Mul => emit_glsl_binop(n, "*"),
        NodeKindText::Div => emit_glsl_binop(n, "/"),
        NodeKindText::Pow => emit_glsl_call2(n, "pow"),
        NodeKindText::Min => emit_glsl_call2(n, "min"),
        NodeKindText::Max => emit_glsl_call2(n, "max"),
        NodeKindText::Dot => emit_glsl_call2(n, "dot"),
        NodeKindText::Cross => emit_glsl_call2(n, "cross"),
        NodeKindText::Distance => emit_glsl_call2(n, "distance"),
        NodeKindText::Negate => emit_id2("n", n, " = -v", ";"),
        NodeKindText::Abs => emit_glsl_call1(n, "abs"),
        NodeKindText::Sign => emit_glsl_call1(n, "sign"),
        NodeKindText::Sqrt => emit_glsl_call1(n, "sqrt"),
        NodeKindText::Log => emit_glsl_call1(n, "log"),
        NodeKindText::Exp => emit_glsl_call1(n, "exp"),
        NodeKindText::Sin => emit_glsl_call1(n, "sin"),
        NodeKindText::Cos => emit_glsl_call1(n, "cos"),
        NodeKindText::Tan => emit_glsl_call1(n, "tan"),
        NodeKindText::Floor => emit_glsl_call1(n, "floor"),
        NodeKindText::Ceil => emit_glsl_call1(n, "ceil"),
        NodeKindText::Round => emit_glsl_call1(n, "round"),
        NodeKindText::Normalize => emit_glsl_call1(n, "normalize"),
        NodeKindText::Length => emit_glsl_call1(n, "length"),
        NodeKindText::Swizzle { pattern } => {
            let mut s = emit_id2("n", n, " = v", ".");
            s.append(pattern.as_str());
            s.append(";");
            s
        },
        NodeKindText::Mix => {
            let mut s = emit_id3("n", n, " = mix(a", ", b", ", t");
            push_dec(&mut s, n);
            s.append(");");
            s
        },
        NodeKindText::ToSrgb => emit_id2("n", n, " = pow(v", ", vec3(1.0/2.2));"),
        NodeKindText::ToLinear => emit_id2("n", n, " = pow(v", ", vec3(2.2));"),
        NodeKindText::Gamma => emit_id3("n", n, " = pow(v", ", vec3(g", "));"),
        NodeKindText::Tiling => emit_id3("n", n, " = uv", " * t", ";"),
        NodeKindText::Offset => emit_id3("n", n, " = uv", " + o", ";"),
        NodeKindText::Rotate => emit_id3("n", n, " = rotateUV(uv", ", a", ");"),
        NodeKindText::Pan => emit_id3("n", n, " = uv", " + time * s", ";"),
        NodeKindText::Time => String::from_str("float time = time_uniform;"),
        NodeKindText::SinTime => String::from_str("float sin_time = sin(time_uniform);"),
        NodeKindText::CosTime => String::from_str("float cos_time = cos(time_uniform);"),
        NodeKindText::NormalMap { strength } => {
            let mut s = emit_id2(
                "vec3 n",
                n,
                " = normalize(texture(normalMap, uv",
                ").xyz * 2.0 - 1.0 * ",
            );
            s.append(strength.as_str());
            s.append(");");
            s
        },
        NodeKindText::PbrMaster => String::from_str("// PBR Master node - outputs to fragment shader"),
        NodeKindText::VertexPosition => String::from_str("vec3 vertex_pos = in_position;"),
        NodeKindText::VertexNormal => String::from_str("vec3 vertex_normal = in_normal;"),
        NodeKindText::VertexUV0 => String::from_str("vec2 vertex_uv0 = in_uv0;"),
        NodeKindText::VertexUV1 => String::from_str("vec2 vertex_uv1 = in_uv1;"),
        NodeKindText::VertexColor => String::from_str("vec4 vertex_color = in_color;"),
        NodeKindText::VertexTangent => String::from_str("vec3 vertex_tangent = in_tangent;"),
        NodeKindText::FragmentNormalWS => String::from_str("vec3 frag_normal_ws = normal_ws;"),
        NodeKindText::FragmentViewDirWS => String::from_str("vec3 frag_view_dir_ws = view_dir_ws;"),
        NodeKindText::FragmentLightDirWS => String::from_str(
            "vec3 frag_light_dir_ws = light_dir_ws;",
        ),
        NodeKindText::FragmentShadowCoord => String::from_str(
            "vec4 frag_shadow_coord = shadow_coord;",
        ),
        NodeKindText::TextureSample { name } => {
            let mut s = String::from_str("vec4 n");
            push_dec(&mut s, n);
            s.append(" = texture(");
            s.append(name.as_str());
            s.append(", uv");
            push_dec(&mut s, n);
            s.append(");");
            s
        },
        NodeKindText::If => {
            let mut s = emit_id3("n", n, " = (c", ") ? a", " : b");
            push_dec(&mut s, n);
            s.append(";");
            s
        },
        NodeKindText::Switch { cases } => emit_glsl_switch(n, *cases),
        NodeKindText::Custom { name, code } => {
            let mut s = String::from_str("// Custom node: ");
            s.append(name.as_str());
            s.append("\n");
            s.append(code.as_str());
            s
        },
    }
}

/// WGSL `let n{id} = a{id} <op> b{id};`
pub open spec fn wgsl_binop(id: u32, op: Seq<char>) -> Seq<char> {
    "let n"@ + dec(id) + " = a"@ + dec(id) + " "@ + op + " b"@ + dec(id) + ";"@
}

/// The WGSL statement of the node `id`; kinds that WGSL output does not
/// cover are named in a comment by their `Debug` text.
pub open spec fn wgsl_code(id: u32, node: NodeText) -> Seq<char> {
    match node.kind {
        NodeKindText::Input { name, ty } => "var "@ + name@ + ": "@ + wgsl_type(ty) + ";"@,
        NodeKindText::Output { name, ty } => "let "@ + name@ + ": "@ + wgsl_type(ty) + ";"@,
        NodeKindText::ConstantFloat(v) => "let n"@ + dec(id) + ": f32 = "@ + v@ + "f;"@,
        NodeKindText::ConstantVec2(x, y) => "let n"@ + dec(id) + ": vec2<f32> = vec2("@ + x@ + ", "@
            + y@ + ");"@,
        NodeKindText::ConstantVec3(x, y, z) => "let n"@ + dec(id) + ": vec3<f32> = vec3("@ + x@ + ", "@
            + y@ + ", "@ + z@ + ");"@,
        NodeKindText::ConstantVec4(x, y, z, w) => "let n"@ + dec(id) + ": vec4<f32> = vec4("@ + x@
            + ", "@ + y@ + ", "@ + z@ + ", "@ + w@ + ");"@,
        NodeKindText::ConstantBool(v) => "let n"@ + dec(id) + ": bool = "@ + bool_text(v) + ";"@,
        NodeKindText::Add => wgsl_binop(id, "+"@),
        NodeKindText::Sub => wgsl_binop(id, "-"@),
        NodeKindText::Mul => wgsl_binop(id, "*"@),
        NodeKindText::Div => wgsl_binop(id, "/"@),
        NodeKindText::Normalize => "let n"@ + dec(id) + " = normalize(v"@ + dec(id) + ");"@,
        NodeKindText::Length => "let n"@ + dec(id) + " = length(v"@ + dec(id) + ");"@,
        NodeKindText::Time => "let time = time_uniform;"@,
        NodeKindText::PbrMaster => "// PBR Master node - outputs to fragment shader"@,
        _ => "// Node: "@ + node.debug@,
    }
}

fn emit_wgsl_binop(id: u32, op: &str) -> (r: String)
    ensures
        r@ == wgsl_binop(id, op@),
{
    let mut s = String::from_str("let n");
    push_dec(&mut s, id);
    s.append(" = a");
    push_dec(&mut s, id);
    s.append(" ");
    s.append(op);
    s.append(" b");
    push_dec(&mut s, id);
    s.append(";");
    s
}

/// The WGSL statement of the node `id`
pub fn generate_node_code_wgsl(id: NodeId, node: &NodeText) -> (r: String)
    ensures
        r@ == wgsl_code(id.0, *node),
{
    let n = id.0;
    match &node.kind {
        NodeKindText::Input { name, ty } => {
            let mut s = String::from_str("var ");
            s.append(name.as_str());
            s.append(": ");
            s.append(type_to_wgsl(*ty));
            s.append(";");
            s
        },
        NodeKindText::Output { name, ty } => {
            let mut s = String::from_str("let ");
            s.append(name.as_str());
            s.append(": ");
            s.append(type_to_wgsl(*ty));
            s.append(";");
            s
        },
        NodeKindText::ConstantFloat(v) => {
            let mut s = String::from_str("let n");
            push_dec(&mut s, n);
            s.append(": f32 = ");
            s.append(v.as_str());
            s.append("f;");
            s
        },
        NodeKindText::ConstantVec2(x, y) => {
            let mut s = String::from_str("let n");
            push_dec(&mut s, n);
            s.append(": vec2<f32> = vec2(");
            s.append(x.as_str());
            s.append(", ");
            s.append(y.as_str());
            s.append(");");
            s
        },
        NodeKindText::ConstantVec3(x, y, z) => {
            let mut s = String::from_str("let n");
            push_dec(&mut s, n);
            s.append(": vec3<f32> = vec3(");
            s.append(x.as_str());
            s.append(", ");
            s.append(y.as_str());
            s.append(", ");
            s.append(z.as_str());
            s.append(");");
            s
        },
        NodeKindText::ConstantVec4(x, y, z, w) => {
            let mut s = String::from_str("let n");
            push_dec(&mut s, n);
            s.append(": vec4<f32> = vec4(");
            s.append(x.as_str());
            s.append(", ");
            s.append(y.as_str());
            s.append(", ");
            s.append(z.as_str());
            s.append(", ");
            s.append(w.as_str());
            s.append(");");
            s
        },
        NodeKindText::ConstantBool(v) => {
            let mut s = String::from_str("let n");
            push_dec(&mut s, n);
            s.append(": bool = ");
            s.append(bool_str(*v));
            s.append(";");
            s
        },
        NodeKindText::Add => emit_wgsl_binop(n, "+"),
        NodeKindText::Sub => emit_wgsl_binop(n, "-"),
        NodeKindText::Mul => emit_wgsl_binop(n, "*"),
        NodeKindText::Div => emit_wgsl_binop(n, "/"),
        NodeKindText::Normalize => emit_id2("let n", n, " = normalize(v", ");"),
        NodeKindText::Length => emit_id2("let n", n, " = length(v", ");"),
        NodeKindText::Time => String::from_str("let time = time_uniform;"),
        NodeKindText::PbrMaster => String::from_str("// PBR Master node - outputs to fragment shader"),
        _ => {
            let mut s = String::from_str("// Node: ");
            s.append(node.debug.as_str());
            s
        },
    }
}

/// `head`, then one line per node of `order[..k]` found in `nodes`: its
/// GLSL statement and a newline.
pub open spec fn glsl_lines(head: Seq<char>, order: Seq<NodeId>, nodes: Map<u32, NodeText>, k: nat) -> Seq<char>
    decreases k,
{
    if k == 0 {
        head
    } else {
        let prev = glsl_lines(head, order, nodes, (k - 1) as nat);
        let id = order[k - 1].0;
        if nodes.contains_key(id) {
            prev + glsl_code(id, nodes[id].kind) + "\n"@
        } else {
            prev
        }
    }
}

/// `head`, then one line per node of `order[..k]` found in `nodes`: its
/// WGSL statement and a newline.
pub open spec fn wgsl_lines(head: Seq<char>, order: Seq<NodeId>, nodes: Map<u32, NodeText>, k: nat) -> Seq<char>
    decreases k,
{
    if k == 0 {
        head
    } else {
        let prev = wgsl_lines(head, order, nodes, (k - 1) as nat);
        let id = order[k - 1].0;
        if nodes.contains_key(id) {
            prev + wgsl_code(id, nodes[id]) + "\n"@
        } else {
            prev
        }
    }
}

/// A GLSL 330 program: the version line, a banner, and the statements of
/// the nodes in the given order.
pub open spec fn glsl_program(order: Seq<NodeId>, nodes: Map<u32, NodeText>) -> Seq<char> {
    glsl_lines("#version 330\n"@ + "// Generated shader from ShaderGraph\n\n"@, order, nodes, order.len())
}

/// A WGSL program: a banner and the statements of the nodes in the given order.
pub open spec fn wgsl_program(order: Seq<NodeId>, nodes: Map<u32, NodeText>) -> Seq<char> {
    wgsl_lines("// Generated shader from ShaderGraph\n\n"@, order, nodes, order.len())
}

/// The GLSL program of the nodes in the given order
pub fn glsl_program_code(order: &[NodeId], nodes: &HashMap<u32, NodeText>) -> (r: String)
    ensures
        r@ == glsl_program(order@, nodes@),
{
    broadcast use vstd::std_specs::hash::group_hash_axioms;

    let mut out = String::from_str("#version 330\n");
    out.append("// Generated shader from ShaderGraph\n\n");
    let ghost head = out@;
    let n = order.len();
    let mut i: usize = 0;
    while i < n
        invariant
            n == order@.len(),
            0 <= i <= n,
            head == "#version 330\n"@ + "// Generated shader from ShaderGraph\n\n"@,
            out@ == glsl_lines(head, order@, nodes@, i as nat),
        decreases n - i,
    {
        let id = order[i];
        match nodes.get(&id.0) {
            Some(node) => {
                let code = generate_node_code_glsl(id, &node.kind);
                out.append(code.as_str());
                out.append("\n");
            },
            None => {},
        }
        i += 1;
    }
    out
}

/// The WGSL program of the nodes in the given order
pub fn wgsl_program_code(order: &[NodeId], nodes: &HashMap<u32, NodeText>) -> (r: String)
    ensures
        r@ == wgsl_program(order@, nodes@),
{
    broadcast use vstd::std_specs::hash::group_hash_axioms;

    let mut out = String::from_str("// Generated shader from ShaderGraph\n\n");
    let ghost head = out@;
    let n = order.len();
    let mut i: usize = 0;
    while i < n
        invariant
            n == order@.len(),
            0 <= i <= n,
            head == "// Generated shader from ShaderGraph\n\n"@,
            out@ == wgsl_lines(head, order@, nodes@, i as nat),
        decreases n - i,
    {
        let id = order[i];
        match nodes.get(&id.0) {
            Some(node) => {
                let code = generate_node_code_wgsl(id, node);
                out.append(code.as_str());
                out.append("\n");
            },
            None => {},
        }
        i += 1;
    }
    out
}

impl ShaderGraphTopology {
    /// Generate GLSL 330 code for the graph, the nodes' payloads given by
    /// id: the statements of the nodes in a topological order. Fails
    /// exactly when the graph has no topological order.
    pub fn generate_glsl(&self, nodes: &HashMap<u32, NodeText>) -> (r: Result<String, CycleError>)
        ensures
            r is Ok <==> exists|order: Seq<NodeId>|
                is_topological_order(self.node_set(), self.edge_map(), order),
            r matches Ok(code) ==> exists|order: Seq<NodeId>|
                is_topological_order(self.node_set(), self.edge_map(), order) && code@ == glsl_program(
                    order,
                    nodes@,
                ),
    {
        match self.topological_order() {
            Ok(order) => Ok(glsl_program_code(order.as_slice(), nodes)),
            Err(e) => Err(e),
        }
    }

    /// Generate WGSL code for the graph, the nodes' payloads given by id:
    /// the statements of the nodes in a topological order. Fails exactly
    /// when the graph has no topological order.
    pub fn generate_wgsl(&self, nodes: &HashMap<u32, NodeText>) -> (r: Result<String, CycleError>)
        ensures
            r is Ok <==> exists|order: Seq<NodeId>|
                is_topological_order(self.node_set(), self.edge_map(), order),
            r matches Ok(code) ==> exists|order: Seq<NodeId>|
                is_topological_order(self.node_set(), self.edge_map(), order) && code@ == wgsl_program(
                    order,
                    nodes@,
                ),
    {
        match self.topological_order() {
            Ok(order) => Ok(wgsl_program_code(order.as_slice(), nodes)),
            Err(e) => Err(e),
        }
    }
}

/// A `ToSrgb` node converts linear to sRGB, raising its input to the power
/// 1/2.2; a `ToLinear` node converts back, raising to the power 2.2. Both
/// statements read `n<id> = pow(v<id>, vec3(<exponent>));`, and they never
/// coincide.
pub proof fn lemma_srgb_linear_exponents(id: u32)
    ensures
        glsl_code(id, NodeKindText::ToSrgb) == "n"@ + dec(id) + " = pow(v"@ + dec(id) + ", vec3("@
            + "1.0/2.2"@ + "));"@,
        glsl_code(id, NodeKindText::ToLinear) == "n"@ + dec(id) + " = pow(v"@ + dec(id) + ", vec3("@
            + "2.2"@ + "));"@,
        glsl_code(id, NodeKindText::ToSrgb) != glsl_code(id, NodeKindText::ToLinear),
{
    reveal_strlit(", vec3(1.0/2.2));");
    reveal_strlit(", vec3(2.2));");
    reveal_strlit(", vec3(");
    reveal_strlit("1.0/2.2");
    reveal_strlit("2.2");
    reveal_strlit("));");
    let head = "n"@ + dec(id) + " = pow(v"@ + dec(id);
    assert(", vec3(1.0/2.2));"@ =~= ", vec3("@ + "1.0/2.2"@ + "));"@);
    assert(", vec3(2.2));"@ =~= ", vec3("@ + "2.2"@ + "));"@);
    assert(head + ", vec3("@ + "1.0/2.2"@ + "));"@ =~= head + (", vec3("@ + "1.0/2.2"@ + "));"@));
    assert(head + ", vec3("@ + "2.2"@ + "));"@ =~= head + (", vec3("@ + "2.2"@ + "));"@));
    assert(glsl_code(id, NodeKindText::ToSrgb).len() != glsl_code(id, NodeKindText::ToLinear).len());
}

/// The four arithmetic nodes apply their own operator to their two inputs:
/// `n{id} = a{id} + b{id};` for `Add`, `-` for `Sub`, `*` for `Mul` and `/`
/// for `Div`, so no two of them emit the same statement.
pub proof fn lemma_glsl_arithmetic_operators(id: u32)
    ensures
        glsl_code(id, NodeKindText::Add) == "n"@ + dec(id) + " = a"@ + dec(id) + " + b"@ + dec(id) + ";"@,
        glsl_code(id, NodeKindText::Sub) == "n"@ + dec(id) + " = a"@ + dec(id) + " - b"@ + dec(id) + ";"@,
        glsl_code(id, NodeKindText::Mul) == "n"@ + dec(id) + " = a"@ + dec(id) + " * b"@ + dec(id) + ";"@,
        glsl_code(id, NodeKindText::Div) == "n"@ + dec(id) + " = a"@ + dec(id) + " / b"@ + dec(id) + ";"@,
        glsl_code(id, NodeKindText::Add) != glsl_code(id, NodeKindText::Sub),
        glsl_code(id, NodeKindText::Add) != glsl_code(id, NodeKindText::Mul),
        glsl_code(id, NodeKindText::Add) != glsl_code(id, NodeKindText::Div),
        glsl_code(id, NodeKindText::Sub) != glsl_code(id, NodeKindText::Mul),
        glsl_code(id, NodeKindText::Sub) != glsl_code(id, NodeKindText::Div),
        glsl_code(id, NodeKindText::Mul) != glsl_code(id, NodeKindText::Div),
{
    reveal_strlit(" ");
    reveal_strlit("+");
    reveal_strlit("-");
    reveal_strlit("*");
    reveal_strlit("/");
    reveal_strlit(" b");
    reveal_strlit(" + b");
    reveal_strlit(" - b");
    reveal_strlit(" * b");
    reveal_strlit(" / b");
    let head = "n"@ + dec(id) + " = a"@ + dec(id);
    let tail = dec(id) + ";"@;
    let at: int = head.len() as int + 1;
    let ops = seq!["+"@, "-"@, "*"@, "/"@];
    let spelled = seq![" + b"@, " - b"@, " * b"@, " / b"@];
    assert forall|i: int| 0 <= i < 4 implies {
        &&& glsl_binop(id, #[trigger] ops[i]) =~= head + spelled[i] + tail
        &&& glsl_binop(id, ops[i])[at] == spelled[i][1]
    } by {
        assert(" "@ + ops[i] + " b"@ =~= spelled[i]);
        assert(head + " "@ + ops[i] + " b"@ + dec(id) + ";"@ =~= head + (" "@ + ops[i] + " b"@) + tail);
    }
    assert(glsl_code(id, NodeKindText::Add) == glsl_binop(id, ops[0]));
    assert(glsl_code(id, NodeKindText::Sub) == glsl_binop(id, ops[1]));
    assert(glsl_code(id, NodeKindText::Mul) == glsl_binop(id, ops[2]));
    assert(glsl_code(id, NodeKindText::Div) == glsl_binop(id, ops[3]));
    assert(head + " + b"@ + dec(id) + ";"@ =~= head + " + b"@ + tail);
    assert(head + " - b"@ + dec(id) + ";"@ =~= head + " - b"@ + tail);
    assert(head + " * b"@ + dec(id) + ";"@ =~= head + " * b"@ + tail);
    assert(head + " / b"@ + dec(id) + ";"@ =~= head + " / b"@ + tail);
}

proof fn lemma_wgsl_binop_let(id: u32, op: Seq<char>)
    ensures
        wgsl_binop(id, op) == "let "@ + glsl_binop(id, op),
{
    reveal_strlit("let n");
    reveal_strlit("let ");
    reveal_strlit("n");
    assert(wgsl_binop(id, op) =~= "let "@ + glsl_binop(id, op));
}

proof fn lemma_wgsl_call1_let(id: u32, f: Seq<char>, wf: Seq<char>)
    requires
        wf == " = "@ + f + "(v"@,
    ensures
        "let n"@ + dec(id) + wf + dec(id) + ");"@ == "let "@ + glsl_call1(id, f),
{
    reveal_strlit("let n");
    reveal_strlit("let ");
    reveal_strlit("n");
    assert("let n"@ + dec(id) + wf + dec(id) + ");"@ =~= "let "@ + glsl_call1(id, f));
}

/// WGSL writes an arithmetic, `Normalize` or `Length` node as the same
/// statement as GLSL, bound with `let`.
pub proof fn lemma_wgsl_let_of_glsl(id: u32, node: NodeText)
    requires
        node.kind is Add || node.kind is Sub || node.kind is Mul || node.kind is Div
            || node.kind is Normalize || node.kind is Length,
    ensures
        wgsl_code(id, node) == "let "@ + glsl_code(id, node.kind),
{
    match node.kind {
        NodeKindText::Add => lemma_wgsl_binop_let(id, "+"@),
        NodeKindText::Sub => lemma_wgsl_binop_let(id, "-"@),
        NodeKindText::Mul => lemma_wgsl_binop_let(id, "*"@),
        NodeKindText::Div => lemma_wgsl_binop_let(id, "/"@),
        NodeKindText::Normalize => {
            reveal_strlit(" = normalize(v");
            reveal_strlit(" = ");
            reveal_strlit("normalize");
            reveal_strlit("(v");
            assert(" = normalize(v"@ =~= " = "@ + "normalize"@ + "(v"@);
            lemma_wgsl_call1_let(id, "normalize"@, " = normalize(v"@);
        },
        NodeKindText::Length => {
            reveal_strlit(" = length(v");
            reveal_strlit(" = ");
            reveal_strlit("length");
            reveal_strlit("(v");
            assert(" = length(v"@ =~= " = "@ + "length"@ + "(v"@);
            lemma_wgsl_call1_let(id, "length"@, " = length(v"@);
        },
        _ => {},
    }
}

} // verus!
