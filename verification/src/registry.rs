//! The socket-type registry: for every node kind, its display label,
//! category tag, and the ordered input/output socket lists. The ordering of
//! the socket lists is significant: it fixes positional argument order at
//! emission time. The registry is a total function over the closed node-kind
//! enumeration, so every instantiable kind has an entry and repeated lookups
//! always agree.

use vstd::pervasive::unreached;
use vstd::prelude::*;

use crate::types::{
    value_defined,
    InfoView, InputSocketType, InputSocketView, MyDataType, MyNodeType, MyValueType,
    NodeTypeInfo, OutputSocketType, OutputSocketView, ValueView,
};

verus! {

pub open spec fn sc_zero() -> ValueView {
    ValueView::Scalar(Some("0"@))
}

pub open spec fn sc_one() -> ValueView {
    ValueView::Scalar(Some("1"@))
}

pub open spec fn sc_half() -> ValueView {
    ValueView::Scalar(Some("0.5"@))
}

pub open spec fn v3_zero() -> ValueView {
    ValueView::Vec3(Some(("0"@, "0"@, "0"@)))
}

pub open spec fn v3_one() -> ValueView {
    ValueView::Vec3(Some(("1"@, "1"@, "1"@)))
}

pub open spec fn v3_half() -> ValueView {
    ValueView::Vec3(Some(("0.5"@, "0.5"@, "0.5"@)))
}

pub open spec fn in_lit_v(name: Seq<char>, ty: MyDataType, v: ValueView) -> InputSocketView {
    InputSocketView { name, ty, default: Ok(v) }
}

pub open spec fn in_builtin_v(name: Seq<char>, ty: MyDataType, expr: Seq<char>) -> InputSocketView {
    InputSocketView { name, ty, default: Err(expr) }
}

pub open spec fn out_v(name: Seq<char>, ty: MyDataType) -> OutputSocketView {
    OutputSocketView { name, ty }
}

/// The registry as a mathematical table: what `node_type_info` returns, seen
/// through its view.
pub open spec fn spec_info(kind: MyNodeType) -> InfoView {
    match kind {
        MyNodeType::MakeScalar => InfoView {
            label: "MakeScalar"@,
            categories: seq!["Scalar"@],
            input_sockets: seq![
                in_lit_v("value"@, MyDataType::Scalar, sc_zero()),
            ],
            output_sockets: seq![
                out_v("out"@, MyDataType::Scalar),
            ],
        },
        MyNodeType::Add => InfoView {
            label: "Add"@,
            categories: seq!["Scalar"@],
            input_sockets: seq![
                in_lit_v("v1"@, MyDataType::Scalar, sc_zero()),
                in_lit_v("v2"@, MyDataType::Scalar, sc_zero()),
            ],
            output_sockets: seq![
                out_v("out"@, MyDataType::Scalar),
            ],
        },
        MyNodeType::Sub => InfoView {
            label: "Sub"@,
            categories: seq!["Scalar"@],
            input_sockets: seq![
                in_lit_v("v1"@, MyDataType::Scalar, sc_one()),
                in_lit_v("v2"@, MyDataType::Scalar, sc_zero()),
            ],
            output_sockets: seq![
                out_v("out"@, MyDataType::Scalar),
            ],
        },
        MyNodeType::MakeVector => InfoView {
            label: "MakeVector"@,
            categories: seq!["VectorOperations"@],
            input_sockets: seq![
                in_lit_v("x"@, MyDataType::Scalar, sc_zero()),
                in_lit_v("y"@, MyDataType::Scalar, sc_zero()),
                in_lit_v("z"@, MyDataType::Scalar, sc_zero()),
            ],
            output_sockets: seq![
                out_v("out"@, MyDataType::Vec3),
            ],
        },
        MyNodeType::Add3 => InfoView {
            label: "Add3"@,
            categories: seq!["VectorOperations"@],
            input_sockets: seq![
                in_lit_v("v1"@, MyDataType::Vec3, v3_zero()),
                in_lit_v("v2"@, MyDataType::Vec3, v3_zero()),
            ],
            output_sockets: seq![
                out_v("out"@, MyDataType::Vec3),
            ],
        },
        MyNodeType::Sub3 => InfoView {
            label: "Sub3"@,
            categories: seq!["VectorOperations"@],
            input_sockets: seq![
                in_lit_v("v1"@, MyDataType::Vec3, v3_one()),
                in_lit_v("v2"@, MyDataType::Vec3, v3_zero()),
            ],
            output_sockets: seq![
                out_v("out"@, MyDataType::Vec3),
            ],
        },
        MyNodeType::VectorTimesScalar => InfoView {
            label: "VectorTimesScalar"@,
            categories: seq!["VectorOperations"@],
            input_sockets: seq![
                in_lit_v("vector"@, MyDataType::Vec3, v3_zero()),
                in_lit_v("scalar"@, MyDataType::Scalar, sc_zero()),
            ],
            output_sockets: seq![
                out_v("out"@, MyDataType::Vec3),
            ],
        },
        MyNodeType::NrmWS => InfoView {
            label: "NrmWS"@,
            categories: seq!["GeometryData"@],
            input_sockets: seq![],
            output_sockets: seq![
                out_v("out"@, MyDataType::Vec3),
            ],
        },
        MyNodeType::NrmVS => InfoView {
            label: "NrmVS"@,
            categories: seq!["GeometryData"@],
            input_sockets: seq![],
            output_sockets: seq![
                out_v("out"@, MyDataType::Vec3),
            ],
        },
        MyNodeType::FaceNrmWS => InfoView {
            label: "FaceNrmWS"@,
            categories: seq!["GeometryData"@],
            input_sockets: seq![],
            output_sockets: seq![
                out_v("out"@, MyDataType::Vec3),
            ],
        },
        MyNodeType::LightDirWS => InfoView {
            label: "LightDirWS"@,
            categories: seq!["Lighting"@],
            input_sockets: seq![],
            output_sockets: seq![
                out_v("out"@, MyDataType::Vec3),
            ],
        },
        MyNodeType::DotProduct => InfoView {
            label: "DotProduct"@,
            categories: seq!["VectorOperations"@],
            input_sockets: seq![
                in_lit_v("v1"@, MyDataType::Vec3, v3_zero()),
                in_lit_v("v2"@, MyDataType::Vec3, v3_zero()),
            ],
            output_sockets: seq![
                out_v("out"@, MyDataType::Scalar),
            ],
        },
        MyNodeType::Main => InfoView {
            label: "Main"@,
            categories: seq!["Main"@],
            input_sockets: seq![
                in_lit_v("color"@, MyDataType::Vec3, v3_zero()),
                in_builtin_v("alpha"@, MyDataType::Scalar, "MatAlpha()"@),
                in_builtin_v("posWS"@, MyDataType::Vec3, "pos.xyz"@),
                in_builtin_v("nrmWS"@, MyDataType::Vec3, "normal"@),
            ],
            output_sockets: seq![],
        },
        MyNodeType::FloatToVector3 => InfoView {
            label: "FloatToVector3"@,
            categories: seq!["VectorOperations"@],
            input_sockets: seq![
                in_lit_v("value"@, MyDataType::Scalar, sc_zero()),
            ],
            output_sockets: seq![
                out_v("out"@, MyDataType::Vec3),
            ],
        },
        MyNodeType::Saturate => InfoView {
            label: "Saturate"@,
            categories: seq!["Arithmetic"@],
            input_sockets: seq![
                in_lit_v("value"@, MyDataType::Scalar, sc_zero()),
            ],
            output_sockets: seq![
                out_v("out"@, MyDataType::Scalar),
            ],
        },
        MyNodeType::Saturate3 => InfoView {
            label: "Saturate3"@,
            categories: seq!["Arithmetic"@],
            input_sockets: seq![
                in_lit_v("value"@, MyDataType::Vec3, v3_zero()),
            ],
            output_sockets: seq![
                out_v("out"@, MyDataType::Vec3),
            ],
        },
        MyNodeType::FMA => InfoView {
            label: "FMA"@,
            categories: seq!["Arithmetic"@],
            input_sockets: seq![
                in_lit_v("a"@, MyDataType::Scalar, sc_zero()),
                in_lit_v("b"@, MyDataType::Scalar, sc_half()),
                in_lit_v("c"@, MyDataType::Scalar, sc_half()),
            ],
            output_sockets: seq![
                out_v("out"@, MyDataType::Scalar),
            ],
        },
        MyNodeType::FMA3 => InfoView {
            label: "FMA3"@,
            categories: seq!["Arithmetic"@],
            input_sockets: seq![
                in_lit_v("a"@, MyDataType::Vec3, v3_zero()),
                in_lit_v("b"@, MyDataType::Vec3, v3_half()),
                in_lit_v("c"@, MyDataType::Vec3, v3_half()),
            ],
            output_sockets: seq![
                out_v("out"@, MyDataType::Vec3),
            ],
        },
        MyNodeType::Pow => InfoView {
            label: "Pow"@,
            categories: seq!["Scalar"@],
            input_sockets: seq![
                in_lit_v("x"@, MyDataType::Scalar, sc_zero()),
                in_lit_v("y"@, MyDataType::Scalar, sc_one()),
            ],
            output_sockets: seq![
                out_v("out"@, MyDataType::Scalar),
            ],
        },
        MyNodeType::Pow3 => InfoView {
            label: "Pow3"@,
            categories: seq!["Scalar"@],
            input_sockets: seq![
                in_lit_v("x"@, MyDataType::Vec3, v3_zero()),
                in_lit_v("y"@, MyDataType::Scalar, sc_one()),
            ],
            output_sockets: seq![
                out_v("out"@, MyDataType::Vec3),
            ],
        },
        MyNodeType::Sqrt => InfoView {
            label: "Sqrt"@,
            categories: seq!["Scalar"@],
            input_sockets: seq![
                in_lit_v("x"@, MyDataType::Scalar, sc_zero()),
            ],
            output_sockets: seq![
                out_v("out"@, MyDataType::Scalar),
            ],
        },
        MyNodeType::UV0 => InfoView {
            label: "UV0"@,
            categories: seq!["GeometryData"@],
            input_sockets: seq![],
            output_sockets: seq![
                out_v("out"@, MyDataType::Vec3),
            ],
        },
        MyNodeType::MainTexure2D => InfoView {
            label: "MainTexure2D"@,
            categories: seq!["Main"@],
            input_sockets: seq![
                in_builtin_v("uv"@, MyDataType::Vec3, "vso.uv"@),
            ],
            output_sockets: seq![
                out_v("out"@, MyDataType::Vec3),
                out_v("alpha"@, MyDataType::Scalar),
            ],
        },
        MyNodeType::MatCapTexure2D => InfoView {
            label: "MatCapTexure2D"@,
            categories: seq!["Main"@],
            input_sockets: seq![
                in_lit_v("uv"@, MyDataType::Vec3, v3_zero()),
            ],
            output_sockets: seq![
                out_v("out"@, MyDataType::Vec3),
                out_v("alpha"@, MyDataType::Scalar),
            ],
        },
        MyNodeType::ToonTexure2D => InfoView {
            label: "ToonTexure2D"@,
            categories: seq!["Main"@],
            input_sockets: seq![
                in_lit_v("uv"@, MyDataType::Vec3, v3_zero()),
            ],
            output_sockets: seq![
                out_v("out"@, MyDataType::Vec3),
                out_v("alpha"@, MyDataType::Scalar),
            ],
        },
        MyNodeType::CustomTexture2D => InfoView {
            label: "CustomTexture2D"@,
            categories: seq!["Main"@],
            input_sockets: seq![
                in_builtin_v("uv"@, MyDataType::Vec3, "vso.uv"@),
            ],
            output_sockets: seq![
                out_v("out"@, MyDataType::Vec3),
                out_v("r"@, MyDataType::Scalar),
                out_v("g"@, MyDataType::Scalar),
                out_v("b"@, MyDataType::Scalar),
                out_v("alpha"@, MyDataType::Scalar),
            ],
        },
        MyNodeType::Step => InfoView {
            label: "Step"@,
            categories: seq!["Arithmetic"@],
            input_sockets: seq![
                in_lit_v("edge"@, MyDataType::Scalar, sc_zero()),
                in_lit_v("x"@, MyDataType::Scalar, sc_zero()),
            ],
            output_sockets: seq![
                out_v("out"@, MyDataType::Scalar),
            ],
        },
        MyNodeType::SmoothStep => InfoView {
            label: "SmoothStep"@,
            categories: seq!["Arithmetic"@],
            input_sockets: seq![
                in_lit_v("min"@, MyDataType::Scalar, sc_zero()),
                in_lit_v("max"@, MyDataType::Scalar, sc_one()),
                in_lit_v("x"@, MyDataType::Scalar, sc_zero()),
            ],
            output_sockets: seq![
                out_v("out"@, MyDataType::Scalar),
            ],
        },
        MyNodeType::ScreenPos => InfoView {
            label: "ScreenPos"@,
            categories: seq!["Arithmetic"@],
            input_sockets: seq![],
            output_sockets: seq![
                out_v("out"@, MyDataType::Vec3),
            ],
        },
        MyNodeType::PosWS => InfoView {
            label: "PosWS"@,
            categories: seq!["Arithmetic"@],
            input_sockets: seq![],
            output_sockets: seq![
                out_v("out"@, MyDataType::Vec3),
            ],
        },
        MyNodeType::CameraPos => InfoView {
            label: "CameraPos"@,
            categories: seq!["Arithmetic"@],
            input_sockets: seq![],
            output_sockets: seq![
                out_v("out"@, MyDataType::Vec3),
            ],
        },
        MyNodeType::Depth => InfoView {
            label: "Depth"@,
            categories: seq!["Arithmetic"@],
            input_sockets: seq![],
            output_sockets: seq![
                out_v("out"@, MyDataType::Scalar),
            ],
        },
        MyNodeType::Fresnel => InfoView {
            label: "Fresnel"@,
            categories: seq!["Arithmetic"@],
            input_sockets: seq![
                in_lit_v("exp"@, MyDataType::Scalar, sc_one()),
            ],
            output_sockets: seq![
                out_v("out"@, MyDataType::Scalar),
            ],
        },
        MyNodeType::ViewDirWS => InfoView {
            label: "ViewDirWS"@,
            categories: seq!["Arithmetic"@],
            input_sockets: seq![],
            output_sockets: seq![
                out_v("out"@, MyDataType::Vec3),
            ],
        },
        MyNodeType::Max => InfoView {
            label: "Max"@,
            categories: seq!["Arithmetic"@],
            input_sockets: seq![
                in_lit_v("a"@, MyDataType::Scalar, sc_zero()),
                in_lit_v("b"@, MyDataType::Scalar, sc_zero()),
            ],
            output_sockets: seq![
                out_v("out"@, MyDataType::Scalar),
            ],
        },
        MyNodeType::Min => InfoView {
            label: "Min"@,
            categories: seq!["Arithmetic"@],
            input_sockets: seq![
                in_lit_v("a"@, MyDataType::Scalar, sc_zero()),
                in_lit_v("b"@, MyDataType::Scalar, sc_one()),
            ],
            output_sockets: seq![
                out_v("out"@, MyDataType::Scalar),
            ],
        },
        MyNodeType::Mul => InfoView {
            label: "Mul"@,
            categories: seq!["Arithmetic"@],
            input_sockets: seq![
                in_lit_v("a"@, MyDataType::Scalar, sc_zero()),
                in_lit_v("b"@, MyDataType::Scalar, sc_one()),
            ],
            output_sockets: seq![
                out_v("out"@, MyDataType::Scalar),
            ],
        },
        MyNodeType::Mul3 => InfoView {
            label: "Mul3"@,
            categories: seq!["Arithmetic"@],
            input_sockets: seq![
                in_lit_v("a"@, MyDataType::Vec3, v3_zero()),
                in_lit_v("b"@, MyDataType::Vec3, v3_one()),
            ],
            output_sockets: seq![
                out_v("out"@, MyDataType::Vec3),
            ],
        },
        MyNodeType::Div => InfoView {
            label: "Div"@,
            categories: seq!["Arithmetic"@],
            input_sockets: seq![
                in_lit_v("a"@, MyDataType::Scalar, sc_one()),
                in_lit_v("b"@, MyDataType::Scalar, sc_zero()),
            ],
            output_sockets: seq![
                out_v("out"@, MyDataType::Scalar),
            ],
        },
        MyNodeType::Sin => InfoView {
            label: "Sin"@,
            categories: seq!["Arithmetic"@],
            input_sockets: seq![
                in_lit_v("v"@, MyDataType::Scalar, sc_zero()),
            ],
            output_sockets: seq![
                out_v("out"@, MyDataType::Scalar),
            ],
        },
        MyNodeType::Cos => InfoView {
            label: "Cos"@,
            categories: seq!["Arithmetic"@],
            input_sockets: seq![
                in_lit_v("v"@, MyDataType::Scalar, sc_zero()),
            ],
            output_sockets: seq![
                out_v("out"@, MyDataType::Scalar),
            ],
        },
        MyNodeType::Lerp => InfoView {
            label: "Lerp"@,
            categories: seq!["Arithmetic"@],
            input_sockets: seq![
                in_lit_v("a"@, MyDataType::Scalar, sc_zero()),
                in_lit_v("b"@, MyDataType::Scalar, sc_one()),
                in_lit_v("t"@, MyDataType::Scalar, sc_zero()),
            ],
            output_sockets: seq![
                out_v("out"@, MyDataType::Scalar),
            ],
        },
        MyNodeType::Lerp3 => InfoView {
            label: "Lerp3"@,
            categories: seq!["Arithmetic"@],
            input_sockets: seq![
                in_lit_v("a"@, MyDataType::Vec3, v3_zero()),
                in_lit_v("b"@, MyDataType::Vec3, v3_one()),
                in_lit_v("t"@, MyDataType::Scalar, sc_zero()),
            ],
            output_sockets: seq![
                out_v("out"@, MyDataType::Vec3),
            ],
        },
        MyNodeType::Normalize => InfoView {
            label: "Normalize"@,
            categories: seq!["Arithmetic"@],
            input_sockets: seq![
                in_lit_v("nrm"@, MyDataType::Vec3, v3_zero()),
            ],
            output_sockets: seq![
                out_v("out"@, MyDataType::Vec3),
            ],
        },
        MyNodeType::MatAlpha => InfoView {
            label: "MatAlpha"@,
            categories: seq!["Arithmetic"@],
            input_sockets: seq![],
            output_sockets: seq![
                out_v("out"@, MyDataType::Scalar),
            ],
        },
        MyNodeType::Reflect => InfoView {
            label: "Reflect"@,
            categories: seq!["Arithmetic"@],
            input_sockets: seq![
                in_lit_v("I"@, MyDataType::Vec3, v3_zero()),
                in_lit_v("N"@, MyDataType::Vec3, v3_zero()),
            ],
            output_sockets: seq![
                out_v("out"@, MyDataType::Vec3),
            ],
        },
        MyNodeType::HalfDirection => InfoView {
            label: "HalfDirection"@,
            categories: seq!["Arithmetic"@],
            input_sockets: seq![],
            output_sockets: seq![
                out_v("out"@, MyDataType::Vec3),
            ],
        },
        MyNodeType::ComponentMask => InfoView {
            label: "ComponentMask"@,
            categories: seq!["Arithmetic"@],
            input_sockets: seq![
                in_lit_v("vec"@, MyDataType::Vec3, v3_zero()),
            ],
            output_sockets: seq![
                out_v("x"@, MyDataType::Scalar),
                out_v("y"@, MyDataType::Scalar),
                out_v("z"@, MyDataType::Scalar),
            ],
        },
        MyNodeType::VSPosWS => InfoView {
            label: "VSPosWS"@,
            categories: seq!["VertexShader"@],
            input_sockets: seq![],
            output_sockets: seq![
                out_v("out"@, MyDataType::Vec3),
            ],
        },
        MyNodeType::VSUV0 => InfoView {
            label: "VSUV0"@,
            categories: seq!["VertexShader"@],
            input_sockets: seq![],
            output_sockets: seq![
                out_v("out"@, MyDataType::Vec3),
            ],
        },
        MyNodeType::VSNrmWS => InfoView {
            label: "VSNrmWS"@,
            categories: seq!["VertexShader"@],
            input_sockets: seq![],
            output_sockets: seq![
                out_v("out"@, MyDataType::Vec3),
            ],
        },
        MyNodeType::TimeSync => InfoView {
            label: "TimeSync"@,
            categories: seq!["Scalar"@],
            input_sockets: seq![],
            output_sockets: seq![
                out_v("out"@, MyDataType::Scalar),
            ],
        },
        MyNodeType::TimeFree => InfoView {
            label: "TimeFree"@,
            categories: seq!["Scalar"@],
            input_sockets: seq![],
            output_sockets: seq![
                out_v("out"@, MyDataType::Scalar),
            ],
        },
        MyNodeType::Route => InfoView {
            label: "Route"@,
            categories: seq!["Utility"@],
            input_sockets: seq![
                in_lit_v("v"@, MyDataType::Scalar, sc_zero()),
            ],
            output_sockets: seq![
                out_v("out"@, MyDataType::Scalar),
            ],
        },
        MyNodeType::Route3 => InfoView {
            label: "Route3"@,
            categories: seq!["Utility"@],
            input_sockets: seq![
                in_lit_v("v"@, MyDataType::Vec3, v3_zero()),
            ],
            output_sockets: seq![
                out_v("out"@, MyDataType::Vec3),
            ],
        },
        MyNodeType::RgbToHsv => InfoView {
            label: "RgbToHsv"@,
            categories: seq!["Utility"@],
            input_sockets: seq![
                in_lit_v("rgb"@, MyDataType::Vec3, v3_zero()),
            ],
            output_sockets: seq![
                out_v("out"@, MyDataType::Vec3),
                out_v("h"@, MyDataType::Scalar),
                out_v("s"@, MyDataType::Scalar),
                out_v("v"@, MyDataType::Scalar),
            ],
        },
        MyNodeType::HsvToRgb => InfoView {
            label: "HsvToRgb"@,
            categories: seq!["Utility"@],
            input_sockets: seq![
                in_lit_v("h"@, MyDataType::Scalar, sc_zero()),
                in_lit_v("s"@, MyDataType::Scalar, sc_zero()),
                in_lit_v("v"@, MyDataType::Scalar, sc_zero()),
            ],
            output_sockets: seq![
                out_v("out"@, MyDataType::Vec3),
            ],
        },
        MyNodeType::AdjustHsv => InfoView {
            label: "AdjustHsv"@,
            categories: seq!["Utility"@],
            input_sockets: seq![
                in_lit_v("rgb"@, MyDataType::Vec3, v3_zero()),
                in_lit_v("h"@, MyDataType::Scalar, sc_zero()),
                in_lit_v("s"@, MyDataType::Scalar, sc_one()),
                in_lit_v("v"@, MyDataType::Scalar, sc_one()),
            ],
            output_sockets: seq![
                out_v("out"@, MyDataType::Vec3),
            ],
        },
    }
}

fn val_one() -> (r: MyValueType)
    ensures
        r@ == sc_one(),
{
    MyValueType::scalar(String::from_str("1"))
}

fn val_half() -> (r: MyValueType)
    ensures
        r@ == sc_half(),
{
    MyValueType::scalar(String::from_str("0.5"))
}

fn vec_one() -> (r: MyValueType)
    ensures
        r@ == v3_one(),
{
    MyValueType::vector(String::from_str("1"), String::from_str("1"), String::from_str("1"))
}

fn vec_half() -> (r: MyValueType)
    ensures
        r@ == v3_half(),
{
    MyValueType::vector(
        String::from_str("0.5"),
        String::from_str("0.5"),
        String::from_str("0.5"),
    )
}

fn in_lit(name: &str, ty: MyDataType, v: MyValueType) -> (r: InputSocketType)
    ensures
        r@ == in_lit_v(name@, ty, v@),
{
    InputSocketType { name: String::from_str(name), ty, default: Ok(v) }
}

fn in_builtin(name: &str, ty: MyDataType, expr: &str) -> (r: InputSocketType)
    ensures
        r@ == in_builtin_v(name@, ty, expr@),
{
    InputSocketType { name: String::from_str(name), ty, default: Err(String::from_str(expr)) }
}

fn out_sock(name: &str, ty: MyDataType) -> (r: OutputSocketType)
    ensures
        r@ == out_v(name@, ty),
{
    OutputSocketType { name: String::from_str(name), ty }
}

fn mk_info(
    label: &str,
    category: &str,
    input_sockets: Vec<InputSocketType>,
    output_sockets: Vec<OutputSocketType>,
) -> (r: NodeTypeInfo)
    ensures
        r@.label == label@,
        r@.categories =~= seq![category@],
        r@.input_sockets == input_sockets@.map_values(|s: InputSocketType| s@),
        r@.output_sockets == output_sockets@.map_values(|s: OutputSocketType| s@),
{
    let mut categories: Vec<String> = Vec::new();
    categories.push(String::from_str(category));
    let r = NodeTypeInfo {
        label: String::from_str(label),
        categories,
        input_sockets,
        output_sockets,
    };
    assert(r@.categories =~= seq![category@]);
    r
}

fn info_group_a(kind: MyNodeType) -> (info: NodeTypeInfo)
    requires
        (matches!(kind, MyNodeType::MakeScalar | MyNodeType::Add | MyNodeType::Sub | MyNodeType::MakeVector | MyNodeType::Add3 | MyNodeType::Sub3 | MyNodeType::VectorTimesScalar | MyNodeType::NrmWS | MyNodeType::NrmVS | MyNodeType::FaceNrmWS | MyNodeType::LightDirWS | MyNodeType::DotProduct)),
    ensures
        info@ == spec_info(kind),
{
    match kind {
        MyNodeType::MakeScalar => {
            let mut ins: Vec<InputSocketType> = Vec::new();
            ins.push(in_lit("value", MyDataType::Scalar, MyValueType::default_scalar()));
            let mut outs: Vec<OutputSocketType> = Vec::new();
            outs.push(out_sock("out", MyDataType::Scalar));
            let info = mk_info("MakeScalar", "Scalar", ins, outs);
            assert(info@ =~~= spec_info(kind));
            info
        },
        MyNodeType::Add => {
            let mut ins: Vec<InputSocketType> = Vec::new();
            ins.push(in_lit("v1", MyDataType::Scalar, MyValueType::default_scalar()));
            ins.push(in_lit("v2", MyDataType::Scalar, MyValueType::default_scalar()));
            let mut outs: Vec<OutputSocketType> = Vec::new();
            outs.push(out_sock("out", MyDataType::Scalar));
            let info = mk_info("Add", "Scalar", ins, outs);
            assert(info@ =~~= spec_info(kind));
            info
        },
        MyNodeType::Sub => {
            let mut ins: Vec<InputSocketType> = Vec::new();
            ins.push(in_lit("v1", MyDataType::Scalar, val_one()));
            ins.push(in_lit("v2", MyDataType::Scalar, MyValueType::default_scalar()));
            let mut outs: Vec<OutputSocketType> = Vec::new();
            outs.push(out_sock("out", MyDataType::Scalar));
            let info = mk_info("Sub", "Scalar", ins, outs);
            assert(info@ =~~= spec_info(kind));
            info
        },
        MyNodeType::MakeVector => {
            let mut ins: Vec<InputSocketType> = Vec::new();
            ins.push(in_lit("x", MyDataType::Scalar, MyValueType::default_scalar()));
            ins.push(in_lit("y", MyDataType::Scalar, MyValueType::default_scalar()));
            ins.push(in_lit("z", MyDataType::Scalar, MyValueType::default_scalar()));
            let mut outs: Vec<OutputSocketType> = Vec::new();
            outs.push(out_sock("out", MyDataType::Vec3));
            let info = mk_info("MakeVector", "VectorOperations", ins, outs);
            assert(info@ =~~= spec_info(kind));
            info
        },
        MyNodeType::Add3 => {
            let mut ins: Vec<InputSocketType> = Vec::new();
            ins.push(in_lit("v1", MyDataType::Vec3, MyValueType::default_vector()));
            ins.push(in_lit("v2", MyDataType::Vec3, MyValueType::default_vector()));
            let mut outs: Vec<OutputSocketType> = Vec::new();
            outs.push(out_sock("out", MyDataType::Vec3));
            let info = mk_info("Add3", "VectorOperations", ins, outs);
            assert(info@ =~~= spec_info(kind));
            info
        },
        MyNodeType::Sub3 => {
            let mut ins: Vec<InputSocketType> = Vec::new();
            ins.push(in_lit("v1", MyDataType::Vec3, vec_one()));
            ins.push(in_lit("v2", MyDataType::Vec3, MyValueType::default_vector()));
            let mut outs: Vec<OutputSocketType> = Vec::new();
            outs.push(out_sock("out", MyDataType::Vec3));
            let info = mk_info("Sub3", "VectorOperations", ins, outs);
            assert(info@ =~~= spec_info(kind));
            info
        },
        MyNodeType::VectorTimesScalar => {
            let mut ins: Vec<InputSocketType> = Vec::new();
            ins.push(in_lit("vector", MyDataType::Vec3, MyValueType::default_vector()));
            ins.push(in_lit("scalar", MyDataType::Scalar, MyValueType::default_scalar()));
            let mut outs: Vec<OutputSocketType> = Vec::new();
            outs.push(out_sock("out", MyDataType::Vec3));
            let info = mk_info("VectorTimesScalar", "VectorOperations", ins, outs);
            assert(info@ =~~= spec_info(kind));
            info
        },
        MyNodeType::NrmWS => {
            let mut ins: Vec<InputSocketType> = Vec::new();
            let mut outs: Vec<OutputSocketType> = Vec::new();
            outs.push(out_sock("out", MyDataType::Vec3));
            let info = mk_info("NrmWS", "GeometryData", ins, outs);
            assert(info@ =~~= spec_info(kind));
            info
        },
        MyNodeType::NrmVS => {
            let mut ins: Vec<InputSocketType> = Vec::new();
            let mut outs: Vec<OutputSocketType> = Vec::new();
            outs.push(out_sock("out", MyDataType::Vec3));
            let info = mk_info("NrmVS", "GeometryData", ins, outs);
            assert(info@ =~~= spec_info(kind));
            info
        },
        MyNodeType::FaceNrmWS => {
            let mut ins: Vec<InputSocketType> = Vec::new();
            let mut outs: Vec<OutputSocketType> = Vec::new();
            outs.push(out_sock("out", MyDataType::Vec3));
            let info = mk_info("FaceNrmWS", "GeometryData", ins, outs);
            assert(info@ =~~= spec_info(kind));
            info
        },
        MyNodeType::LightDirWS => {
            let mut ins: Vec<InputSocketType> = Vec::new();
            let mut outs: Vec<OutputSocketType> = Vec::new();
            outs.push(out_sock("out", MyDataType::Vec3));
            let info = mk_info("LightDirWS", "Lighting", ins, outs);
            assert(info@ =~~= spec_info(kind));
            info
        },
        MyNodeType::DotProduct => {
            let mut ins: Vec<InputSocketType> = Vec::new();
            ins.push(in_lit("v1", MyDataType::Vec3, MyValueType::default_vector()));
            ins.push(in_lit("v2", MyDataType::Vec3, MyValueType::default_vector()));
            let mut outs: Vec<OutputSocketType> = Vec::new();
            outs.push(out_sock("out", MyDataType::Scalar));
            let info = mk_info("DotProduct", "VectorOperations", ins, outs);
            assert(info@ =~~= spec_info(kind));
            info
        },
        _ => unreached(),
    }
}

fn info_group_b(kind: MyNodeType) -> (info: NodeTypeInfo)
    requires
        (matches!(kind, MyNodeType::Main | MyNodeType::FloatToVector3 | MyNodeType::Saturate | MyNodeType::Saturate3 | MyNodeType::FMA | MyNodeType::FMA3 | MyNodeType::Pow | MyNodeType::Pow3 | MyNodeType::Sqrt | MyNodeType::UV0 | MyNodeType::MainTexure2D | MyNodeType::MatCapTexure2D)),
    ensures
        info@ == spec_info(kind),
{
    match kind {
        MyNodeType::Main => {
            let mut ins: Vec<InputSocketType> = Vec::new();
            ins.push(in_lit("color", MyDataType::Vec3, MyValueType::default_vector()));
            ins.push(in_builtin("alpha", MyDataType::Scalar, "MatAlpha()"));
            ins.push(in_builtin("posWS", MyDataType::Vec3, "pos.xyz"));
            ins.push(in_builtin("nrmWS", MyDataType::Vec3, "normal"));
            let mut outs: Vec<OutputSocketType> = Vec::new();
            let info = mk_info("Main", "Main", ins, outs);
            assert(info@ =~~= spec_info(kind));
            info
        },
        MyNodeType::FloatToVector3 => {
            let mut ins: Vec<InputSocketType> = Vec::new();
            ins.push(in_lit("value", MyDataType::Scalar, MyValueType::default_scalar()));
            let mut outs: Vec<OutputSocketType> = Vec::new();
            outs.push(out_sock("out", MyDataType::Vec3));
            let info = mk_info("FloatToVector3", "VectorOperations", ins, outs);
            assert(info@ =~~= spec_info(kind));
            info
        },
        MyNodeType::Saturate => {
            let mut ins: Vec<InputSocketType> = Vec::new();
            ins.push(in_lit("value", MyDataType::Scalar, MyValueType::default_scalar()));
            let mut outs: Vec<OutputSocketType> = Vec::new();
            outs.push(out_sock("out", MyDataType::Scalar));
            let info = mk_info("Saturate", "Arithmetic", ins, outs);
            assert(info@ =~~= spec_info(kind));
            info
        },
        MyNodeType::Saturate3 => {
            let mut ins: Vec<InputSocketType> = Vec::new();
            ins.push(in_lit("value", MyDataType::Vec3, MyValueType::default_vector()));
            let mut outs: Vec<OutputSocketType> = Vec::new();
            outs.push(out_sock("out", MyDataType::Vec3));
            let info = mk_info("Saturate3", "Arithmetic", ins, outs);
            assert(info@ =~~= spec_info(kind));
            info
        },
        MyNodeType::FMA => {
            let mut ins: Vec<InputSocketType> = Vec::new();
            ins.push(in_lit("a", MyDataType::Scalar, MyValueType::default_scalar()));
            ins.push(in_lit("b", MyDataType::Scalar, val_half()));
            ins.push(in_lit("c", MyDataType::Scalar, val_half()));
            let mut outs: Vec<OutputSocketType> = Vec::new();
            outs.push(out_sock("out", MyDataType::Scalar));
            let info = mk_info("FMA", "Arithmetic", ins, outs);
            assert(info@ =~~= spec_info(kind));
            info
        },
        MyNodeType::FMA3 => {
            let mut ins: Vec<InputSocketType> = Vec::new();
            ins.push(in_lit("a", MyDataType::Vec3, MyValueType::default_vector()));
            ins.push(in_lit("b", MyDataType::Vec3, vec_half()));
            ins.push(in_lit("c", MyDataType::Vec3, vec_half()));
            let mut outs: Vec<OutputSocketType> = Vec::new();
            outs.push(out_sock("out", MyDataType::Vec3));
            let info = mk_info("FMA3", "Arithmetic", ins, outs);
            assert(info@ =~~= spec_info(kind));
            info
        },
        MyNodeType::Pow => {
            let mut ins: Vec<InputSocketType> = Vec::new();
            ins.push(in_lit("x", MyDataType::Scalar, MyValueType::default_scalar()));
            ins.push(in_lit("y", MyDataType::Scalar, val_one()));
            let mut outs: Vec<OutputSocketType> = Vec::new();
            outs.push(out_sock("out", MyDataType::Scalar));
            let info = mk_info("Pow", "Scalar", ins, outs);
            assert(info@ =~~= spec_info(kind));
            info
        },
        MyNodeType::Pow3 => {
            let mut ins: Vec<InputSocketType> = Vec::new();
            ins.push(in_lit("x", MyDataType::Vec3, MyValueType::default_vector()));
            ins.push(in_lit("y", MyDataType::Scalar, val_one()));
            let mut outs: Vec<OutputSocketType> = Vec::new();
            outs.push(out_sock("out", MyDataType::Vec3));
            let info = mk_info("Pow3", "Scalar", ins, outs);
            assert(info@ =~~= spec_info(kind));
            info
        },
        MyNodeType::Sqrt => {
            let mut ins: Vec<InputSocketType> = Vec::new();
            ins.push(in_lit("x", MyDataType::Scalar, MyValueType::default_scalar()));
            let mut outs: Vec<OutputSocketType> = Vec::new();
            outs.push(out_sock("out", MyDataType::Scalar));
            let info = mk_info("Sqrt", "Scalar", ins, outs);
            assert(info@ =~~= spec_info(kind));
            info
        },
        MyNodeType::UV0 => {
            let mut ins: Vec<InputSocketType> = Vec::new();
            let mut outs: Vec<OutputSocketType> = Vec::new();
            outs.push(out_sock("out", MyDataType::Vec3));
            let info = mk_info("UV0", "GeometryData", ins, outs);
            assert(info@ =~~= spec_info(kind));
            info
        },
        MyNodeType::MainTexure2D => {
            let mut ins: Vec<InputSocketType> = Vec::new();
            ins.push(in_builtin("uv", MyDataType::Vec3, "vso.uv"));
            let mut outs: Vec<OutputSocketType> = Vec::new();
            outs.push(out_sock("out", MyDataType::Vec3));
            outs.push(out_sock("alpha", MyDataType::Scalar));
            let info = mk_info("MainTexure2D", "Main", ins, outs);
            assert(info@ =~~= spec_info(kind));
            info
        },
        MyNodeType::MatCapTexure2D => {
            let mut ins: Vec<InputSocketType> = Vec::new();
            ins.push(in_lit("uv", MyDataType::Vec3, MyValueType::default_vector()));
            let mut outs: Vec<OutputSocketType> = Vec::new();
            outs.push(out_sock("out", MyDataType::Vec3));
            outs.push(out_sock("alpha", MyDataType::Scalar));
            let info = mk_info("MatCapTexure2D", "Main", ins, outs);
            assert(info@ =~~= spec_info(kind));
            info
        },
        _ => unreached(),
    }
}

fn info_group_c(kind: MyNodeType) -> (info: NodeTypeInfo)
    requires
        (matches!(kind, MyNodeType::ToonTexure2D | MyNodeType::CustomTexture2D | MyNodeType::Step | MyNodeType::SmoothStep | MyNodeType::ScreenPos | MyNodeType::PosWS | MyNodeType::CameraPos | MyNodeType::Depth | MyNodeType::Fresnel | MyNodeType::ViewDirWS | MyNodeType::Max | MyNodeType::Min)),
    ensures
        info@ == spec_info(kind),
{
    match kind {
        MyNodeType::ToonTexure2D => {
            let mut ins: Vec<InputSocketType> = Vec::new();
            ins.push(in_lit("uv", MyDataType::Vec3, MyValueType::default_vector()));
            let mut outs: Vec<OutputSocketType> = Vec::new();
            outs.push(out_sock("out", MyDataType::Vec3));
            outs.push(out_sock("alpha", MyDataType::Scalar));
            let info = mk_info("ToonTexure2D", "Main", ins, outs);
            assert(info@ =~~= spec_info(kind));
            info
        },
        MyNodeType::CustomTexture2D => {
            let mut ins: Vec<InputSocketType> = Vec::new();
            ins.push(in_builtin("uv", MyDataType::Vec3, "vso.uv"));
            let mut outs: Vec<OutputSocketType> = Vec::new();
            outs.push(out_sock("out", MyDataType::Vec3));
            outs.push(out_sock("r", MyDataType::Scalar));
            outs.push(out_sock("g", MyDataType::Scalar));
            outs.push(out_sock("b", MyDataType::Scalar));
            outs.push(out_sock("alpha", MyDataType::Scalar));
            let info = mk_info("CustomTexture2D", "Main", ins, outs);
            assert(info@ =~~= spec_info(kind));
            info
        },
        MyNodeType::Step => {
            let mut ins: Vec<InputSocketType> = Vec::new();
            ins.push(in_lit("edge", MyDataType::Scalar, MyValueType::default_scalar()));
            ins.push(in_lit("x", MyDataType::Scalar, MyValueType::default_scalar()));
            let mut outs: Vec<OutputSocketType> = Vec::new();
            outs.push(out_sock("out", MyDataType::Scalar));
            let info = mk_info("Step", "Arithmetic", ins, outs);
            assert(info@ =~~= spec_info(kind));
            info
        },
        MyNodeType::SmoothStep => {
            let mut ins: Vec<InputSocketType> = Vec::new();
            ins.push(in_lit("min", MyDataType::Scalar, MyValueType::default_scalar()));
            ins.push(in_lit("max", MyDataType::Scalar, val_one()));
            ins.push(in_lit("x", MyDataType::Scalar, MyValueType::default_scalar()));
            let mut outs: Vec<OutputSocketType> = Vec::new();
            outs.push(out_sock("out", MyDataType::Scalar));
            let info = mk_info("SmoothStep", "Arithmetic", ins, outs);
            assert(info@ =~~= spec_info(kind));
            info
        },
        MyNodeType::ScreenPos => {
            let mut ins: Vec<InputSocketType> = Vec::new();
            let mut outs: Vec<OutputSocketType> = Vec::new();
            outs.push(out_sock("out", MyDataType::Vec3));
            let info = mk_info("ScreenPos", "Arithmetic", ins, outs);
            assert(info@ =~~= spec_info(kind));
            info
        },
        MyNodeType::PosWS => {
            let mut ins: Vec<InputSocketType> = Vec::new();
            let mut outs: Vec<OutputSocketType> = Vec::new();
            outs.push(out_sock("out", MyDataType::Vec3));
            let info = mk_info("PosWS", "Arithmetic", ins, outs);
            assert(info@ =~~= spec_info(kind));
            info
        },
        MyNodeType::CameraPos => {
            let mut ins: Vec<InputSocketType> = Vec::new();
            let mut outs: Vec<OutputSocketType> = Vec::new();
            outs.push(out_sock("out", MyDataType::Vec3));
            let info = mk_info("CameraPos", "Arithmetic", ins, outs);
            assert(info@ =~~= spec_info(kind));
            info
        },
        MyNodeType::Depth => {
            let mut ins: Vec<InputSocketType> = Vec::new();
            let mut outs: Vec<OutputSocketType> = Vec::new();
            outs.push(out_sock("out", MyDataType::Scalar));
            let info = mk_info("Depth", "Arithmetic", ins, outs);
            assert(info@ =~~= spec_info(kind));
            info
        },
        MyNodeType::Fresnel => {
            let mut ins: Vec<InputSocketType> = Vec::new();
            ins.push(in_lit("exp", MyDataType::Scalar, val_one()));
            let mut outs: Vec<OutputSocketType> = Vec::new();
            outs.push(out_sock("out", MyDataType::Scalar));
            let info = mk_info("Fresnel", "Arithmetic", ins, outs);
            assert(info@ =~~= spec_info(kind));
            info
        },
        MyNodeType::ViewDirWS => {
            let mut ins: Vec<InputSocketType> = Vec::new();
            let mut outs: Vec<OutputSocketType> = Vec::new();
            outs.push(out_sock("out", MyDataType::Vec3));
            let info = mk_info("ViewDirWS", "Arithmetic", ins, outs);
            assert(info@ =~~= spec_info(kind));
            info
        },
        MyNodeType::Max => {
            let mut ins: Vec<InputSocketType> = Vec::new();
            ins.push(in_lit("a", MyDataType::Scalar, MyValueType::default_scalar()));
            ins.push(in_lit("b", MyDataType::Scalar, MyValueType::default_scalar()));
            let mut outs: Vec<OutputSocketType> = Vec::new();
            outs.push(out_sock("out", MyDataType::Scalar));
            let info = mk_info("Max", "Arithmetic", ins, outs);
            assert(info@ =~~= spec_info(kind));
            info
        },
        MyNodeType::Min => {
            let mut ins: Vec<InputSocketType> = Vec::new();
            ins.push(in_lit("a", MyDataType::Scalar, MyValueType::default_scalar()));
            ins.push(in_lit("b", MyDataType::Scalar, val_one()));
            let mut outs: Vec<OutputSocketType> = Vec::new();
            outs.push(out_sock("out", MyDataType::Scalar));
            let info = mk_info("Min", "Arithmetic", ins, outs);
            assert(info@ =~~= spec_info(kind));
            info
        },
        _ => unreached(),
    }
}

fn info_group_d(kind: MyNodeType) -> (info: NodeTypeInfo)
    requires
        (matches!(kind, MyNodeType::Mul | MyNodeType::Mul3 | MyNodeType::Div | MyNodeType::Sin | MyNodeType::Cos | MyNodeType::Lerp | MyNodeType::Lerp3 | MyNodeType::Normalize | MyNodeType::MatAlpha | MyNodeType::Reflect | MyNodeType::HalfDirection | MyNodeType::ComponentMask)),
    ensures
        info@ == spec_info(kind),
{
    match kind {
        MyNodeType::Mul => {
            let mut ins: Vec<InputSocketType> = Vec::new();
            ins.push(in_lit("a", MyDataType::Scalar, MyValueType::default_scalar()));
            ins.push(in_lit("b", MyDataType::Scalar, val_one()));
            let mut outs: Vec<OutputSocketType> = Vec::new();
            outs.push(out_sock("out", MyDataType::Scalar));
            let info = mk_info("Mul", "Arithmetic", ins, outs);
            assert(info@ =~~= spec_info(kind));
            info
        },
        MyNodeType::Mul3 => {
            let mut ins: Vec<InputSocketType> = Vec::new();
            ins.push(in_lit("a", MyDataType::Vec3, MyValueType::default_vector()));
            ins.push(in_lit("b", MyDataType::Vec3, vec_one()));
            let mut outs: Vec<OutputSocketType> = Vec::new();
            outs.push(out_sock("out", MyDataType::Vec3));
            let info = mk_info("Mul3", "Arithmetic", ins, outs);
            assert(info@ =~~= spec_info(kind));
            info
        },
        MyNodeType::Div => {
            let mut ins: Vec<InputSocketType> = Vec::new();
            ins.push(in_lit("a", MyDataType::Scalar, val_one()));
            ins.push(in_lit("b", MyDataType::Scalar, MyValueType::default_scalar()));
            let mut outs: Vec<OutputSocketType> = Vec::new();
            outs.push(out_sock("out", MyDataType::Scalar));
            let info = mk_info("Div", "Arithmetic", ins, outs);
            assert(info@ =~~= spec_info(kind));
            info
        },
        MyNodeType::Sin => {
            let mut ins: Vec<InputSocketType> = Vec::new();
            ins.push(in_lit("v", MyDataType::Scalar, MyValueType::default_scalar()));
            let mut outs: Vec<OutputSocketType> = Vec::new();
            outs.push(out_sock("out", MyDataType::Scalar));
            let info = mk_info("Sin", "Arithmetic", ins, outs);
            assert(info@ =~~= spec_info(kind));
            info
        },
        MyNodeType::Cos => {
            let mut ins: Vec<InputSocketType> = Vec::new();
            ins.push(in_lit("v", MyDataType::Scalar, MyValueType::default_scalar()));
            let mut outs: Vec<OutputSocketType> = Vec::new();
            outs.push(out_sock("out", MyDataType::Scalar));
            let info = mk_info("Cos", "Arithmetic", ins, outs);
            assert(info@ =~~= spec_info(kind));
            info
        },
        MyNodeType::Lerp => {
            let mut ins: Vec<InputSocketType> = Vec::new();
            ins.push(in_lit("a", MyDataType::Scalar, MyValueType::default_scalar()));
            ins.push(in_lit("b", MyDataType::Scalar, val_one()));
            ins.push(in_lit("t", MyDataType::Scalar, MyValueType::default_scalar()));
            let mut outs: Vec<OutputSocketType> = Vec::new();
            outs.push(out_sock("out", MyDataType::Scalar));
            let info = mk_info("Lerp", "Arithmetic", ins, outs);
            assert(info@ =~~= spec_info(kind));
            info
        },
        MyNodeType::Lerp3 => {
            let mut ins: Vec<InputSocketType> = Vec::new();
            ins.push(in_lit("a", MyDataType::Vec3, MyValueType::default_vector()));
            ins.push(in_lit("b", MyDataType::Vec3, vec_one()));
            ins.push(in_lit("t", MyDataType::Scalar, MyValueType::default_scalar()));
            let mut outs: Vec<OutputSocketType> = Vec::new();
            outs.push(out_sock("out", MyDataType::Vec3));
            let info = mk_info("Lerp3", "Arithmetic", ins, outs);
            assert(info@ =~~= spec_info(kind));
            info
        },
        MyNodeType::Normalize => {
            let mut ins: Vec<InputSocketType> = Vec::new();
            ins.push(in_lit("nrm", MyDataType::Vec3, MyValueType::default_vector()));
            let mut outs: Vec<OutputSocketType> = Vec::new();
            outs.push(out_sock("out", MyDataType::Vec3));
            let info = mk_info("Normalize", "Arithmetic", ins, outs);
            assert(info@ =~~= spec_info(kind));
            info
        },
        MyNodeType::MatAlpha => {
            let mut ins: Vec<InputSocketType> = Vec::new();
            let mut outs: Vec<OutputSocketType> = Vec::new();
            outs.push(out_sock("out", MyDataType::Scalar));
            let info = mk_info("MatAlpha", "Arithmetic", ins, outs);
            assert(info@ =~~= spec_info(kind));
            info
        },
        MyNodeType::Reflect => {
            let mut ins: Vec<InputSocketType> = Vec::new();
            ins.push(in_lit("I", MyDataType::Vec3, MyValueType::default_vector()));
            ins.push(in_lit("N", MyDataType::Vec3, MyValueType::default_vector()));
            let mut outs: Vec<OutputSocketType> = Vec::new();
            outs.push(out_sock("out", MyDataType::Vec3));
            let info = mk_info("Reflect", "Arithmetic", ins, outs);
            assert(info@ =~~= spec_info(kind));
            info
        },
        MyNodeType::HalfDirection => {
            let mut ins: Vec<InputSocketType> = Vec::new();
            let mut outs: Vec<OutputSocketType> = Vec::new();
            outs.push(out_sock("out", MyDataType::Vec3));
            let info = mk_info("HalfDirection", "Arithmetic", ins, outs);
            assert(info@ =~~= spec_info(kind));
            info
        },
        MyNodeType::ComponentMask => {
            let mut ins: Vec<InputSocketType> = Vec::new();
            ins.push(in_lit("vec", MyDataType::Vec3, MyValueType::default_vector()));
            let mut outs: Vec<OutputSocketType> = Vec::new();
            outs.push(out_sock("x", MyDataType::Scalar));
            outs.push(out_sock("y", MyDataType::Scalar));
            outs.push(out_sock("z", MyDataType::Scalar));
            let info = mk_info("ComponentMask", "Arithmetic", ins, outs);
            assert(info@ =~~= spec_info(kind));
            info
        },
        _ => unreached(),
    }
}

fn info_group_e(kind: MyNodeType) -> (info: NodeTypeInfo)
    requires
        (matches!(kind, MyNodeType::VSPosWS | MyNodeType::VSUV0 | MyNodeType::VSNrmWS | MyNodeType::TimeSync | MyNodeType::TimeFree | MyNodeType::Route | MyNodeType::Route3 | MyNodeType::RgbToHsv | MyNodeType::HsvToRgb | MyNodeType::AdjustHsv)),
    ensures
        info@ == spec_info(kind),
{
    match kind {
        MyNodeType::VSPosWS => {
            let mut ins: Vec<InputSocketType> = Vec::new();
            let mut outs: Vec<OutputSocketType> = Vec::new();
            outs.push(out_sock("out", MyDataType::Vec3));
            let info = mk_info("VSPosWS", "VertexShader", ins, outs);
            assert(info@ =~~= spec_info(kind));
            info
        },
        MyNodeType::VSUV0 => {
            let mut ins: Vec<InputSocketType> = Vec::new();
            let mut outs: Vec<OutputSocketType> = Vec::new();
            outs.push(out_sock("out", MyDataType::Vec3));
            let info = mk_info("VSUV0", "VertexShader", ins, outs);
            assert(info@ =~~= spec_info(kind));
            info
        },
        MyNodeType::VSNrmWS => {
            let mut ins: Vec<InputSocketType> = Vec::new();
            let mut outs: Vec<OutputSocketType> = Vec::new();
            outs.push(out_sock("out", MyDataType::Vec3));
            let info = mk_info("VSNrmWS", "VertexShader", ins, outs);
            assert(info@ =~~= spec_info(kind));
            info
        },
        MyNodeType::TimeSync => {
            let mut ins: Vec<InputSocketType> = Vec::new();
            let mut outs: Vec<OutputSocketType> = Vec::new();
            outs.push(out_sock("out", MyDataType::Scalar));
            let info = mk_info("TimeSync", "Scalar", ins, outs);
            assert(info@ =~~= spec_info(kind));
            info
        },
        MyNodeType::TimeFree => {
            let mut ins: Vec<InputSocketType> = Vec::new();
            let mut outs: Vec<OutputSocketType> = Vec::new();
            outs.push(out_sock("out", MyDataType::Scalar));
            let info = mk_info("TimeFree", "Scalar", ins, outs);
            assert(info@ =~~= spec_info(kind));
            info
        },
        MyNodeType::Route => {
            let mut ins: Vec<InputSocketType> = Vec::new();
            ins.push(in_lit("v", MyDataType::Scalar, MyValueType::default_scalar()));
            let mut outs: Vec<OutputSocketType> = Vec::new();
            outs.push(out_sock("out", MyDataType::Scalar));
            let info = mk_info("Route", "Utility", ins, outs);
            assert(info@ =~~= spec_info(kind));
            info
        },
        MyNodeType::Route3 => {
            let mut ins: Vec<InputSocketType> = Vec::new();
            ins.push(in_lit("v", MyDataType::Vec3, MyValueType::default_vector()));
            let mut outs: Vec<OutputSocketType> = Vec::new();
            outs.push(out_sock("out", MyDataType::Vec3));
            let info = mk_info("Route3", "Utility", ins, outs);
            assert(info@ =~~= spec_info(kind));
            info
        },
        MyNodeType::RgbToHsv => {
            let mut ins: Vec<InputSocketType> = Vec::new();
            ins.push(in_lit("rgb", MyDataType::Vec3, MyValueType::default_vector()));
            let mut outs: Vec<OutputSocketType> = Vec::new();
            outs.push(out_sock("out", MyDataType::Vec3));
            outs.push(out_sock("h", MyDataType::Scalar));
            outs.push(out_sock("s", MyDataType::Scalar));
            outs.push(out_sock("v", MyDataType::Scalar));
            let info = mk_info("RgbToHsv", "Utility", ins, outs);
            assert(info@ =~~= spec_info(kind));
            info
        },
        MyNodeType::HsvToRgb => {
            let mut ins: Vec<InputSocketType> = Vec::new();
            ins.push(in_lit("h", MyDataType::Scalar, MyValueType::default_scalar()));
            ins.push(in_lit("s", MyDataType::Scalar, MyValueType::default_scalar()));
            ins.push(in_lit("v", MyDataType::Scalar, MyValueType::default_scalar()));
            let mut outs: Vec<OutputSocketType> = Vec::new();
            outs.push(out_sock("out", MyDataType::Vec3));
            let info = mk_info("HsvToRgb", "Utility", ins, outs);
            assert(info@ =~~= spec_info(kind));
            info
        },
        MyNodeType::AdjustHsv => {
            let mut ins: Vec<InputSocketType> = Vec::new();
            ins.push(in_lit("rgb", MyDataType::Vec3, MyValueType::default_vector()));
            ins.push(in_lit("h", MyDataType::Scalar, MyValueType::default_scalar()));
            ins.push(in_lit("s", MyDataType::Scalar, val_one()));
            ins.push(in_lit("v", MyDataType::Scalar, val_one()));
            let mut outs: Vec<OutputSocketType> = Vec::new();
            outs.push(out_sock("out", MyDataType::Vec3));
            let info = mk_info("AdjustHsv", "Utility", ins, outs);
            assert(info@ =~~= spec_info(kind));
            info
        },
        _ => unreached(),
    }
}

/// Registry lookup: a total function over the closed node-kind enumeration.
pub fn node_type_info(kind: MyNodeType) -> (info: NodeTypeInfo)
    ensures
        info@ == spec_info(kind),
{
    match kind {
        MyNodeType::MakeScalar | MyNodeType::Add | MyNodeType::Sub | MyNodeType::MakeVector | MyNodeType::Add3 | MyNodeType::Sub3 | MyNodeType::VectorTimesScalar | MyNodeType::NrmWS | MyNodeType::NrmVS | MyNodeType::FaceNrmWS | MyNodeType::LightDirWS | MyNodeType::DotProduct => info_group_a(kind),
        MyNodeType::Main | MyNodeType::FloatToVector3 | MyNodeType::Saturate | MyNodeType::Saturate3 | MyNodeType::FMA | MyNodeType::FMA3 | MyNodeType::Pow | MyNodeType::Pow3 | MyNodeType::Sqrt | MyNodeType::UV0 | MyNodeType::MainTexure2D | MyNodeType::MatCapTexure2D => info_group_b(kind),
        MyNodeType::ToonTexure2D | MyNodeType::CustomTexture2D | MyNodeType::Step | MyNodeType::SmoothStep | MyNodeType::ScreenPos | MyNodeType::PosWS | MyNodeType::CameraPos | MyNodeType::Depth | MyNodeType::Fresnel | MyNodeType::ViewDirWS | MyNodeType::Max | MyNodeType::Min => info_group_c(kind),
        MyNodeType::Mul | MyNodeType::Mul3 | MyNodeType::Div | MyNodeType::Sin | MyNodeType::Cos | MyNodeType::Lerp | MyNodeType::Lerp3 | MyNodeType::Normalize | MyNodeType::MatAlpha | MyNodeType::Reflect | MyNodeType::HalfDirection | MyNodeType::ComponentMask => info_group_d(kind),
        MyNodeType::VSPosWS | MyNodeType::VSUV0 | MyNodeType::VSNrmWS | MyNodeType::TimeSync | MyNodeType::TimeFree | MyNodeType::Route | MyNodeType::Route3 | MyNodeType::RgbToHsv | MyNodeType::HsvToRgb | MyNodeType::AdjustHsv => info_group_e(kind),
    }
}

proof fn lemma_defaults_group_a(kind: MyNodeType)
    requires
        (matches!(kind, MyNodeType::MakeScalar | MyNodeType::Add | MyNodeType::Sub | MyNodeType::MakeVector | MyNodeType::Add3 | MyNodeType::Sub3 | MyNodeType::VectorTimesScalar | MyNodeType::NrmWS | MyNodeType::NrmVS | MyNodeType::FaceNrmWS | MyNodeType::LightDirWS | MyNodeType::DotProduct)),
    ensures
        forall|j: int|
            0 <= j < spec_info(kind).input_sockets.len()
                && (#[trigger] spec_info(kind).input_sockets[j]).default is Ok
                ==> value_defined(spec_info(kind).input_sockets[j].default->Ok_0),
{
    assert forall|j: int|
        0 <= j < spec_info(kind).input_sockets.len()
            && (#[trigger] spec_info(kind).input_sockets[j]).default is Ok
            implies value_defined(spec_info(kind).input_sockets[j].default->Ok_0) by {
        match kind {
            MyNodeType::MakeScalar => {
                if j == 0 { assert(spec_info(kind).input_sockets[0] == spec_info(kind).input_sockets[j]); }
            },
            MyNodeType::Add => {
                if j == 0 { assert(spec_info(kind).input_sockets[0] == spec_info(kind).input_sockets[j]); }
                if j == 1 { assert(spec_info(kind).input_sockets[1] == spec_info(kind).input_sockets[j]); }
            },
            MyNodeType::Sub => {
                if j == 0 { assert(spec_info(kind).input_sockets[0] == spec_info(kind).input_sockets[j]); }
                if j == 1 { assert(spec_info(kind).input_sockets[1] == spec_info(kind).input_sockets[j]); }
            },
            MyNodeType::MakeVector => {
                if j == 0 { assert(spec_info(kind).input_sockets[0] == spec_info(kind).input_sockets[j]); }
                if j == 1 { assert(spec_info(kind).input_sockets[1] == spec_info(kind).input_sockets[j]); }
                if j == 2 { assert(spec_info(kind).input_sockets[2] == spec_info(kind).input_sockets[j]); }
            },
            MyNodeType::Add3 => {
                if j == 0 { assert(spec_info(kind).input_sockets[0] == spec_info(kind).input_sockets[j]); }
                if j == 1 { assert(spec_info(kind).input_sockets[1] == spec_info(kind).input_sockets[j]); }
            },
            MyNodeType::Sub3 => {
                if j == 0 { assert(spec_info(kind).input_sockets[0] == spec_info(kind).input_sockets[j]); }
                if j == 1 { assert(spec_info(kind).input_sockets[1] == spec_info(kind).input_sockets[j]); }
            },
            MyNodeType::VectorTimesScalar => {
                if j == 0 { assert(spec_info(kind).input_sockets[0] == spec_info(kind).input_sockets[j]); }
                if j == 1 { assert(spec_info(kind).input_sockets[1] == spec_info(kind).input_sockets[j]); }
            },
            MyNodeType::NrmWS => {},
            MyNodeType::NrmVS => {},
            MyNodeType::FaceNrmWS => {},
            MyNodeType::LightDirWS => {},
            MyNodeType::DotProduct => {
                if j == 0 { assert(spec_info(kind).input_sockets[0] == spec_info(kind).input_sockets[j]); }
                if j == 1 { assert(spec_info(kind).input_sockets[1] == spec_info(kind).input_sockets[j]); }
            },
            _ => {},
        }
    }
}

proof fn lemma_defaults_group_b(kind: MyNodeType)
    requires
        (matches!(kind, MyNodeType::Main | MyNodeType::FloatToVector3 | MyNodeType::Saturate | MyNodeType::Saturate3 | MyNodeType::FMA | MyNodeType::FMA3 | MyNodeType::Pow | MyNodeType::Pow3 | MyNodeType::Sqrt | MyNodeType::UV0 | MyNodeType::MainTexure2D | MyNodeType::MatCapTexure2D)),
    ensures
        forall|j: int|
            0 <= j < spec_info(kind).input_sockets.len()
                && (#[trigger] spec_info(kind).input_sockets[j]).default is Ok
                ==> value_defined(spec_info(kind).input_sockets[j].default->Ok_0),
{
    assert forall|j: int|
        0 <= j < spec_info(kind).input_sockets.len()
            && (#[trigger] spec_info(kind).input_sockets[j]).default is Ok
            implies value_defined(spec_info(kind).input_sockets[j].default->Ok_0) by {
        match kind {
            MyNodeType::Main => {
                if j == 0 { assert(spec_info(kind).input_sockets[0] == spec_info(kind).input_sockets[j]); }
                if j == 1 { assert(spec_info(kind).input_sockets[1] == spec_info(kind).input_sockets[j]); }
                if j == 2 { assert(spec_info(kind).input_sockets[2] == spec_info(kind).input_sockets[j]); }
                if j == 3 { assert(spec_info(kind).input_sockets[3] == spec_info(kind).input_sockets[j]); }
            },
            MyNodeType::FloatToVector3 => {
                if j == 0 { assert(spec_info(kind).input_sockets[0] == spec_info(kind).input_sockets[j]); }
            },
            MyNodeType::Saturate => {
                if j == 0 { assert(spec_info(kind).input_sockets[0] == spec_info(kind).input_sockets[j]); }
            },
            MyNodeType::Saturate3 => {
                if j == 0 { assert(spec_info(kind).input_sockets[0] == spec_info(kind).input_sockets[j]); }
            },
            MyNodeType::FMA => {
                if j == 0 { assert(spec_info(kind).input_sockets[0] == spec_info(kind).input_sockets[j]); }
                if j == 1 { assert(spec_info(kind).input_sockets[1] == spec_info(kind).input_sockets[j]); }
                if j == 2 { assert(spec_info(kind).input_sockets[2] == spec_info(kind).input_sockets[j]); }
            },
            MyNodeType::FMA3 => {
                if j == 0 { assert(spec_info(kind).input_sockets[0] == spec_info(kind).input_sockets[j]); }
                if j == 1 { assert(spec_info(kind).input_sockets[1] == spec_info(kind).input_sockets[j]); }
                if j == 2 { assert(spec_info(kind).input_sockets[2] == spec_info(kind).input_sockets[j]); }
            },
            MyNodeType::Pow => {
                if j == 0 { assert(spec_info(kind).input_sockets[0] == spec_info(kind).input_sockets[j]); }
                if j == 1 { assert(spec_info(kind).input_sockets[1] == spec_info(kind).input_sockets[j]); }
            },
            MyNodeType::Pow3 => {
                if j == 0 { assert(spec_info(kind).input_sockets[0] == spec_info(kind).input_sockets[j]); }
                if j == 1 { assert(spec_info(kind).input_sockets[1] == spec_info(kind).input_sockets[j]); }
            },
            MyNodeType::Sqrt => {
                if j == 0 { assert(spec_info(kind).input_sockets[0] == spec_info(kind).input_sockets[j]); }
            },
            MyNodeType::UV0 => {},
            MyNodeType::MainTexure2D => {
                if j == 0 { assert(spec_info(kind).input_sockets[0] == spec_info(kind).input_sockets[j]); }
            },
            MyNodeType::MatCapTexure2D => {
                if j == 0 { assert(spec_info(kind).input_sockets[0] == spec_info(kind).input_sockets[j]); }
            },
            _ => {},
        }
    }
}

proof fn lemma_defaults_group_c(kind: MyNodeType)
    requires
        (matches!(kind, MyNodeType::ToonTexure2D | MyNodeType::CustomTexture2D | MyNodeType::Step | MyNodeType::SmoothStep | MyNodeType::ScreenPos | MyNodeType::PosWS | MyNodeType::CameraPos | MyNodeType::Depth | MyNodeType::Fresnel | MyNodeType::ViewDirWS | MyNodeType::Max | MyNodeType::Min)),
    ensures
        forall|j: int|
            0 <= j < spec_info(kind).input_sockets.len()
                && (#[trigger] spec_info(kind).input_sockets[j]).default is Ok
                ==> value_defined(spec_info(kind).input_sockets[j].default->Ok_0),
{
    assert forall|j: int|
        0 <= j < spec_info(kind).input_sockets.len()
            && (#[trigger] spec_info(kind).input_sockets[j]).default is Ok
            implies value_defined(spec_info(kind).input_sockets[j].default->Ok_0) by {
        match kind {
            MyNodeType::ToonTexure2D => {
                if j == 0 { assert(spec_info(kind).input_sockets[0] == spec_info(kind).input_sockets[j]); }
            },
            MyNodeType::CustomTexture2D => {
                if j == 0 { assert(spec_info(kind).input_sockets[0] == spec_info(kind).input_sockets[j]); }
            },
            MyNodeType::Step => {
                if j == 0 { assert(spec_info(kind).input_sockets[0] == spec_info(kind).input_sockets[j]); }
                if j == 1 { assert(spec_info(kind).input_sockets[1] == spec_info(kind).input_sockets[j]); }
            },
            MyNodeType::SmoothStep => {
                if j == 0 { assert(spec_info(kind).input_sockets[0] == spec_info(kind).input_sockets[j]); }
                if j == 1 { assert(spec_info(kind).input_sockets[1] == spec_info(kind).input_sockets[j]); }
                if j == 2 { assert(spec_info(kind).input_sockets[2] == spec_info(kind).input_sockets[j]); }
            },
            MyNodeType::ScreenPos => {},
            MyNodeType::PosWS => {},
            MyNodeType::CameraPos => {},
            MyNodeType::Depth => {},
            MyNodeType::Fresnel => {
                if j == 0 { assert(spec_info(kind).input_sockets[0] == spec_info(kind).input_sockets[j]); }
            },
            MyNodeType::ViewDirWS => {},
            MyNodeType::Max => {
                if j == 0 { assert(spec_info(kind).input_sockets[0] == spec_info(kind).input_sockets[j]); }
                if j == 1 { assert(spec_info(kind).input_sockets[1] == spec_info(kind).input_sockets[j]); }
            },
            MyNodeType::Min => {
                if j == 0 { assert(spec_info(kind).input_sockets[0] == spec_info(kind).input_sockets[j]); }
                if j == 1 { assert(spec_info(kind).input_sockets[1] == spec_info(kind).input_sockets[j]); }
            },
            _ => {},
        }
    }
}

proof fn lemma_defaults_group_d(kind: MyNodeType)
    requires
        (matches!(kind, MyNodeType::Mul | MyNodeType::Mul3 | MyNodeType::Div | MyNodeType::Sin | MyNodeType::Cos | MyNodeType::Lerp | MyNodeType::Lerp3 | MyNodeType::Normalize | MyNodeType::MatAlpha | MyNodeType::Reflect | MyNodeType::HalfDirection | MyNodeType::ComponentMask)),
    ensures
        forall|j: int|
            0 <= j < spec_info(kind).input_sockets.len()
                && (#[trigger] spec_info(kind).input_sockets[j]).default is Ok
                ==> value_defined(spec_info(kind).input_sockets[j].default->Ok_0),
{
    assert forall|j: int|
        0 <= j < spec_info(kind).input_sockets.len()
            && (#[trigger] spec_info(kind).input_sockets[j]).default is Ok
            implies value_defined(spec_info(kind).input_sockets[j].default->Ok_0) by {
        match kind {
            MyNodeType::Mul => {
                if j == 0 { assert(spec_info(kind).input_sockets[0] == spec_info(kind).input_sockets[j]); }
                if j == 1 { assert(spec_info(kind).input_sockets[1] == spec_info(kind).input_sockets[j]); }
            },
            MyNodeType::Mul3 => {
                if j == 0 { assert(spec_info(kind).input_sockets[0] == spec_info(kind).input_sockets[j]); }
                if j == 1 { assert(spec_info(kind).input_sockets[1] == spec_info(kind).input_sockets[j]); }
            },
            MyNodeType::Div => {
                if j == 0 { assert(spec_info(kind).input_sockets[0] == spec_info(kind).input_sockets[j]); }
                if j == 1 { assert(spec_info(kind).input_sockets[1] == spec_info(kind).input_sockets[j]); }
            },
            MyNodeType::Sin => {
                if j == 0 { assert(spec_info(kind).input_sockets[0] == spec_info(kind).input_sockets[j]); }
            },
            MyNodeType::Cos => {
                if j == 0 { assert(spec_info(kind).input_sockets[0] == spec_info(kind).input_sockets[j]); }
            },
            MyNodeType::Lerp => {
                if j == 0 { assert(spec_info(kind).input_sockets[0] == spec_info(kind).input_sockets[j]); }
                if j == 1 { assert(spec_info(kind).input_sockets[1] == spec_info(kind).input_sockets[j]); }
                if j == 2 { assert(spec_info(kind).input_sockets[2] == spec_info(kind).input_sockets[j]); }
            },
            MyNodeType::Lerp3 => {
                if j == 0 { assert(spec_info(kind).input_sockets[0] == spec_info(kind).input_sockets[j]); }
                if j == 1 { assert(spec_info(kind).input_sockets[1] == spec_info(kind).input_sockets[j]); }
                if j == 2 { assert(spec_info(kind).input_sockets[2] == spec_info(kind).input_sockets[j]); }
            },
            MyNodeType::Normalize => {
                if j == 0 { assert(spec_info(kind).input_sockets[0] == spec_info(kind).input_sockets[j]); }
            },
            MyNodeType::MatAlpha => {},
            MyNodeType::Reflect => {
                if j == 0 { assert(spec_info(kind).input_sockets[0] == spec_info(kind).input_sockets[j]); }
                if j == 1 { assert(spec_info(kind).input_sockets[1] == spec_info(kind).input_sockets[j]); }
            },
            MyNodeType::HalfDirection => {},
            MyNodeType::ComponentMask => {
                if j == 0 { assert(spec_info(kind).input_sockets[0] == spec_info(kind).input_sockets[j]); }
            },
            _ => {},
        }
    }
}

proof fn lemma_defaults_group_e(kind: MyNodeType)
    requires
        (matches!(kind, MyNodeType::VSPosWS | MyNodeType::VSUV0 | MyNodeType::VSNrmWS | MyNodeType::TimeSync | MyNodeType::TimeFree | MyNodeType::Route | MyNodeType::Route3 | MyNodeType::RgbToHsv | MyNodeType::HsvToRgb | MyNodeType::AdjustHsv)),
    ensures
        forall|j: int|
            0 <= j < spec_info(kind).input_sockets.len()
                && (#[trigger] spec_info(kind).input_sockets[j]).default is Ok
                ==> value_defined(spec_info(kind).input_sockets[j].default->Ok_0),
{
    assert forall|j: int|
        0 <= j < spec_info(kind).input_sockets.len()
            && (#[trigger] spec_info(kind).input_sockets[j]).default is Ok
            implies value_defined(spec_info(kind).input_sockets[j].default->Ok_0) by {
        match kind {
            MyNodeType::VSPosWS => {},
            MyNodeType::VSUV0 => {},
            MyNodeType::VSNrmWS => {},
            MyNodeType::TimeSync => {},
            MyNodeType::TimeFree => {},
            MyNodeType::Route => {
                if j == 0 { assert(spec_info(kind).input_sockets[0] == spec_info(kind).input_sockets[j]); }
            },
            MyNodeType::Route3 => {
                if j == 0 { assert(spec_info(kind).input_sockets[0] == spec_info(kind).input_sockets[j]); }
            },
            MyNodeType::RgbToHsv => {
                if j == 0 { assert(spec_info(kind).input_sockets[0] == spec_info(kind).input_sockets[j]); }
            },
            MyNodeType::HsvToRgb => {
                if j == 0 { assert(spec_info(kind).input_sockets[0] == spec_info(kind).input_sockets[j]); }
                if j == 1 { assert(spec_info(kind).input_sockets[1] == spec_info(kind).input_sockets[j]); }
                if j == 2 { assert(spec_info(kind).input_sockets[2] == spec_info(kind).input_sockets[j]); }
            },
            MyNodeType::AdjustHsv => {
                if j == 0 { assert(spec_info(kind).input_sockets[0] == spec_info(kind).input_sockets[j]); }
                if j == 1 { assert(spec_info(kind).input_sockets[1] == spec_info(kind).input_sockets[j]); }
                if j == 2 { assert(spec_info(kind).input_sockets[2] == spec_info(kind).input_sockets[j]); }
                if j == 3 { assert(spec_info(kind).input_sockets[3] == spec_info(kind).input_sockets[j]); }
            },
            _ => {},
        }
    }
}

/// Every input socket whose default resolution is a literal carries an
/// actual literal payload: no socket is left without a usable default.
pub proof fn lemma_default_values_defined(kind: MyNodeType)
    ensures
        forall|j: int|
            0 <= j < spec_info(kind).input_sockets.len()
                && (#[trigger] spec_info(kind).input_sockets[j]).default is Ok
                ==> value_defined(spec_info(kind).input_sockets[j].default->Ok_0),
{
    if matches!(kind, MyNodeType::MakeScalar | MyNodeType::Add | MyNodeType::Sub | MyNodeType::MakeVector | MyNodeType::Add3 | MyNodeType::Sub3 | MyNodeType::VectorTimesScalar | MyNodeType::NrmWS | MyNodeType::NrmVS | MyNodeType::FaceNrmWS | MyNodeType::LightDirWS | MyNodeType::DotProduct) {
        lemma_defaults_group_a(kind);
    }
    if matches!(kind, MyNodeType::Main | MyNodeType::FloatToVector3 | MyNodeType::Saturate | MyNodeType::Saturate3 | MyNodeType::FMA | MyNodeType::FMA3 | MyNodeType::Pow | MyNodeType::Pow3 | MyNodeType::Sqrt | MyNodeType::UV0 | MyNodeType::MainTexure2D | MyNodeType::MatCapTexure2D) {
        lemma_defaults_group_b(kind);
    }
    if matches!(kind, MyNodeType::ToonTexure2D | MyNodeType::CustomTexture2D | MyNodeType::Step | MyNodeType::SmoothStep | MyNodeType::ScreenPos | MyNodeType::PosWS | MyNodeType::CameraPos | MyNodeType::Depth | MyNodeType::Fresnel | MyNodeType::ViewDirWS | MyNodeType::Max | MyNodeType::Min) {
        lemma_defaults_group_c(kind);
    }
    if matches!(kind, MyNodeType::Mul | MyNodeType::Mul3 | MyNodeType::Div | MyNodeType::Sin | MyNodeType::Cos | MyNodeType::Lerp | MyNodeType::Lerp3 | MyNodeType::Normalize | MyNodeType::MatAlpha | MyNodeType::Reflect | MyNodeType::HalfDirection | MyNodeType::ComponentMask) {
        lemma_defaults_group_d(kind);
    }
    if matches!(kind, MyNodeType::VSPosWS | MyNodeType::VSUV0 | MyNodeType::VSNrmWS | MyNodeType::TimeSync | MyNodeType::TimeFree | MyNodeType::Route | MyNodeType::Route3 | MyNodeType::RgbToHsv | MyNodeType::HsvToRgb | MyNodeType::AdjustHsv) {
        lemma_defaults_group_e(kind);
    }
}


/// Every node kind, in declaration order: the list the editor shell
/// offers in its node finder, and the witness that the registry is total.
#[verifier::rlimit(100)]
pub fn all_node_types() -> (r: Vec<MyNodeType>)
    ensures
        r@ =~= seq![
            MyNodeType::MakeScalar,
            MyNodeType::Add,
            MyNodeType::Sub,
            MyNodeType::MakeVector,
            MyNodeType::Add3,
            MyNodeType::Sub3,
            MyNodeType::VectorTimesScalar,
            MyNodeType::NrmWS,
            MyNodeType::NrmVS,
            MyNodeType::FaceNrmWS,
            MyNodeType::LightDirWS,
            MyNodeType::DotProduct,
            MyNodeType::Main,
            MyNodeType::FloatToVector3,
            MyNodeType::Saturate,
            MyNodeType::Saturate3,
            MyNodeType::FMA,
            MyNodeType::FMA3,
            MyNodeType::Pow,
            MyNodeType::Pow3,
            MyNodeType::Sqrt,
            MyNodeType::UV0,
            MyNodeType::MainTexure2D,
            MyNodeType::MatCapTexure2D,
            MyNodeType::ToonTexure2D,
            MyNodeType::CustomTexture2D,
            MyNodeType::Step,
            MyNodeType::SmoothStep,
            MyNodeType::ScreenPos,
            MyNodeType::PosWS,
            MyNodeType::CameraPos,
            MyNodeType::Depth,
            MyNodeType::Fresnel,
            MyNodeType::ViewDirWS,
            MyNodeType::Max,
            MyNodeType::Min,
            MyNodeType::Mul,
            MyNodeType::Mul3,
            MyNodeType::Div,
            MyNodeType::Sin,
            MyNodeType::Cos,
            MyNodeType::Lerp,
            MyNodeType::Lerp3,
            MyNodeType::Normalize,
            MyNodeType::MatAlpha,
            MyNodeType::Reflect,
            MyNodeType::HalfDirection,
            MyNodeType::ComponentMask,
            MyNodeType::VSPosWS,
            MyNodeType::VSUV0,
            MyNodeType::VSNrmWS,
            MyNodeType::TimeSync,
            MyNodeType::TimeFree,
            MyNodeType::Route,
            MyNodeType::Route3,
            MyNodeType::RgbToHsv,
            MyNodeType::HsvToRgb,
            MyNodeType::AdjustHsv,
        ],
{
    let mut r: Vec<MyNodeType> = Vec::new();
    r.push(MyNodeType::MakeScalar);
    r.push(MyNodeType::Add);
    r.push(MyNodeType::Sub);
    r.push(MyNodeType::MakeVector);
    r.push(MyNodeType::Add3);
    r.push(MyNodeType::Sub3);
    r.push(MyNodeType::VectorTimesScalar);
    r.push(MyNodeType::NrmWS);
    r.push(MyNodeType::NrmVS);
    r.push(MyNodeType::FaceNrmWS);
    r.push(MyNodeType::LightDirWS);
    r.push(MyNodeType::DotProduct);
    r.push(MyNodeType::Main);
    r.push(MyNodeType::FloatToVector3);
    r.push(MyNodeType::Saturate);
    r.push(MyNodeType::Saturate3);
    r.push(MyNodeType::FMA);
    r.push(MyNodeType::FMA3);
    r.push(MyNodeType::Pow);
    r.push(MyNodeType::Pow3);
    r.push(MyNodeType::Sqrt);
    r.push(MyNodeType::UV0);
    r.push(MyNodeType::MainTexure2D);
    r.push(MyNodeType::MatCapTexure2D);
    r.push(MyNodeType::ToonTexure2D);
    r.push(MyNodeType::CustomTexture2D);
    r.push(MyNodeType::Step);
    r.push(MyNodeType::SmoothStep);
    r.push(MyNodeType::ScreenPos);
    r.push(MyNodeType::PosWS);
    r.push(MyNodeType::CameraPos);
    r.push(MyNodeType::Depth);
    r.push(MyNodeType::Fresnel);
    r.push(MyNodeType::ViewDirWS);
    r.push(MyNodeType::Max);
    r.push(MyNodeType::Min);
    r.push(MyNodeType::Mul);
    r.push(MyNodeType::Mul3);
    r.push(MyNodeType::Div);
    r.push(MyNodeType::Sin);
    r.push(MyNodeType::Cos);
    r.push(MyNodeType::Lerp);
    r.push(MyNodeType::Lerp3);
    r.push(MyNodeType::Normalize);
    r.push(MyNodeType::MatAlpha);
    r.push(MyNodeType::Reflect);
    r.push(MyNodeType::HalfDirection);
    r.push(MyNodeType::ComponentMask);
    r.push(MyNodeType::VSPosWS);
    r.push(MyNodeType::VSUV0);
    r.push(MyNodeType::VSNrmWS);
    r.push(MyNodeType::TimeSync);
    r.push(MyNodeType::TimeFree);
    r.push(MyNodeType::Route);
    r.push(MyNodeType::Route3);
    r.push(MyNodeType::RgbToHsv);
    r.push(MyNodeType::HsvToRgb);
    r.push(MyNodeType::AdjustHsv);
    r
}


impl MyNodeType {
    /// The label shown for this kind in the node-finder list.
    pub fn node_finder_label(&self) -> (r: String)
        ensures
            r@ == spec_info(*self).label,
    {
        node_type_info(*self).label
    }

    /// The category tags this kind is grouped under in the node finder.
    pub fn node_finder_categories(&self) -> (r: Vec<String>)
        ensures
            r@.map_values(|c: String| c@) == spec_info(*self).categories,
    {
        node_type_info(*self).categories
    }

    /// The label shown on an instantiated node; the same as the finder label.
    pub fn node_graph_label(&self) -> (r: String)
        ensures
            r@ == spec_info(*self).label,
    {
        self.node_finder_label()
    }

    /// The kind a template instantiates: itself.
    pub fn node_type(&self) -> (r: MyNodeType)
        ensures
            r == *self,
    {
        *self
    }
}

proof fn lemma_main_label_group_a(kind: MyNodeType)
    requires
        (matches!(kind, MyNodeType::MakeScalar | MyNodeType::Add | MyNodeType::Sub | MyNodeType::MakeVector | MyNodeType::Add3 | MyNodeType::Sub3 | MyNodeType::VectorTimesScalar | MyNodeType::NrmWS | MyNodeType::NrmVS | MyNodeType::FaceNrmWS | MyNodeType::LightDirWS | MyNodeType::DotProduct | MyNodeType::Main | MyNodeType::FloatToVector3 | MyNodeType::Saturate)),
    ensures
        (spec_info(kind).label == "Main"@) <==> (kind == MyNodeType::Main),
{
    reveal_strlit("Main");
    match kind {
        MyNodeType::MakeScalar => {
            reveal_strlit("MakeScalar");
            assert("MakeScalar"@.len() != "Main"@.len());
        },
        MyNodeType::Add => {
            reveal_strlit("Add");
            assert("Add"@.len() != "Main"@.len());
        },
        MyNodeType::Sub => {
            reveal_strlit("Sub");
            assert("Sub"@.len() != "Main"@.len());
        },
        MyNodeType::MakeVector => {
            reveal_strlit("MakeVector");
            assert("MakeVector"@.len() != "Main"@.len());
        },
        MyNodeType::Add3 => {
            reveal_strlit("Add3");
            assert("Add3"@[0] != "Main"@[0]);
        },
        MyNodeType::Sub3 => {
            reveal_strlit("Sub3");
            assert("Sub3"@[0] != "Main"@[0]);
        },
        MyNodeType::VectorTimesScalar => {
            reveal_strlit("VectorTimesScalar");
            assert("VectorTimesScalar"@.len() != "Main"@.len());
        },
        MyNodeType::NrmWS => {
            reveal_strlit("NrmWS");
            assert("NrmWS"@.len() != "Main"@.len());
        },
        MyNodeType::NrmVS => {
            reveal_strlit("NrmVS");
            assert("NrmVS"@.len() != "Main"@.len());
        },
        MyNodeType::FaceNrmWS => {
            reveal_strlit("FaceNrmWS");
            assert("FaceNrmWS"@.len() != "Main"@.len());
        },
        MyNodeType::LightDirWS => {
            reveal_strlit("LightDirWS");
            assert("LightDirWS"@.len() != "Main"@.len());
        },
        MyNodeType::DotProduct => {
            reveal_strlit("DotProduct");
            assert("DotProduct"@.len() != "Main"@.len());
        },
        MyNodeType::Main => {},
        MyNodeType::FloatToVector3 => {
            reveal_strlit("FloatToVector3");
            assert("FloatToVector3"@.len() != "Main"@.len());
        },
        MyNodeType::Saturate => {
            reveal_strlit("Saturate");
            assert("Saturate"@.len() != "Main"@.len());
        },
        _ => {},
    }
}

proof fn lemma_main_label_group_b(kind: MyNodeType)
    requires
        (matches!(kind, MyNodeType::Saturate3 | MyNodeType::FMA | MyNodeType::FMA3 | MyNodeType::Pow | MyNodeType::Pow3 | MyNodeType::Sqrt | MyNodeType::UV0 | MyNodeType::MainTexure2D | MyNodeType::MatCapTexure2D | MyNodeType::ToonTexure2D | MyNodeType::CustomTexture2D | MyNodeType::Step | MyNodeType::SmoothStep | MyNodeType::ScreenPos | MyNodeType::PosWS)),
    ensures
        (spec_info(kind).label == "Main"@) <==> (kind == MyNodeType::Main),
{
    reveal_strlit("Main");
    match kind {
        MyNodeType::Saturate3 => {
            reveal_strlit("Saturate3");
            assert("Saturate3"@.len() != "Main"@.len());
        },
        MyNodeType::FMA => {
            reveal_strlit("FMA");
            assert("FMA"@.len() != "Main"@.len());
        },
        MyNodeType::FMA3 => {
            reveal_strlit("FMA3");
            assert("FMA3"@[0] != "Main"@[0]);
        },
        MyNodeType::Pow => {
            reveal_strlit("Pow");
            assert("Pow"@.len() != "Main"@.len());
        },
        MyNodeType::Pow3 => {
            reveal_strlit("Pow3");
            assert("Pow3"@[0] != "Main"@[0]);
        },
        MyNodeType::Sqrt => {
            reveal_strlit("Sqrt");
            assert("Sqrt"@[0] != "Main"@[0]);
        },
        MyNodeType::UV0 => {
            reveal_strlit("UV0");
            assert("UV0"@.len() != "Main"@.len());
        },
        MyNodeType::MainTexure2D => {
            reveal_strlit("MainTexure2D");
            assert("MainTexure2D"@.len() != "Main"@.len());
        },
        MyNodeType::MatCapTexure2D => {
            reveal_strlit("MatCapTexure2D");
            assert("MatCapTexure2D"@.len() != "Main"@.len());
        },
        MyNodeType::ToonTexure2D => {
            reveal_strlit("ToonTexure2D");
            assert("ToonTexure2D"@.len() != "Main"@.len());
        },
        MyNodeType::CustomTexture2D => {
            reveal_strlit("CustomTexture2D");
            assert("CustomTexture2D"@.len() != "Main"@.len());
        },
        MyNodeType::Step => {
            reveal_strlit("Step");
            assert("Step"@[0] != "Main"@[0]);
        },
        MyNodeType::SmoothStep => {
            reveal_strlit("SmoothStep");
            assert("SmoothStep"@.len() != "Main"@.len());
        },
        MyNodeType::ScreenPos => {
            reveal_strlit("ScreenPos");
            assert("ScreenPos"@.len() != "Main"@.len());
        },
        MyNodeType::PosWS => {
            reveal_strlit("PosWS");
            assert("PosWS"@.len() != "Main"@.len());
        },
        _ => {},
    }
}

proof fn lemma_main_label_group_c(kind: MyNodeType)
    requires
        (matches!(kind, MyNodeType::CameraPos | MyNodeType::Depth | MyNodeType::Fresnel | MyNodeType::ViewDirWS | MyNodeType::Max | MyNodeType::Min | MyNodeType::Mul | MyNodeType::Mul3 | MyNodeType::Div | MyNodeType::Sin | MyNodeType::Cos | MyNodeType::Lerp | MyNodeType::Lerp3 | MyNodeType::Normalize | MyNodeType::MatAlpha)),
    ensures
        (spec_info(kind).label == "Main"@) <==> (kind == MyNodeType::Main),
{
    reveal_strlit("Main");
    match kind {
        MyNodeType::CameraPos => {
            reveal_strlit("CameraPos");
            assert("CameraPos"@.len() != "Main"@.len());
        },
        MyNodeType::Depth => {
            reveal_strlit("Depth");
            assert("Depth"@.len() != "Main"@.len());
        },
        MyNodeType::Fresnel => {
            reveal_strlit("Fresnel");
            assert("Fresnel"@.len() != "Main"@.len());
        },
        MyNodeType::ViewDirWS => {
            reveal_strlit("ViewDirWS");
            assert("ViewDirWS"@.len() != "Main"@.len());
        },
        MyNodeType::Max => {
            reveal_strlit("Max");
            assert("Max"@.len() != "Main"@.len());
        },
        MyNodeType::Min => {
            reveal_strlit("Min");
            assert("Min"@.len() != "Main"@.len());
        },
        MyNodeType::Mul => {
            reveal_strlit("Mul");
            assert("Mul"@.len() != "Main"@.len());
        },
        MyNodeType::Mul3 => {
            reveal_strlit("Mul3");
            assert("Mul3"@[1] != "Main"@[1]);
        },
        MyNodeType::Div => {
            reveal_strlit("Div");
            assert("Div"@.len() != "Main"@.len());
        },
        MyNodeType::Sin => {
            reveal_strlit("Sin");
            assert("Sin"@.len() != "Main"@.len());
        },
        MyNodeType::Cos => {
            reveal_strlit("Cos");
            assert("Cos"@.len() != "Main"@.len());
        },
        MyNodeType::Lerp => {
            reveal_strlit("Lerp");
            assert("Lerp"@[0] != "Main"@[0]);
        },
        MyNodeType::Lerp3 => {
            reveal_strlit("Lerp3");
            assert("Lerp3"@.len() != "Main"@.len());
        },
        MyNodeType::Normalize => {
            reveal_strlit("Normalize");
            assert("Normalize"@.len() != "Main"@.len());
        },
        MyNodeType::MatAlpha => {
            reveal_strlit("MatAlpha");
            assert("MatAlpha"@.len() != "Main"@.len());
        },
        _ => {},
    }
}

proof fn lemma_main_label_group_d(kind: MyNodeType)
    requires
        (matches!(kind, MyNodeType::Reflect | MyNodeType::HalfDirection | MyNodeType::ComponentMask | MyNodeType::VSPosWS | MyNodeType::VSUV0 | MyNodeType::VSNrmWS | MyNodeType::TimeSync | MyNodeType::TimeFree | MyNodeType::Route | MyNodeType::Route3 | MyNodeType::RgbToHsv | MyNodeType::HsvToRgb | MyNodeType::AdjustHsv)),
    ensures
        (spec_info(kind).label == "Main"@) <==> (kind == MyNodeType::Main),
{
    reveal_strlit("Main");
    match kind {
        MyNodeType::Reflect => {
            reveal_strlit("Reflect");
            assert("Reflect"@.len() != "Main"@.len());
        },
        MyNodeType::HalfDirection => {
            reveal_strlit("HalfDirection");
            assert("HalfDirection"@.len() != "Main"@.len());
        },
        MyNodeType::ComponentMask => {
            reveal_strlit("ComponentMask");
            assert("ComponentMask"@.len() != "Main"@.len());
        },
        MyNodeType::VSPosWS => {
            reveal_strlit("VSPosWS");
            assert("VSPosWS"@.len() != "Main"@.len());
        },
        MyNodeType::VSUV0 => {
            reveal_strlit("VSUV0");
            assert("VSUV0"@.len() != "Main"@.len());
        },
        MyNodeType::VSNrmWS => {
            reveal_strlit("VSNrmWS");
            assert("VSNrmWS"@.len() != "Main"@.len());
        },
        MyNodeType::TimeSync => {
            reveal_strlit("TimeSync");
            assert("TimeSync"@.len() != "Main"@.len());
        },
        MyNodeType::TimeFree => {
            reveal_strlit("TimeFree");
            assert("TimeFree"@.len() != "Main"@.len());
        },
        MyNodeType::Route => {
            reveal_strlit("Route");
            assert("Route"@.len() != "Main"@.len());
        },
        MyNodeType::Route3 => {
            reveal_strlit("Route3");
            assert("Route3"@.len() != "Main"@.len());
        },
        MyNodeType::RgbToHsv => {
            reveal_strlit("RgbToHsv");
            assert("RgbToHsv"@.len() != "Main"@.len());
        },
        MyNodeType::HsvToRgb => {
            reveal_strlit("HsvToRgb");
            assert("HsvToRgb"@.len() != "Main"@.len());
        },
        MyNodeType::AdjustHsv => {
            reveal_strlit("AdjustHsv");
            assert("AdjustHsv"@.len() != "Main"@.len());
        },
        _ => {},
    }
}

/// Only the main node kind carries the label of the main node, so the
/// emitter may recognize the main node by its label.
pub proof fn lemma_main_label_unique(kind: MyNodeType)
    ensures
        (spec_info(kind).label == "Main"@) <==> (kind == MyNodeType::Main),
{
    if matches!(kind, MyNodeType::MakeScalar | MyNodeType::Add | MyNodeType::Sub | MyNodeType::MakeVector | MyNodeType::Add3 | MyNodeType::Sub3 | MyNodeType::VectorTimesScalar | MyNodeType::NrmWS | MyNodeType::NrmVS | MyNodeType::FaceNrmWS | MyNodeType::LightDirWS | MyNodeType::DotProduct | MyNodeType::Main | MyNodeType::FloatToVector3 | MyNodeType::Saturate) {
        lemma_main_label_group_a(kind);
    }
    if matches!(kind, MyNodeType::Saturate3 | MyNodeType::FMA | MyNodeType::FMA3 | MyNodeType::Pow | MyNodeType::Pow3 | MyNodeType::Sqrt | MyNodeType::UV0 | MyNodeType::MainTexure2D | MyNodeType::MatCapTexure2D | MyNodeType::ToonTexure2D | MyNodeType::CustomTexture2D | MyNodeType::Step | MyNodeType::SmoothStep | MyNodeType::ScreenPos | MyNodeType::PosWS) {
        lemma_main_label_group_b(kind);
    }
    if matches!(kind, MyNodeType::CameraPos | MyNodeType::Depth | MyNodeType::Fresnel | MyNodeType::ViewDirWS | MyNodeType::Max | MyNodeType::Min | MyNodeType::Mul | MyNodeType::Mul3 | MyNodeType::Div | MyNodeType::Sin | MyNodeType::Cos | MyNodeType::Lerp | MyNodeType::Lerp3 | MyNodeType::Normalize | MyNodeType::MatAlpha) {
        lemma_main_label_group_c(kind);
    }
    if matches!(kind, MyNodeType::Reflect | MyNodeType::HalfDirection | MyNodeType::ComponentMask | MyNodeType::VSPosWS | MyNodeType::VSUV0 | MyNodeType::VSNrmWS | MyNodeType::TimeSync | MyNodeType::TimeFree | MyNodeType::Route | MyNodeType::Route3 | MyNodeType::RgbToHsv | MyNodeType::HsvToRgb | MyNodeType::AdjustHsv) {
        lemma_main_label_group_d(kind);
    }
}

} // verus!
