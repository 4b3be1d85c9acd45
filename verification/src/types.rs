//! Data types shared by the graph model, the socket-type registry and the
//! code generator.
//!
//! Socket values are carried as already-formatted decimal text (the editor
//! shell formats its numeric widgets before handing values to the core), so
//! the emitted shader arguments are a pure function of the stored text.

use vstd::prelude::*;

verus! {

/// Output artifact of one code-generation run: separate text buffers for the
/// vertex-shader body, the pixel-shader body and the sampler/resource
/// declarations.
#[derive(Debug)]
pub struct GenCode {
    pub vs_code: String,
    pub ps_code: String,
    pub sampler_code: String,
}

impl Clone for GenCode {
    fn clone(&self) -> (r: Self)
        ensures
            r.vs_code@ == self.vs_code@,
            r.ps_code@ == self.ps_code@,
            r.sampler_code@ == self.sampler_code@,
    {
        GenCode {
            vs_code: self.vs_code.clone(),
            ps_code: self.ps_code.clone(),
            sampler_code: self.sampler_code.clone(),
        }
    }
}

/// The closed set of socket data types; connections are only made between
/// sockets of identical data type.
#[derive(PartialEq, Eq, Clone, Copy, Structural, Debug)]
pub enum MyDataType {
    Scalar,
    Vec3,
}


impl MyDataType {
    /// The display name of the data type, as the editor shows it.
    pub fn name(&self) -> (r: String)
        ensures
            *self == MyDataType::Scalar ==> r@ == "scalar"@,
            *self == MyDataType::Vec3 ==> r@ == "3d vector"@,
    {
        match self {
            MyDataType::Scalar => String::from_str("scalar"),
            MyDataType::Vec3 => String::from_str("3d vector"),
        }
    }
}

/// A literal socket value: decimal text for a scalar, or three decimal texts
/// for a vector. `None` marks a slot with no editable literal (its socket is
/// resolved to a builtin expression instead).
#[derive(Debug)]
pub enum MyValueType {
    Vec3 { value: Option<(String, String, String)> },
    Scalar { value: Option<String> },
}

/// Mathematical view of [`MyValueType`]: the stored texts as `Seq<char>`.
#[verifier::ext_equal]
pub enum ValueView {
    Vec3(Option<(Seq<char>, Seq<char>, Seq<char>)>),
    Scalar(Option<Seq<char>>),
}

impl View for MyValueType {
    type V = ValueView;

    open spec fn view(&self) -> ValueView {
        match self {
            MyValueType::Vec3 { value: Some((x, y, z)) } => ValueView::Vec3(
                Some((x@, y@, z@)),
            ),
            MyValueType::Vec3 { value: None } => ValueView::Vec3(None),
            MyValueType::Scalar { value: Some(s) } => ValueView::Scalar(Some(s@)),
            MyValueType::Scalar { value: None } => ValueView::Scalar(None),
        }
    }
}

impl Clone for MyValueType {
    fn clone(&self) -> (r: Self)
        ensures
            r@ == self@,
    {
        match self {
            MyValueType::Vec3 { value: Some((x, y, z)) } => MyValueType::Vec3 {
                value: Some((x.clone(), y.clone(), z.clone())),
            },
            MyValueType::Vec3 { value: None } => MyValueType::Vec3 { value: None },
            MyValueType::Scalar { value: Some(s) } => MyValueType::Scalar {
                value: Some(s.clone()),
            },
            MyValueType::Scalar { value: None } => MyValueType::Scalar { value: None },
        }
    }
}

impl MyValueType {
    pub fn scalar(value: String) -> (r: Self)
        ensures
            r@ == ValueView::Scalar(Some(value@)),
    {
        MyValueType::Scalar { value: Some(value) }
    }

    pub fn vector(x: String, y: String, z: String) -> (r: Self)
        ensures
            r@ == ValueView::Vec3(Some((x@, y@, z@))),
    {
        MyValueType::Vec3 { value: Some((x, y, z)) }
    }

    pub fn default_scalar() -> (r: Self)
        ensures
            r@ == ValueView::Scalar(Some("0"@)),
    {
        MyValueType::Scalar { value: Some(String::from_str("0")) }
    }

    pub fn default_vector() -> (r: Self)
        ensures
            r@ == ValueView::Vec3(Some(("0"@, "0"@, "0"@))),
    {
        MyValueType::Vec3 {
            value: Some(
                (String::from_str("0"), String::from_str("0"), String::from_str("0")),
            ),
        }
    }
}

impl Default for MyValueType {
    /// The editor needs some value for freshly created slots; a zero scalar.
    fn default() -> (r: Self)
        ensures
            r@ == ValueView::Scalar(Some("0"@)),
    {
        MyValueType::default_scalar()
    }
}

/// A stored value whose literal payload is present.
pub open spec fn value_defined(v: ValueView) -> bool {
    match v {
        ValueView::Scalar(o) => o is Some,
        ValueView::Vec3(o) => o is Some,
    }
}

/// Declared input socket of a node kind: its name, data type, and how an
/// unconnected socket is resolved — `Ok(v)` is an editable literal default,
/// `Err(expr)` is a builtin shader expression substituted verbatim.
#[derive(Debug)]
pub struct InputSocketType {
    pub name: String,
    pub ty: MyDataType,
    pub default: Result<MyValueType, String>,
}

/// Mathematical view of [`InputSocketType`].
#[verifier::ext_equal]
pub struct InputSocketView {
    pub name: Seq<char>,
    pub ty: MyDataType,
    pub default: Result<ValueView, Seq<char>>,
}

impl View for InputSocketType {
    type V = InputSocketView;

    open spec fn view(&self) -> InputSocketView {
        InputSocketView {
            name: self.name@,
            ty: self.ty,
            default: match self.default {
                Ok(v) => Ok(v@),
                Err(s) => Err(s@),
            },
        }
    }
}

impl InputSocketType {
    /// The value a freshly built node stores in this socket's slot: the
    /// literal default when there is one, otherwise an empty slot of the
    /// socket's data type.
    pub open spec fn spec_default_value(&self) -> ValueView {
        match self@.default {
            Ok(v) => v,
            Err(_) => match self.ty {
                MyDataType::Scalar => ValueView::Scalar(None),
                MyDataType::Vec3 => ValueView::Vec3(None),
            },
        }
    }

    pub fn get_default_value(&self) -> (v: MyValueType)
        ensures
            v@ == self.spec_default_value(),
    {
        match &self.default {
            Ok(def) => def.clone(),
            Err(_) => match self.ty {
                MyDataType::Scalar => MyValueType::Scalar { value: None },
                MyDataType::Vec3 => MyValueType::Vec3 { value: None },
            },
        }
    }
}

/// Declared output socket of a node kind.
#[derive(Debug)]
pub struct OutputSocketType {
    pub name: String,
    pub ty: MyDataType,
}

/// Mathematical view of [`OutputSocketType`].
#[verifier::ext_equal]
pub struct OutputSocketView {
    pub name: Seq<char>,
    pub ty: MyDataType,
}

impl View for OutputSocketType {
    type V = OutputSocketView;

    open spec fn view(&self) -> OutputSocketView {
        OutputSocketView { name: self.name@, ty: self.ty }
    }
}

/// Registry entry for one node kind: display label, category tags (UI
/// grouping only), and the ordered socket lists that fix positional argument
/// order at emission time.
#[derive(Debug)]
pub struct NodeTypeInfo {
    pub label: String,
    pub categories: Vec<String>,
    pub input_sockets: Vec<InputSocketType>,
    pub output_sockets: Vec<OutputSocketType>,
}

/// Mathematical view of [`NodeTypeInfo`].
#[verifier::ext_equal]
pub struct InfoView {
    pub label: Seq<char>,
    pub categories: Seq<Seq<char>>,
    pub input_sockets: Seq<InputSocketView>,
    pub output_sockets: Seq<OutputSocketView>,
}

impl View for NodeTypeInfo {
    type V = InfoView;

    open spec fn view(&self) -> InfoView {
        InfoView {
            label: self.label@,
            categories: self.categories@.map_values(|c: String| c@),
            input_sockets: self.input_sockets@.map_values(|s: InputSocketType| s@),
            output_sockets: self.output_sockets@.map_values(|s: OutputSocketType| s@),
        }
    }
}

/// The closed enumeration of node kinds. Each kind's socket layout comes from
/// the registry; adding a kind means extending this enumeration and the
/// registry together.
#[derive(PartialEq, Eq, Clone, Copy, Structural, Hash, Debug)]
pub enum MyNodeType {
    MakeScalar,
    Add,
    Sub,
    MakeVector,
    Add3,
    Sub3,
    VectorTimesScalar,
    NrmWS,
    NrmVS,
    FaceNrmWS,
    LightDirWS,
    DotProduct,
    Main,
    FloatToVector3,
    Saturate,
    Saturate3,
    FMA,
    FMA3,
    Pow,
    Pow3,
    Sqrt,
    UV0,
    MainTexure2D,
    MatCapTexure2D,
    ToonTexure2D,
    CustomTexture2D,
    Step,
    SmoothStep,
    ScreenPos,
    PosWS,
    CameraPos,
    Depth,
    Fresnel,
    ViewDirWS,
    Max,
    Min,
    Mul,
    Mul3,
    Div,
    Sin,
    Cos,
    Lerp,
    Lerp3,
    Normalize,
    MatAlpha,
    Reflect,
    HalfDirection,
    ComponentMask,
    VSPosWS,
    VSUV0,
    VSNrmWS,
    TimeSync,
    TimeFree,
    Route,
    Route3,
    RgbToHsv,
    HsvToRgb,
    AdjustHsv,
}

/// Editor-side state the generator needs: which node is the active output,
/// and per-node auxiliary text (a texture path on a custom-texture node, a
/// boolean flag on the main node), indexed by node id. A missing entry is
/// treated as the default, never an error.
pub struct MyGraphState {
    pub active_node: Option<usize>,
    pub node_custom_data: Vec<Option<String>>,
}


impl Default for GenCode {
    /// No generated code yet: three empty sections.
    fn default() -> (r: Self)
        ensures
            r.vs_code@ == Seq::<char>::empty(),
            r.ps_code@ == Seq::<char>::empty(),
            r.sampler_code@ == Seq::<char>::empty(),
    {
        GenCode { vs_code: String::new(), ps_code: String::new(), sampler_code: String::new() }
    }
}

impl Default for MyGraphState {
    /// No active node and no auxiliary data.
    fn default() -> (r: Self)
        ensures
            r.active_node is None,
            r.node_custom_data@.len() == 0,
    {
        MyGraphState { active_node: None, node_custom_data: Vec::new() }
    }
}

} // verus!
