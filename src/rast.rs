//! Fixed-function state: the driver's codes for comparisons, stencil
//! operations and blending, and which faces a state applies to.
use vstd::prelude::*;

verus! {

pub const NEVER: u32 = 0x0200;
pub const LESS: u32 = 0x0201;
pub const EQUAL: u32 = 0x0202;
pub const LEQUAL: u32 = 0x0203;
pub const GREATER: u32 = 0x0204;
pub const NOTEQUAL: u32 = 0x0205;
pub const GEQUAL: u32 = 0x0206;
pub const ALWAYS: u32 = 0x0207;

pub const KEEP: u32 = 0x1E00;
pub const ZERO: u32 = 0;
pub const REPLACE: u32 = 0x1E01;
pub const INCR: u32 = 0x1E02;
pub const DECR: u32 = 0x1E03;
pub const INVERT: u32 = 0x150A;
pub const INCR_WRAP: u32 = 0x8507;
pub const DECR_WRAP: u32 = 0x8508;

pub const FUNC_ADD: u32 = 0x8006;
pub const FUNC_SUBTRACT: u32 = 0x800A;
pub const FUNC_REVERSE_SUBTRACT: u32 = 0x800B;
pub const MIN: u32 = 0x8007;
pub const MAX: u32 = 0x8008;

pub const ONE: u32 = 1;
pub const SRC_COLOR: u32 = 0x0300;
pub const ONE_MINUS_SRC_COLOR: u32 = 0x0301;
pub const SRC_ALPHA: u32 = 0x0302;
pub const ONE_MINUS_SRC_ALPHA: u32 = 0x0303;
pub const DST_ALPHA: u32 = 0x0304;
pub const ONE_MINUS_DST_ALPHA: u32 = 0x0305;
pub const DST_COLOR: u32 = 0x0306;
pub const ONE_MINUS_DST_COLOR: u32 = 0x0307;
pub const SRC_ALPHA_SATURATE: u32 = 0x0308;
pub const CONSTANT_COLOR: u32 = 0x8001;
pub const ONE_MINUS_CONSTANT_COLOR: u32 = 0x8002;
pub const CONSTANT_ALPHA: u32 = 0x8003;
pub const ONE_MINUS_CONSTANT_ALPHA: u32 = 0x8004;

pub const FRONT: u32 = 0x0404;
pub const BACK: u32 = 0x0405;

#[derive(Debug, Clone, Copy, PartialEq, Eq, Structural)]
pub enum Comparison {
    Never,
    Less,
    LessEqual,
    Equal,
    GreaterEqual,
    Greater,
    NotEqual,
    Always,
}

#[derive(Debug, Clone, Copy, PartialEq, Eq, Structural)]
pub enum StencilOp {
    OpKeep,
    OpZero,
    OpReplace,
    OpIncrementClamp,
    OpIncrementWrap,
    OpDecrementClamp,
    OpDecrementWrap,
    OpInvert,
}

#[derive(Debug, Clone, Copy, PartialEq, Eq, Structural)]
pub enum Equation {
    FuncAdd,
    FuncSub,
    FuncRevSub,
    FuncMin,
    FuncMax,
}

/// Whether a blend factor is taken as it is or as one minus it.
#[derive(Debug, Clone, Copy, PartialEq, Eq, Structural)]
pub enum InverseFlag {
    Normal,
    Inverse,
}

#[derive(Debug, Clone, Copy, PartialEq, Eq, Structural)]
pub enum BlendValue {
    Zero,
    SourceColor,
    SourceAlpha,
    SourceAlphaSaturated,
    DestColor,
    DestAlpha,
    ConstColor,
    ConstAlpha,
}

#[derive(Debug, Clone, Copy, PartialEq, Eq, Structural)]
pub struct Factor(pub InverseFlag, pub BlendValue);

#[derive(Debug, Clone, Copy, PartialEq, Eq, Structural)]
pub enum CullMode {
    CullNothing,
    CullFront,
    CullBack,
}

pub open spec fn comparison_code(c: Comparison) -> u32 {
    match c {
        Comparison::Never => NEVER,
        Comparison::Less => LESS,
        Comparison::LessEqual => LEQUAL,
        Comparison::Equal => EQUAL,
        Comparison::GreaterEqual => GEQUAL,
        Comparison::Greater => GREATER,
        Comparison::NotEqual => NOTEQUAL,
        Comparison::Always => ALWAYS,
    }
}

pub open spec fn operation_code(op: StencilOp) -> u32 {
    match op {
        StencilOp::OpKeep => KEEP,
        StencilOp::OpZero => ZERO,
        StencilOp::OpReplace => REPLACE,
        StencilOp::OpIncrementClamp => INCR,
        StencilOp::OpIncrementWrap => INCR_WRAP,
        StencilOp::OpDecrementClamp => DECR,
        StencilOp::OpDecrementWrap => DECR_WRAP,
        StencilOp::OpInvert => INVERT,
    }
}

pub open spec fn equation_code(eq: Equation) -> u32 {
    match eq {
        Equation::FuncAdd => FUNC_ADD,
        Equation::FuncSub => FUNC_SUBTRACT,
        Equation::FuncRevSub => FUNC_REVERSE_SUBTRACT,
        Equation::FuncMin => MIN,
        Equation::FuncMax => MAX,
    }
}

/// A factor the driver has a code for: all but one minus the saturated
/// source alpha.
pub open spec fn factor_supported(f: Factor) -> bool {
    f != Factor(InverseFlag::Inverse, BlendValue::SourceAlphaSaturated)
}

/// Codes of a factor taken as it is, and as one minus it.
pub open spec fn factor_codes(v: BlendValue) -> (u32, u32) {
    match v {
        BlendValue::Zero => (ZERO, ONE),
        BlendValue::SourceColor => (SRC_COLOR, ONE_MINUS_SRC_COLOR),
        BlendValue::SourceAlpha => (SRC_ALPHA, ONE_MINUS_SRC_ALPHA),
        BlendValue::SourceAlphaSaturated => (SRC_ALPHA_SATURATE, SRC_ALPHA_SATURATE),
        BlendValue::DestColor => (DST_COLOR, ONE_MINUS_DST_COLOR),
        BlendValue::DestAlpha => (DST_ALPHA, ONE_MINUS_DST_ALPHA),
        BlendValue::ConstColor => (CONSTANT_COLOR, ONE_MINUS_CONSTANT_COLOR),
        BlendValue::ConstAlpha => (CONSTANT_ALPHA, ONE_MINUS_CONSTANT_ALPHA),
    }
}

pub open spec fn factor_code(f: Factor) -> u32 {
    match f.0 {
        InverseFlag::Normal => factor_codes(f.1).0,
        InverseFlag::Inverse => factor_codes(f.1).1,
    }
}

pub fn map_comparison(cmp: Comparison) -> (r: u32)
    ensures
        r == comparison_code(cmp),
{
    match cmp {
        Comparison::Never => NEVER,
        Comparison::Less => LESS,
        Comparison::LessEqual => LEQUAL,
        Comparison::Equal => EQUAL,
        Comparison::GreaterEqual => GEQUAL,
        Comparison::Greater => GREATER,
        Comparison::NotEqual => NOTEQUAL,
        Comparison::Always => ALWAYS,
    }
}

pub fn map_operation(op: StencilOp) -> (r: u32)
    ensures
        r == operation_code(op),
{
    match op {
        StencilOp::OpKeep => KEEP,
        StencilOp::OpZero => ZERO,
        StencilOp::OpReplace => REPLACE,
        StencilOp::OpIncrementClamp => INCR,
        StencilOp::OpIncrementWrap => INCR_WRAP,
        StencilOp::OpDecrementClamp => DECR,
        StencilOp::OpDecrementWrap => DECR_WRAP,
        StencilOp::OpInvert => INVERT,
    }
}

pub fn map_equation(eq: Equation) -> (r: u32)
    ensures
        r == equation_code(eq),
{
    match eq {
        Equation::FuncAdd => FUNC_ADD,
        Equation::FuncSub => FUNC_SUBTRACT,
        Equation::FuncRevSub => FUNC_REVERSE_SUBTRACT,
        Equation::FuncMin => MIN,
        Equation::FuncMax => MAX,
    }
}

pub fn map_factor(factor: Factor) -> (r: u32)
    requires
        factor_supported(factor),
    ensures
        r == factor_code(factor),
{
    let Factor(flag, value) = factor;
    let inverse = match flag {
        InverseFlag::Normal => false,
        InverseFlag::Inverse => true,
    };
    match value {
        BlendValue::Zero => if inverse { ONE } else { ZERO },
        BlendValue::SourceColor => if inverse { ONE_MINUS_SRC_COLOR } else { SRC_COLOR },
        BlendValue::SourceAlpha => if inverse { ONE_MINUS_SRC_ALPHA } else { SRC_ALPHA },
        BlendValue::SourceAlphaSaturated => SRC_ALPHA_SATURATE,
        BlendValue::DestColor => if inverse { ONE_MINUS_DST_COLOR } else { DST_COLOR },
        BlendValue::DestAlpha => if inverse { ONE_MINUS_DST_ALPHA } else { DST_ALPHA },
        BlendValue::ConstColor => if inverse { ONE_MINUS_CONSTANT_COLOR } else { CONSTANT_COLOR },
        BlendValue::ConstAlpha => if inverse { ONE_MINUS_CONSTANT_ALPHA } else { CONSTANT_ALPHA },
    }
}

/// Whether `factor` has a code; `map_factor` takes only those that do.
pub fn is_factor_supported(factor: Factor) -> (r: bool)
    ensures
        r == factor_supported(factor),
{
    match factor {
        Factor(InverseFlag::Inverse, BlendValue::SourceAlphaSaturated) => false,
        _ => true,
    }
}

/// The faces whose stencil state is set under a cull mode, front then
/// back: a face that is culled keeps its state.
pub fn stencil_faces(cull: CullMode) -> (r: (bool, bool))
    ensures
        r.0 == (cull != CullMode::CullFront),
        r.1 == (cull != CullMode::CullBack),
{
    (cull != CullMode::CullFront, cull != CullMode::CullBack)
}

/// The face to cull, or none.
pub fn cull_face(cull: CullMode) -> (r: Option<u32>)
    ensures
        cull == CullMode::CullNothing ==> r is None,
        cull == CullMode::CullFront ==> r == Some(FRONT),
        cull == CullMode::CullBack ==> r == Some(BACK),
{
    match cull {
        CullMode::CullNothing => None,
        CullMode::CullFront => Some(FRONT),
        CullMode::CullBack => Some(BACK),
    }
}

} // verus!
