//! What a driver's type code says about a shader variable.
use vstd::prelude::*;

verus! {

pub const FLOAT: u32 = 0x1406;
pub const FLOAT_VEC2: u32 = 0x8B50;
pub const FLOAT_VEC3: u32 = 0x8B51;
pub const FLOAT_VEC4: u32 = 0x8B52;
pub const INT: u32 = 0x1404;
pub const INT_VEC2: u32 = 0x8B53;
pub const INT_VEC3: u32 = 0x8B54;
pub const INT_VEC4: u32 = 0x8B55;
pub const UNSIGNED_INT: u32 = 0x1405;
pub const UNSIGNED_INT_VEC2: u32 = 0x8DC6;
pub const UNSIGNED_INT_VEC3: u32 = 0x8DC7;
pub const UNSIGNED_INT_VEC4: u32 = 0x8DC8;
pub const BOOL: u32 = 0x8B56;
pub const BOOL_VEC2: u32 = 0x8B57;
pub const BOOL_VEC3: u32 = 0x8B58;
pub const BOOL_VEC4: u32 = 0x8B59;
pub const FLOAT_MAT2: u32 = 0x8B5A;
pub const FLOAT_MAT3: u32 = 0x8B5B;
pub const FLOAT_MAT4: u32 = 0x8B5C;
pub const FLOAT_MAT2X3: u32 = 0x8B65;
pub const FLOAT_MAT2X4: u32 = 0x8B66;
pub const FLOAT_MAT3X2: u32 = 0x8B67;
pub const FLOAT_MAT3X4: u32 = 0x8B68;
pub const FLOAT_MAT4X2: u32 = 0x8B69;
pub const FLOAT_MAT4X3: u32 = 0x8B6A;
pub const SAMPLER_1D: u32 = 0x8B5D;
pub const SAMPLER_1D_ARRAY: u32 = 0x8DC0;
pub const SAMPLER_1D_SHADOW: u32 = 0x8B61;
pub const SAMPLER_1D_ARRAY_SHADOW: u32 = 0x8DC3;
pub const SAMPLER_2D: u32 = 0x8B5E;
pub const SAMPLER_2D_ARRAY: u32 = 0x8DC1;
pub const SAMPLER_2D_SHADOW: u32 = 0x8B62;
pub const SAMPLER_2D_MULTISAMPLE: u32 = 0x9108;
pub const SAMPLER_2D_RECT: u32 = 0x8B63;
pub const SAMPLER_2D_ARRAY_SHADOW: u32 = 0x8DC4;
pub const SAMPLER_2D_MULTISAMPLE_ARRAY: u32 = 0x910B;
pub const SAMPLER_2D_RECT_SHADOW: u32 = 0x8B64;
pub const SAMPLER_3D: u32 = 0x8B5F;
pub const SAMPLER_CUBE: u32 = 0x8B60;
pub const SAMPLER_CUBE_SHADOW: u32 = 0x8DC5;

/// The scalar type of a variable.
#[derive(Debug, Clone, Copy, PartialEq, Eq, Structural)]
pub enum BaseType {
    F32,
    I32,
    U32,
    Bool,
}

#[derive(Debug, Clone, Copy, PartialEq, Eq, Structural)]
pub enum MatrixFormat {
    ColumnMajor,
    RowMajor,
}

/// The shape a variable's scalars take.
#[derive(Debug, Clone, Copy, PartialEq, Eq, Structural)]
pub enum ContainerType {
    Single,
    Vector(u8),
    /// Format, columns, rows.
    Matrix(MatrixFormat, u8, u8),
}

#[derive(Debug, Clone, Copy, PartialEq, Eq, Structural)]
pub enum IsArray {
    Array,
    NoArray,
}

#[derive(Debug, Clone, Copy, PartialEq, Eq, Structural)]
pub enum IsShadow {
    Shadow,
    NoShadow,
}

#[derive(Debug, Clone, Copy, PartialEq, Eq, Structural)]
pub enum IsMultiSample {
    MultiSample,
    NoMultiSample,
}

#[derive(Debug, Clone, Copy, PartialEq, Eq, Structural)]
pub enum IsRect {
    Rect,
    NoRect,
}

/// Dimensionality and flavour of a sampler.
#[derive(Debug, Clone, Copy, PartialEq, Eq, Structural)]
pub enum SamplerType {
    Sampler1D(IsArray, IsShadow),
    Sampler2D(IsArray, IsShadow, IsMultiSample, IsRect),
    Sampler3D,
    SamplerCube(IsShadow),
}

/// What a type code describes: a plain variable, a sampler, or a code that
/// is not in the table.
#[derive(Debug, Clone, Copy, PartialEq, Eq, Structural)]
pub enum StorageType {
    Var(BaseType, ContainerType),
    Sampler(BaseType, SamplerType),
    Unknown,
}

pub open spec fn var(b: BaseType, c: ContainerType) -> StorageType {
    StorageType::Var(b, c)
}

pub open spec fn mat(cols: u8, rows: u8) -> StorageType {
    StorageType::Var(BaseType::F32, ContainerType::Matrix(MatrixFormat::ColumnMajor, cols, rows))
}

pub open spec fn sampler2d(a: IsArray, s: IsShadow, m: IsMultiSample, r: IsRect) -> StorageType {
    StorageType::Sampler(BaseType::F32, SamplerType::Sampler2D(a, s, m, r))
}

/// The table from type codes to storage descriptions.
pub open spec fn storage_of(code: u32) -> StorageType {
    if code == FLOAT { var(BaseType::F32, ContainerType::Single) }
    else if code == FLOAT_VEC2 { var(BaseType::F32, ContainerType::Vector(2)) }
    else if code == FLOAT_VEC3 { var(BaseType::F32, ContainerType::Vector(3)) }
    else if code == FLOAT_VEC4 { var(BaseType::F32, ContainerType::Vector(4)) }
    else if code == INT { var(BaseType::I32, ContainerType::Single) }
    else if code == INT_VEC2 { var(BaseType::I32, ContainerType::Vector(2)) }
    else if code == INT_VEC3 { var(BaseType::I32, ContainerType::Vector(3)) }
    else if code == INT_VEC4 { var(BaseType::I32, ContainerType::Vector(4)) }
    else if code == UNSIGNED_INT { var(BaseType::U32, ContainerType::Single) }
    else if code == UNSIGNED_INT_VEC2 { var(BaseType::U32, ContainerType::Vector(2)) }
    else if code == UNSIGNED_INT_VEC3 { var(BaseType::U32, ContainerType::Vector(3)) }
    else if code == UNSIGNED_INT_VEC4 { var(BaseType::U32, ContainerType::Vector(4)) }
    else if code == BOOL { var(BaseType::Bool, ContainerType::Single) }
    else if code == BOOL_VEC2 { var(BaseType::Bool, ContainerType::Vector(2)) }
    else if code == BOOL_VEC3 { var(BaseType::Bool, ContainerType::Vector(3)) }
    else if code == BOOL_VEC4 { var(BaseType::Bool, ContainerType::Vector(4)) }
    else if code == FLOAT_MAT2 { mat(2, 2) }
    else if code == FLOAT_MAT3 { mat(3, 3) }
    else if code == FLOAT_MAT4 { mat(4, 4) }
    else if code == FLOAT_MAT2X3 { mat(2, 3) }
    else if code == FLOAT_MAT2X4 { mat(2, 4) }
    else if code == FLOAT_MAT3X2 { mat(3, 2) }
    else if code == FLOAT_MAT3X4 { mat(3, 4) }
    else if code == FLOAT_MAT4X2 { mat(4, 2) }
    else if code == FLOAT_MAT4X3 { mat(4, 3) }
    else if code == SAMPLER_1D {
        StorageType::Sampler(BaseType::F32, SamplerType::Sampler1D(IsArray::NoArray, IsShadow::NoShadow))
    } else if code == SAMPLER_1D_ARRAY {
        StorageType::Sampler(BaseType::F32, SamplerType::Sampler1D(IsArray::Array, IsShadow::NoShadow))
    } else if code == SAMPLER_1D_SHADOW {
        StorageType::Sampler(BaseType::F32, SamplerType::Sampler1D(IsArray::NoArray, IsShadow::Shadow))
    } else if code == SAMPLER_1D_ARRAY_SHADOW {
        StorageType::Sampler(BaseType::F32, SamplerType::Sampler1D(IsArray::Array, IsShadow::Shadow))
    }
    else if code == SAMPLER_2D { sampler2d(IsArray::NoArray, IsShadow::NoShadow, IsMultiSample::NoMultiSample, IsRect::NoRect) }
    else if code == SAMPLER_2D_ARRAY { sampler2d(IsArray::Array, IsShadow::NoShadow, IsMultiSample::NoMultiSample, IsRect::NoRect) }
    else if code == SAMPLER_2D_SHADOW { sampler2d(IsArray::NoArray, IsShadow::Shadow, IsMultiSample::NoMultiSample, IsRect::NoRect) }
    else if code == SAMPLER_2D_MULTISAMPLE { sampler2d(IsArray::NoArray, IsShadow::NoShadow, IsMultiSample::MultiSample, IsRect::NoRect) }
    else if code == SAMPLER_2D_RECT { sampler2d(IsArray::NoArray, IsShadow::NoShadow, IsMultiSample::NoMultiSample, IsRect::Rect) }
    else if code == SAMPLER_2D_ARRAY_SHADOW { sampler2d(IsArray::Array, IsShadow::Shadow, IsMultiSample::NoMultiSample, IsRect::NoRect) }
    else if code == SAMPLER_2D_MULTISAMPLE_ARRAY { sampler2d(IsArray::Array, IsShadow::NoShadow, IsMultiSample::MultiSample, IsRect::NoRect) }
    else if code == SAMPLER_2D_RECT_SHADOW { sampler2d(IsArray::NoArray, IsShadow::Shadow, IsMultiSample::NoMultiSample, IsRect::Rect) }
    else if code == SAMPLER_3D { StorageType::Sampler(BaseType::F32, SamplerType::Sampler3D) }
    else if code == SAMPLER_CUBE { StorageType::Sampler(BaseType::F32, SamplerType::SamplerCube(IsShadow::NoShadow)) }
    else if code == SAMPLER_CUBE_SHADOW { StorageType::Sampler(BaseType::F32, SamplerType::SamplerCube(IsShadow::Shadow)) }
    else { StorageType::Unknown }
}

impl StorageType {
    /// Looks a type code up; a code outside the table gives `Unknown`.
    pub fn new(code: u32) -> (r: StorageType)
        ensures
            r == storage_of(code),
    {
        let (f, i, u, b) = (BaseType::F32, BaseType::I32, BaseType::U32, BaseType::Bool);
        let single = ContainerType::Single;
        let col = MatrixFormat::ColumnMajor;
        let (arr, no_arr) = (IsArray::Array, IsArray::NoArray);
        let (sh, no_sh) = (IsShadow::Shadow, IsShadow::NoShadow);
        let (ms, no_ms) = (IsMultiSample::MultiSample, IsMultiSample::NoMultiSample);
        let (rect, no_rect) = (IsRect::Rect, IsRect::NoRect);
        match code {
            FLOAT => StorageType::Var(f, single),
            FLOAT_VEC2 => StorageType::Var(f, ContainerType::Vector(2)),
            FLOAT_VEC3 => StorageType::Var(f, ContainerType::Vector(3)),
            FLOAT_VEC4 => StorageType::Var(f, ContainerType::Vector(4)),
            INT => StorageType::Var(i, single),
            INT_VEC2 => StorageType::Var(i, ContainerType::Vector(2)),
            INT_VEC3 => StorageType::Var(i, ContainerType::Vector(3)),
            INT_VEC4 => StorageType::Var(i, ContainerType::Vector(4)),
            UNSIGNED_INT => StorageType::Var(u, single),
            UNSIGNED_INT_VEC2 => StorageType::Var(u, ContainerType::Vector(2)),
            UNSIGNED_INT_VEC3 => StorageType::Var(u, ContainerType::Vector(3)),
            UNSIGNED_INT_VEC4 => StorageType::Var(u, ContainerType::Vector(4)),
            BOOL => StorageType::Var(b, single),
            BOOL_VEC2 => StorageType::Var(b, ContainerType::Vector(2)),
            BOOL_VEC3 => StorageType::Var(b, ContainerType::Vector(3)),
            BOOL_VEC4 => StorageType::Var(b, ContainerType::Vector(4)),
            FLOAT_MAT2 => StorageType::Var(f, ContainerType::Matrix(col, 2, 2)),
            FLOAT_MAT3 => StorageType::Var(f, ContainerType::Matrix(col, 3, 3)),
            FLOAT_MAT4 => StorageType::Var(f, ContainerType::Matrix(col, 4, 4)),
            FLOAT_MAT2X3 => StorageType::Var(f, ContainerType::Matrix(col, 2, 3)),
            FLOAT_MAT2X4 => StorageType::Var(f, ContainerType::Matrix(col, 2, 4)),
            FLOAT_MAT3X2 => StorageType::Var(f, ContainerType::Matrix(col, 3, 2)),
            FLOAT_MAT3X4 => StorageType::Var(f, ContainerType::Matrix(col, 3, 4)),
            FLOAT_MAT4X2 => StorageType::Var(f, ContainerType::Matrix(col, 4, 2)),
            FLOAT_MAT4X3 => StorageType::Var(f, ContainerType::Matrix(col, 4, 3)),
            SAMPLER_1D => StorageType::Sampler(f, SamplerType::Sampler1D(no_arr, no_sh)),
            SAMPLER_1D_ARRAY => StorageType::Sampler(f, SamplerType::Sampler1D(arr, no_sh)),
            SAMPLER_1D_SHADOW => StorageType::Sampler(f, SamplerType::Sampler1D(no_arr, sh)),
            SAMPLER_1D_ARRAY_SHADOW => StorageType::Sampler(f, SamplerType::Sampler1D(arr, sh)),
            SAMPLER_2D => StorageType::Sampler(
                f,
                SamplerType::Sampler2D(no_arr, no_sh, no_ms, no_rect),
            ),
            SAMPLER_2D_ARRAY => StorageType::Sampler(
                f,
                SamplerType::Sampler2D(arr, no_sh, no_ms, no_rect),
            ),
            SAMPLER_2D_SHADOW => StorageType::Sampler(
                f,
                SamplerType::Sampler2D(no_arr, sh, no_ms, no_rect),
            ),
            SAMPLER_2D_MULTISAMPLE => StorageType::Sampler(
                f,
                SamplerType::Sampler2D(no_arr, no_sh, ms, no_rect),
            ),
            SAMPLER_2D_RECT => StorageType::Sampler(
                f,
                SamplerType::Sampler2D(no_arr, no_sh, no_ms, rect),
            ),
            SAMPLER_2D_ARRAY_SHADOW => StorageType::Sampler(
                f,
                SamplerType::Sampler2D(arr, sh, no_ms, no_rect),
            ),
            SAMPLER_2D_MULTISAMPLE_ARRAY => StorageType::Sampler(
                f,
                SamplerType::Sampler2D(arr, no_sh, ms, no_rect),
            ),
            SAMPLER_2D_RECT_SHADOW => StorageType::Sampler(
                f,
                SamplerType::Sampler2D(no_arr, sh, no_ms, rect),
            ),
            SAMPLER_3D => StorageType::Sampler(f, SamplerType::Sampler3D),
            SAMPLER_CUBE => StorageType::Sampler(f, SamplerType::SamplerCube(no_sh)),
            SAMPLER_CUBE_SHADOW => StorageType::Sampler(f, SamplerType::SamplerCube(sh)),
            _ => StorageType::Unknown,
        }
    }
}

} // verus!
