use gldevice::storage::{
    BaseType, ContainerType, IsArray, IsMultiSample, IsRect, IsShadow, MatrixFormat,
    SamplerType, StorageType,
};

#[test]
fn plain_variable_codes() {
    assert_eq!(StorageType::new(0x1406), StorageType::Var(BaseType::F32, ContainerType::Single));
    assert_eq!(
        StorageType::new(0x8B52),
        StorageType::Var(BaseType::F32, ContainerType::Vector(4))
    );
    assert_eq!(
        StorageType::new(0x8B54),
        StorageType::Var(BaseType::I32, ContainerType::Vector(3))
    );
    assert_eq!(
        StorageType::new(0x8DC6),
        StorageType::Var(BaseType::U32, ContainerType::Vector(2))
    );
    assert_eq!(StorageType::new(0x8B56), StorageType::Var(BaseType::Bool, ContainerType::Single));
    assert_eq!(
        StorageType::new(0x8B5C),
        StorageType::Var(BaseType::F32, ContainerType::Matrix(MatrixFormat::ColumnMajor, 4, 4))
    );
    assert_eq!(
        StorageType::new(0x8B65),
        StorageType::Var(BaseType::F32, ContainerType::Matrix(MatrixFormat::ColumnMajor, 2, 3))
    );
    assert_eq!(
        StorageType::new(0x8B6A),
        StorageType::Var(BaseType::F32, ContainerType::Matrix(MatrixFormat::ColumnMajor, 4, 3))
    );
}

#[test]
fn sampler_codes() {
    assert_eq!(
        StorageType::new(0x8B5E),
        StorageType::Sampler(
            BaseType::F32,
            SamplerType::Sampler2D(
                IsArray::NoArray,
                IsShadow::NoShadow,
                IsMultiSample::NoMultiSample,
                IsRect::NoRect
            )
        )
    );
    assert_eq!(
        StorageType::new(0x910B),
        StorageType::Sampler(
            BaseType::F32,
            SamplerType::Sampler2D(
                IsArray::Array,
                IsShadow::NoShadow,
                IsMultiSample::MultiSample,
                IsRect::NoRect
            )
        )
    );
    assert_eq!(
        StorageType::new(0x8DC3),
        StorageType::Sampler(BaseType::F32, SamplerType::Sampler1D(IsArray::Array, IsShadow::Shadow))
    );
    assert_eq!(StorageType::new(0x8B5F), StorageType::Sampler(BaseType::F32, SamplerType::Sampler3D));
    assert_eq!(
        StorageType::new(0x8DC5),
        StorageType::Sampler(BaseType::F32, SamplerType::SamplerCube(IsShadow::Shadow))
    );
}

#[test]
fn unknown_codes() {
    assert_eq!(StorageType::new(0), StorageType::Unknown);
    assert_eq!(StorageType::new(0x140A), StorageType::Unknown);
    assert_eq!(StorageType::new(0x8DCA), StorageType::Unknown);
    assert_eq!(StorageType::new(u32::MAX), StorageType::Unknown);
}
