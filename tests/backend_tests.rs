use gldevice::backend::{ErrorType, GlBackEnd, SamplerRequest, TextureStorage};
use gldevice::info::{Info, PlatformName};
use gldevice::version::Version;

fn info(version: &str, extensions: &[&str]) -> Info {
    let platform = PlatformName { vendor: "Vendor".to_string(), renderer: "Renderer".to_string() };
    Info::new(platform, version, "1.30", extensions.iter().map(|s| s.to_string()).collect()).unwrap()
}

fn backend(version: &str, extensions: &[&str]) -> GlBackEnd<u8> {
    GlBackEnd::new(info(version, extensions), Version::new(1, 30, None, ""), 8, 4096, 16)
}

#[test]
fn old_driver_without_extensions_has_no_features() {
    let b = backend("2.1", &[]);
    let c = b.get_capabilities();
    assert!(!c.uniform_block_supported);
    assert!(!c.array_buffer_supported);
    assert!(!c.immutable_storage_supported);
    assert!(!c.sampler_objects_supported);
    assert_eq!(c.max_draw_buffers, 8);
    assert_eq!(c.max_texture_size, 4096);
    assert_eq!(c.max_vertex_attributes, 16);
    assert_eq!(b.texture_storage(), TextureStorage::Mutable);
    assert_eq!(b.check_array_buffer(), Err(()));
}

#[test]
fn uniform_blocks_by_version_or_extension() {
    assert!(backend("3.1", &[]).get_capabilities().uniform_block_supported);
    assert!(!backend("3.0", &[]).get_capabilities().uniform_block_supported);
    let b = backend("2.1", &["GL_ARB_uniform_buffer_object"]);
    assert!(b.get_capabilities().uniform_block_supported);
    assert!(!b.get_capabilities().sampler_objects_supported);
}

#[test]
fn array_buffers_by_version_or_extension() {
    assert!(backend("3.0", &[]).get_capabilities().array_buffer_supported);
    assert!(!backend("2.1", &[]).get_capabilities().array_buffer_supported);
    let b = backend("2.1", &["GL_ARB_vertex_array_object"]);
    assert!(b.get_capabilities().array_buffer_supported);
    assert!(!b.get_capabilities().uniform_block_supported);
    assert_eq!(b.check_array_buffer(), Ok(()));
}

#[test]
fn immutable_storage_by_version_or_extension() {
    let new = backend("4.2", &[]);
    assert!(new.get_capabilities().immutable_storage_supported);
    assert_eq!(new.texture_storage(), TextureStorage::Immutable);
    assert!(!backend("4.1", &[]).get_capabilities().immutable_storage_supported);
    let b = backend("2.1", &["GL_ARB_texture_storage"]);
    assert!(b.get_capabilities().immutable_storage_supported);
    assert_eq!(b.texture_storage(), TextureStorage::Immutable);
    assert!(!b.get_capabilities().array_buffer_supported);
}

#[test]
fn sampler_objects_by_version_or_extension() {
    assert!(backend("3.3", &[]).get_capabilities().sampler_objects_supported);
    assert!(!backend("3.2", &[]).get_capabilities().sampler_objects_supported);
    let b = backend("2.1", &["GL_ARB_sampler_objects"]);
    assert!(b.get_capabilities().sampler_objects_supported);
    assert!(!b.get_capabilities().immutable_storage_supported);
}

#[test]
fn emulated_samplers_count_up_from_zero() {
    let mut b = backend("2.1", &[]);
    for n in 0..5u8 {
        match b.create_sampler(n * 10) {
            SamplerRequest::Emulated(h) => assert_eq!(h, n as usize),
            SamplerRequest::CreateObject(_) => panic!("driver has no sampler objects"),
        }
        assert_eq!(b.check_array_buffer(), Err(()));
        assert_eq!(b.texture_storage(), TextureStorage::Mutable);
    }
    assert_eq!(b.emulated_sampler_count(), 5);
    assert_eq!(b.emulated_sampler(0), Some(&0));
    assert_eq!(b.emulated_sampler(3), Some(&30));
    assert_eq!(b.emulated_sampler(5), None);
}

#[test]
fn sampler_objects_are_handed_to_the_driver() {
    let mut b = backend("3.3", &[]);
    match b.create_sampler(9) {
        SamplerRequest::CreateObject(s) => assert_eq!(s, 9),
        SamplerRequest::Emulated(_) => panic!("driver has sampler objects"),
    }
    assert_eq!(b.emulated_sampler_count(), 0);
}

#[test]
fn get_info_returns_driver_info() {
    let b = backend("3.2.1 Build", &["GL_X"]);
    let i = b.get_info();
    assert_eq!(i.version.revision, Some(1));
    assert_eq!(i.platform_name.vendor, "Vendor");
    assert!(i.is_extension_supported("GL_X"));
}

#[test]
fn error_codes() {
    assert_eq!(ErrorType::from_code(0), Ok(()));
    assert_eq!(ErrorType::from_code(0x0500), Err(ErrorType::InvalidEnum));
    assert_eq!(ErrorType::from_code(0x0501), Err(ErrorType::InvalidValue));
    assert_eq!(ErrorType::from_code(0x0502), Err(ErrorType::InvalidOperation));
    assert_eq!(ErrorType::from_code(0x0505), Err(ErrorType::OutOfMemory));
    assert_eq!(ErrorType::from_code(0x0506), Err(ErrorType::InvalidFramebufferOperation));
    assert_eq!(ErrorType::from_code(0x0503), Err(ErrorType::UnknownError));
}
