use gldevice::{backend, rast, shader, storage};

#[test]
fn storage_codes_match_the_registry() {
    let pairs: [(u32, u32); 40] = [
        (storage::FLOAT, gl::FLOAT),
        (storage::FLOAT_VEC2, gl::FLOAT_VEC2),
        (storage::FLOAT_VEC3, gl::FLOAT_VEC3),
        (storage::FLOAT_VEC4, gl::FLOAT_VEC4),
        (storage::INT, gl::INT),
        (storage::INT_VEC2, gl::INT_VEC2),
        (storage::INT_VEC3, gl::INT_VEC3),
        (storage::INT_VEC4, gl::INT_VEC4),
        (storage::UNSIGNED_INT, gl::UNSIGNED_INT),
        (storage::UNSIGNED_INT_VEC2, gl::UNSIGNED_INT_VEC2),
        (storage::UNSIGNED_INT_VEC3, gl::UNSIGNED_INT_VEC3),
        (storage::UNSIGNED_INT_VEC4, gl::UNSIGNED_INT_VEC4),
        (storage::BOOL, gl::BOOL),
        (storage::BOOL_VEC2, gl::BOOL_VEC2),
        (storage::BOOL_VEC3, gl::BOOL_VEC3),
        (storage::BOOL_VEC4, gl::BOOL_VEC4),
        (storage::FLOAT_MAT2, gl::FLOAT_MAT2),
        (storage::FLOAT_MAT3, gl::FLOAT_MAT3),
        (storage::FLOAT_MAT4, gl::FLOAT_MAT4),
        (storage::FLOAT_MAT2X3, gl::FLOAT_MAT2x3),
        (storage::FLOAT_MAT2X4, gl::FLOAT_MAT2x4),
        (storage::FLOAT_MAT3X2, gl::FLOAT_MAT3x2),
        (storage::FLOAT_MAT3X4, gl::FLOAT_MAT3x4),
        (storage::FLOAT_MAT4X2, gl::FLOAT_MAT4x2),
        (storage::FLOAT_MAT4X3, gl::FLOAT_MAT4x3),
        (storage::SAMPLER_1D, gl::SAMPLER_1D),
        (storage::SAMPLER_1D_ARRAY, gl::SAMPLER_1D_ARRAY),
        (storage::SAMPLER_1D_SHADOW, gl::SAMPLER_1D_SHADOW),
        (storage::SAMPLER_1D_ARRAY_SHADOW, gl::SAMPLER_1D_ARRAY_SHADOW),
        (storage::SAMPLER_2D, gl::SAMPLER_2D),
        (storage::SAMPLER_2D_ARRAY, gl::SAMPLER_2D_ARRAY),
        (storage::SAMPLER_2D_SHADOW, gl::SAMPLER_2D_SHADOW),
        (storage::SAMPLER_2D_MULTISAMPLE, gl::SAMPLER_2D_MULTISAMPLE),
        (storage::SAMPLER_2D_RECT, gl::SAMPLER_2D_RECT),
        (storage::SAMPLER_2D_ARRAY_SHADOW, gl::SAMPLER_2D_ARRAY_SHADOW),
        (storage::SAMPLER_2D_MULTISAMPLE_ARRAY, gl::SAMPLER_2D_MULTISAMPLE_ARRAY),
        (storage::SAMPLER_2D_RECT_SHADOW, gl::SAMPLER_2D_RECT_SHADOW),
        (storage::SAMPLER_3D, gl::SAMPLER_3D),
        (storage::SAMPLER_CUBE, gl::SAMPLER_CUBE),
        (storage::SAMPLER_CUBE_SHADOW, gl::SAMPLER_CUBE_SHADOW),
    ];
    for (mine, registry) in pairs.iter() {
        assert_eq!(mine, registry);
    }
}

#[test]
fn stage_and_error_codes_match_the_registry() {
    assert_eq!(shader::VERTEX_SHADER, gl::VERTEX_SHADER);
    assert_eq!(shader::GEOMETRY_SHADER, gl::GEOMETRY_SHADER);
    assert_eq!(shader::FRAGMENT_SHADER, gl::FRAGMENT_SHADER);
    assert_eq!(backend::NO_ERROR, gl::NO_ERROR);
    assert_eq!(backend::INVALID_ENUM, gl::INVALID_ENUM);
    assert_eq!(backend::INVALID_VALUE, gl::INVALID_VALUE);
    assert_eq!(backend::INVALID_OPERATION, gl::INVALID_OPERATION);
    assert_eq!(backend::OUT_OF_MEMORY, gl::OUT_OF_MEMORY);
    assert_eq!(backend::INVALID_FRAMEBUFFER_OPERATION, gl::INVALID_FRAMEBUFFER_OPERATION);
}

#[test]
fn fixed_function_codes_match_the_registry() {
    let pairs: [(u32, u32); 39] = [
        (rast::NEVER, gl::NEVER),
        (rast::LESS, gl::LESS),
        (rast::EQUAL, gl::EQUAL),
        (rast::LEQUAL, gl::LEQUAL),
        (rast::GREATER, gl::GREATER),
        (rast::NOTEQUAL, gl::NOTEQUAL),
        (rast::GEQUAL, gl::GEQUAL),
        (rast::ALWAYS, gl::ALWAYS),
        (rast::KEEP, gl::KEEP),
        (rast::ZERO, gl::ZERO),
        (rast::REPLACE, gl::REPLACE),
        (rast::INCR, gl::INCR),
        (rast::DECR, gl::DECR),
        (rast::INVERT, gl::INVERT),
        (rast::INCR_WRAP, gl::INCR_WRAP),
        (rast::DECR_WRAP, gl::DECR_WRAP),
        (rast::FUNC_ADD, gl::FUNC_ADD),
        (rast::FUNC_SUBTRACT, gl::FUNC_SUBTRACT),
        (rast::FUNC_REVERSE_SUBTRACT, gl::FUNC_REVERSE_SUBTRACT),
        (rast::MIN, gl::MIN),
        (rast::MAX, gl::MAX),
        (rast::ONE, gl::ONE),
        (rast::SRC_COLOR, gl::SRC_COLOR),
        (rast::ONE_MINUS_SRC_COLOR, gl::ONE_MINUS_SRC_COLOR),
        (rast::SRC_ALPHA, gl::SRC_ALPHA),
        (rast::ONE_MINUS_SRC_ALPHA, gl::ONE_MINUS_SRC_ALPHA),
        (rast::DST_ALPHA, gl::DST_ALPHA),
        (rast::ONE_MINUS_DST_ALPHA, gl::ONE_MINUS_DST_ALPHA),
        (rast::DST_COLOR, gl::DST_COLOR),
        (rast::ONE_MINUS_DST_COLOR, gl::ONE_MINUS_DST_COLOR),
        (rast::SRC_ALPHA_SATURATE, gl::SRC_ALPHA_SATURATE),
        (rast::CONSTANT_COLOR, gl::CONSTANT_COLOR),
        (rast::ONE_MINUS_CONSTANT_COLOR, gl::ONE_MINUS_CONSTANT_COLOR),
        (rast::CONSTANT_ALPHA, gl::CONSTANT_ALPHA),
        (rast::ONE_MINUS_CONSTANT_ALPHA, gl::ONE_MINUS_CONSTANT_ALPHA),
        (rast::FRONT, gl::FRONT),
        (rast::BACK, gl::BACK),
        (rast::map_comparison(rast::Comparison::LessEqual), gl::LEQUAL),
        (rast::map_operation(rast::StencilOp::OpIncrementWrap), gl::INCR_WRAP),
    ];
    for (mine, registry) in pairs.iter() {
        assert_eq!(mine, registry);
    }
}
