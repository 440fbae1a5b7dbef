//! Choosing which GLSL variant of a shader to compile, and reading the
//! outcome of compiling and linking.
use vstd::prelude::*;
use crate::info::{Capabilities, at_least};
use crate::introspect::{
    ProgramInfo, RawAttribute, RawBlock, RawUniform, collect_attributes, collect_blocks,
    collect_parameters, describes,
};
use crate::version::{Version, lex_cmp};
use std::cmp::Ordering;

verus! {

pub const VERTEX_SHADER: u32 = 0x8B31;
pub const GEOMETRY_SHADER: u32 = 0x8DD9;
pub const FRAGMENT_SHADER: u32 = 0x8B30;

#[derive(Debug, Clone, Copy, PartialEq, Eq, Structural)]
pub enum Stage {
    Vertex,
    Geometry,
    Fragment,
}

/// The source of one shader stage in each GLSL version it is written for.
#[derive(Debug)]
pub struct ShaderSource {
    pub glsl_120: Option<String>,
    pub glsl_130: Option<String>,
    pub glsl_140: Option<String>,
    pub glsl_150: Option<String>,
}

#[derive(Debug, Clone, Copy, PartialEq, Eq, Structural)]
pub enum CreateShaderError {
    /// No variant is written for a GLSL version the driver takes.
    NoSupportedShaderProvided,
    ShaderCompilationFailed,
}

pub open spec fn stage_target(stage: Stage) -> u32 {
    match stage {
        Stage::Vertex => VERTEX_SHADER,
        Stage::Geometry => GEOMETRY_SHADER,
        Stage::Fragment => FRAGMENT_SHADER,
    }
}

/// The variant written for GLSL `1.minor`.
pub open spec fn variant(src: ShaderSource, minor: nat) -> Option<String> {
    if minor == 50 {
        src.glsl_150
    } else if minor == 40 {
        src.glsl_140
    } else if minor == 30 {
        src.glsl_130
    } else if minor == 20 {
        src.glsl_120
    } else {
        None
    }
}

/// A variant for GLSL `1.minor` is there and the driver's GLSL takes it.
pub open spec fn usable(src: ShaderSource, lang: Version, minor: nat) -> bool {
    variant(src, minor) is Some && at_least(lang, 1, minor)
}

/// The newest usable variant, as the minor number of its GLSL version.
pub open spec fn chosen_variant(src: ShaderSource, lang: Version) -> Option<nat> {
    if usable(src, lang, 50) {
        Some(50)
    } else if usable(src, lang, 40) {
        Some(40)
    } else if usable(src, lang, 30) {
        Some(30)
    } else if usable(src, lang, 20) {
        Some(20)
    } else {
        None
    }
}

/// The driver's code for a shader stage.
pub fn shader_target(stage: Stage) -> (r: u32)
    ensures
        r == stage_target(stage),
{
    match stage {
        Stage::Vertex => VERTEX_SHADER,
        Stage::Geometry => GEOMETRY_SHADER,
        Stage::Fragment => FRAGMENT_SHADER,
    }
}

/// Picks the source to compile: the variant for the newest GLSL version
/// that the driver's GLSL version `lang` takes.
pub fn select_source(src: &ShaderSource, lang: &Version) -> (r: Result<
    String,
    CreateShaderError,
>)
    ensures
        match chosen_variant(*src, *lang) {
            Some(minor) => r matches Ok(s) && variant(*src, minor) matches Some(v) && s@ == v@,
            None => r == Err::<String, CreateShaderError>(
                CreateShaderError::NoSupportedShaderProvided,
            ),
        },
{
    if lang.at_least(1, 50) {
        if let Some(s) = &src.glsl_150 {
            return Ok(s.clone());
        }
    }
    if lang.at_least(1, 40) {
        if let Some(s) = &src.glsl_140 {
            return Ok(s.clone());
        }
    }
    if lang.at_least(1, 30) {
        if let Some(s) = &src.glsl_130 {
            return Ok(s.clone());
        }
    }
    if lang.at_least(1, 20) {
        if let Some(s) = &src.glsl_120 {
            return Ok(s.clone());
        }
    }
    Err(CreateShaderError::NoSupportedShaderProvided)
}

/// The outcome of compiling shader `name`, read from its compile status
/// alone: a log that came with it does not change it.
pub fn compile_result(name: u32, status: i32) -> (r: Result<u32, CreateShaderError>)
    ensures
        status != 0 ==> r == Ok::<u32, CreateShaderError>(name),
        status == 0 ==> r == Err::<u32, CreateShaderError>(
            CreateShaderError::ShaderCompilationFailed,
        ),
{
    if status != 0 {
        Ok(name)
    } else {
        Err(CreateShaderError::ShaderCompilationFailed)
    }
}

/// The outcome of linking a program, read from its link status. Only a
/// program that linked is described, from what the driver reported of it.
pub fn link_result(
    status: i32,
    caps: &Capabilities,
    attributes: &Vec<RawAttribute>,
    uniforms: &Vec<RawUniform>,
    blocks: &Vec<RawBlock>,
) -> (r: Result<ProgramInfo, ()>)
    ensures
        status == 0 <==> r is Err,
        r matches Ok(info) ==> describes(
            info,
            attributes@,
            uniforms@,
            blocks@,
            caps.uniform_block_supported,
        ),
{
    if status == 0 {
        return Err(());
    }
    let (uniform_vars, textures) = collect_parameters(uniforms, caps.uniform_block_supported);
    Ok(
        ProgramInfo {
            attributes: collect_attributes(attributes),
            uniforms: uniform_vars,
            blocks: collect_blocks(blocks, caps.uniform_block_supported),
            textures,
        },
    )
}

/// The variant picked is the newest one the driver takes: it is there, the
/// driver's GLSL takes it, and no newer variant is both.
pub proof fn lemma_chosen_is_newest(src: ShaderSource, lang: Version, minor: nat)
    requires
        chosen_variant(src, lang) == Some(minor),
    ensures
        usable(src, lang, minor),
        forall|m: nat| m > minor && #[trigger] usable(src, lang, m) ==> false,
{
    assert forall|m: nat| m > minor && #[trigger] usable(src, lang, m) implies false by {
        assert(variant(src, m) is Some);
    }
}

/// A newer driver GLSL never picks an older variant, and a driver that
/// takes some variant keeps taking one when its GLSL is newer.
pub proof fn lemma_selection_monotonic(src: ShaderSource, lang: Version, newer: Version)
    requires
        lex_cmp(lang.rank(), newer.rank()) != Ordering::Greater,
    ensures
        chosen_variant(src, lang) matches Some(a) ==> chosen_variant(src, newer) matches Some(b)
            && b >= a,
{
}

} // verus!
