//! What the driver says about itself, and the capabilities derived from it.
use vstd::prelude::*;
use crate::version::{
    Version, field, find_char, index_of, lemma_index_of_bounds, lex_cmp, parse_model,
};
use vstd::string::StrSliceExecFns;
use std::cmp::Ordering;

verus! {

/// A unique platform identifier that does not change between releases.
#[derive(Debug)]
pub struct PlatformName {
    /// The company responsible for the OpenGL implementation
    pub vendor: String,
    /// The name of the renderer
    pub renderer: String,
}

/// OpenGL implementation information.
#[derive(Debug)]
pub struct Info {
    pub platform_name: PlatformName,
    /// The OpenGL API version number
    pub version: Version,
    /// The GLSL version number
    pub shading_language: Version,
    /// The extensions supported by the implementation
    pub extensions: Vec<String>,
}

pub open spec fn has_extension(extensions: Seq<String>, name: Seq<char>) -> bool {
    exists|i: int| 0 <= i < extensions.len() && #[trigger] extensions[i]@ == name
}

/// `v` is at least `major.minor`.
pub open spec fn at_least(v: Version, major: nat, minor: nat) -> bool {
    lex_cmp(v.rank(), (major, minor, 0)) != Ordering::Less
}

impl Info {
    /// Builds the record from the driver's answers. Fails with the text of
    /// the first version string that does not parse.
    pub fn new(
        platform_name: PlatformName,
        version: &str,
        shading_language: &str,
        extensions: Vec<String>,
    ) -> (r: Result<Info, String>)
        ensures
            match (parse_model(version@), parse_model(shading_language@)) {
                (None, _) => r matches Err(e) && e@ == version@,
                (Some(_), None) => r matches Err(e) && e@ == shading_language@,
                (Some(a), Some(b)) => r matches Ok(info) && info.version.model() == a
                    && info.shading_language.model() == b && info.platform_name == platform_name
                    && info.extensions@ == extensions@,
            },
    {
        let version = match Version::parse(version) {
            Ok(v) => v,
            Err(e) => return Err(e),
        };
        let shading_language = match Version::parse(shading_language) {
            Ok(v) => v,
            Err(e) => return Err(e),
        };
        Ok(Info { platform_name, version, shading_language, extensions })
    }

    /// Returns `true` if the implementation supports the extension.
    pub fn is_extension_supported(&self, s: &str) -> (r: bool)
        ensures
            r == has_extension(self.extensions@, s@),
    {
        let name = s.to_owned();
        let mut i: usize = 0;
        while i < self.extensions.len()
            invariant
                i <= self.extensions.len(),
                name@ == s@,
                forall|k: int| 0 <= k < i ==> self.extensions@[k]@ != s@,
            decreases self.extensions.len() - i,
        {
            if self.extensions[i] == name {
                return true;
            }
            i = i + 1;
        }
        false
    }
}

/// Splits the driver's extension string on single spaces, as older drivers
/// report their extensions in one string. Every field is kept, empty ones
/// included, in order.
pub fn split_extensions(text: &str) -> (r: Vec<String>)
    ensures
        forall|k: int| 0 <= k < r.len() ==> field(text@, ' ', k as nat) == Some(#[trigger] r[k]@),
        field(text@, ' ', r.len() as nat) is None,
{
    let n = text.unicode_len();
    let mut out: Vec<String> = Vec::new();
    let mut start: usize = 0;
    assert(text@.subrange(0, n as int) =~= text@);
    loop
        invariant
            start <= n == text@.len(),
            forall|k: int|
                0 <= k < out.len() ==> field(text@, ' ', k as nat) == Some(#[trigger] out[k]@),
            forall|j: nat|
                #![trigger field(text@.subrange(start as int, n as int), ' ', j)]
                field(text@, ' ', (out.len() + j) as nat) == field(
                    text@.subrange(start as int, n as int),
                    ' ',
                    j,
                ),
        decreases n - start,
    {
        let ghost rest = text@.subrange(start as int, n as int);
        let end = find_char(text, start, n, ' ');
        let piece = text.substring_char(start, end).to_owned();
        proof {
            lemma_index_of_bounds(rest, ' ');
            assert(rest.subrange(0, end - start) =~= text@.subrange(start as int, end as int));
            assert(field(text@, ' ', (out.len() + 0) as nat) == field(rest, ' ', 0));
        }
        out.push(piece);
        if end == n {
            assert(field(text@, ' ', (out.len() - 1 + 1) as nat) == field(rest, ' ', 1));
            return out;
        }
        let ghost first = start;
        start = end + 1;
        proof {
            let next = text@.subrange(start as int, n as int);
            assert(rest.subrange(end - first + 1, rest.len() as int) =~= next);
            assert forall|j: nat|
                #![trigger field(next, ' ', j)]
                field(text@, ' ', (out.len() + j) as nat) == field(next, ' ', j) by {
                assert(field(text@, ' ', (out.len() - 1 + (j + 1)) as nat) == field(
                    rest,
                    ' ',
                    (j + 1) as nat,
                ));
            }
        }
    }
}

/// Features and limits of the driver, fixed once detected.
#[derive(Debug)]
pub struct Capabilities {
    pub shader_model: Version,
    pub max_draw_buffers: usize,
    pub max_texture_size: usize,
    pub max_vertex_attributes: usize,
    pub uniform_block_supported: bool,
    pub array_buffer_supported: bool,
    pub immutable_storage_supported: bool,
    pub sampler_objects_supported: bool,
}

/// A feature is there from a given API version on, or through its extension.
pub open spec fn feature(info: Info, major: nat, minor: nat, extension: Seq<char>) -> bool {
    at_least(info.version, major, minor) || has_extension(info.extensions@, extension)
}

impl Capabilities {
    /// Derives the feature flags from the API version and the extensions.
    pub fn detect(
        info: &Info,
        shader_model: Version,
        max_draw_buffers: usize,
        max_texture_size: usize,
        max_vertex_attributes: usize,
    ) -> (r: Capabilities)
        ensures
            r.shader_model == shader_model,
            r.max_draw_buffers == max_draw_buffers,
            r.max_texture_size == max_texture_size,
            r.max_vertex_attributes == max_vertex_attributes,
            r.uniform_block_supported == feature(*info, 3, 1, "GL_ARB_uniform_buffer_object"@),
            r.array_buffer_supported == feature(*info, 3, 0, "GL_ARB_vertex_array_object"@),
            r.immutable_storage_supported == feature(*info, 4, 2, "GL_ARB_texture_storage"@),
            r.sampler_objects_supported == feature(*info, 3, 3, "GL_ARB_sampler_objects"@),
    {
        let v = &info.version;
        Capabilities {
            shader_model,
            max_draw_buffers,
            max_texture_size,
            max_vertex_attributes,
            uniform_block_supported: v.at_least(3, 1) || info.is_extension_supported(
                "GL_ARB_uniform_buffer_object",
            ),
            array_buffer_supported: v.at_least(3, 0) || info.is_extension_supported(
                "GL_ARB_vertex_array_object",
            ),
            immutable_storage_supported: v.at_least(4, 2) || info.is_extension_supported(
                "GL_ARB_texture_storage",
            ),
            sampler_objects_supported: v.at_least(3, 3) || info.is_extension_supported(
                "GL_ARB_sampler_objects",
            ),
        }
    }
}

} // verus!
