//! The back-end's own state: its capabilities, the texture path chosen for
//! them, and the samplers it keeps itself where the driver has no sampler
//! objects.
use vstd::prelude::*;
use crate::info::{Capabilities, Info};
use crate::version::Version;

verus! {

pub const NO_ERROR: u32 = 0;
pub const INVALID_ENUM: u32 = 0x0500;
pub const INVALID_VALUE: u32 = 0x0501;
pub const INVALID_OPERATION: u32 = 0x0502;
pub const OUT_OF_MEMORY: u32 = 0x0505;
pub const INVALID_FRAMEBUFFER_OPERATION: u32 = 0x0506;

#[derive(Debug, Clone, Copy, PartialEq, Eq, Structural)]
pub enum ErrorType {
    InvalidEnum,
    InvalidValue,
    InvalidOperation,
    InvalidFramebufferOperation,
    OutOfMemory,
    UnknownError,
}

pub open spec fn error_of(code: u32) -> Result<(), ErrorType> {
    if code == NO_ERROR {
        Ok(())
    } else if code == INVALID_ENUM {
        Err(ErrorType::InvalidEnum)
    } else if code == INVALID_VALUE {
        Err(ErrorType::InvalidValue)
    } else if code == INVALID_OPERATION {
        Err(ErrorType::InvalidOperation)
    } else if code == INVALID_FRAMEBUFFER_OPERATION {
        Err(ErrorType::InvalidFramebufferOperation)
    } else if code == OUT_OF_MEMORY {
        Err(ErrorType::OutOfMemory)
    } else {
        Err(ErrorType::UnknownError)
    }
}

impl ErrorType {
    /// Reads the driver's error flag.
    pub fn from_code(code: u32) -> (r: Result<(), ErrorType>)
        ensures
            r == error_of(code),
    {
        match code {
            NO_ERROR => Ok(()),
            INVALID_ENUM => Err(ErrorType::InvalidEnum),
            INVALID_VALUE => Err(ErrorType::InvalidValue),
            INVALID_OPERATION => Err(ErrorType::InvalidOperation),
            INVALID_FRAMEBUFFER_OPERATION => Err(ErrorType::InvalidFramebufferOperation),
            OUT_OF_MEMORY => Err(ErrorType::OutOfMemory),
            _ => Err(ErrorType::UnknownError),
        }
    }
}

/// A texture: its driver name and the target it binds to.
#[derive(Debug, Clone, Copy, PartialEq, Eq, Structural, Hash)]
pub struct Texture {
    pub name: u32,
    pub kind: u32,
}

/// How textures get their storage.
#[derive(Debug, Clone, Copy, PartialEq, Eq, Structural)]
pub enum TextureStorage {
    /// Allocated once at a fixed size.
    Immutable,
    /// Allocated per image, and resizable.
    Mutable,
}

/// What creating a sampler comes to.
#[derive(Debug)]
pub enum SamplerRequest<S> {
    /// The driver has sampler objects: make one from this description.
    CreateObject(S),
    /// The back-end keeps the description; this is its handle.
    Emulated(usize),
}

/// One sampler creation: `before` becomes `after` and hands out `r`. The
/// capabilities, the driver information and the texture path stay; with
/// sampler objects the description goes to the driver, and without them it
/// is appended to the back-end's list, its index there being the handle.
pub open spec fn sampler_step<S>(
    before: GlBackEnd<S>,
    info: S,
    r: SamplerRequest<S>,
    after: GlBackEnd<S>,
) -> bool {
    &&& after.caps() == before.caps()
    &&& after.info() == before.info()
    &&& after.texture_path() == before.texture_path()
    &&& before.caps().sampler_objects_supported ==> r == SamplerRequest::CreateObject(info)
        && after.samplers() == before.samplers()
    &&& !before.caps().sampler_objects_supported ==> r == SamplerRequest::<S>::Emulated(
        before.samplers().len() as usize,
    ) && after.samplers() == before.samplers().push(info)
}

/// An OpenGL back-end with GLSL shaders.
pub struct GlBackEnd<S> {
    caps: Capabilities,
    info: Info,
    texture_storage: TextureStorage,
    samplers: Vec<S>,
}

impl<S> GlBackEnd<S> {
    pub closed spec fn caps(&self) -> Capabilities {
        self.caps
    }

    pub closed spec fn info(&self) -> Info {
        self.info
    }

    pub closed spec fn texture_path(&self) -> TextureStorage {
        self.texture_storage
    }

    /// The samplers kept by the back-end, by handle.
    pub closed spec fn samplers(&self) -> Seq<S> {
        self.samplers@
    }

    /// Detects the capabilities and picks the texture path once for all.
    pub fn new(
        info: Info,
        shader_model: Version,
        max_draw_buffers: usize,
        max_texture_size: usize,
        max_vertex_attributes: usize,
    ) -> (r: GlBackEnd<S>)
        ensures
            r.info() == info,
            r.caps().shader_model == shader_model,
            r.caps().max_draw_buffers == max_draw_buffers,
            r.caps().max_texture_size == max_texture_size,
            r.caps().max_vertex_attributes == max_vertex_attributes,
            r.caps().uniform_block_supported == crate::info::feature(
                info,
                3,
                1,
                "GL_ARB_uniform_buffer_object"@,
            ),
            r.caps().array_buffer_supported == crate::info::feature(
                info,
                3,
                0,
                "GL_ARB_vertex_array_object"@,
            ),
            r.caps().immutable_storage_supported == crate::info::feature(
                info,
                4,
                2,
                "GL_ARB_texture_storage"@,
            ),
            r.caps().sampler_objects_supported == crate::info::feature(
                info,
                3,
                3,
                "GL_ARB_sampler_objects"@,
            ),
            r.texture_path() == (if r.caps().immutable_storage_supported {
                TextureStorage::Immutable
            } else {
                TextureStorage::Mutable
            }),
            r.samplers().len() == 0,
    {
        let caps = Capabilities::detect(
            &info,
            shader_model,
            max_draw_buffers,
            max_texture_size,
            max_vertex_attributes,
        );
        let texture_storage = if caps.immutable_storage_supported {
            TextureStorage::Immutable
        } else {
            TextureStorage::Mutable
        };
        GlBackEnd { caps, info, texture_storage, samplers: Vec::new() }
    }

    /// Get the OpenGL-specific driver information.
    pub fn get_info(&self) -> (r: &Info)
        ensures
            *r == self.info(),
    {
        &self.info
    }

    pub fn get_capabilities(&self) -> (r: &Capabilities)
        ensures
            *r == self.caps(),
    {
        &self.caps
    }

    /// The texture path picked at construction.
    pub fn texture_storage(&self) -> (r: TextureStorage)
        ensures
            r == self.texture_path(),
    {
        self.texture_storage
    }

    /// Whether vertex array objects may be made or bound; the driver's lack
    /// of them is an error for the caller.
    pub fn check_array_buffer(&self) -> (r: Result<(), ()>)
        ensures
            r is Ok == self.caps().array_buffer_supported,
    {
        if self.caps.array_buffer_supported {
            Ok(())
        } else {
            Err(())
        }
    }

    /// Creates a sampler. Without sampler objects the description is
    /// appended to the back-end's own list, and its index there is the
    /// handle; the list only ever grows.
    pub fn create_sampler(&mut self, info: S) -> (r: SamplerRequest<S>)
        ensures
            sampler_step(*old(self), info, r, *final(self)),
    {
        if self.caps.sampler_objects_supported {
            SamplerRequest::CreateObject(info)
        } else {
            let handle = self.samplers.len();
            self.samplers.push(info);
            SamplerRequest::Emulated(handle)
        }
    }

    /// The sampler kept under an emulated handle.
    pub fn emulated_sampler(&self, handle: usize) -> (r: Option<&S>)
        ensures
            handle < self.samplers().len() ==> r == Some(&self.samplers()[handle as int]),
            handle >= self.samplers().len() ==> r is None,
    {
        if handle < self.samplers.len() {
            Some(&self.samplers[handle])
        } else {
            None
        }
    }

    /// How many samplers the back-end keeps.
    pub fn emulated_sampler_count(&self) -> (r: usize)
        ensures
            r == self.samplers().len(),
    {
        self.samplers.len()
    }
}

/// Emulated sampler handles count up from zero in creation order. `states`
/// are the back-end before the first creation and after each one (calls in
/// between take it by shared reference and leave it as it is), `infos` the
/// descriptions passed, `handles` what came back. On a back-end without
/// sampler objects whose list starts empty, the `k`-th creation hands out
/// `k`, and the list ends up holding the `n` descriptions in order.
pub proof fn lemma_emulated_handles<S>(
    states: Seq<GlBackEnd<S>>,
    infos: Seq<S>,
    handles: Seq<SamplerRequest<S>>,
)
    requires
        states.len() == infos.len() + 1,
        handles.len() == infos.len(),
        states[0].samplers().len() == 0,
        !states[0].caps().sampler_objects_supported,
        forall|k: int|
            0 <= k < infos.len() ==> #[trigger] sampler_step(
                states[k],
                infos[k],
                handles[k],
                states[k + 1],
            ),
    ensures
        forall|k: int|
            0 <= k < infos.len() ==> #[trigger] handles[k] == SamplerRequest::<S>::Emulated(
                k as usize,
            ),
        states.last().samplers() == infos,
        states.last().samplers().len() == infos.len(),
{
    lemma_emulated_prefix(states, infos, handles, infos.len() as int);
    assert forall|k: int| 0 <= k < infos.len() implies #[trigger] handles[k]
        == SamplerRequest::<S>::Emulated(k as usize) by {
        lemma_emulated_prefix(states, infos, handles, k);
        assert(sampler_step(states[k], infos[k], handles[k], states[k + 1]));
    }
    assert(infos.subrange(0, infos.len() as int) =~= infos);
}

proof fn lemma_emulated_prefix<S>(
    states: Seq<GlBackEnd<S>>,
    infos: Seq<S>,
    handles: Seq<SamplerRequest<S>>,
    n: int,
)
    requires
        0 <= n <= infos.len(),
        states.len() == infos.len() + 1,
        handles.len() == infos.len(),
        states[0].samplers().len() == 0,
        !states[0].caps().sampler_objects_supported,
        forall|k: int|
            0 <= k < infos.len() ==> #[trigger] sampler_step(
                states[k],
                infos[k],
                handles[k],
                states[k + 1],
            ),
    ensures
        states[n].samplers() == infos.subrange(0, n),
        !states[n].caps().sampler_objects_supported,
    decreases n,
{
    if n == 0 {
        assert(states[0].samplers() =~= infos.subrange(0, 0));
    } else {
        lemma_emulated_prefix(states, infos, handles, n - 1);
        assert(sampler_step(states[n - 1], infos[n - 1], handles[n - 1], states[(n - 1) + 1]));
        assert(infos.subrange(0, n - 1).push(infos[n - 1]) =~= infos.subrange(0, n));
    }
}

} // verus!
