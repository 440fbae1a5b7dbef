//! Turning what a driver reports about a linked program into a typed
//! description of its interface.
use vstd::prelude::*;
use crate::storage::{
    BaseType, ContainerType, SamplerType, StorageType, storage_of,
};

verus! {

/// What the driver reports for one active attribute.
#[derive(Debug)]
pub struct RawAttribute {
    pub name: String,
    pub size: usize,
    pub storage: u32,
    pub location: usize,
}

/// What the driver reports for one active uniform. `block_index` is the
/// uniform block that holds it, negative when it stands alone.
#[derive(Debug)]
pub struct RawUniform {
    pub name: String,
    pub size: usize,
    pub storage: u32,
    pub location: usize,
    pub block_index: i32,
}

/// What the driver reports for one active uniform block.
#[derive(Debug)]
pub struct RawBlock {
    pub name: String,
    pub size: usize,
    pub used_by_vertex: bool,
    pub used_by_fragment: bool,
}

#[derive(Debug)]
pub struct Attribute {
    pub name: String,
    pub location: usize,
    pub count: usize,
    pub base_type: BaseType,
    pub container: ContainerType,
}

#[derive(Debug)]
pub struct UniformVar {
    pub name: String,
    pub location: usize,
    pub count: usize,
    pub base_type: BaseType,
    pub container: ContainerType,
}

#[derive(Debug)]
pub struct SamplerVar {
    pub name: String,
    pub location: usize,
    pub base_type: BaseType,
    pub sampler_type: SamplerType,
}

/// A uniform block: its name, its data size, and a mask of the stages that
/// use it (bit 0 vertex, bit 1 fragment).
#[derive(Debug)]
pub struct BlockVar {
    pub name: String,
    pub size: usize,
    pub usage: u8,
}

/// The interface of a linked program.
#[derive(Debug)]
pub struct ProgramInfo {
    pub attributes: Vec<Attribute>,
    pub uniforms: Vec<UniformVar>,
    pub blocks: Vec<BlockVar>,
    pub textures: Vec<SamplerVar>,
}

/// The type an attribute gets: its table entry when that is a plain
/// variable, a single float otherwise.
pub open spec fn attribute_type(code: u32) -> (BaseType, ContainerType) {
    match storage_of(code) {
        StorageType::Var(b, c) => (b, c),
        _ => (BaseType::F32, ContainerType::Single),
    }
}

pub open spec fn attribute_from(a: Attribute, raw: RawAttribute) -> bool {
    &&& a.name@ == raw.name@
    &&& a.location == raw.location
    &&& a.count == raw.size
    &&& (a.base_type, a.container) == attribute_type(raw.storage)
}

/// A uniform outside any block, or any uniform when blocks are not in use.
pub open spec fn is_free(u: RawUniform, blocks_supported: bool) -> bool {
    !blocks_supported || u.block_index < 0
}

pub open spec fn is_var(u: RawUniform) -> bool {
    storage_of(u.storage) is Var
}

pub open spec fn is_sampler(u: RawUniform) -> bool {
    storage_of(u.storage) is Sampler
}

/// Indices, in order, of the first `n` uniforms that become plain uniform
/// variables.
pub open spec fn uniform_indices(raws: Seq<RawUniform>, blocks_supported: bool, n: int) -> Seq<
    int,
>
    decreases n,
{
    if n <= 0 {
        Seq::empty()
    } else {
        let prev = uniform_indices(raws, blocks_supported, n - 1);
        if is_free(raws[n - 1], blocks_supported) && is_var(raws[n - 1]) {
            prev.push(n - 1)
        } else {
            prev
        }
    }
}

/// Indices, in order, of the first `n` uniforms that become samplers.
pub open spec fn sampler_indices(raws: Seq<RawUniform>, blocks_supported: bool, n: int) -> Seq<
    int,
>
    decreases n,
{
    if n <= 0 {
        Seq::empty()
    } else {
        let prev = sampler_indices(raws, blocks_supported, n - 1);
        if is_free(raws[n - 1], blocks_supported) && is_sampler(raws[n - 1]) {
            prev.push(n - 1)
        } else {
            prev
        }
    }
}

pub open spec fn uniform_from(u: UniformVar, raw: RawUniform) -> bool {
    &&& u.name@ == raw.name@
    &&& u.location == raw.location
    &&& u.count == raw.size
    &&& storage_of(raw.storage) == StorageType::Var(u.base_type, u.container)
}

pub open spec fn sampler_from(s: SamplerVar, raw: RawUniform) -> bool {
    &&& s.name@ == raw.name@
    &&& s.location == raw.location
    &&& storage_of(raw.storage) == StorageType::Sampler(s.base_type, s.sampler_type)
}

pub open spec fn usage_mask(vertex: bool, fragment: bool) -> u8 {
    ((if vertex { 1u8 } else { 0u8 }) + (if fragment { 2u8 } else { 0u8 })) as u8
}

pub open spec fn block_from(b: BlockVar, raw: RawBlock) -> bool {
    &&& b.name@ == raw.name@
    &&& b.size == raw.size
    &&& b.usage == usage_mask(raw.used_by_vertex, raw.used_by_fragment)
}

/// `info` is the description of a program whose driver reported these
/// attributes, uniforms and blocks.
pub open spec fn describes(
    info: ProgramInfo,
    attributes: Seq<RawAttribute>,
    uniforms: Seq<RawUniform>,
    blocks: Seq<RawBlock>,
    blocks_supported: bool,
) -> bool {
    let ui = uniform_indices(uniforms, blocks_supported, uniforms.len() as int);
    let si = sampler_indices(uniforms, blocks_supported, uniforms.len() as int);
    &&& info.attributes.len() == attributes.len()
    &&& forall|i: int|
        0 <= i < attributes.len() ==> attribute_from(#[trigger] info.attributes[i], attributes[i])
    &&& info.uniforms.len() == ui.len()
    &&& forall|k: int|
        0 <= k < ui.len() ==> uniform_from(#[trigger] info.uniforms[k], uniforms[ui[k]])
    &&& info.textures.len() == si.len()
    &&& forall|k: int|
        0 <= k < si.len() ==> sampler_from(#[trigger] info.textures[k], uniforms[si[k]])
    &&& info.blocks.len() == (if blocks_supported { blocks.len() } else { 0 })
    &&& forall|i: int|
        0 <= i < info.blocks.len() ==> block_from(#[trigger] info.blocks[i], blocks[i])
}

/// Describes each active attribute. A type code that is not a plain
/// variable does not stop the walk: that attribute is described as a
/// single float.
pub fn collect_attributes(raws: &Vec<RawAttribute>) -> (r: Vec<Attribute>)
    ensures
        r.len() == raws.len(),
        forall|i: int| 0 <= i < raws.len() ==> attribute_from(#[trigger] r[i], raws[i]),
{
    let mut out: Vec<Attribute> = Vec::new();
    let mut i: usize = 0;
    while i < raws.len()
        invariant
            i <= raws.len(),
            out.len() == i,
            forall|k: int| 0 <= k < i ==> attribute_from(#[trigger] out[k], raws[k]),
        decreases raws.len() - i,
    {
        let raw = &raws[i];
        let (base_type, container) = match StorageType::new(raw.storage) {
            StorageType::Var(b, c) => (b, c),
            _ => (BaseType::F32, ContainerType::Single),
        };
        out.push(
            Attribute {
                name: raw.name.clone(),
                location: raw.location,
                count: raw.size,
                base_type,
                container,
            },
        );
        i = i + 1;
    }
    out
}

/// Sorts the active uniforms into plain variables and samplers. When
/// uniform blocks are supported, a uniform that belongs to a block is left
/// out; a uniform whose type code is not in the table is left out of both
/// lists. Order is kept.
pub fn collect_parameters(raws: &Vec<RawUniform>, blocks_supported: bool) -> (r: (
    Vec<UniformVar>,
    Vec<SamplerVar>,
))
    ensures
        r.0.len() == uniform_indices(raws@, blocks_supported, raws.len() as int).len(),
        forall|k: int|
            0 <= k < r.0.len() ==> uniform_from(
                #[trigger] r.0[k],
                raws[uniform_indices(raws@, blocks_supported, raws.len() as int)[k]],
            ),
        r.1.len() == sampler_indices(raws@, blocks_supported, raws.len() as int).len(),
        forall|k: int|
            0 <= k < r.1.len() ==> sampler_from(
                #[trigger] r.1[k],
                raws[sampler_indices(raws@, blocks_supported, raws.len() as int)[k]],
            ),
{
    let mut uniforms: Vec<UniformVar> = Vec::new();
    let mut textures: Vec<SamplerVar> = Vec::new();
    let mut i: usize = 0;
    while i < raws.len()
        invariant
            i <= raws.len(),
            uniforms.len() == uniform_indices(raws@, blocks_supported, i as int).len(),
            forall|k: int|
                0 <= k < uniforms.len() ==> uniform_from(
                    #[trigger] uniforms[k],
                    raws[uniform_indices(raws@, blocks_supported, i as int)[k]],
                ),
            textures.len() == sampler_indices(raws@, blocks_supported, i as int).len(),
            forall|k: int|
                0 <= k < textures.len() ==> sampler_from(
                    #[trigger] textures[k],
                    raws[sampler_indices(raws@, blocks_supported, i as int)[k]],
                ),
        decreases raws.len() - i,
    {
        let raw = &raws[i];
        let ghost ui = uniform_indices(raws@, blocks_supported, i as int);
        let ghost si = sampler_indices(raws@, blocks_supported, i as int);
        assert(raws@[i as int] == *raw);
        if !blocks_supported || raw.block_index < 0 {
            match StorageType::new(raw.storage) {
                StorageType::Var(base_type, container) => {
                    uniforms.push(
                        UniformVar {
                            name: raw.name.clone(),
                            location: raw.location,
                            count: raw.size,
                            base_type,
                            container,
                        },
                    );
                    assert(uniform_indices(raws@, blocks_supported, i + 1) == ui.push(i as int));
                },
                StorageType::Sampler(base_type, sampler_type) => {
                    textures.push(
                        SamplerVar {
                            name: raw.name.clone(),
                            location: raw.location,
                            base_type,
                            sampler_type,
                        },
                    );
                    assert(sampler_indices(raws@, blocks_supported, i + 1) == si.push(i as int));
                },
                StorageType::Unknown => {},
            }
        }
        i = i + 1;
    }
    (uniforms, textures)
}

/// Describes each active uniform block, or none when uniform blocks are
/// not supported.
pub fn collect_blocks(raws: &Vec<RawBlock>, blocks_supported: bool) -> (r: Vec<BlockVar>)
    ensures
        !blocks_supported ==> r.len() == 0,
        blocks_supported ==> r.len() == raws.len(),
        blocks_supported ==> forall|i: int|
            0 <= i < raws.len() ==> block_from(#[trigger] r[i], raws[i]),
{
    let mut out: Vec<BlockVar> = Vec::new();
    if !blocks_supported {
        return out;
    }
    let mut i: usize = 0;
    while i < raws.len()
        invariant
            i <= raws.len(),
            out.len() == i,
            forall|k: int| 0 <= k < i ==> block_from(#[trigger] out[k], raws[k]),
        decreases raws.len() - i,
    {
        let raw = &raws[i];
        let mut usage: u8 = 0;
        if raw.used_by_vertex {
            usage = usage + 1;
        }
        if raw.used_by_fragment {
            usage = usage + 2;
        }
        out.push(BlockVar { name: raw.name.clone(), size: raw.size, usage });
        i = i + 1;
    }
    out
}

/// Which uniforms each list draws from: a uniform is taken as a plain
/// variable exactly when it is free and its code names a plain variable,
/// and as a sampler exactly when it is free and its code names a sampler.
pub proof fn lemma_selection(raws: Seq<RawUniform>, blocks_supported: bool, n: int)
    requires
        0 <= n <= raws.len(),
    ensures
        forall|i: int|
            #![trigger uniform_indices(raws, blocks_supported, n).contains(i)]
            uniform_indices(raws, blocks_supported, n).contains(i) <==> (0 <= i < n && is_free(
                raws[i],
                blocks_supported,
            ) && is_var(raws[i])),
        forall|i: int|
            #![trigger sampler_indices(raws, blocks_supported, n).contains(i)]
            sampler_indices(raws, blocks_supported, n).contains(i) <==> (0 <= i < n && is_free(
                raws[i],
                blocks_supported,
            ) && is_sampler(raws[i])),
    decreases n,
{
    if n > 0 {
        lemma_selection(raws, blocks_supported, n - 1);
        let pu = uniform_indices(raws, blocks_supported, n - 1);
        let ps = sampler_indices(raws, blocks_supported, n - 1);
        assert forall|i: int| #[trigger] pu.push(n - 1).contains(i) <==> (pu.contains(i) || i == n
            - 1) by {
            if i == n - 1 {
                assert(pu.push(n - 1)[pu.len() as int] == i);
            }
            if pu.contains(i) {
                let k = choose|k: int| 0 <= k < pu.len() && pu[k] == i;
                assert(pu.push(n - 1)[k] == i);
            }
            if pu.push(n - 1).contains(i) && i != n - 1 {
                let k = choose|k: int| 0 <= k < pu.len() + 1 && #[trigger] pu.push(n - 1)[k] == i;
                assert(pu[k] == i);
            }
        }
        assert forall|i: int| #[trigger] ps.push(n - 1).contains(i) <==> (ps.contains(i) || i == n
            - 1) by {
            if i == n - 1 {
                assert(ps.push(n - 1)[ps.len() as int] == i);
            }
            if ps.contains(i) {
                let k = choose|k: int| 0 <= k < ps.len() && ps[k] == i;
                assert(ps.push(n - 1)[k] == i);
            }
            if ps.push(n - 1).contains(i) && i != n - 1 {
                let k = choose|k: int| 0 <= k < ps.len() + 1 && #[trigger] ps.push(n - 1)[k] == i;
                assert(ps[k] == i);
            }
        }
    }
}

/// With uniform blocks supported, a uniform that reports a block index of
/// zero or more never becomes a free uniform variable, nor a sampler.
pub proof fn lemma_block_members_excluded(raws: Seq<RawUniform>, i: int)
    requires
        0 <= i < raws.len(),
        raws[i].block_index >= 0,
    ensures
        !uniform_indices(raws, true, raws.len() as int).contains(i),
        !sampler_indices(raws, true, raws.len() as int).contains(i),
{
    lemma_selection(raws, true, raws.len() as int);
}

/// An unrecognised type code drops that one uniform from both lists, and
/// every other free uniform still lands in exactly one of them.
pub proof fn lemma_unknown_dropped(raws: Seq<RawUniform>, blocks_supported: bool, i: int)
    requires
        0 <= i < raws.len(),
    ensures
        storage_of(raws[i].storage) is Unknown ==> !uniform_indices(
            raws,
            blocks_supported,
            raws.len() as int,
        ).contains(i) && !sampler_indices(raws, blocks_supported, raws.len() as int).contains(i),
        is_free(raws[i], blocks_supported) && !(storage_of(raws[i].storage) is Unknown) ==> (
        uniform_indices(raws, blocks_supported, raws.len() as int).contains(i) != sampler_indices(
            raws,
            blocks_supported,
            raws.len() as int,
        ).contains(i)),
{
    lemma_selection(raws, blocks_supported, raws.len() as int);
}

} // verus!
