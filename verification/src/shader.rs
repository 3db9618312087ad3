//! The shader registry's data: declared uniform block metadata, the
//! reflection tables of a linked program, and the resolved registry entry
//! with its linear uniform byte-offset layout.
//!
//! Compiling and linking the program is the driver's work and happens
//! outside this library; what comes back from the linker is a
//! [`ProgramReflection`]: the names the program exposes with their resolved
//! locations. Everything after that point — name resolution against the
//! declared metadata, and the running-accumulator byte offsets of the
//! uniform block — is computed and verified here.

use vstd::prelude::*;
use crate::formats::UniformType;
use crate::errors::GraphicsError;

verus! {

/// The declared uniform block: names and types, in declaration order.
/// Declaration order is layout order; offsets accumulate each type's
/// natural size with no padding.
pub struct UniformBlockLayout {
    pub uniforms: Vec<(String, UniformType)>,
}

/// What the caller declares about a shader at creation time.
pub struct ShaderMeta {
    pub uniforms: UniformBlockLayout,
    pub images: Vec<String>,
}

/// One vertex input the linked program exposes, by name.
pub struct ProgramAttribute {
    pub name: String,
    pub location: u32,
}

/// One uniform (or sampler) the linked program exposes, by name.
pub struct ProgramUniform {
    pub name: String,
    pub location: i32,
}

/// Everything the linker reports about a program: the resolved names of
/// its vertex inputs and of its uniforms and samplers.
pub struct ProgramReflection {
    pub attributes: Vec<ProgramAttribute>,
    pub uniforms: Vec<ProgramUniform>,
}

/// A resolved sampler binding of a registry entry.
pub struct ShaderImage {
    pub gl_loc: i32,
}

/// A resolved uniform of a registry entry: its location, its byte offset
/// within the uniform block, its byte size, and its type tag.
#[derive(Debug, Clone, Copy, PartialEq, Eq, Structural)]
pub struct ShaderUniform {
    pub gl_loc: i32,
    pub offset: usize,
    pub size: usize,
    pub uniform_type: UniformType,
}

/// A shader registry entry: the linked program handle, the resolved image
/// bindings, the resolved uniforms, and the program's vertex input table
/// kept for pipeline creation.
pub struct ShaderInternal {
    pub program: u32,
    pub images: Vec<ShaderImage>,
    pub uniforms: Vec<ShaderUniform>,
    pub attributes: Vec<ProgramAttribute>,
}

/// The location the program exposes for a vertex input name: the first
/// table entry with that name, if any.
pub open spec fn spec_lookup_attribute(table: Seq<ProgramAttribute>, name: Seq<char>) -> Option<
    u32,
>
    decreases table.len(),
{
    if table.len() == 0 {
        None
    } else if table[0].name@ == name {
        Some(table[0].location)
    } else {
        spec_lookup_attribute(table.drop_first(), name)
    }
}

/// The location the program exposes for a uniform or sampler name.
pub open spec fn spec_lookup_uniform(table: Seq<ProgramUniform>, name: Seq<char>) -> Option<i32>
    decreases table.len(),
{
    if table.len() == 0 {
        None
    } else if table[0].name@ == name {
        Some(table[0].location)
    } else {
        spec_lookup_uniform(table.drop_first(), name)
    }
}

/// Resolves a vertex input name against the program's table.
pub fn lookup_attribute(table: &Vec<ProgramAttribute>, name: &String) -> (r: Option<u32>)
    ensures
        r == spec_lookup_attribute(table@, name@),
{
    let n = table.len();
    let mut idx: usize = 0;
    assert(table@.skip(0) =~= table@);
    while idx < n
        invariant
            idx <= n,
            n == table@.len(),
            spec_lookup_attribute(table@, name@) == spec_lookup_attribute(
                table@.skip(idx as int),
                name@,
            ),
        decreases n - idx,
    {
        assert(table@.skip(idx as int)[0] == table@[idx as int]);
        if table[idx].name == *name {
            return Some(table[idx].location);
        }
        assert(table@.skip(idx as int).drop_first() =~= table@.skip(idx as int + 1));
        idx = idx + 1;
    }
    assert(table@.skip(n as int) =~= Seq::<ProgramAttribute>::empty());
    None
}

/// Resolves a uniform or sampler name against the program's table.
pub fn lookup_uniform(table: &Vec<ProgramUniform>, name: &String) -> (r: Option<i32>)
    ensures
        r == spec_lookup_uniform(table@, name@),
{
    let n = table.len();
    let mut idx: usize = 0;
    assert(table@.skip(0) =~= table@);
    while idx < n
        invariant
            idx <= n,
            n == table@.len(),
            spec_lookup_uniform(table@, name@) == spec_lookup_uniform(
                table@.skip(idx as int),
                name@,
            ),
        decreases n - idx,
    {
        assert(table@.skip(idx as int)[0] == table@[idx as int]);
        if table[idx].name == *name {
            return Some(table[idx].location);
        }
        assert(table@.skip(idx as int).drop_first() =~= table@.skip(idx as int + 1));
        idx = idx + 1;
    }
    assert(table@.skip(n as int) =~= Seq::<ProgramUniform>::empty());
    None
}

/// The byte offset of the `k`-th declared uniform: the sum of the natural
/// sizes of the uniforms declared before it.
pub open spec fn spec_uniform_offset(uniforms: Seq<(String, UniformType)>, k: int) -> int
    decreases k,
{
    if k <= 0 {
        0
    } else {
        spec_uniform_offset(uniforms, k - 1) + uniforms[k - 1].1.spec_base_size()
    }
}

/// The byte size of the whole declared uniform block.
pub open spec fn spec_uniform_block_size(uniforms: Seq<(String, UniformType)>) -> int {
    spec_uniform_offset(uniforms, uniforms.len() as int)
}

/// The registry entry the first failing name produces, walking images in
/// declaration order and then uniforms.
pub open spec fn spec_shader_build_ok(refl_uniforms: Seq<ProgramUniform>, meta: &ShaderMeta) -> bool {
    &&& forall|n: int|
        0 <= n < meta.images@.len() ==> spec_lookup_uniform(
            refl_uniforms,
            #[trigger] meta.images@[n]@,
        ) is Some
    &&& forall|k: int|
        0 <= k < meta.uniforms.uniforms@.len() ==> spec_lookup_uniform(
            refl_uniforms,
            (#[trigger] meta.uniforms.uniforms@[k]).0@,
        ) is Some
}

/// What a built registry entry holds: the program, the reflection's
/// attribute table, one resolved location per declared image, and one
/// resolved uniform per declared uniform with accumulated byte offsets.
pub open spec fn spec_shader_entry_matches(
    s: ShaderInternal,
    program: u32,
    refl_attrs: Seq<ProgramAttribute>,
    refl_uniforms: Seq<ProgramUniform>,
    meta: &ShaderMeta,
) -> bool {
    &&& s.program == program
    &&& s.attributes@ == refl_attrs
    &&& s.images@.len() == meta.images@.len()
    &&& forall|n: int|
        0 <= n < meta.images@.len() ==> (#[trigger] s.images@[n]).gl_loc == spec_lookup_uniform(
            refl_uniforms,
            meta.images@[n]@,
        )->Some_0
    &&& s.uniforms@.len() == meta.uniforms.uniforms@.len()
    &&& forall|k: int|
        0 <= k < meta.uniforms.uniforms@.len() ==> #[trigger] s.uniforms@[k] == (ShaderUniform {
            gl_loc: spec_lookup_uniform(refl_uniforms, meta.uniforms.uniforms@[k].0@)->Some_0,
            offset: spec_uniform_offset(meta.uniforms.uniforms@, k) as usize,
            size: meta.uniforms.uniforms@[k].1.spec_base_size() as usize,
            uniform_type: meta.uniforms.uniforms@[k].1,
        })
}

/// Builds a shader registry entry from the linked program's reflection and
/// the declared metadata: resolves every declared image and uniform name,
/// and computes each uniform's byte offset by a running accumulator over
/// the declared list in order.
pub fn build_shader_internal(program: u32, reflection: ProgramReflection, meta: &ShaderMeta) -> (r:
    Result<ShaderInternal, GraphicsError>)
    requires
        spec_uniform_block_size(meta.uniforms.uniforms@) <= usize::MAX,
    ensures
        r is Ok <==> spec_shader_build_ok(reflection.uniforms@, meta),
        r is Err ==> (r->Err_0 == GraphicsError::UnknownImage || r->Err_0
            == GraphicsError::UnknownUniform),
        r is Err && r->Err_0 == GraphicsError::UnknownImage ==> exists|n: int|
            0 <= n < meta.images@.len() && spec_lookup_uniform(
                reflection.uniforms@,
                #[trigger] meta.images@[n]@,
            ) is None,
        r is Err && r->Err_0 == GraphicsError::UnknownUniform ==> exists|k: int|
            0 <= k < meta.uniforms.uniforms@.len() && spec_lookup_uniform(
                reflection.uniforms@,
                (#[trigger] meta.uniforms.uniforms@[k]).0@,
            ) is None,
        r matches Ok(s) ==> spec_shader_entry_matches(
            s,
            program,
            reflection.attributes@,
            reflection.uniforms@,
            meta,
        ),
{
    let mut images: Vec<ShaderImage> = Vec::new();
    let image_count = meta.images.len();
    let mut n: usize = 0;
    while n < image_count
        invariant
            n <= image_count,
            image_count == meta.images@.len(),
            images@.len() == n as int,
            forall|m: int|
                0 <= m < n as int ==> spec_lookup_uniform(
                    reflection.uniforms@,
                    #[trigger] meta.images@[m]@,
                ) is Some,
            forall|m: int|
                0 <= m < n as int ==> (#[trigger] images@[m]).gl_loc == spec_lookup_uniform(
                    reflection.uniforms@,
                    meta.images@[m]@,
                )->Some_0,
        decreases image_count - n,
    {
        match lookup_uniform(&reflection.uniforms, &meta.images[n]) {
            Some(loc) => {
                images.push(ShaderImage { gl_loc: loc });
            },
            None => {
                return Err(GraphicsError::UnknownImage);
            },
        }
        n = n + 1;
    }

    let mut uniforms: Vec<ShaderUniform> = Vec::new();
    let mut offset: usize = 0;
    let uniform_count = meta.uniforms.uniforms.len();
    let mut k: usize = 0;
    while k < uniform_count
        invariant
            k <= uniform_count,
            uniform_count == meta.uniforms.uniforms@.len(),
            spec_uniform_block_size(meta.uniforms.uniforms@) <= usize::MAX,
            offset as int == spec_uniform_offset(meta.uniforms.uniforms@, k as int),
            uniforms@.len() == k as int,
            forall|m: int|
                0 <= m < k as int ==> spec_lookup_uniform(
                    reflection.uniforms@,
                    (#[trigger] meta.uniforms.uniforms@[m]).0@,
                ) is Some,
            forall|m: int|
                0 <= m < k as int ==> #[trigger] uniforms@[m] == (ShaderUniform {
                    gl_loc: spec_lookup_uniform(
                        reflection.uniforms@,
                        meta.uniforms.uniforms@[m].0@,
                    )->Some_0,
                    offset: spec_uniform_offset(meta.uniforms.uniforms@, m) as usize,
                    size: meta.uniforms.uniforms@[m].1.spec_base_size() as usize,
                    uniform_type: meta.uniforms.uniforms@[m].1,
                }),
        decreases uniform_count - k,
    {
        let gl_loc = match lookup_uniform(&reflection.uniforms, &meta.uniforms.uniforms[k].0) {
            Some(loc) => loc,
            None => {
                return Err(GraphicsError::UnknownUniform);
            },
        };
        let uniform_type = meta.uniforms.uniforms[k].1;
        let size = uniform_type.size(1);
        proof {
            lemma_uniform_offset_prefix_le(meta.uniforms.uniforms@, k as int + 1);
        }
        uniforms.push(
            ShaderUniform { gl_loc, offset, size, uniform_type },
        );
        offset = offset + size;
        k = k + 1;
    }

    Ok(
        ShaderInternal {
            program,
            images,
            uniforms,
            attributes: reflection.attributes,
        },
    )
}

/// A prefix of the accumulated offsets never exceeds the whole block's
/// size.
pub proof fn lemma_uniform_offset_prefix_le(uniforms: Seq<(String, UniformType)>, k: int)
    requires
        0 <= k <= uniforms.len(),
    ensures
        spec_uniform_offset(uniforms, k) <= spec_uniform_block_size(uniforms),
    decreases uniforms.len() - k,
{
    if k < uniforms.len() {
        lemma_uniform_offset_prefix_le(uniforms, k + 1);
    }
}

} // verus!
