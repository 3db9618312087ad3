//! The pipeline layout compiler.
//!
//! Given the buffer slot layouts and the declared vertex attributes, the
//! compiler produces one flat, attribute-location-indexed table of resolved
//! records: for each location, the component count, component type, byte
//! offset into the owning buffer, the buffer's stride, the owning buffer
//! slot, and the instance divisor.
//!
//! A buffer slot declared with stride zero gets an automatic stride: the
//! sum of the byte lengths of the attributes assigned to it, in declaration
//! order; a non-zero declared stride wins over the attributes. A mat4
//! attribute expands into four consecutive component-4 records, each
//! sixteen bytes after the one before it.

use vstd::prelude::*;
use crate::formats::{VertexFormat, VertexStep};
use crate::errors::GraphicsError;
use crate::shader::{ProgramAttribute, spec_lookup_attribute, lookup_attribute};
use crate::gl_consts::MAX_VERTEX_ATTRIBUTES;

verus! {

/// One buffer slot's declared layout: its stride (0 = derive from the
/// attributes), and how its read position steps.
#[derive(Debug, Clone)]
pub struct BufferLayout {
    pub stride: i32,
    pub step_func: VertexStep,
    pub step_rate: i32,
}

impl Default for BufferLayout {
    fn default() -> (r: BufferLayout)
        ensures
            r.stride == 0,
            r.step_func == VertexStep::PerVertex,
            r.step_rate == 1,
    {
        BufferLayout { stride: 0, step_func: VertexStep::PerVertex, step_rate: 1 }
    }
}

/// One declared vertex attribute: the name the vertex stage exposes, its
/// format, and the buffer slot it reads from.
#[derive(Debug, Clone)]
pub struct VertexAttribute {
    pub name: String,
    pub format: VertexFormat,
    pub buffer_index: usize,
}

impl VertexAttribute {
    /// An attribute reading from buffer slot 0.
    pub fn new(name: &str, format: VertexFormat) -> (r: VertexAttribute)
        ensures
            r.name@ == name@,
            r.format == format,
            r.buffer_index == 0,
    {
        Self::with_buffer(name, format, 0)
    }

    /// An attribute reading from the given buffer slot.
    pub fn with_buffer(name: &str, format: VertexFormat, buffer_index: usize) -> (r:
        VertexAttribute)
        ensures
            r.name@ == name@,
            r.format == format,
            r.buffer_index == buffer_index,
    {
        VertexAttribute { name: name.to_owned(), format, buffer_index }
    }
}

/// A pipeline's declared layout: the buffer slots and the attributes
/// assigned to them.
pub struct PipelineLayout {
    pub buffers: Vec<BufferLayout>,
    pub attributes: Vec<VertexAttribute>,
}

/// One resolved record of the compiled layout, at its attribute location.
/// A record with component count zero marks an unused slot.
#[derive(Debug, Clone, Copy, PartialEq, Eq, Structural)]
pub struct VertexAttributeInternal {
    pub attr_loc: u32,
    pub size: i32,
    pub type_: u32,
    pub offset: u64,
    pub stride: i32,
    pub buffer_index: usize,
    pub divisor: i32,
}

impl Default for VertexAttributeInternal {
    fn default() -> (r: VertexAttributeInternal)
        ensures
            r == spec_default_record(),
    {
        VertexAttributeInternal {
            attr_loc: 0,
            size: 0,
            type_: 0,
            offset: 0,
            stride: 0,
            buffer_index: 0,
            divisor: 0,
        }
    }
}

/// The empty record an unused slot holds.
pub open spec fn spec_default_record() -> VertexAttributeInternal {
    VertexAttributeInternal {
        attr_loc: 0,
        size: 0,
        type_: 0,
        offset: 0,
        stride: 0,
        buffer_index: 0,
        divisor: 0,
    }
}

/// How many consecutive attribute locations a declared format occupies.
pub open spec fn spec_slots_of(f: VertexFormat) -> int {
    if f == VertexFormat::Mat4 {
        4
    } else {
        1
    }
}

/// The format of each record a declared format produces: a mat4 expands
/// into component-4 float rows.
pub open spec fn spec_sub_format(f: VertexFormat) -> VertexFormat {
    if f == VertexFormat::Mat4 {
        VertexFormat::Float4
    } else {
        f
    }
}

/// How many bytes each produced record advances its slot's running offset:
/// the record's own byte length (a mat4 row is a four-float record).
pub open spec fn spec_offset_advance(f: VertexFormat) -> int {
    spec_sub_format(f).spec_byte_len()
}

/// How many bytes a whole declared attribute advances its slot's running
/// offset: its byte length, all records together.
pub open spec fn spec_attr_advance(f: VertexFormat) -> int {
    f.spec_byte_len()
}

/// The automatic stride contribution of the first `n` attributes to buffer
/// slot `b`: the sum of their byte lengths, in declaration order.
pub open spec fn spec_auto_stride_upto(attrs: Seq<VertexAttribute>, b: int, n: int) -> int
    decreases n,
{
    if n <= 0 {
        0
    } else {
        spec_auto_stride_upto(attrs, b, n - 1) + if attrs[n - 1].buffer_index == b {
            attrs[n - 1].format.spec_byte_len()
        } else {
            0
        }
    }
}

/// The automatic stride of buffer slot `b`: the sum of the byte lengths of
/// every attribute assigned to it, in declaration order.
pub open spec fn spec_auto_stride(attrs: Seq<VertexAttribute>, b: int) -> int {
    spec_auto_stride_upto(attrs, b, attrs.len() as int)
}

/// The effective stride of buffer slot `b`: the declared stride if it is
/// non-zero, else the automatic stride.
pub open spec fn spec_stride(layouts: Seq<BufferLayout>, attrs: Seq<VertexAttribute>, b: int) -> int {
    if layouts[b].stride != 0 {
        layouts[b].stride as int
    } else {
        spec_auto_stride(attrs, b)
    }
}

/// The instance divisor of a buffer slot: zero when it steps per vertex,
/// else its declared step rate.
pub open spec fn spec_divisor(layout: BufferLayout) -> int {
    if layout.step_func == VertexStep::PerVertex {
        0
    } else {
        layout.step_rate as int
    }
}

/// The running byte offset of buffer slot `b` before attribute `n` is
/// placed: the advances of the earlier attributes assigned to `b`.
pub open spec fn spec_base_offset_upto(attrs: Seq<VertexAttribute>, b: int, n: int) -> int
    decreases n,
{
    if n <= 0 {
        0
    } else {
        spec_base_offset_upto(attrs, b, n - 1) + if attrs[n - 1].buffer_index == b {
            spec_attr_advance(attrs[n - 1].format)
        } else {
            0
        }
    }
}

/// How many records the first `n` declared attributes produce.
pub open spec fn spec_total_slots_upto(attrs: Seq<VertexAttribute>, n: int) -> int
    decreases n,
{
    if n <= 0 {
        0
    } else {
        spec_total_slots_upto(attrs, n - 1) + spec_slots_of(attrs[n - 1].format)
    }
}

/// How many records the declared attributes produce in all.
pub open spec fn spec_total_slots(attrs: Seq<VertexAttribute>) -> int {
    spec_total_slots_upto(attrs, attrs.len() as int)
}

/// The layout's capacity: the records produced, but never more than the
/// context's fixed attribute slot count.
pub open spec fn spec_layout_cap(attrs: Seq<VertexAttribute>) -> int {
    if spec_total_slots(attrs) < MAX_VERTEX_ATTRIBUTES as int {
        spec_total_slots(attrs)
    } else {
        MAX_VERTEX_ATTRIBUTES as int
    }
}

/// Whether attribute `j`'s name resolves against the program's table.
pub open spec fn spec_writes(table: Seq<ProgramAttribute>, attrs: Seq<VertexAttribute>, j: int) -> bool {
    spec_lookup_attribute(table, attrs[j].name@) is Some
}

/// The resolved base location of attribute `j`.
pub open spec fn spec_write_base(
    table: Seq<ProgramAttribute>,
    attrs: Seq<VertexAttribute>,
    j: int,
) -> int {
    spec_lookup_attribute(table, attrs[j].name@)->Some_0 as int
}

/// Whether attribute `j` writes the layout slot `s`.
pub open spec fn spec_writes_slot(
    table: Seq<ProgramAttribute>,
    attrs: Seq<VertexAttribute>,
    j: int,
    s: int,
) -> bool {
    &&& spec_writes(table, attrs, j)
    &&& spec_write_base(table, attrs, j) <= s < spec_write_base(table, attrs, j) + spec_slots_of(
        attrs[j].format,
    )
}

/// Whether no attribute after `j` (and before `end`) writes slot `s`.
pub open spec fn spec_no_later_writer(
    table: Seq<ProgramAttribute>,
    attrs: Seq<VertexAttribute>,
    j: int,
    s: int,
    end: int,
) -> bool {
    forall|k: int| j < k < end ==> !#[trigger] spec_writes_slot(table, attrs, k, s)
}

/// Whether one of the first `n` attributes writes slot `s`.
pub open spec fn spec_covered_upto(
    table: Seq<ProgramAttribute>,
    attrs: Seq<VertexAttribute>,
    s: int,
    n: int,
) -> bool {
    exists|k: int| 0 <= k < n && #[trigger] spec_writes_slot(table, attrs, k, s)
}

/// Whether any declared attribute writes slot `s`.
pub open spec fn spec_covered(
    table: Seq<ProgramAttribute>,
    attrs: Seq<VertexAttribute>,
    s: int,
) -> bool {
    spec_covered_upto(table, attrs, s, attrs.len() as int)
}

/// What stops the compiler at attribute `j`, if anything: an unresolved
/// name, or a resolved record outside the layout's capacity.
pub open spec fn spec_attr_error(
    table: Seq<ProgramAttribute>,
    attrs: Seq<VertexAttribute>,
    j: int,
) -> Option<GraphicsError> {
    if !spec_writes(table, attrs, j) {
        Some(GraphicsError::UnknownAttribute)
    } else if spec_write_base(table, attrs, j) + spec_slots_of(attrs[j].format) > spec_layout_cap(
        attrs,
    ) {
        Some(GraphicsError::AttributeLocationOverflow)
    } else {
        None
    }
}

/// The record attribute `j`'s `i`-th expansion places: its location is the
/// resolved base plus `i`; its offset is the slot's running offset before
/// `j` plus `i` record advances; its stride and divisor are the owning
/// slot's.
pub open spec fn spec_record(
    layouts: Seq<BufferLayout>,
    attrs: Seq<VertexAttribute>,
    table: Seq<ProgramAttribute>,
    j: int,
    i: int,
) -> VertexAttributeInternal {
    let a = attrs[j];
    let b = a.buffer_index as int;
    VertexAttributeInternal {
        attr_loc: (spec_write_base(table, attrs, j) + i) as u32,
        size: spec_sub_format(a.format).spec_size() as i32,
        type_: spec_sub_format(a.format).spec_type(),
        offset: (spec_base_offset_upto(attrs, b, j) + i * spec_offset_advance(a.format)) as u64,
        stride: spec_stride(layouts, attrs, b) as i32,
        buffer_index: a.buffer_index,
        divisor: spec_divisor(layouts[b]) as i32,
    }
}

/// Whether compilation succeeds: every name resolves, every record falls
/// inside the capacity, and no slot below the highest is left empty.
pub open spec fn spec_compile_ok(table: Seq<ProgramAttribute>, attrs: Seq<VertexAttribute>) -> bool {
    &&& forall|j: int| 0 <= j < attrs.len() ==> #[trigger] spec_attr_error(table, attrs, j) is None
    &&& forall|s: int| 0 <= s < spec_total_slots(attrs) ==> #[trigger] spec_covered(table, attrs, s)
}

/// What a compiled layout holds: one record per produced slot; each slot
/// holds the record of the last attribute that writes it, and an empty
/// record where nothing writes.
pub open spec fn spec_layout_matches(
    layouts: Seq<BufferLayout>,
    attrs: Seq<VertexAttribute>,
    table: Seq<ProgramAttribute>,
    l: Seq<VertexAttributeInternal>,
) -> bool {
    &&& l.len() == spec_total_slots(attrs)
    &&& forall|j: int, i: int|
        0 <= j < attrs.len() && 0 <= i < spec_slots_of(attrs[j].format) && spec_writes(
            table,
            attrs,
            j,
        ) && spec_no_later_writer(
            table,
            attrs,
            j,
            spec_write_base(table, attrs, j) + i,
            attrs.len() as int,
        ) && 0 <= spec_write_base(table, attrs, j) + i < l.len() ==> l[spec_write_base(
            table,
            attrs,
            j,
        ) + i] == #[trigger] spec_record(layouts, attrs, table, j, i)
    &&& forall|s: int|
        0 <= s < l.len() && !#[trigger] spec_covered(table, attrs, s) ==> l[s]
            == spec_default_record()
}

/// The automatic stride of a prefix is non-negative and at most 64 bytes
/// per attribute.
pub proof fn lemma_auto_stride_upto_bounds(attrs: Seq<VertexAttribute>, b: int, n: int)
    requires
        0 <= n <= attrs.len(),
    ensures
        0 <= spec_auto_stride_upto(attrs, b, n) <= 64 * n,
    decreases n,
{
    if n > 0 {
        lemma_auto_stride_upto_bounds(attrs, b, n - 1);
    }
}

/// A slot's running offset is non-negative and at most 64 bytes per
/// attribute.
pub proof fn lemma_base_offset_upto_bounds(attrs: Seq<VertexAttribute>, b: int, n: int)
    requires
        0 <= n <= attrs.len(),
    ensures
        0 <= spec_base_offset_upto(attrs, b, n) <= 64 * n,
    decreases n,
{
    if n > 0 {
        lemma_base_offset_upto_bounds(attrs, b, n - 1);
    }
}

/// The records produced by a prefix number at most four per attribute.
pub proof fn lemma_total_slots_upto_bounds(attrs: Seq<VertexAttribute>, n: int)
    requires
        0 <= n <= attrs.len(),
    ensures
        0 <= spec_total_slots_upto(attrs, n) <= 4 * n,
    decreases n,
{
    if n > 0 {
        lemma_total_slots_upto_bounds(attrs, n - 1);
    }
}

/// Among the attributes that write a slot there is a last one.
pub proof fn lemma_exists_last_writer(
    table: Seq<ProgramAttribute>,
    attrs: Seq<VertexAttribute>,
    s: int,
    n: int,
)
    requires
        0 <= n <= attrs.len(),
        spec_covered_upto(table, attrs, s, n),
    ensures
        exists|k: int|
            0 <= k < n && #[trigger] spec_writes_slot(table, attrs, k, s) && spec_no_later_writer(
                table,
                attrs,
                k,
                s,
                n,
            ),
    decreases n,
{
    if n > 0 {
        if spec_writes_slot(table, attrs, n - 1, s) {
            assert(spec_no_later_writer(table, attrs, n - 1, s, n));
        } else {
            let k0 = choose|k: int| 0 <= k < n && #[trigger] spec_writes_slot(table, attrs, k, s);
            assert(k0 < n - 1);
            assert(spec_covered_upto(table, attrs, s, n - 1));
            lemma_exists_last_writer(table, attrs, s, n - 1);
            let k1 = choose|k: int|
                0 <= k < n - 1 && #[trigger] spec_writes_slot(table, attrs, k, s)
                    && spec_no_later_writer(table, attrs, k, s, n - 1);
            assert(spec_no_later_writer(table, attrs, k1, s, n));
        }
    }
}


/// The slots the first `n` attributes write.
pub open spec fn spec_written_slots(
    table: Seq<ProgramAttribute>,
    attrs: Seq<VertexAttribute>,
    n: int,
) -> Set<int> {
    Set::new(|s: int| spec_covered_upto(table, attrs, s, n))
}

/// The slots attribute `j` writes: its resolved location range.
pub open spec fn spec_attr_slots(
    table: Seq<ProgramAttribute>,
    attrs: Seq<VertexAttribute>,
    j: int,
) -> Set<int> {
    Set::new(|s: int| spec_writes_slot(table, attrs, j, s))
}

/// An attribute writes at most as many slots as its format occupies.
proof fn lemma_attr_slots_shape(table: Seq<ProgramAttribute>, attrs: Seq<VertexAttribute>, j: int)
    requires
        0 <= j < attrs.len(),
    ensures
        spec_attr_slots(table, attrs, j).finite(),
        spec_attr_slots(table, attrs, j).len() <= spec_slots_of(attrs[j].format),
        spec_writes(table, attrs, j) ==> spec_attr_slots(table, attrs, j).len() == spec_slots_of(
            attrs[j].format,
        ),
{
    if spec_writes(table, attrs, j) {
        let base = spec_write_base(table, attrs, j);
        let k = spec_slots_of(attrs[j].format);
        assert(spec_attr_slots(table, attrs, j) =~= vstd::set_lib::set_int_range(base, base + k));
        vstd::set_lib::lemma_int_range(base, base + k);
    } else {
        assert(spec_attr_slots(table, attrs, j) =~= Set::<int>::empty());
    }
}

/// Walking one more attribute adds exactly its slots to the written set.
proof fn lemma_written_slots_step(table: Seq<ProgramAttribute>, attrs: Seq<VertexAttribute>, n: int)
    requires
        0 <= n < attrs.len(),
    ensures
        spec_written_slots(table, attrs, n + 1) =~= spec_written_slots(table, attrs, n).union(
            spec_attr_slots(table, attrs, n),
        ),
{
    assert forall|s: int| spec_covered_upto(table, attrs, s, n + 1) implies (spec_covered_upto(
        table,
        attrs,
        s,
        n,
    ) || spec_writes_slot(table, attrs, n, s)) by {
        let k = choose|k: int| 0 <= k < n + 1 && #[trigger] spec_writes_slot(table, attrs, k, s);
        if k < n {
            assert(spec_writes_slot(table, attrs, k, s));
            assert(spec_covered_upto(table, attrs, s, n));
        }
    }
    assert forall|s: int|
        spec_covered_upto(table, attrs, s, n) || spec_writes_slot(
            table,
            attrs,
            n,
            s,
        ) implies spec_covered_upto(table, attrs, s, n + 1) by {
        if spec_covered_upto(table, attrs, s, n) {
            let k = choose|k: int| 0 <= k < n && #[trigger] spec_writes_slot(table, attrs, k, s);
            assert(spec_writes_slot(table, attrs, k, s));
        } else {
            assert(spec_writes_slot(table, attrs, n, s));
        }
    }
}

/// The written slots number at most the records produced.
proof fn lemma_written_slots_bound(table: Seq<ProgramAttribute>, attrs: Seq<VertexAttribute>, n: int)
    requires
        0 <= n <= attrs.len(),
    ensures
        spec_written_slots(table, attrs, n).finite(),
        spec_written_slots(table, attrs, n).len() <= spec_total_slots_upto(attrs, n),
    decreases n,
{
    if n == 0 {
        assert(spec_written_slots(table, attrs, 0) =~= Set::<int>::empty());
    } else {
        lemma_written_slots_bound(table, attrs, n - 1);
        lemma_attr_slots_shape(table, attrs, n - 1);
        lemma_written_slots_step(table, attrs, n - 1);
        let a = spec_written_slots(table, attrs, n - 1);
        let b = spec_attr_slots(table, attrs, n - 1);
        vstd::set_lib::lemma_len_union(a, b);
        assert(spec_written_slots(table, attrs, n).len() == a.union(b).len());
    }
}

/// With two writers of one slot among the first `n` attributes, the
/// written slots fall short of the records produced.
proof fn lemma_written_slots_collision(
    table: Seq<ProgramAttribute>,
    attrs: Seq<VertexAttribute>,
    j1: int,
    j2: int,
    s0: int,
    n: int,
)
    requires
        0 <= j1 < j2 < n <= attrs.len(),
        spec_writes_slot(table, attrs, j1, s0),
        spec_writes_slot(table, attrs, j2, s0),
    ensures
        spec_written_slots(table, attrs, n).finite(),
        spec_written_slots(table, attrs, n).len() + 1 <= spec_total_slots_upto(attrs, n),
    decreases n,
{
    lemma_written_slots_step(table, attrs, n - 1);
    lemma_attr_slots_shape(table, attrs, n - 1);
    let a = spec_written_slots(table, attrs, n - 1);
    let b = spec_attr_slots(table, attrs, n - 1);
    if n == j2 + 1 {
        lemma_written_slots_bound(table, attrs, n - 1);
        assert(spec_writes_slot(table, attrs, j1, s0));
        assert(a.contains(s0));
        assert(b.contains(s0));
        assert(a.union(b) =~= a.union(b.remove(s0)));
        vstd::set_lib::lemma_len_union(a, b.remove(s0));
        vstd::set::axiom_set_remove_len(b, s0);
        assert(spec_written_slots(table, attrs, n).len() == a.union(b.remove(s0)).len());
    } else {
        lemma_written_slots_collision(table, attrs, j1, j2, s0, n - 1);
        vstd::set_lib::lemma_len_union(a, b);
        assert(spec_written_slots(table, attrs, n).len() == a.union(b).len());
    }
}

/// On a layout that compiles, no slot has two writers: an attribute owns
/// every location it resolves to.
pub proof fn lemma_compile_ok_unique_writers(
    table: Seq<ProgramAttribute>,
    attrs: Seq<VertexAttribute>,
)
    requires
        spec_compile_ok(table, attrs),
    ensures
        forall|j1: int, j2: int, s: int|
            0 <= j1 < attrs.len() && 0 <= j2 < attrs.len() && #[trigger] spec_writes_slot(
                table,
                attrs,
                j1,
                s,
            ) && #[trigger] spec_writes_slot(table, attrs, j2, s) ==> j1 == j2,
{
    let len = attrs.len() as int;
    let total = spec_total_slots(attrs);
    lemma_total_slots_upto_bounds(attrs, len);
    assert forall|j1: int, j2: int, s: int|
        0 <= j1 < attrs.len() && 0 <= j2 < attrs.len() && #[trigger] spec_writes_slot(
            table,
            attrs,
            j1,
            s,
        ) && #[trigger] spec_writes_slot(table, attrs, j2, s) implies j1 == j2 by {
        if j1 != j2 {
            let lo = if j1 < j2 {
                j1
            } else {
                j2
            };
            let hi = if j1 < j2 {
                j2
            } else {
                j1
            };
            lemma_written_slots_collision(table, attrs, lo, hi, s, len);
            let written = spec_written_slots(table, attrs, len);
            assert forall|t: int|
                vstd::set_lib::set_int_range(0, total).contains(t) implies written.contains(t) by {
                assert(spec_covered(table, attrs, t));
            }
            vstd::set_lib::lemma_len_subset(vstd::set_lib::set_int_range(0, total), written);
            vstd::set_lib::lemma_int_range(0, total);
        }
    }
}

/// A layout that compiles fits the context's fixed attribute slot count.
pub proof fn lemma_compile_ok_fits(table: Seq<ProgramAttribute>, attrs: Seq<VertexAttribute>)
    requires
        spec_compile_ok(table, attrs),
    ensures
        spec_total_slots(attrs) <= MAX_VERTEX_ATTRIBUTES as int,
{
    if spec_total_slots(attrs) > MAX_VERTEX_ATTRIBUTES as int {
        assert(spec_covered(table, attrs, MAX_VERTEX_ATTRIBUTES as int));
        let k = choose|k: int|
            0 <= k < attrs.len() && #[trigger] spec_writes_slot(
                table,
                attrs,
                k,
                MAX_VERTEX_ATTRIBUTES as int,
            );
        assert(spec_attr_error(table, attrs, k) is None);
    }
}

/// For a buffer slot declared with stride zero, every record the compiler
/// produces for that slot carries the automatic stride: the sum, in
/// declaration order, of the byte lengths of the attributes assigned to
/// the slot.
pub proof fn lemma_zero_stride_takes_declared_sum(
    layouts: Seq<BufferLayout>,
    attrs: Seq<VertexAttribute>,
    table: Seq<ProgramAttribute>,
    j: int,
    i: int,
)
    requires
        0 <= j < attrs.len(),
        0 <= i < spec_slots_of(attrs[j].format),
        attrs[j].buffer_index < layouts.len(),
        layouts[attrs[j].buffer_index as int].stride == 0,
        attrs.len() * 64 <= i32::MAX,
    ensures
        spec_record(layouts, attrs, table, j, i).stride as int == spec_auto_stride(
            attrs,
            attrs[j].buffer_index as int,
        ),
{
    let b = attrs[j].buffer_index as int;
    lemma_auto_stride_upto_bounds(attrs, b, attrs.len() as int);
    assert(spec_stride(layouts, attrs, b) == spec_auto_stride(attrs, b));
}

/// On any layout that compiles, a mat4 attribute resolved to base
/// location `base` occupies exactly the four consecutive locations
/// `base .. base + 4`: each record has component count 4, the records'
/// offsets are the owning slot's running offset plus 0, 16, 32 and 48
/// bytes, and each carries the slot's stride and divisor.
#[verifier::rlimit(50)]
pub proof fn lemma_mat4_expansion(
    layouts: Seq<BufferLayout>,
    attrs: Seq<VertexAttribute>,
    table: Seq<ProgramAttribute>,
    l: Seq<VertexAttributeInternal>,
    j: int,
)
    requires
        spec_layout_matches(layouts, attrs, table, l),
        0 <= j < attrs.len(),
        attrs[j].format == VertexFormat::Mat4,
        attrs[j].buffer_index < layouts.len(),
        attrs.len() * 64 <= i32::MAX,
        spec_compile_ok(table, attrs),
    ensures
        forall|i: int|
            0 <= i < 4 ==> (#[trigger] l[spec_write_base(table, attrs, j) + i]).attr_loc as int
                == spec_write_base(table, attrs, j) + i,
        forall|i: int| 0 <= i < 4 ==> (#[trigger] l[spec_write_base(table, attrs, j) + i]).size == 4,
        forall|i: int|
            0 <= i < 4 ==> (#[trigger] l[spec_write_base(table, attrs, j) + i]).offset as int
                == spec_base_offset_upto(attrs, attrs[j].buffer_index as int, j) + 16 * i,
        forall|i: int|
            0 <= i < 4 ==> (#[trigger] l[spec_write_base(table, attrs, j) + i]).stride as int
                == spec_stride(layouts, attrs, attrs[j].buffer_index as int),
        forall|i: int|
            0 <= i < 4 ==> (#[trigger] l[spec_write_base(table, attrs, j) + i]).buffer_index
                == attrs[j].buffer_index,
        forall|i: int|
            0 <= i < 4 ==> (#[trigger] l[spec_write_base(table, attrs, j) + i]).divisor as int
                == spec_divisor(layouts[attrs[j].buffer_index as int]),
{
    let b = attrs[j].buffer_index as int;
    assert(spec_attr_error(table, attrs, j) is None);
    assert(spec_writes(table, attrs, j));
    let base = spec_write_base(table, attrs, j);
    assert(spec_slots_of(attrs[j].format) == 4);
    assert(base + 4 <= spec_layout_cap(attrs));
    assert(base + 4 <= l.len());
    lemma_compile_ok_unique_writers(table, attrs);
    lemma_auto_stride_upto_bounds(attrs, b, attrs.len() as int);
    lemma_base_offset_upto_bounds(attrs, b, j);
    lemma_total_slots_upto_bounds(attrs, attrs.len() as int);
    assert forall|i: int| 0 <= i < 4 implies #[trigger] l[base + i] == spec_record(
        layouts,
        attrs,
        table,
        j,
        i,
    ) by {
        assert forall|k: int| j < k < attrs.len() implies !#[trigger] spec_writes_slot(
            table,
            attrs,
            k,
            base + i,
        ) by {
            if spec_writes_slot(table, attrs, k, base + i) {
                assert(spec_writes_slot(table, attrs, j, base + i));
            }
        }
        assert(spec_no_later_writer(table, attrs, j, base + i, attrs.len() as int));
    }
    assert forall|i: int| 0 <= i < 4 implies (#[trigger] l[base + i]).attr_loc as int == base
        + i by {
        assert(l[base + i] == spec_record(layouts, attrs, table, j, i));
    }
    assert forall|i: int| 0 <= i < 4 implies (#[trigger] l[base + i]).size == 4 by {
        assert(l[base + i] == spec_record(layouts, attrs, table, j, i));
        assert(spec_sub_format(attrs[j].format) == VertexFormat::Float4);
    }
    assert forall|i: int| 0 <= i < 4 implies (#[trigger] l[base + i]).offset as int
        == spec_base_offset_upto(attrs, b, j) + 16 * i by {
        assert(l[base + i] == spec_record(layouts, attrs, table, j, i));
        assert(spec_offset_advance(attrs[j].format) == 16);
    }
    assert forall|i: int| 0 <= i < 4 implies (#[trigger] l[base + i]).stride as int == spec_stride(
        layouts,
        attrs,
        b,
    ) by {
        assert(l[base + i] == spec_record(layouts, attrs, table, j, i));
    }
    assert forall|i: int| 0 <= i < 4 implies (#[trigger] l[base + i]).buffer_index == attrs[j].buffer_index by {
        assert(l[base + i] == spec_record(layouts, attrs, table, j, i));
    }
    assert forall|i: int| 0 <= i < 4 implies (#[trigger] l[base + i]).divisor as int
        == spec_divisor(layouts[b]) by {
        assert(l[base + i] == spec_record(layouts, attrs, table, j, i));
    }
}

/// The scratch a buffer slot accumulates while the layout compiles: its
/// effective stride and its running byte offset.
#[derive(Clone, Copy)]
struct BufferCacheData {
    stride: i32,
    offset: u64,
}

/// Compiles the attribute layout table of a pipeline.
///
/// Walks the declared attributes in order, twice: first it derives each
/// buffer slot's effective stride (a declared non-zero stride wins, a zero
/// stride accumulates the assigned attributes' byte lengths); then it
/// resolves each attribute's location against the program's table, expands
/// a mat4 into four consecutive records, and places every record at its
/// location while advancing the owning slot's running offset.
///
/// Fails with `UnknownAttribute` where a name does not resolve, with
/// `AttributeLocationOverflow` where a record falls outside the layout's
/// capacity — both at the first attribute in declaration order that fails —
/// and with `IncompleteAttributeLayout` where a slot below the highest used
/// location is left empty.
pub fn compile_vertex_layout(
    buffer_layout: &[BufferLayout],
    attributes: &[VertexAttribute],
    program_attributes: &Vec<ProgramAttribute>,
) -> (r: Result<Vec<VertexAttributeInternal>, GraphicsError>)
    requires
        forall|j: int|
            0 <= j < attributes@.len() ==> (#[trigger] attributes@[j]).buffer_index
                < buffer_layout@.len(),
        attributes@.len() * 64 <= i32::MAX,
    ensures
        r is Ok <==> spec_compile_ok(program_attributes@, attributes@),
        r matches Ok(l) ==> spec_layout_matches(buffer_layout@, attributes@, program_attributes@, l@),
        forall|j: int|
            0 <= j < attributes@.len() && (#[trigger] spec_attr_error(
                program_attributes@,
                attributes@,
                j,
            )) is Some && (forall|k: int|
                0 <= k < j ==> #[trigger] spec_attr_error(program_attributes@, attributes@, k) is None)
                ==> r == Result::<Vec<VertexAttributeInternal>, GraphicsError>::Err(
                spec_attr_error(program_attributes@, attributes@, j)->Some_0,
            ),
        ((forall|j: int|
            0 <= j < attributes@.len() ==> #[trigger] spec_attr_error(
                program_attributes@,
                attributes@,
                j,
            ) is None) && !(forall|s: int|
            0 <= s < spec_total_slots(attributes@) ==> #[trigger] spec_covered(
                program_attributes@,
                attributes@,
                s,
            ))) ==> r == Result::<Vec<VertexAttributeInternal>, GraphicsError>::Err(
            GraphicsError::IncompleteAttributeLayout,
        ),
{
    let attr_count = attributes.len();
    let slot_count = buffer_layout.len();

    // Phase 1: derive each referenced slot's effective stride.
    let mut buffer_cache: Vec<BufferCacheData> = Vec::new();
    let mut b0: usize = 0;
    while b0 < slot_count
        invariant
            b0 <= slot_count,
            slot_count == buffer_layout@.len(),
            buffer_cache@.len() == b0 as int,
            forall|b: int|
                0 <= b < b0 as int ==> (#[trigger] buffer_cache@[b]).stride == 0
                    && buffer_cache@[b].offset == 0,
        decreases slot_count - b0,
    {
        buffer_cache.push(BufferCacheData { stride: 0, offset: 0 });
        b0 = b0 + 1;
    }

    let mut j: usize = 0;
    while j < attr_count
        invariant
            j <= attr_count,
            attr_count == attributes@.len(),
            slot_count == buffer_layout@.len(),
            attributes@.len() * 64 <= i32::MAX,
            forall|k: int|
                0 <= k < attributes@.len() ==> (#[trigger] attributes@[k]).buffer_index
                    < buffer_layout@.len(),
            buffer_cache@.len() == slot_count as int,
            forall|b: int| 0 <= b < slot_count as int ==> (#[trigger] buffer_cache@[b]).offset == 0,
            forall|b: int|
                0 <= b < slot_count as int ==> (#[trigger] buffer_cache@[b]).stride as int == (
                if buffer_layout@[b].stride != 0 {
                    if exists|k: int|
                        0 <= k < j as int && (#[trigger] attributes@[k]).buffer_index == b {
                        buffer_layout@[b].stride as int
                    } else {
                        0
                    }
                } else {
                    spec_auto_stride_upto(attributes@, b, j as int)
                }),
        decreases attr_count - j,
    {
        let b = attributes[j].buffer_index;
        proof {
            lemma_auto_stride_upto_bounds(attributes@, b as int, j as int);
        }
        if buffer_layout[b].stride == 0 {
            let add = attributes[j].format.byte_len();
            let entry = buffer_cache[b];
            buffer_cache[b] = BufferCacheData { stride: entry.stride + add, offset: 0 };
        } else {
            buffer_cache[b] = BufferCacheData { stride: buffer_layout[b].stride, offset: 0 };
        }
        j = j + 1;
    }

    // Phase 2: count the records the attributes produce.
    let mut total: usize = 0;
    let mut j1: usize = 0;
    while j1 < attr_count
        invariant
            j1 <= attr_count,
            attr_count == attributes@.len(),
            attributes@.len() * 64 <= i32::MAX,
            total as int == spec_total_slots_upto(attributes@, j1 as int),
            total as int <= 4 * j1 as int,
        decreases attr_count - j1,
    {
        let is_mat = match attributes[j1].format {
            VertexFormat::Mat4 => true,
            _ => false,
        };
        total = total + if is_mat {
            4
        } else {
            1
        };
        j1 = j1 + 1;
    }
    assert(total as int == spec_total_slots(attributes@));

    let mut vertex_layout: Vec<VertexAttributeInternal> = Vec::new();
    let mut s0: usize = 0;
    while s0 < total
        invariant
            s0 <= total,
            vertex_layout@.len() == s0 as int,
            forall|s: int| 0 <= s < s0 as int ==> vertex_layout@[s] == spec_default_record(),
        decreases total - s0,
    {
        vertex_layout.push(VertexAttributeInternal::default());
        s0 = s0 + 1;
    }

    let cap: usize = if total < MAX_VERTEX_ATTRIBUTES {
        total
    } else {
        MAX_VERTEX_ATTRIBUTES
    };
    assert(cap as int == spec_layout_cap(attributes@));

    // Phase 3: resolve and place every record.
    let mut j2: usize = 0;
    while j2 < attr_count
        invariant
            j2 <= attr_count,
            attr_count == attributes@.len(),
            slot_count == buffer_layout@.len(),
            attributes@.len() * 64 <= i32::MAX,
            forall|k: int|
                0 <= k < attributes@.len() ==> (#[trigger] attributes@[k]).buffer_index
                    < buffer_layout@.len(),
            buffer_cache@.len() == slot_count as int,
            total as int == spec_total_slots(attributes@),
            cap as int == spec_layout_cap(attributes@),
            vertex_layout@.len() == total as int,
            forall|b: int|
                0 <= b < slot_count as int ==> (#[trigger] buffer_cache@[b]).stride as int == (
                if buffer_layout@[b].stride != 0 {
                    if exists|k: int|
                        0 <= k < attributes@.len() && (#[trigger] attributes@[k]).buffer_index
                            == b {
                        buffer_layout@[b].stride as int
                    } else {
                        0
                    }
                } else {
                    spec_auto_stride(attributes@, b)
                }),
            forall|b: int|
                0 <= b < slot_count as int ==> (#[trigger] buffer_cache@[b]).offset as int
                    == spec_base_offset_upto(attributes@, b, j2 as int),
            forall|k: int|
                0 <= k < j2 as int ==> #[trigger] spec_attr_error(
                    program_attributes@,
                    attributes@,
                    k,
                ) is None,
            forall|k: int, i: int|
                0 <= k < j2 as int && 0 <= i < spec_slots_of(attributes@[k].format) && spec_writes(
                    program_attributes@,
                    attributes@,
                    k,
                ) && spec_no_later_writer(
                    program_attributes@,
                    attributes@,
                    k,
                    spec_write_base(program_attributes@, attributes@, k) + i,
                    j2 as int,
                ) ==> vertex_layout@[spec_write_base(program_attributes@, attributes@, k) + i]
                    == #[trigger] spec_record(
                    buffer_layout@,
                    attributes@,
                    program_attributes@,
                    k,
                    i,
                ),
            forall|s: int|
                0 <= s < total as int && !#[trigger] spec_covered_upto(
                    program_attributes@,
                    attributes@,
                    s,
                    j2 as int,
                ) ==> vertex_layout@[s] == spec_default_record(),
        decreases attr_count - j2,
    {
        let base_loc: u32 = match lookup_attribute(program_attributes, &attributes[j2].name) {
            Some(l) => l,
            None => {
                return Err(GraphicsError::UnknownAttribute);
            },
        };
        let format = attributes[j2].format;
        let is_mat = match format {
            VertexFormat::Mat4 => true,
            _ => false,
        };
        let count: usize = if is_mat {
            4
        } else {
            1
        };
        let sub_format = if is_mat {
            VertexFormat::Float4
        } else {
            format
        };
        if base_loc as usize >= cap || count > cap - base_loc as usize {
            return Err(GraphicsError::AttributeLocationOverflow);
        }
        let base = base_loc as usize;
        let b = attributes[j2].buffer_index;
        let divisor: i32 = if matches!(buffer_layout[b].step_func, VertexStep::PerVertex) {
            0
        } else {
            buffer_layout[b].step_rate
        };
        let stride: i32 = buffer_cache[b].stride;
        let rec_size: i32 = sub_format.size();
        let rec_type: u32 = sub_format.type_();
        let advance: u64 = sub_format.byte_len() as u64;
        proof {
            lemma_base_offset_upto_bounds(attributes@, b as int, j2 as int);
            lemma_base_offset_upto_bounds(attributes@, b as int, j2 as int + 1);
            assert(count as int * advance as int == spec_attr_advance(format)) by {
                if is_mat {
                    assert(count == 4 && advance == 16);
                }
            }
            assert(spec_attr_advance(format) <= 64);
        }

        let ghost pre_layout = vertex_layout@;
        let ghost pre_bc = buffer_cache@;
        let ghost pre_offset = buffer_cache@[b as int].offset as int;
        let mut i: usize = 0;
        while i < count
            invariant
                i <= count,
                attr_count == attributes@.len(),
                slot_count == buffer_layout@.len(),
                j2 < attr_count,
                buffer_cache@.len() == slot_count as int,
                vertex_layout@.len() == total as int,
                b == attributes@[j2 as int].buffer_index,
                b < slot_count,
                format == attributes@[j2 as int].format,
                count as int == spec_slots_of(format),
                sub_format == spec_sub_format(format),
                rec_size as int == spec_sub_format(format).spec_size(),
                rec_type == spec_sub_format(format).spec_type(),
                advance as int == spec_offset_advance(format),
                spec_writes(program_attributes@, attributes@, j2 as int),
                base as int == spec_write_base(program_attributes@, attributes@, j2 as int),
                base + count <= cap,
                cap <= total,
                total as int == spec_total_slots(attributes@),
                divisor as int == spec_divisor(buffer_layout@[b as int]),
                stride as int == spec_stride(buffer_layout@, attributes@, b as int),
                pre_offset == spec_base_offset_upto(attributes@, b as int, j2 as int),
                0 <= pre_offset,
                pre_offset + count * advance <= 64 * (j2 as int + 1),
                attributes@.len() * 64 <= i32::MAX,
                pre_bc.len() == slot_count as int,
                buffer_cache@[b as int].offset as int == pre_offset + i as int * advance as int,
                buffer_cache@[b as int].stride == pre_bc[b as int].stride,
                forall|b2: int|
                    0 <= b2 < slot_count as int && b2 != b as int ==> #[trigger] buffer_cache@[b2]
                        == pre_bc[b2],
                forall|b2: int|
                    0 <= b2 < slot_count as int ==> (#[trigger] pre_bc[b2]).offset as int
                        == spec_base_offset_upto(attributes@, b2, j2 as int),
                forall|b2: int|
                    0 <= b2 < slot_count as int ==> (#[trigger] pre_bc[b2]).stride as int == (
                    if buffer_layout@[b2].stride != 0 {
                        if exists|k: int|
                            0 <= k < attributes@.len() && (#[trigger] attributes@[k]).buffer_index
                                == b2 {
                            buffer_layout@[b2].stride as int
                        } else {
                            0
                        }
                    } else {
                        spec_auto_stride(attributes@, b2)
                    }),
                forall|i2: int|
                    0 <= i2 < i as int ==> vertex_layout@[base as int + i2] == #[trigger] spec_record(
                        buffer_layout@,
                        attributes@,
                        program_attributes@,
                        j2 as int,
                        i2,
                    ),
                forall|s: int|
                    0 <= s < total as int && !(base as int <= s < base as int + i as int)
                        ==> vertex_layout@[s] == pre_layout[s],
            decreases count - i,
        {
            let loc = base + i;
            let rec = VertexAttributeInternal {
                attr_loc: loc as u32,
                size: rec_size,
                type_: rec_type,
                offset: buffer_cache[b].offset,
                stride,
                buffer_index: b,
                divisor,
            };
            assert(rec == spec_record(
                buffer_layout@,
                attributes@,
                program_attributes@,
                j2 as int,
                i as int,
            ));
            vertex_layout[loc] = rec;
            proof {
                assert((i as int + 1) * advance as int == i as int * advance as int
                    + advance as int) by (nonlinear_arith);
                assert((i as int + 1) * advance as int <= count as int * advance as int)
                    by (nonlinear_arith)
                    requires
                        i as int + 1 <= count as int,
                        advance as int >= 0,
                ;
            }
            let entry = buffer_cache[b];
            buffer_cache[b] = BufferCacheData {
                stride: entry.stride,
                offset: entry.offset + advance,
            };
            i = i + 1;
        }

        proof {
            assert(spec_attr_error(program_attributes@, attributes@, j2 as int) is None);
            assert forall|b2: int| 0 <= b2 < slot_count as int implies (
                #[trigger] buffer_cache@[b2]).offset as int == spec_base_offset_upto(
                attributes@,
                b2,
                j2 as int + 1,
            ) by {
                if b2 == b as int {
                    assert(spec_attr_advance(format) == count * advance);
                } else {
                    assert(attributes@[j2 as int].buffer_index != b2);
                }
            }
            // Content carried forward: earlier writers not overwritten, and
            // untouched slots still empty.
            assert forall|k: int, i2: int|
                0 <= k < j2 as int + 1 && 0 <= i2 < spec_slots_of(attributes@[k].format)
                    && spec_writes(program_attributes@, attributes@, k) && spec_no_later_writer(
                    program_attributes@,
                    attributes@,
                    k,
                    spec_write_base(program_attributes@, attributes@, k) + i2,
                    j2 as int + 1,
                ) implies vertex_layout@[spec_write_base(program_attributes@, attributes@, k) + i2]
                == #[trigger] spec_record(
                buffer_layout@,
                attributes@,
                program_attributes@,
                k,
                i2,
            ) by {
                let basek = spec_write_base(program_attributes@, attributes@, k);
                let loc = basek + i2;
                if k == j2 as int {
                    assert(vertex_layout@[base as int + i2] == spec_record(
                        buffer_layout@,
                        attributes@,
                        program_attributes@,
                        j2 as int,
                        i2,
                    ));
                    assert(basek == base as int);
                } else {
                    assert(k < j2 as int);
                    assert(spec_attr_error(program_attributes@, attributes@, k) is None);
                    assert(basek + spec_slots_of(attributes@[k].format) <= cap as int);
                    assert(0 <= loc < total as int);
                    assert(!spec_writes_slot(program_attributes@, attributes@, j2 as int, loc));
                    assert(!(base as int <= loc < base as int + count as int));
                    assert(spec_no_later_writer(
                        program_attributes@,
                        attributes@,
                        k,
                        loc,
                        j2 as int,
                    ));
                    assert(pre_layout[loc] == spec_record(
                        buffer_layout@,
                        attributes@,
                        program_attributes@,
                        k,
                        i2,
                    ));
                    assert(vertex_layout@[loc] == pre_layout[loc]);
                }
            }
            assert forall|s: int|
                0 <= s < total as int && !#[trigger] spec_covered_upto(
                    program_attributes@,
                    attributes@,
                    s,
                    j2 as int + 1,
                ) implies vertex_layout@[s] == spec_default_record() by {
                assert(!spec_writes_slot(program_attributes@, attributes@, j2 as int, s));
                assert(!(base as int <= s < base as int + count as int));
                assert(!spec_covered_upto(program_attributes@, attributes@, s, j2 as int));
            }
        }
        j2 = j2 + 1;
    }

    // Phase 4: reject a layout with an empty slot below the highest used
    // location.
    let mut s: usize = 0;
    while s < total
        invariant
            s <= total,
            total as int == spec_total_slots(attributes@),
            vertex_layout@.len() == total as int,
            attr_count == attributes@.len(),
            forall|k: int|
                0 <= k < attributes@.len() ==> #[trigger] spec_attr_error(
                    program_attributes@,
                    attributes@,
                    k,
                ) is None,
            forall|k: int, i: int|
                0 <= k < attributes@.len() && 0 <= i < spec_slots_of(attributes@[k].format)
                    && spec_writes(program_attributes@, attributes@, k) && spec_no_later_writer(
                    program_attributes@,
                    attributes@,
                    k,
                    spec_write_base(program_attributes@, attributes@, k) + i,
                    attributes@.len() as int,
                ) ==> vertex_layout@[spec_write_base(program_attributes@, attributes@, k) + i]
                    == #[trigger] spec_record(
                    buffer_layout@,
                    attributes@,
                    program_attributes@,
                    k,
                    i,
                ),
            forall|s2: int|
                0 <= s2 < total as int && !#[trigger] spec_covered(
                    program_attributes@,
                    attributes@,
                    s2,
                ) ==> vertex_layout@[s2] == spec_default_record(),
            forall|s2: int| 0 <= s2 < s as int ==> (#[trigger] vertex_layout@[s2]).size != 0,
            forall|s2: int| 0 <= s2 < s as int ==> spec_covered(program_attributes@, attributes@, s2),
        decreases total - s,
    {
        if vertex_layout[s].size == 0 {
            proof {
                assert(!spec_covered(program_attributes@, attributes@, s as int)) by {
                    if spec_covered(program_attributes@, attributes@, s as int) {
                        lemma_exists_last_writer(
                            program_attributes@,
                            attributes@,
                            s as int,
                            attributes@.len() as int,
                        );
                        let k = choose|k: int|
                            0 <= k < attributes@.len() && #[trigger] spec_writes_slot(
                                program_attributes@,
                                attributes@,
                                k,
                                s as int,
                            ) && spec_no_later_writer(
                                program_attributes@,
                                attributes@,
                                k,
                                s as int,
                                attributes@.len() as int,
                            );
                        let i = s as int - spec_write_base(program_attributes@, attributes@, k);
                        assert(vertex_layout@[s as int] == spec_record(
                            buffer_layout@,
                            attributes@,
                            program_attributes@,
                            k,
                            i,
                        ));
                        assert(spec_sub_format(attributes@[k].format).spec_size() >= 1);
                    }
                }
            }
            return Err(GraphicsError::IncompleteAttributeLayout);
        } else {
            proof {
                if !spec_covered(program_attributes@, attributes@, s as int) {
                    assert(vertex_layout@[s as int] == spec_default_record());
                }
            }
        }
        s = s + 1;
    }

    Ok(vertex_layout)
}

} // verus!
