//! The GPU state cache.
//!
//! The cache mirrors the driver-side binding state — the bound vertex and
//! index buffer, the blend state, and the record last bound to each of the
//! 16 attribute slots — and suppresses any driver call that would not
//! change that state. Every method's contract states both the new cache
//! state and the exact commands appended to the trace.

use vstd::prelude::*;
use crate::commands::GlCommand;
use crate::formats::{Equation, BlendFactor};
use crate::layout::VertexAttributeInternal;
use crate::gl_consts::{GL_ARRAY_BUFFER, MAX_VERTEX_ATTRIBUTES};

verus! {

/// The tracked blend state: `None` is blending disabled.
pub type BlendState = Option<(Equation, BlendFactor, BlendFactor)>;

/// What a vertex attribute slot was last bound to: the record, and the
/// vertex buffer handle it was bound against.
#[derive(Debug, Clone, Copy, PartialEq, Eq, Structural)]
pub struct CachedAttribute {
    pub attribute: VertexAttributeInternal,
    pub gl_vbuf: u32,
}

/// The mirrored driver state. `stored_*` hold the save slots of the
/// scoped save/restore pair used around transient binds; `framebuffer`
/// mirrors the bound framebuffer so that resource creation can restore
/// it.
pub struct GlCache {
    pub stored_index_buffer: u32,
    pub stored_vertex_buffer: u32,
    pub index_buffer: u32,
    pub vertex_buffer: u32,
    pub framebuffer: u32,
    pub cur_pipeline: Option<usize>,
    pub blend: BlendState,
    pub attributes: Vec<Option<CachedAttribute>>,
}

impl GlCache {
    /// The cache tracks exactly the context's fixed attribute slots.
    pub open spec fn wf(self) -> bool {
        self.attributes@.len() == MAX_VERTEX_ATTRIBUTES as int
    }

    /// The cleared cache a fresh context starts from; the surface's
    /// framebuffer is the one bound at that point.
    pub fn new(framebuffer: u32) -> (r: GlCache)
        ensures
            r.wf(),
            r.stored_index_buffer == 0,
            r.stored_vertex_buffer == 0,
            r.index_buffer == 0,
            r.vertex_buffer == 0,
            r.framebuffer == framebuffer,
            r.cur_pipeline is None,
            r.blend is None,
            forall|s: int| 0 <= s < MAX_VERTEX_ATTRIBUTES as int ==> r.attributes@[s] is None,
    {
        let mut attributes: Vec<Option<CachedAttribute>> = Vec::new();
        let mut s: usize = 0;
        while s < MAX_VERTEX_ATTRIBUTES
            invariant
                s <= MAX_VERTEX_ATTRIBUTES,
                attributes@.len() == s as int,
                forall|t: int| 0 <= t < s as int ==> attributes@[t] is None,
            decreases MAX_VERTEX_ATTRIBUTES - s,
        {
            attributes.push(None);
            s = s + 1;
        }
        GlCache {
            stored_index_buffer: 0,
            stored_vertex_buffer: 0,
            index_buffer: 0,
            vertex_buffer: 0,
            framebuffer,
            cur_pipeline: None,
            blend: None,
            attributes,
        }
    }

    /// The tracked binding of a target: the vertex buffer slot for the
    /// array-buffer target, else the index buffer slot.
    pub open spec fn spec_tracked_buffer(self, target: u32) -> u32 {
        if target == GL_ARRAY_BUFFER {
            self.vertex_buffer
        } else {
            self.index_buffer
        }
    }

    /// The cache after a bind call on a target.
    pub open spec fn spec_bind_buffer_state(self, target: u32, buffer: u32) -> GlCache {
        if target == GL_ARRAY_BUFFER {
            GlCache { vertex_buffer: buffer, ..self }
        } else {
            GlCache { index_buffer: buffer, ..self }
        }
    }

    /// The commands a bind call issues: nothing on a cache hit, one driver
    /// bind otherwise.
    pub open spec fn spec_bind_buffer_trace(self, target: u32, buffer: u32) -> Seq<GlCommand> {
        if self.spec_tracked_buffer(target) == buffer {
            Seq::empty()
        } else {
            seq![GlCommand::BindBuffer { target, buffer }]
        }
    }

    /// Binds a buffer to a target, unless the cache shows it already
    /// bound.
    pub fn bind_buffer(&mut self, target: u32, buffer: u32, trace: &mut Vec<GlCommand>)
        ensures
            *final(self) == old(self).spec_bind_buffer_state(target, buffer),
            final(trace)@ == old(trace)@ + old(self).spec_bind_buffer_trace(target, buffer),
    {
        if target == GL_ARRAY_BUFFER {
            if self.vertex_buffer != buffer {
                self.vertex_buffer = buffer;
                trace.push(GlCommand::BindBuffer { target, buffer });
            } else {
                assert(trace@ =~= trace@ + Seq::<GlCommand>::empty());
            }
        } else {
            if self.index_buffer != buffer {
                self.index_buffer = buffer;
                trace.push(GlCommand::BindBuffer { target, buffer });
            } else {
                assert(trace@ =~= trace@ + Seq::<GlCommand>::empty());
            }
        }
    }

    /// Saves the tracked binding of a target into its save slot.
    pub fn store_buffer_binding(&mut self, target: u32)
        ensures
            target == GL_ARRAY_BUFFER ==> *final(self) == (GlCache {
                stored_vertex_buffer: old(self).vertex_buffer,
                ..*old(self)
            }),
            target != GL_ARRAY_BUFFER ==> *final(self) == (GlCache {
                stored_index_buffer: old(self).index_buffer,
                ..*old(self)
            }),
    {
        if target == GL_ARRAY_BUFFER {
            self.stored_vertex_buffer = self.vertex_buffer;
        } else {
            self.stored_index_buffer = self.index_buffer;
        }
    }

    /// Rebinds the saved binding of a target, through the cache.
    pub fn restore_buffer_binding(&mut self, target: u32, trace: &mut Vec<GlCommand>)
        ensures
            target == GL_ARRAY_BUFFER ==> *final(self) == old(self).spec_bind_buffer_state(
                target,
                old(self).stored_vertex_buffer,
            ) && final(trace)@ == old(trace)@ + old(self).spec_bind_buffer_trace(
                target,
                old(self).stored_vertex_buffer,
            ),
            target != GL_ARRAY_BUFFER ==> *final(self) == old(self).spec_bind_buffer_state(
                target,
                old(self).stored_index_buffer,
            ) && final(trace)@ == old(trace)@ + old(self).spec_bind_buffer_trace(
                target,
                old(self).stored_index_buffer,
            ),
    {
        if target == GL_ARRAY_BUFFER {
            let stored = self.stored_vertex_buffer;
            self.bind_buffer(target, stored, trace);
        } else {
            let stored = self.stored_index_buffer;
            self.bind_buffer(target, stored, trace);
        }
    }

    /// Moves the tracked blend state to a new value, enabling blending on
    /// a none-to-some change and disabling it on a some-to-none change.
    pub fn set_blend(&mut self, new_blend: BlendState, trace: &mut Vec<GlCommand>)
        ensures
            *final(self) == (GlCache { blend: new_blend, ..*old(self) }),
            final(trace)@ == old(trace)@ + spec_blend_trace(old(self).blend, new_blend),
    {
        if !blend_state_eq(&self.blend, &new_blend) {
            match new_blend {
                Some((equation, src, dst)) => {
                    if self.blend.is_none() {
                        trace.push(GlCommand::EnableBlend);
                    }
                    trace.push(
                        GlCommand::BlendFunc { src: src.gl_enum(), dst: dst.gl_enum() },
                    );
                    trace.push(
                        GlCommand::BlendEquationSeparate {
                            mode_rgb: equation.gl_enum(),
                            mode_alpha: equation.gl_enum(),
                        },
                    );
                },
                None => {
                    if self.blend.is_some() {
                        trace.push(GlCommand::DisableBlend);
                    }
                },
            }
            self.blend = new_blend;
            assert(trace@ =~= old(trace)@ + spec_blend_trace(old(self).blend, new_blend));
        } else {
            self.blend = new_blend;
            assert(trace@ =~= old(trace)@ + spec_blend_trace(old(self).blend, new_blend));
        }
    }
}

/// The commands a blend state change issues: nothing when the state is
/// unchanged; an enable (only from disabled), then the factors, then the
/// equation, when blending is turned on or changed; one disable when it
/// is turned off.
pub open spec fn spec_blend_trace(old_blend: BlendState, new_blend: BlendState) -> Seq<GlCommand> {
    if new_blend == old_blend {
        Seq::empty()
    } else {
        match new_blend {
            Some((equation, src, dst)) => (if old_blend is None {
                seq![GlCommand::EnableBlend]
            } else {
                Seq::empty()
            }) + seq![
                GlCommand::BlendFunc { src: src.spec_gl_enum(), dst: dst.spec_gl_enum() },
                GlCommand::BlendEquationSeparate {
                    mode_rgb: equation.spec_gl_enum(),
                    mode_alpha: equation.spec_gl_enum(),
                },
            ],
            None => seq![GlCommand::DisableBlend],
        }
    }
}

/// Whether two tracked blend states are the same.
pub fn blend_state_eq(a: &BlendState, b: &BlendState) -> (r: bool)
    ensures
        r == (a == b),
{
    match (a, b) {
        (None, None) => true,
        (Some((ea, sa, da)), Some((eb, sb, db))) => ea == eb && sa == sb && da == db,
        _ => false,
    }
}

/// Toggling the blend state from disabled to enabled issues exactly one
/// enable call, before the factor and equation calls; enabled to disabled
/// exactly one disable call; an unchanged state issues nothing; a change
/// between two enabled states issues only the factor and equation calls.
pub proof fn lemma_blend_toggle(old_blend: BlendState, new_blend: BlendState)
    ensures
        new_blend matches Some((e, s, d)) ==> (old_blend is None ==> spec_blend_trace(
            old_blend,
            new_blend,
        ) =~= seq![
            GlCommand::EnableBlend,
            GlCommand::BlendFunc { src: s.spec_gl_enum(), dst: d.spec_gl_enum() },
            GlCommand::BlendEquationSeparate {
                mode_rgb: e.spec_gl_enum(),
                mode_alpha: e.spec_gl_enum(),
            },
        ]) && (old_blend is Some && old_blend != new_blend ==> spec_blend_trace(
            old_blend,
            new_blend,
        ) =~= seq![
            GlCommand::BlendFunc { src: s.spec_gl_enum(), dst: d.spec_gl_enum() },
            GlCommand::BlendEquationSeparate {
                mode_rgb: e.spec_gl_enum(),
                mode_alpha: e.spec_gl_enum(),
            },
        ]),
        old_blend is Some && new_blend is None ==> spec_blend_trace(old_blend, new_blend)
            =~= seq![GlCommand::DisableBlend],
        old_blend == new_blend ==> spec_blend_trace(old_blend, new_blend).len() == 0,
{
}

/// Whether a slot's cached binding forces a rebind of record `rec`
/// against vertex buffer `vb`: it does unless the cache holds exactly
/// that record bound against exactly that buffer.
pub open spec fn spec_slot_needs_rebind(
    cached: Option<CachedAttribute>,
    rec: VertexAttributeInternal,
    vb: u32,
) -> bool {
    match cached {
        None => true,
        Some(c) => c.attribute != rec || c.gl_vbuf != vb,
    }
}

/// The commands a slot rebind issues: a vertex buffer bind if the cache
/// tracks another buffer, then the pointer, the divisor, and the enable.
pub open spec fn spec_rebind_trace(
    s: int,
    rec: VertexAttributeInternal,
    vb: u32,
    vbuf: u32,
) -> Seq<GlCommand> {
    (if vbuf != vb {
        seq![GlCommand::BindBuffer { target: GL_ARRAY_BUFFER, buffer: vb }]
    } else {
        Seq::empty()
    }) + seq![
        GlCommand::VertexAttribPointer {
            location: s as u32,
            size: rec.size,
            component_type: rec.type_,
            stride: rec.stride,
            offset: rec.offset,
        },
        GlCommand::VertexAttribDivisor { location: s as u32, divisor: rec.divisor },
        GlCommand::EnableVertexAttribArray { location: s as u32 },
    ]
}

/// The record the active pipeline defines at a slot, if any.
pub open spec fn spec_pip_attr(layout: Seq<VertexAttributeInternal>, s: int) -> Option<
    VertexAttributeInternal,
> {
    if 0 <= s < layout.len() {
        Some(layout[s])
    } else {
        None
    }
}

/// One slot's step while bindings apply: `(new tracked vertex buffer, new
/// slot cache, commands issued)`. A defined slot rebinds only where the
/// record or its buffer changed; an undefined slot is disabled only where
/// the cache still holds one.
pub open spec fn spec_apply_slot(
    vbuf: u32,
    cached: Option<CachedAttribute>,
    pip_attr: Option<VertexAttributeInternal>,
    vbs: Seq<u32>,
    s: int,
) -> (u32, Option<CachedAttribute>, Seq<GlCommand>) {
    match pip_attr {
        Some(rec) => {
            let vb = vbs[rec.buffer_index as int];
            if spec_slot_needs_rebind(cached, rec, vb) {
                (
                    vb,
                    Some(CachedAttribute { attribute: rec, gl_vbuf: vb }),
                    spec_rebind_trace(s, rec, vb, vbuf),
                )
            } else {
                (vbuf, cached, Seq::<GlCommand>::empty())
            }
        },
        None => {
            if cached is Some {
                (vbuf, None, seq![GlCommand::DisableVertexAttribArray { location: s as u32 }])
            } else {
                (vbuf, None, Seq::<GlCommand>::empty())
            }
        },
    }
}

/// The slots walked from `s` up: the tracked vertex buffer, the slot
/// cache, and the commands issued, all threaded through in slot order.
pub open spec fn spec_apply_slots_from(
    vbuf: u32,
    cache_attrs: Seq<Option<CachedAttribute>>,
    layout: Seq<VertexAttributeInternal>,
    vbs: Seq<u32>,
    s: int,
) -> (u32, Seq<Option<CachedAttribute>>, Seq<GlCommand>)
    decreases MAX_VERTEX_ATTRIBUTES as int - s,
{
    if s < 0 || s >= MAX_VERTEX_ATTRIBUTES as int {
        (vbuf, cache_attrs, Seq::<GlCommand>::empty())
    } else {
        let step = spec_apply_slot(vbuf, cache_attrs[s], spec_pip_attr(layout, s), vbs, s);
        let rest = spec_apply_slots_from(step.0, cache_attrs.update(s, step.1), layout, vbs, s + 1);
        (rest.0, rest.1, step.2 + rest.2)
    }
}

/// What a slot's cache holds once bindings applied: the pipeline's record
/// bound against its buffer, or nothing where the pipeline defines no
/// attribute.
pub open spec fn spec_slot_target(
    layout: Seq<VertexAttributeInternal>,
    vbs: Seq<u32>,
    s: int,
) -> Option<CachedAttribute> {
    match spec_pip_attr(layout, s) {
        Some(rec) => Some(
            CachedAttribute { attribute: rec, gl_vbuf: vbs[rec.buffer_index as int] },
        ),
        None => None,
    }
}

/// After the slots are walked from `s`, every walked slot caches its
/// target and every earlier slot is untouched.
pub proof fn lemma_apply_slots_result(
    vbuf: u32,
    cache_attrs: Seq<Option<CachedAttribute>>,
    layout: Seq<VertexAttributeInternal>,
    vbs: Seq<u32>,
    s: int,
)
    requires
        0 <= s <= MAX_VERTEX_ATTRIBUTES as int,
        cache_attrs.len() == MAX_VERTEX_ATTRIBUTES as int,
    ensures
        spec_apply_slots_from(vbuf, cache_attrs, layout, vbs, s).1.len()
            == MAX_VERTEX_ATTRIBUTES as int,
        forall|t: int|
            0 <= t < s ==> spec_apply_slots_from(vbuf, cache_attrs, layout, vbs, s).1[t]
                == cache_attrs[t],
        forall|t: int|
            s <= t < MAX_VERTEX_ATTRIBUTES as int ==> spec_apply_slots_from(
                vbuf,
                cache_attrs,
                layout,
                vbs,
                s,
            ).1[t] == spec_slot_target(layout, vbs, t),
    decreases MAX_VERTEX_ATTRIBUTES as int - s,
{
    if s < MAX_VERTEX_ATTRIBUTES as int {
        let step = spec_apply_slot(vbuf, cache_attrs[s], spec_pip_attr(layout, s), vbs, s);
        let updated = cache_attrs.update(s, step.1);
        let rest = spec_apply_slots_from(step.0, updated, layout, vbs, s + 1);
        assert(step.1 == spec_slot_target(layout, vbs, s));
        assert(spec_apply_slots_from(vbuf, cache_attrs, layout, vbs, s).1 == rest.1);
        lemma_apply_slots_result(step.0, updated, layout, vbs, s + 1);
        assert forall|t: int| 0 <= t < s implies rest.1[t] == cache_attrs[t] by {
            assert(rest.1[t] == updated[t]);
        }
        assert(rest.1[s] == updated[s]);
    }
}

/// Walking the slots when every slot already caches its target changes
/// nothing and issues no command.
pub proof fn lemma_apply_slots_idempotent(
    vbuf: u32,
    cache_attrs: Seq<Option<CachedAttribute>>,
    layout: Seq<VertexAttributeInternal>,
    vbs: Seq<u32>,
    s: int,
)
    requires
        0 <= s <= MAX_VERTEX_ATTRIBUTES as int,
        cache_attrs.len() == MAX_VERTEX_ATTRIBUTES as int,
        forall|t: int|
            s <= t < MAX_VERTEX_ATTRIBUTES as int ==> cache_attrs[t] == spec_slot_target(
                layout,
                vbs,
                t,
            ),
    ensures
        spec_apply_slots_from(vbuf, cache_attrs, layout, vbs, s) == (
            vbuf,
            cache_attrs,
            Seq::<GlCommand>::empty(),
        ),
    decreases MAX_VERTEX_ATTRIBUTES as int - s,
{
    if s < MAX_VERTEX_ATTRIBUTES as int {
        let step = spec_apply_slot(vbuf, cache_attrs[s], spec_pip_attr(layout, s), vbs, s);
        assert(step.0 == vbuf && step.1 == cache_attrs[s] && step.2 =~= Seq::<GlCommand>::empty());
        assert(cache_attrs.update(s, step.1) =~= cache_attrs);
        lemma_apply_slots_idempotent(vbuf, cache_attrs, layout, vbs, s + 1);
        assert(step.2 + Seq::<GlCommand>::empty() =~= Seq::<GlCommand>::empty());
    }
}

/// Applying the same pipeline layout against the same buffers twice in a
/// row leaves the second application with nothing to do: no command at
/// all, in particular no buffer bind and no attribute change.
pub proof fn lemma_reapply_slots_emits_nothing(
    vbuf: u32,
    cache_attrs: Seq<Option<CachedAttribute>>,
    layout: Seq<VertexAttributeInternal>,
    vbs: Seq<u32>,
)
    requires
        cache_attrs.len() == MAX_VERTEX_ATTRIBUTES as int,
    ensures
        ({
            let first = spec_apply_slots_from(vbuf, cache_attrs, layout, vbs, 0);
            spec_apply_slots_from(first.0, first.1, layout, vbs, 0) == (
                first.0,
                first.1,
                Seq::<GlCommand>::empty(),
            )
        }),
{
    let first = spec_apply_slots_from(vbuf, cache_attrs, layout, vbs, 0);
    lemma_apply_slots_result(vbuf, cache_attrs, layout, vbs, 0);
    lemma_apply_slots_idempotent(first.0, first.1, layout, vbs, 0);
}

/// Rebinding a buffer the cache already tracks as bound issues nothing:
/// with the attribute walk above, a repeated application of the same
/// pipeline and bindings leaves both buffer targets silent.
pub proof fn lemma_rebind_tracked_buffer_emits_nothing(c: GlCache, target: u32, buffer: u32)
    requires
        c.spec_tracked_buffer(target) == buffer,
    ensures
        c.spec_bind_buffer_trace(target, buffer).len() == 0,
{
}

/// A slot whose cached record or buffer differs from the pipeline's is
/// rebound: the walk issues its pointer command.
pub proof fn lemma_changed_slot_rebinds(
    vbuf: u32,
    cache_attrs: Seq<Option<CachedAttribute>>,
    layout: Seq<VertexAttributeInternal>,
    vbs: Seq<u32>,
    s: int,
    t: int,
)
    requires
        0 <= s <= t < MAX_VERTEX_ATTRIBUTES as int,
        cache_attrs.len() == MAX_VERTEX_ATTRIBUTES as int,
        0 <= t < layout.len(),
        spec_slot_needs_rebind(cache_attrs[t], layout[t], vbs[layout[t].buffer_index as int]),
    ensures
        spec_apply_slots_from(vbuf, cache_attrs, layout, vbs, s).2.contains(
            GlCommand::VertexAttribPointer {
                location: t as u32,
                size: layout[t].size,
                component_type: layout[t].type_,
                stride: layout[t].stride,
                offset: layout[t].offset,
            },
        ),
    decreases t - s,
{
    let step = spec_apply_slot(vbuf, cache_attrs[s], spec_pip_attr(layout, s), vbs, s);
    let rest = spec_apply_slots_from(step.0, cache_attrs.update(s, step.1), layout, vbs, s + 1);
    let cmd = GlCommand::VertexAttribPointer {
        location: t as u32,
        size: layout[t].size,
        component_type: layout[t].type_,
        stride: layout[t].stride,
        offset: layout[t].offset,
    };
    if s == t {
        let rec = layout[t];
        let vb = vbs[rec.buffer_index as int];
        let bind_len: int = if vbuf != vb {
            1
        } else {
            0
        };
        assert(step.2 == spec_rebind_trace(s, rec, vb, vbuf));
        assert(step.2[bind_len] == cmd);
        assert((step.2 + rest.2)[bind_len] == cmd);
        assert(spec_apply_slots_from(vbuf, cache_attrs, layout, vbs, s).2.contains(cmd));
    } else {
        assert(cache_attrs.update(s, step.1)[t] == cache_attrs[t]);
        lemma_changed_slot_rebinds(step.0, cache_attrs.update(s, step.1), layout, vbs, s + 1, t);
        let i = choose|i: int| 0 <= i < rest.2.len() && rest.2[i] == cmd;
        assert((step.2 + rest.2)[step.2.len() + i] == cmd);
        assert(spec_apply_slots_from(vbuf, cache_attrs, layout, vbs, s).2.contains(cmd));
    }
}

} // verus!
