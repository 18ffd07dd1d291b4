//! Shader programs: linking against the context-global attribute slot table,
//! attribute layout extraction, and typed uniform keys.
//!
//! Compiling GLSL is the driver's work and happens outside the library; what
//! the library owns is everything decided *about* the compiled program: which
//! slot each attribute name binds to (stable across all shaders of one
//! context), the vertex layout offsets, and the uniform key table.  The
//! caller compiles and links the program, queries the driver for the active
//! attributes and uniforms, and hands both lists to [`Gl::new_shader`], which
//! emits the re-bind and re-link commands.

use vstd::prelude::*;
use std::marker::PhantomData;

verus! {

use vstd::string::StringExecFns;
use crate::gl::Gl;
use crate::gl::GlView;
use crate::gl::GlCommand;
use crate::gl::GlCommandView;
use crate::gl::slot_of;
use crate::gl::table_insert;
use crate::gl::slot_after_insert;
use crate::gl::buffer::BufferType;
use crate::gl::buffer::AttributesReprCpacked;
use crate::gl::buffer::spec_stride;
use crate::gl::buffer::decls_view;
use crate::gl::buffer::lemma_stride_take_step;
use crate::gl::buffer::lemma_stride_prefix_le;

/// An active vertex attribute as the driver reports it: its name and the GL
/// type enumerant.
#[derive(Debug, Clone)]
pub struct ActiveAttribute {
    pub name: String,
    pub ty: u32,
}

impl View for ActiveAttribute {
    type V = (Seq<char>, u32);

    open spec fn view(&self) -> (Seq<char>, u32) {
        (self.name@, self.ty)
    }
}

/// An active uniform as the driver reports it: its name, its location, and
/// the GL type enumerant.
#[derive(Debug, Clone)]
pub struct ActiveUniform {
    pub name: String,
    pub location: u32,
    pub ty: u32,
}

impl View for ActiveUniform {
    type V = (Seq<char>, u32, u32);

    open spec fn view(&self) -> (Seq<char>, u32, u32) {
        (self.name@, self.location, self.ty)
    }
}

/// A linked GPU program for vertex layout `T`, with its extracted attribute
/// layout and uniform table.
pub struct Shader<T: AttributesReprCpacked> {
    /// This shader's unique id within its context; uniform keys carry it.
    pub id: u32,
    /// The id the command log uses for the program object.
    pub program: u32,
    /// The active uniforms, as the driver reported them.
    pub uniforms: Vec<ActiveUniform>,
    /// Per declared attribute: its type, its global slot, its byte offset in
    /// a vertex.
    pub attributes: Vec<(BufferType, u32, i32)>,
    /// The byte stride of one vertex of `T`.
    pub stride: u32,
    pub _phantom: PhantomData<T>,
}

/// A capability token for one uniform of one shader: the GPU location, the
/// id of the shader it belongs to, and the GL type enumerant of the values it
/// accepts.  Using a key under a pipeline bound to another shader is a
/// contract violation.
#[derive(Debug, Clone, Copy, PartialEq, Eq, Structural)]
pub struct UniformKey {
    pub key: u32,
    pub shader_id: u32,
    pub ty: u32,
}

/// The attribute table after every active attribute's name is looked up in
/// order (allocating slots for new names).
pub open spec fn register_actives(t: Seq<Seq<char>>, actives: Seq<(Seq<char>, u32)>) -> Seq<
    Seq<char>,
>
    decreases actives.len(),
{
    if actives.len() == 0 {
        t
    } else {
        table_insert(register_actives(t, actives.drop_last()), actives.last().0)
    }
}

/// The attribute table after every declared attribute's name is looked up in
/// order (allocating slots for names the driver elided).
pub open spec fn register_decls(t: Seq<Seq<char>>, decls: Seq<(BufferType, Seq<char>)>) -> Seq<
    Seq<char>,
>
    decreases decls.len(),
{
    if decls.len() == 0 {
        t
    } else {
        table_insert(register_decls(t, decls.drop_last()), decls.last().1)
    }
}

/// The bind commands a shader link emits: one `BindAttribLocation` per active
/// attribute, at the slot the table resolves for its name at that point.
pub open spec fn spec_bind_cmds(
    t: Seq<Seq<char>>,
    actives: Seq<(Seq<char>, u32)>,
    program: u32,
) -> Seq<GlCommandView>
    decreases actives.len(),
{
    if actives.len() == 0 {
        Seq::empty()
    } else {
        spec_bind_cmds(t, actives.drop_last(), program).push(
            GlCommandView::BindAttribLocation(
                program,
                slot_after_insert(
                    register_actives(t, actives.drop_last()),
                    actives.last().0,
                ) as u32,
                actives.last().0,
            ),
        )
    }
}

/// The attribute layout of a shader for declared list `decls`, resolved
/// against a table that starts as `t`: per attribute its type, its slot, and
/// its byte offset.
pub open spec fn spec_layout(t: Seq<Seq<char>>, decls: Seq<(BufferType, Seq<char>)>) -> Seq<
    (BufferType, u32, i32),
>
    decreases decls.len(),
{
    if decls.len() == 0 {
        Seq::empty()
    } else {
        spec_layout(t, decls.drop_last()).push(
            (
                decls.last().0,
                slot_after_insert(register_decls(t, decls.drop_last()), decls.last().1) as u32,
                spec_stride(decls.drop_last()) as i32,
            ),
        )
    }
}

/// The GL type the driver reports for the first active attribute named
/// `name`, if any.
pub open spec fn active_type_of(actives: Seq<(Seq<char>, u32)>, name: Seq<char>) -> Option<u32> {
    match slot_of(actives.map_values(|a: (Seq<char>, u32)| a.0), name) {
        Some(i) => Some(actives[i].1),
        None => None,
    }
}

/// Whether every declared attribute that the driver also reports active has
/// the declared GL type.  A declared attribute the driver elided, or an
/// active attribute that is not declared, is tolerated (drivers elide unused
/// attributes); a type mismatch is a contract violation.
pub open spec fn spec_types_match(
    decls: Seq<(BufferType, Seq<char>)>,
    actives: Seq<(Seq<char>, u32)>,
) -> bool {
    forall|i: int|
        0 <= i < decls.len() ==> match active_type_of(actives, #[trigger] decls[i].1) {
            Some(ty) => ty == decls[i].0.spec_code(),
            None => true,
        }
}

/// The first index in `us` whose uniform has this name, if any.
pub open spec fn uniform_index_of(us: Seq<(Seq<char>, u32, u32)>, name: Seq<char>) -> Option<int> {
    slot_of(us.map_values(|u: (Seq<char>, u32, u32)| u.0), name)
}

/// The view of a reported uniform list.
pub open spec fn uniforms_view(us: Seq<ActiveUniform>) -> Seq<(Seq<char>, u32, u32)> {
    us.map_values(|u: ActiveUniform| u@)
}

/// What `uniform_index_of` returning an index means: the index is in range,
/// it names the uniform asked for, and nothing before it does.
pub proof fn lemma_uniform_index_props(us: Seq<(Seq<char>, u32, u32)>, name: Seq<char>)
    requires
        uniform_index_of(us, name) is Some,
    ensures
        ({
            let i = uniform_index_of(us, name).unwrap();
            &&& 0 <= i < us.len()
            &&& us[i].0 == name
            &&& forall|j: int| 0 <= j < i ==> us[j].0 != name
        }),
{
    let names = us.map_values(|u: (Seq<char>, u32, u32)| u.0);
    names.index_of_first_ensures(name);
    let i = uniform_index_of(us, name).unwrap();
    assert(names[i] == us[i].0);
    assert forall|j: int| 0 <= j < i implies us[j].0 != name by {
        assert(names[j] == us[j].0);
    }
}

/// The converse: a first occurrence pins `uniform_index_of`.
pub proof fn lemma_uniform_index_found(us: Seq<(Seq<char>, u32, u32)>, name: Seq<char>, i: int)
    requires
        0 <= i < us.len(),
        us[i].0 == name,
        forall|j: int| 0 <= j < i ==> us[j].0 != name,
    ensures
        uniform_index_of(us, name) == Some(i),
{
    let names = us.map_values(|u: (Seq<char>, u32, u32)| u.0);
    assert(names[i] == name);
    assert forall|j: int| 0 <= j < i implies names[j] != name by {
        assert(names[j] == us[j].0);
    }
    crate::gl::lemma_slot_of_found(names, name, i);
}

/// No occurrence means no index.
pub proof fn lemma_uniform_index_none(us: Seq<(Seq<char>, u32, u32)>, name: Seq<char>)
    requires
        forall|j: int| 0 <= j < us.len() ==> us[j].0 != name,
    ensures
        uniform_index_of(us, name) is None,
{
    let names = us.map_values(|u: (Seq<char>, u32, u32)| u.0);
    assert forall|j: int| 0 <= j < names.len() implies names[j] != name by {
        assert(names[j] == us[j].0);
    }
    crate::gl::lemma_slot_of_none(names, name);
}

impl<T: AttributesReprCpacked> Shader<T> {
    /// Whether the shader has a uniform of this name whose driver-reported
    /// type is `ty`.
    pub fn has_uniform(&self, name: &str, ty: u32) -> (r: bool)
        ensures
            r == match uniform_index_of(uniforms_view(self.uniforms@), name@) {
                Some(i) => uniforms_view(self.uniforms@)[i].2 == ty,
                None => false,
            },
    {
        let ghost us = uniforms_view(self.uniforms@);
        let owned = name.to_owned();
        let n = self.uniforms.len();
        let mut i: usize = 0;
        while i < n
            invariant
                n == self.uniforms@.len(),
                us == uniforms_view(self.uniforms@),
                0 <= i <= n,
                forall|j: int| 0 <= j < i ==> us[j].0 != name@,
                owned@ == name@,
            decreases n - i,
        {
            proof {
                assert(us[i as int].0 == self.uniforms@[i as int].name@);
            }
            if self.uniforms[i].name == owned {
                proof {
                    lemma_uniform_index_found(us, name@, i as int);
                }
                return self.uniforms[i].ty == ty;
            }
            i = i + 1;
        }
        proof {
            lemma_uniform_index_none(us, name@);
        }
        false
    }

    /// Obtain the key for a uniform.  An unknown name or a mistyped
    /// request is a fatal contract violation, so the uniform's existence
    /// and its driver-reported type being `ty` are preconditions here.
    pub fn get_key(&self, name: &str, ty: u32) -> (r: UniformKey)
        requires
            ({
                let us = uniforms_view(self.uniforms@);
                match uniform_index_of(us, name@) {
                    Some(i) => us[i].2 == ty,
                    None => false,
                }
            }),
        ensures
            ({
                let us = uniforms_view(self.uniforms@);
                let i = uniform_index_of(us, name@).unwrap();
                r == (UniformKey { key: us[i].1, shader_id: self.id, ty })
            }),
    {
        let ghost us = uniforms_view(self.uniforms@);
        let ghost target = uniform_index_of(us, name@).unwrap();
        proof {
            lemma_uniform_index_props(us, name@);
        }
        let owned = name.to_owned();
        let n = self.uniforms.len();
        let mut i: usize = 0;
        loop
            invariant
                n == self.uniforms@.len(),
                us == uniforms_view(self.uniforms@),
                uniform_index_of(us, name@) == Some(target),
                0 <= target < n,
                us[target].0 == name@,
                forall|j: int| 0 <= j < target ==> us[j].0 != name@,
                0 <= i <= target,
                owned@ == name@,
            decreases n - i,
        {
            proof {
                assert(us[i as int].0 == self.uniforms@[i as int].name@);
            }
            if self.uniforms[i].name == owned {
                proof {
                    lemma_uniform_index_found(us, name@, i as int);
                }
                return UniformKey { key: self.uniforms[i].location, shader_id: self.id, ty };
            }
            i = i + 1;
        }
    }
}

/// A lookup of the first active attribute with this name pins
/// `active_type_of`.
pub proof fn lemma_active_type_found(avs: Seq<(Seq<char>, u32)>, name: Seq<char>, j: int)
    requires
        0 <= j < avs.len(),
        avs[j].0 == name,
        forall|k: int| 0 <= k < j ==> avs[k].0 != name,
    ensures
        active_type_of(avs, name) == Some(avs[j].1),
{
    let names = avs.map_values(|a: (Seq<char>, u32)| a.0);
    assert(names[j] == name);
    assert forall|k: int| 0 <= k < j implies names[k] != name by {
        assert(names[k] == avs[k].0);
    }
    crate::gl::lemma_slot_of_found(names, name, j);
}

/// A name no active attribute carries has no type.
pub proof fn lemma_active_type_none(avs: Seq<(Seq<char>, u32)>, name: Seq<char>)
    requires
        forall|k: int| 0 <= k < avs.len() ==> avs[k].0 != name,
    ensures
        active_type_of(avs, name) is None,
{
    let names = avs.map_values(|a: (Seq<char>, u32)| a.0);
    assert forall|k: int| 0 <= k < names.len() implies names[k] != name by {
        assert(names[k] == avs[k].0);
    }
    crate::gl::lemma_slot_of_none(names, name);
}

/// The view of a reported active-attribute list.
pub open spec fn actives_view(avs: Seq<ActiveAttribute>) -> Seq<(Seq<char>, u32)> {
    avs.map_values(|a: ActiveAttribute| a@)
}

/// Whether a declared attribute list and a driver-reported active list agree
/// on types: for every declared attribute the driver also reports, the
/// reported GL type must equal the declared one.  `Gl::new_shader` requires
/// this; callers check it with this function before linking.
pub fn attributes_compatible(
    decls: &Vec<(BufferType, String)>,
    actives: &Vec<ActiveAttribute>,
) -> (r: bool)
    requires
        forall|i: int| 0 <= i < decls@.len() ==> (#[trigger] decls@[i].0).is_valid(),
    ensures
        r == spec_types_match(decls_view(decls@), actives_view(actives@)),
{
    let ghost dv = decls_view(decls@);
    let ghost avs = actives_view(actives@);
    let n = decls.len();
    let mut i: usize = 0;
    while i < n
        invariant
            n == decls@.len(),
            dv == decls_view(decls@),
            avs == actives_view(actives@),
            forall|k: int| 0 <= k < n ==> (#[trigger] decls@[k].0).is_valid(),
            0 <= i <= n,
            forall|k: int|
                0 <= k < i ==> match active_type_of(avs, #[trigger] dv[k].1) {
                    Some(ty) => ty == dv[k].0.spec_code(),
                    None => true,
                },
        decreases n - i,
    {
        let name = &decls[i].1;
        let m = actives.len();
        let mut j: usize = 0;
        let mut reported: Option<u32> = None;
        while j < m
            invariant_except_break
                reported is None,
            invariant
                m == actives@.len(),
                avs == actives_view(actives@),
                0 <= j <= m,
                forall|k: int| 0 <= k < j ==> avs[k].0 != name@,
            ensures
                match reported {
                    Some(ty) => active_type_of(avs, name@) == Some(ty),
                    None => forall|k: int| 0 <= k < avs.len() ==> avs[k].0 != name@,
                },
            decreases m - j,
        {
            proof {
                assert(avs[j as int].0 == actives@[j as int].name@);
            }
            if actives[j].name == *name {
                proof {
                    lemma_active_type_found(avs, name@, j as int);
                }
                reported = Some(actives[j].ty);
                proof {
                    assert(avs[j as int].1 == actives@[j as int].ty);
                }
                break;
            }
            j = j + 1;
        }
        proof {
            if reported is None {
                lemma_active_type_none(avs, name@);
            }
            assert(dv[i as int].1 == decls@[i as int].1@);
            assert(dv[i as int].0 == decls@[i as int].0);
        }
        match reported {
            Some(ty) => {
                let code = decls[i].0.code();
                if ty != code {
                    proof {
                        assert(active_type_of(avs, dv[i as int].1) == Some(ty));
                        assert(!spec_types_match(dv, avs));
                    }
                    return false;
                }
            },
            None => {},
        }
        i = i + 1;
    }
    true
}

impl Gl {
    /// The full vertex shader source: the context's vertex header, a
    /// newline, the caller's GLSL.
    pub fn vertex_source(&self, glsl: &str) -> (r: String)
        ensures
            r@ == self@.glsl_vertex_header + seq!['\n'] + glsl@,
    {
        let mut s = self.glsl_vertex_header.clone();
        s.append("\n");
        s.append(glsl);
        proof {
            reveal_strlit("\n");
            assert(("\n")@ =~= seq!['\n']);
        }
        s
    }

    /// The full fragment shader source: the context's fragment header, a
    /// newline, the caller's GLSL.
    pub fn fragment_source(&self, glsl: &str) -> (r: String)
        ensures
            r@ == self@.glsl_fragment_header + seq!['\n'] + glsl@,
    {
        let mut s = self.glsl_fragment_header.clone();
        s.append("\n");
        s.append(glsl);
        proof {
            reveal_strlit("\n");
            assert(("\n")@ =~= seq!['\n']);
        }
        s
    }
}

impl Gl {
    /// Register a linked program with the context.  `actives` is the active
    /// attribute list the driver reported after the first link; `uniforms`
    /// the active uniform list.  Each active attribute's name is resolved to
    /// its stable global slot (allocating slots for new names, in order of
    /// appearance), a `BindAttribLocation` command is emitted for it, and one
    /// `LinkProgram` command re-links the program so the bindings take
    /// effect.  The declared attributes of `T` are then resolved to their
    /// slots and byte offsets, allocating slots for declared names the driver
    /// elided.  Declared and reported attribute types must agree
    /// ([`spec_types_match`]); a mismatch is a fatal contract violation, so
    /// the agreement is a precondition here.
    pub fn new_shader<T: AttributesReprCpacked>(
        &mut self,
        actives: &Vec<ActiveAttribute>,
        uniforms: Vec<ActiveUniform>,
    ) -> (r: Shader<T>)
        requires
            old(self)@.shader_id < u32::MAX,
            old(self)@.next_object < u32::MAX,
            old(self)@.attributes.len() + actives@.len() + T::spec_attributes().len()
                <= u32::MAX,
            spec_types_match(T::spec_attributes(), actives_view(actives@)),
            spec_stride(T::spec_attributes()) <= i32::MAX,
        ensures
            r.id == old(self)@.shader_id,
            r.program == old(self)@.next_object,
            r.uniforms == uniforms,
            r.stride == spec_stride(T::spec_attributes()),
            r.attributes@ == spec_layout(
                register_actives(old(self)@.attributes, actives_view(actives@)),
                T::spec_attributes(),
            ),
            final(self)@ == (GlView {
                shader_id: (old(self)@.shader_id + 1) as u32,
                next_object: (old(self)@.next_object + 1) as u32,
                attributes: register_decls(
                    register_actives(old(self)@.attributes, actives_view(actives@)),
                    T::spec_attributes(),
                ),
                commands: old(self)@.commands + spec_bind_cmds(
                    old(self)@.attributes,
                    actives_view(actives@),
                    old(self)@.next_object,
                ) + seq![GlCommandView::LinkProgram(old(self)@.next_object)],
                ..old(self)@
            }),
    {
        let ghost t0 = old(self)@.attributes;
        let ghost avs = actives_view(actives@);
        let ghost dv = T::spec_attributes();
        let id = self.shader_id;
        self.shader_id = self.shader_id + 1;
        let ghost sid1 = (old(self)@.shader_id + 1) as u32;
        proof {
            assert(self@ =~= (GlView { shader_id: sid1, ..old(self)@ }));
        }
        let program = self.alloc_object();
        let ghost no1 = (old(self)@.next_object + 1) as u32;

        let n = actives.len();
        let mut i: usize = 0;
        while i < n
            invariant
                n == actives@.len(),
                avs == actives_view(actives@),
                t0 == old(self)@.attributes,
                t0.len() + avs.len() + dv.len() <= u32::MAX,
                program == old(self)@.next_object,
                0 <= i <= n,
                self@.attributes.len() <= t0.len() + i,
                self@ == (GlView {
                    shader_id: sid1,
                    next_object: no1,
                    attributes: register_actives(t0, avs.take(i as int)),
                    commands: old(self)@.commands + spec_bind_cmds(
                        t0,
                        avs.take(i as int),
                        program,
                    ),
                    ..old(self)@
                }),
            decreases n - i,
        {
            let slot = self.attribute_location(actives[i].name.as_str());
            self.push_cmd(GlCommand::BindAttribLocation(program, slot, actives[i].name.clone()));
            proof {
                assert(avs.take(i as int + 1).drop_last() =~= avs.take(i as int));
                assert(avs.take(i as int + 1).last() == avs[i as int]);
                assert(avs[i as int].0 == actives@[i as int].name@);
                assert(self@ =~= (GlView {
                    shader_id: sid1,
                    next_object: no1,
                    attributes: register_actives(t0, avs.take(i as int + 1)),
                    commands: old(self)@.commands + spec_bind_cmds(
                        t0,
                        avs.take(i as int + 1),
                        program,
                    ),
                    ..old(self)@
                }));
            }
            i = i + 1;
        }
        proof {
            assert(avs.take(n as int) =~= avs);
        }
        self.push_cmd(GlCommand::LinkProgram(program));
        let ghost t1 = register_actives(t0, avs);
        let ghost cmds1 = old(self)@.commands + spec_bind_cmds(t0, avs, program) + seq![
            GlCommandView::LinkProgram(program),
        ];
        proof {
            assert(self@.commands =~= cmds1);
        }

        let decls = T::attributes();
        let mut layout: Vec<(BufferType, u32, i32)> = Vec::new();
        let mut offset: u32 = 0;
        let m = decls.len();
        let mut j: usize = 0;
        while j < m
            invariant
                m == decls@.len(),
                decls_view(decls@) == dv,
                dv == T::spec_attributes(),
                t0.len() + avs.len() + dv.len() <= u32::MAX,
                t1 == register_actives(t0, avs),
                t1.len() <= t0.len() + avs.len(),
                spec_stride(dv) <= i32::MAX,
                0 <= j <= m,
                self@.attributes.len() <= t1.len() + j,
                offset == spec_stride(dv.take(j as int)),
                layout@ == spec_layout(t1, dv.take(j as int)),
                self@ == (GlView {
                    shader_id: sid1,
                    next_object: no1,
                    attributes: register_decls(t1, dv.take(j as int)),
                    commands: cmds1,
                    ..old(self)@
                }),
            decreases m - j,
        {
            proof {
                assert(dv[j as int].0 == decls@[j as int].0);
                assert(dv[j as int].1 == decls@[j as int].1@);
                lemma_stride_take_step(dv, j as int);
                lemma_stride_prefix_le(dv, j as int + 1);
            }
            let slot = self.attribute_location(decls[j].1.as_str());
            layout.push((decls[j].0, slot, offset as i32));
            let bs = decls[j].0.byte_size();
            proof {
                assert(dv.take(j as int + 1).drop_last() =~= dv.take(j as int));
                assert(dv.take(j as int + 1).last() == dv[j as int]);
                assert(self@ =~= (GlView {
                    shader_id: sid1,
                    next_object: no1,
                    attributes: register_decls(t1, dv.take(j as int + 1)),
                    commands: cmds1,
                    ..old(self)@
                }));
            }
            offset = offset + bs;
            j = j + 1;
        }
        proof {
            assert(dv.take(m as int) =~= dv);
            assert(final(self)@ =~= (GlView {
                shader_id: sid1,
                next_object: no1,
                attributes: register_decls(t1, dv),
                commands: cmds1,
                ..old(self)@
            }));
        }
        Shader { id, program, uniforms, attributes: layout, stride: offset, _phantom: PhantomData }
    }
}

impl Gl {
    /// Release a shader's program object.
    pub fn delete_shader<T: AttributesReprCpacked>(&mut self, shader: Shader<T>)
        ensures
            final(self)@ == (GlView {
                commands: old(self)@.commands.push(GlCommandView::DeleteProgram(shader.program)),
                ..old(self)@
            }),
    {
        self.push_cmd(GlCommand::DeleteProgram(shader.program));
    }
}

} // verus!
