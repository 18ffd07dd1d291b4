//! The context-wide laws of the state tracker, proved over the same spec
//! functions the operations' contracts use.

use vstd::prelude::*;

verus! {

use crate::gl::GlView;
use crate::gl::GlCommandView;
use crate::gl::slot_of;
use crate::gl::table_insert;
use crate::gl::buffer::BufferType;
use crate::gl::shader::register_actives;
use crate::gl::shader::register_decls;
use crate::gl::render::spec_pick_unit;
use crate::gl::render::spec_bind_texture;
use crate::gl::render::pick_from;

/// Looking a name up never disturbs the slots already given out: the table
/// only ever grows at the end.
pub proof fn lemma_table_insert_extends(t: Seq<Seq<char>>, name: Seq<char>)
    ensures
        t.is_prefix_of(table_insert(t, name)),
{
}

/// Registering a shader's active attributes only ever grows the table at the
/// end.
pub proof fn lemma_register_actives_extends(t: Seq<Seq<char>>, actives: Seq<(Seq<char>, u32)>)
    ensures
        t.is_prefix_of(register_actives(t, actives)),
    decreases actives.len(),
{
    if actives.len() > 0 {
        lemma_register_actives_extends(t, actives.drop_last());
        lemma_table_insert_extends(register_actives(t, actives.drop_last()), actives.last().0);
    }
}

/// Registering a shader's declared attributes only ever grows the table at
/// the end.
pub proof fn lemma_register_decls_extends(t: Seq<Seq<char>>, decls: Seq<(BufferType, Seq<char>)>)
    ensures
        t.is_prefix_of(register_decls(t, decls)),
    decreases decls.len(),
{
    if decls.len() > 0 {
        lemma_register_decls_extends(t, decls.drop_last());
        lemma_table_insert_extends(register_decls(t, decls.drop_last()), decls.last().1);
    }
}

/// A name's slot survives any growth of the table: whatever is appended, a
/// name that already had a slot keeps exactly that slot.
pub proof fn lemma_slot_stable(t1: Seq<Seq<char>>, t2: Seq<Seq<char>>, name: Seq<char>, i: int)
    requires
        t1.is_prefix_of(t2),
        slot_of(t1, name) == Some(i),
    ensures
        slot_of(t2, name) == Some(i),
{
    t1.index_of_first_ensures(name);
    assert(t2[i] == t1[i]);
    assert forall|j: int| 0 <= j < i implies t2[j] != name by {
        assert(t2[j] == t1[j]);
    }
    crate::gl::lemma_slot_of_found(t2, name, i);
}

/// Attribute slot stability: for any sequence of shaders compiled against
/// one context, an attribute name that holds slot `i` before a shader is
/// registered still holds slot `i` afterwards — so every shader that
/// declares the name binds it at the same slot.  The table after
/// registration is exactly what `Gl::new_shader` ensures for the context's
/// attribute table.
pub proof fn lemma_attribute_slot_stability(
    t: Seq<Seq<char>>,
    actives: Seq<(Seq<char>, u32)>,
    decls: Seq<(BufferType, Seq<char>)>,
    name: Seq<char>,
    i: int,
)
    requires
        slot_of(t, name) == Some(i),
    ensures
        slot_of(register_decls(register_actives(t, actives), decls), name) == Some(i),
{
    lemma_register_actives_extends(t, actives);
    lemma_slot_stable(t, register_actives(t, actives), name, i);
    lemma_register_decls_extends(register_actives(t, actives), decls);
    lemma_slot_stable(
        register_actives(t, actives),
        register_decls(register_actives(t, actives), decls),
        name,
        i,
    );
}

/// State-cache idempotence of the viewport, first half: setting the same
/// dimensions twice in a row leaves the second call with nothing to do — no
/// command is issued and nothing changes.
pub proof fn lemma_viewport_idempotent(g: GlView, width: i32, height: i32)
    ensures
        g.spec_viewport(width, height).spec_viewport(width, height) == g.spec_viewport(
            width,
            height,
        ),
{
}

/// State-cache idempotence of the viewport, second half: dimensions that
/// differ from the cache issue exactly one `Viewport` command.
pub proof fn lemma_viewport_change(g: GlView, width: i32, height: i32)
    requires
        g.viewport != (width, height),
    ensures
        g.spec_viewport(width, height).commands == g.commands.push(
            GlCommandView::Viewport(width, height),
        ),
        g.spec_viewport(width, height).viewport == (width, height),
{
}

/// Texture unit round robin: with no unit locked, a bind takes exactly the
/// cursor's unit — so successive binds walk the 8 units in order, and a
/// ninth bind reuses unit 0.
pub proof fn lemma_unit_rotation_unlocked(active: u8)
    requires
        active < 8,
    ensures
        spec_pick_unit(active, 0) == Some(active),
{
    assert((0u8 & (1u8 << active)) == 0u8) by (bit_vector);
}

/// A locked unit is never handed out, no matter where the rotation starts:
/// whatever the pick resolves to has a clear lock bit.
pub proof fn lemma_locked_unit_never_picked(active: u8, lock: u8, unit: u8)
    requires
        spec_pick_unit(active, lock) == Some(unit),
    ensures
        lock & (1u8 << unit) == 0u8,
{
    lemma_pick_from_clear(active, lock, 0, unit);
}

/// A locked unit stays locked, and is never the one a later bind takes:
/// however many further textures are bound — persistent or not — a unit
/// locked by a persistent bind is never evicted for the rest of the
/// pipeline scope, since each bind preserves every set lock bit.
pub proof fn lemma_lock_preserved(active: u8, lock: u8, unit: u8, persistent: bool)
    requires
        lock & (1u8 << unit) != 0u8,
    ensures
        spec_pick_unit(active, lock) != Some(unit),
        spec_bind_texture(active, lock, persistent).1 & (1u8 << unit) != 0u8,
{
    match spec_pick_unit(active, lock) {
        Some(picked) => {
            lemma_locked_unit_never_picked(active, lock, picked);
            assert(lock & (1u8 << unit) != 0u8 ==> (lock | (1u8 << picked)) & (1u8 << unit)
                != 0u8) by (bit_vector);
        },
        None => {},
    }
}

/// Any unit `pick_from` resolves to has a clear lock bit.
proof fn lemma_pick_from_clear(active: u8, lock: u8, k: int, unit: u8)
    requires
        pick_from(active, lock, k) == Some(unit),
    ensures
        lock & (1u8 << unit) == 0u8,
    decreases 8 - k,
{
    if 0 <= k < 8 {
        let u = (((k + active as int) % 8) as u8);
        if lock & (1u8 << u) == 0u8 {
        } else {
            lemma_pick_from_clear(active, lock, k + 1, unit);
        }
    }
}

} // verus!
