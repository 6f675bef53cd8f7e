//! The color animator: once per frame, every entity tagged as
//! color-animated has its segment-0 color overwritten with the frame's
//! color; everything else in the store is left untouched.

use vstd::prelude::*;
use crate::color::Color;
use crate::scene::{with_seg0_color, Entity, EntityModel, Store};

verus! {

/// One entity after the animator's pass with frame color `c`.
pub open spec fn recolor_entity(e: EntityModel, c: Color) -> EntityModel {
    match e {
        EntityModel::Camera => e,
        EntityModel::Text(t) => if t.color_animated {
            EntityModel::Text(with_seg0_color(t, c))
        } else {
            e
        },
    }
}

/// The whole store after the animator's pass with frame color `c`.
pub open spec fn recolor_store(s: Seq<EntityModel>, c: Color) -> Seq<EntityModel> {
    s.map_values(|e: EntityModel| recolor_entity(e, c))
}

/// The animator keeps an entity well formed whenever the frame color is a
/// valid color.
pub proof fn lemma_recolor_preserves_wf(e: EntityModel, c: Color)
    requires
        e.wf(),
        c.valid(),
    ensures
        recolor_entity(e, c).wf(),
{
    match e {
        EntityModel::Camera => {},
        EntityModel::Text(t) => {
            if t.color_animated {
                let t2 = with_seg0_color(t, c);
                assert forall|j: int| 0 <= j < t2.segments.len() implies (#[trigger] t2.segments[j]).color.valid() by {
                    if j != 0 {
                        assert(t2.segments[j] == t.segments[j]);
                    }
                }
            }
        },
    }
}

/// Every animated entity of the repainted store carries the frame color at
/// segment 0: the animator paints all of them alike.
pub proof fn lemma_animator_uniform(s: Seq<EntityModel>, c: Color)
    requires
        forall|i: int| 0 <= i < s.len() ==> (#[trigger] s[i]).wf(),
    ensures
        recolor_store(s, c).len() == s.len(),
        forall|i: int|
            0 <= i < s.len() && #[trigger] s[i].is_color_animated() ==> recolor_store(s, c)[i]
                .seg0_color() == Some(c),
{
    assert forall|i: int|
        0 <= i < s.len() && #[trigger] s[i].is_color_animated() implies recolor_store(s, c)[i]
        .seg0_color() == Some(c) by {
        match s[i] {
            EntityModel::Camera => {},
            EntityModel::Text(t0) => {
                assert(recolor_store(s, c)[i] == EntityModel::Text(with_seg0_color(t0, c)));
            },
        }
    }
}

/// Repaints segment 0 of every color-animated entity with `c` and touches
/// nothing else.
pub fn apply_colors(store: &mut Store, c: Color)
    requires
        old(store).wf(),
        c.valid(),
    ensures
        final(store)@ == recolor_store(old(store)@, c),
        final(store).wf(),
{
    let ghost pre = old(store)@;
    let ghost pre_ents = old(store).entities@;
    let n = store.entities.len();
    let mut i: usize = 0;
    while i < n
        invariant
            n == store.entities@.len(),
            n == pre.len(),
            n == pre_ents.len(),
            pre == pre_ents.map_values(|e: Entity| e@),
            c.valid(),
            i <= n,
            forall|j: int| 0 <= j < n ==> (#[trigger] pre[j]).wf(),
            forall|j: int| 0 <= j < i ==> store@[j] == recolor_entity(pre[j], c),
            forall|j: int| i <= j < n ==> store.entities@[j] == pre_ents[j],
        decreases n - i,
    {
        let ghost top = store@;
        let ghost mid = store.entities@;
        let e = store.entities.remove(i);
        proof {
            assert(e == pre_ents[i as int]);
            assert(pre[i as int] == e@);
            assert(pre[i as int].wf());
        }
        let e2 = match e {
            Entity::Camera => Entity::Camera,
            Entity::Text(mut t) => {
                proof {
                    assert(pre[i as int] == EntityModel::Text(t@));
                    assert(t@.segments.len() == t.segments@.len());
                }
                if t.color_animated {
                    t.set_seg0_color(c);
                }
                Entity::Text(t)
            },
        };
        proof {
            assert(e2@ == recolor_entity(pre[i as int], c));
        }
        store.entities.insert(i, e2);
        proof {
            assert(store.entities@ =~= mid.update(i as int, e2));
            assert forall|j: int| 0 <= j < i + 1 implies store@[j] == recolor_entity(pre[j], c) by {
                assert(store@[j] == store.entities@[j]@);
                if j < i {
                    assert(store.entities@[j] == mid[j]);
                    assert(top[j] == mid[j]@);
                    assert(top[j] == recolor_entity(pre[j], c));
                } else {
                    assert(store.entities@[j] == e2);
                }
            }
        }
        i += 1;
    }
    proof {
        assert(store@ =~~= recolor_store(pre, c));
        assert forall|j: int| 0 <= j < store@.len() implies (#[trigger] store@[j]).wf() by {
            lemma_recolor_preserves_wf(pre[j], c);
        }
    }
}

} // verus!
