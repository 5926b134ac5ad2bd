use vstd::prelude::*;

use crate::geometry::Point;
use crate::geometry::SubPoint;
use crate::grabs::MoveSurfaceGrab;
use crate::space::Mapped;
use crate::space::Window;
use crate::space::contains_id;
use crate::space::contains_point;
use crate::space::hit_spec;
use crate::space::lemma_replace_id_props;
use crate::space::lemma_retain_all_kept;
use crate::space::lemma_retain_other_props;
use crate::space::map_spec;
use crate::space::remap_spec;
use crate::space::replace_id;
use crate::space::retain_other;
use crate::space::unique_ids;
use crate::state::grab_after_press;
use crate::state::grab_after_release;

verus! {

/// The grab left by a whole sequence of button presses, each a button
/// code paired with the caller's move-trigger decision, arriving while
/// the pointer and the placement table stand still (presses move
/// neither).
pub open spec fn grab_after_presses(
    grab: Option<MoveSurfaceGrab>,
    s: Seq<Mapped>,
    pointer: SubPoint,
    presses: Seq<(u32, bool)>,
) -> Option<MoveSurfaceGrab>
    decreases presses.len(),
{
    if presses.len() == 0 {
        grab
    } else {
        grab_after_press(
            grab_after_presses(grab, s, pointer, presses.drop_last()),
            s,
            pointer,
            presses.last().0,
            presses.last().1,
        )
    }
}

/// At most one grab is ever active. The grab slot is a single `Option`,
/// so two grabs cannot coexist; this law states the stronger half: once
/// a grab is active, no sequence of further button presses replaces or
/// re-creates it — a second press while one is active never makes a
/// second grab.
pub proof fn lemma_single_grab(
    g: MoveSurfaceGrab,
    s: Seq<Mapped>,
    pointer: SubPoint,
    presses: Seq<(u32, bool)>,
)
    ensures
        grab_after_presses(Some(g), s, pointer, presses) == Some(g),
    decreases presses.len(),
{
    if presses.len() == 0 {
    } else {
        lemma_single_grab(g, s, pointer, presses.drop_last());
    }
}

/// A grab only ever comes into being over a window that is mapped at
/// that instant: the press hit-tested onto an entry of the placement
/// table, and the new grab is anchored at the pointer position of the
/// press and at that entry's current position. (The window may be
/// unmapped later; every grab action revalidates the handle.)
pub proof fn lemma_grab_starts_on_mapped_window(s: Seq<Mapped>, pointer: SubPoint, button: u32)
    requires
        grab_after_press(None, s, pointer, button, true) is Some,
    ensures
        ({
            let g = grab_after_press(None, s, pointer, button, true)->Some_0;
            &&& contains_id(s, g.window.id)
            &&& g.start_data.location == pointer
            &&& g.start_data.button == button
        }),
{
    crate::space::lemma_hit_spec_is_element(s, pointer);
    let e = hit_spec(s, pointer)->Some_0;
    let i = choose|i: int| 0 <= i < s.len() && s[i] == e && contains_point(e, pointer);
    assert(contains_id(s, e.window.id)) by {
        assert(s[i].window.id == e.window.id);
    }
}

/// A grab held by two pressed buttons survives the release of either one
/// alone and ends exactly when the remaining one is also released: the
/// release decision goes by the pressed set becoming empty, in either
/// order of release.
pub proof fn lemma_release_on_empty(g: MoveSurfaceGrab, a: u32, b: u32, first: u32)
    requires
        a != b,
        first == a || first == b,
    ensures
        ({
            let pressed = Set::<u32>::empty().insert(a).insert(b);
            let second = if first == a {
                b
            } else {
                a
            };
            let after_first = pressed.remove(first);
            &&& grab_after_release(Some(g), after_first) == Some(g)
            &&& grab_after_release(
                grab_after_release(Some(g), after_first),
                after_first.remove(second),
            ) is None
        }),
{
    let pressed = Set::<u32>::empty().insert(a).insert(b);
    let second = if first == a {
        b
    } else {
        a
    };
    let after_first = pressed.remove(first);
    assert(after_first.contains(second));
    assert(!after_first.is_empty());
    assert(after_first.remove(second) =~= Set::<u32>::empty());
}

/// Stale-window tolerance: once the grabbed window has been destroyed,
/// delivering a motion event leaves the placement table exactly as it
/// was — re-mapping by an identity that no longer resolves is a no-op.
pub proof fn lemma_stale_motion_no_op(s: Seq<Mapped>, id: u64, pos: Point, activate: bool)
    requires
        !contains_id(s, id),
    ensures
        remap_spec(s, id, pos, activate) == s,
{
}

/// Hit-testing returns the topmost window under the point: if the entry
/// at stacking rank `i` occupies the point and nothing stacked above it
/// does, the hit is exactly that entry — any lower window also occupying
/// the point is shadowed by it.
pub proof fn lemma_hit_test_topmost(s: Seq<Mapped>, p: SubPoint, i: int)
    requires
        0 <= i < s.len(),
        contains_point(s[i], p),
        forall|k: int| i < k < s.len() ==> !contains_point(#[trigger] s[k], p),
    ensures
        hit_spec(s, p) == Some(s[i]),
    decreases s.len(),
{
    if i == s.len() - 1 {
        assert(s.last() == s[i]);
    } else {
        assert(s.last() == s[s.len() - 1]);
        assert(!contains_point(s.last(), p));
        assert(s.drop_last()[i] == s[i]);
        assert forall|k: int| i < k < s.drop_last().len() implies !contains_point(
            #[trigger] s.drop_last()[k],
            p,
        ) by {
            assert(s.drop_last()[k] == s[k]);
        }
        lemma_hit_test_topmost(s.drop_last(), p, i);
    }
}

/// Mapping a window twice with identical arguments yields the identical
/// table: the second call inserts no duplicate entry and, beyond the
/// first raise-to-top, changes no stacking order.
pub proof fn lemma_map_idempotent(s: Seq<Mapped>, w: Window, pos: Point, activate: bool)
    requires
        unique_ids(s),
    ensures
        map_spec(map_spec(s, w, pos, activate), w, pos, activate) == map_spec(s, w, pos, activate),
{
    let e = Mapped { window: w, pos };
    if activate {
        let r = retain_other(s, w.id);
        let m1 = r.push(e);
        assert(m1.drop_last() =~= r);
        assert(m1.last() == e);
        assert(retain_other(m1, w.id) == retain_other(r, w.id));
        lemma_retain_other_props(s, w.id);
        lemma_retain_all_kept(r, w.id);
    } else if contains_id(s, w.id) {
        let m1 = replace_id(s, w, pos);
        lemma_replace_id_props(s, w, pos);
        let i = choose|i: int| 0 <= i < s.len() && s[i].window.id == w.id;
        assert(m1[i] == e);
        assert(contains_id(m1, w.id)) by {
            assert(m1[i].window.id == w.id);
        }
        lemma_replace_id_props(m1, w, pos);
        assert(replace_id(m1, w, pos) =~= m1) by {
            assert forall|k: int| 0 <= k < m1.len() implies replace_id(m1, w, pos)[k] == m1[k] by {
                if s[k].window.id == w.id {
                    assert(m1[k] == e);
                } else {
                    assert(m1[k] == s[k]);
                }
            }
        }
    } else {
        let m1 = s.push(e);
        assert(contains_id(m1, w.id)) by {
            assert(m1[s.len() as int].window.id == w.id);
        }
        assert forall|k: int| 0 <= k < s.len() implies s[k].window.id != w.id by {
            if s[k].window.id == w.id {
                assert(contains_id(s, w.id));
            }
        }
        lemma_replace_id_props(m1, w, pos);
        assert(replace_id(m1, w, pos) =~= m1) by {
            assert forall|k: int| 0 <= k < m1.len() implies replace_id(m1, w, pos)[k] == m1[k] by {
                if k < s.len() {
                    assert(m1[k] == s[k]);
                } else {
                    assert(m1[k] == e);
                }
            }
        }
    }
}

} // verus!
