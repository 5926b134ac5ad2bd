use vstd::prelude::*;

use crate::geometry::Point;
use crate::geometry::SubPoint;
use crate::geometry::SUBPIXEL;
use crate::geometry::valid_point;
use crate::geometry::valid_sub_point;

verus! {

/// A window handle: a stable identity plus the extent of the surface,
/// used for hit-testing. The placement table owns the entry; a grab keeps
/// a copy of the handle and revalidates it on every access.
#[derive(Clone, Copy, PartialEq, Eq, Structural, Debug)]
pub struct Window {
    pub id: u64,
    pub width: u32,
    pub height: u32,
}

/// One entry of the placement table: a window and its position in whole
/// logical pixels.
#[derive(Clone, Copy, PartialEq, Eq, Structural, Debug)]
pub struct Mapped {
    pub window: Window,
    pub pos: Point,
}

/// No two entries share a window identity.
pub open spec fn unique_ids(s: Seq<Mapped>) -> bool {
    forall|i: int, j: int| 0 <= i < j < s.len() ==> s[i].window.id != s[j].window.id
}

/// Some entry carries this window identity.
pub open spec fn contains_id(s: Seq<Mapped>, id: u64) -> bool {
    exists|i: int| 0 <= i < s.len() && s[i].window.id == id
}

/// The entries that do not carry this identity, in their original order.
pub open spec fn retain_other(s: Seq<Mapped>, id: u64) -> Seq<Mapped>
    decreases s.len(),
{
    if s.len() == 0 {
        s
    } else if s.last().window.id == id {
        retain_other(s.drop_last(), id)
    } else {
        retain_other(s.drop_last(), id).push(s.last())
    }
}

/// Every entry carrying the window's identity rewritten to the given
/// handle and position, all others kept; order unchanged.
pub open spec fn replace_id(s: Seq<Mapped>, w: Window, pos: Point) -> Seq<Mapped>
    decreases s.len(),
{
    if s.len() == 0 {
        s
    } else if s.last().window.id == w.id {
        replace_id(s.drop_last(), w, pos).push(Mapped { window: w, pos })
    } else {
        replace_id(s.drop_last(), w, pos).push(s.last())
    }
}

/// The entry carrying this identity (the topmost one, which under
/// `unique_ids` is the only one).
pub open spec fn entry_for(s: Seq<Mapped>, id: u64) -> Mapped
    decreases s.len(),
{
    if s.len() == 0 {
        arbitrary()
    } else if s.last().window.id == id {
        s.last()
    } else {
        entry_for(s.drop_last(), id)
    }
}

/// What mapping a window does to the table: with `activate` the window is
/// placed on top of the stacking order at the new position; without it an
/// already-present window keeps its stacking rank and only its entry is
/// rewritten, while an absent window is inserted on top.
pub open spec fn map_spec(s: Seq<Mapped>, w: Window, pos: Point, activate: bool) -> Seq<Mapped> {
    if activate {
        retain_other(s, w.id).push(Mapped { window: w, pos })
    } else if contains_id(s, w.id) {
        replace_id(s, w, pos)
    } else {
        s.push(Mapped { window: w, pos })
    }
}

/// Re-mapping by identity alone: moves an existing window, keeping its
/// stored handle; leaves the table unchanged when the identity does not
/// resolve (a stale reference is a no-op, not an error).
pub open spec fn remap_spec(s: Seq<Mapped>, id: u64, pos: Point, activate: bool) -> Seq<Mapped> {
    if contains_id(s, id) {
        map_spec(s, entry_for(s, id).window, pos, activate)
    } else {
        s
    }
}

/// Removing a window: the remaining entries keep their order.
pub open spec fn unmap_spec(s: Seq<Mapped>, id: u64) -> Seq<Mapped> {
    retain_other(s, id)
}

/// Whether the entry's surface occupies the fixed-point position.
pub open spec fn contains_point(e: Mapped, p: SubPoint) -> bool {
    &&& e.pos.x * SUBPIXEL <= p.x < (e.pos.x + e.window.width) * SUBPIXEL
    &&& e.pos.y * SUBPIXEL <= p.y < (e.pos.y + e.window.height) * SUBPIXEL
}

/// The topmost entry (greatest stacking rank) occupying the position.
pub open spec fn hit_spec(s: Seq<Mapped>, p: SubPoint) -> Option<Mapped>
    decreases s.len(),
{
    if s.len() == 0 {
        None
    } else if contains_point(s.last(), p) {
        Some(s.last())
    } else {
        hit_spec(s.drop_last(), p)
    }
}

/// A successful hit-test: the surface identity of the topmost window under
/// the queried position, and that position in surface-local coordinates.
#[derive(Clone, Copy, PartialEq, Eq, Structural, Debug)]
pub struct Hit {
    pub surface: u64,
    pub local: SubPoint,
}

/// The hit entry reduced to what input routing needs: the surface identity
/// and the position expressed in surface-local fixed-point coordinates.
pub open spec fn hit_result(s: Seq<Mapped>, p: SubPoint) -> Option<Hit> {
    match hit_spec(s, p) {
        Some(e) => Some(
            Hit {
                surface: e.window.id,
                local: SubPoint {
                    x: (p.x - e.pos.x * SUBPIXEL) as i64,
                    y: (p.y - e.pos.y * SUBPIXEL) as i64,
                },
            },
        ),
        None => None,
    }
}

pub proof fn lemma_retain_other_props(s: Seq<Mapped>, id: u64)
    ensures
        retain_other(s, id).len() <= s.len(),
        forall|k: int|
            0 <= k < retain_other(s, id).len() ==> #[trigger] retain_other(s, id)[k].window.id
                != id,
        forall|k: int|
            0 <= k < retain_other(s, id).len() ==> exists|j: int|
                0 <= j < s.len() && #[trigger] retain_other(s, id)[k] == s[j],
        unique_ids(s) ==> unique_ids(retain_other(s, id)),
        forall|w: u64| #[trigger] contains_id(retain_other(s, id), w) ==> contains_id(s, w),
    decreases s.len(),
{
    if s.len() == 0 {
    } else {
        let d = s.drop_last();
        lemma_retain_other_props(d, id);
        assert forall|k: int| 0 <= k < retain_other(d, id).len() implies exists|j: int|
            0 <= j < s.len() && #[trigger] retain_other(d, id)[k] == s[j] by {
            let j = choose|j: int| 0 <= j < d.len() && retain_other(d, id)[k] == d[j];
            assert(retain_other(d, id)[k] == s[j]);
        }
        assert forall|w: u64| #[trigger] contains_id(retain_other(d, id), w) implies contains_id(
            s,
            w,
        ) by {
            let i = choose|i: int|
                0 <= i < retain_other(d, id).len() && retain_other(d, id)[i].window.id == w;
            assert(contains_id(d, w));
            let j = choose|j: int| 0 <= j < d.len() && d[j].window.id == w;
            assert(s[j].window.id == w);
        }
        if s.last().window.id == id {
            assert(retain_other(s, id) == retain_other(d, id));
        } else {
            let r = retain_other(d, id).push(s.last());
            assert(retain_other(s, id) == r);
            assert(r[r.len() - 1] == s.last());
            assert(r[r.len() - 1] == s[s.len() - 1]);
            if unique_ids(s) {
                assert(unique_ids(d));
                assert forall|i: int, j: int| 0 <= i < j < r.len() implies r[i].window.id
                    != r[j].window.id by {
                    if j < r.len() - 1 {
                        assert(retain_other(d, id)[i].window.id != retain_other(d, id)[j].window.id);
                    } else {
                        let m = choose|m: int|
                            0 <= m < d.len() && retain_other(d, id)[i] == d[m];
                        assert(s[m].window.id != s[s.len() - 1].window.id);
                        assert(r[i] == d[m]);
                        assert(d[m] == s[m]);
                    }
                }
            }
        }
    }
}

pub proof fn lemma_replace_id_props(s: Seq<Mapped>, w: Window, pos: Point)
    ensures
        replace_id(s, w, pos).len() == s.len(),
        forall|k: int|
            0 <= k < s.len() ==> #[trigger] replace_id(s, w, pos)[k] == (if s[k].window.id == w.id {
                Mapped { window: w, pos }
            } else {
                s[k]
            }),
    decreases s.len(),
{
    if s.len() == 0 {
    } else {
        let d = s.drop_last();
        lemma_replace_id_props(d, w, pos);
        assert forall|k: int| 0 <= k < s.len() implies #[trigger] replace_id(s, w, pos)[k] == (
        if s[k].window.id == w.id {
            Mapped { window: w, pos }
        } else {
            s[k]
        }) by {
            if k < s.len() - 1 {
                assert(replace_id(s, w, pos)[k] == replace_id(d, w, pos)[k]);
                assert(d[k] == s[k]);
            }
        }
    }
}

/// Retaining is the identity on a sequence with no entry to drop.
pub proof fn lemma_retain_all_kept(s: Seq<Mapped>, id: u64)
    requires
        forall|k: int| 0 <= k < s.len() ==> s[k].window.id != id,
    ensures
        retain_other(s, id) == s,
    decreases s.len(),
{
    if s.len() == 0 {
    } else {
        assert(s.last() == s[s.len() - 1]);
        assert forall|k: int| 0 <= k < s.drop_last().len() implies s.drop_last()[k].window.id
            != id by {
            assert(s.drop_last()[k] == s[k]);
        }
        lemma_retain_all_kept(s.drop_last(), id);
        assert(s.drop_last().push(s.last()) =~= s);
    }
}

/// Under unique identities, the entry found at any index carrying the
/// identity is the entry `entry_for` names.
pub proof fn lemma_entry_for_unique(s: Seq<Mapped>, id: u64, i: int)
    requires
        unique_ids(s),
        0 <= i < s.len(),
        s[i].window.id == id,
    ensures
        entry_for(s, id) == s[i],
        entry_for(s, id).window.id == id,
    decreases s.len(),
{
    if s.last().window.id == id {
        assert(i == s.len() - 1);
    } else {
        assert(i < s.len() - 1);
        lemma_entry_for_unique(s.drop_last(), id, i);
        assert(s.drop_last()[i] == s[i]);
    }
}

/// A successful hit names an entry of the table, and that entry occupies
/// the queried position.
pub proof fn lemma_hit_spec_is_element(s: Seq<Mapped>, p: SubPoint)
    requires
        hit_spec(s, p) is Some,
    ensures
        exists|i: int|
            0 <= i < s.len() && s[i] == hit_spec(s, p)->Some_0 && contains_point(
                hit_spec(s, p)->Some_0,
                p,
            ),
    decreases s.len(),
{
    if contains_point(s.last(), p) {
        assert(s[s.len() - 1] == s.last());
    } else {
        lemma_hit_spec_is_element(s.drop_last(), p);
        let i = choose|i: int|
            0 <= i < s.drop_last().len() && s.drop_last()[i] == hit_spec(s.drop_last(), p)->Some_0
                && contains_point(hit_spec(s.drop_last(), p)->Some_0, p);
        assert(s[i] == s.drop_last()[i]);
    }
}

/// The authoritative registry of window placement and stacking order:
/// entries later in the vector stack above earlier ones.
pub struct WindowSpace {
    entries: Vec<Mapped>,
}

impl View for WindowSpace {
    type V = Seq<Mapped>;

    closed spec fn view(&self) -> Seq<Mapped> {
        self.entries@
    }
}

impl WindowSpace {
    /// Identities are unique and every stored position is representable.
    pub open spec fn wf(&self) -> bool {
        &&& unique_ids(self@)
        &&& forall|k: int| 0 <= k < self@.len() ==> valid_point(#[trigger] self@[k].pos)
    }

    pub fn new() -> (r: WindowSpace)
        ensures
            r@ == Seq::<Mapped>::empty(),
            r.wf(),
    {
        let r = WindowSpace { entries: Vec::new() };
        proof {
            assert(r@ =~= Seq::<Mapped>::empty());
        }
        r
    }

    pub fn window_count(&self) -> (r: usize)
        ensures
            r == self@.len(),
    {
        self.entries.len()
    }

    pub fn contains_window(&self, id: u64) -> (r: bool)
        ensures
            r == contains_id(self@, id),
    {
        let n = self.entries.len();
        let mut i: usize = 0;
        while i < n
            invariant
                n == self@.len(),
                i <= n,
                forall|k: int| 0 <= k < i ==> self@[k].window.id != id,
            decreases n - i,
        {
            if self.entries[i].window.id == id {
                proof {
                    assert(self@[i as int].window.id == id);
                }
                return true;
            }
            i += 1;
        }
        false
    }

    /// The stored handle of the window with this identity, if any.
    pub fn get_window(&self, id: u64) -> (r: Option<Window>)
        requires
            self.wf(),
        ensures
            r == if contains_id(self@, id) {
                Some(entry_for(self@, id).window)
            } else {
                None::<Window>
            },
    {
        let n = self.entries.len();
        let mut i: usize = 0;
        while i < n
            invariant
                self.wf(),
                n == self@.len(),
                i <= n,
                forall|k: int| 0 <= k < i ==> self@[k].window.id != id,
            decreases n - i,
        {
            if self.entries[i].window.id == id {
                proof {
                    lemma_entry_for_unique(self@, id, i as int);
                }
                return Some(self.entries[i].window);
            }
            i += 1;
        }
        None
    }

    /// The current position of the window with this identity, if any.
    pub fn position_of(&self, id: u64) -> (r: Option<Point>)
        requires
            self.wf(),
        ensures
            r == if contains_id(self@, id) {
                Some(entry_for(self@, id).pos)
            } else {
                None::<Point>
            },
    {
        let n = self.entries.len();
        let mut i: usize = 0;
        while i < n
            invariant
                self.wf(),
                n == self@.len(),
                i <= n,
                forall|k: int| 0 <= k < i ==> self@[k].window.id != id,
            decreases n - i,
        {
            if self.entries[i].window.id == id {
                proof {
                    lemma_entry_for_unique(self@, id, i as int);
                }
                return Some(self.entries[i].pos);
            }
            i += 1;
        }
        None
    }

    /// Insert or update a window's placement; with `activate` the window is
    /// raised to the top of the stacking order. Mapping twice with the same
    /// arguments leaves the same table.
    pub fn map(&mut self, window: Window, pos: Point, activate: bool)
        requires
            old(self).wf(),
            valid_point(pos),
        ensures
            final(self).wf(),
            final(self)@ == map_spec(old(self)@, window, pos, activate),
    {
        let found = self.contains_window(window.id);
        let ghost s = self@;
        if activate {
            let mut out: Vec<Mapped> = Vec::new();
            let n = self.entries.len();
            let mut i: usize = 0;
            while i < n
                invariant
                    self@ == s,
                    n == s.len(),
                    i <= n,
                    out@ == retain_other(s.take(i as int), window.id),
                decreases n - i,
            {
                proof {
                    assert(s.take(i as int + 1).drop_last() =~= s.take(i as int));
                    assert(s.take(i as int + 1).last() == s[i as int]);
                }
                if self.entries[i].window.id != window.id {
                    out.push(self.entries[i]);
                }
                i += 1;
            }
            proof {
                assert(s.take(n as int) =~= s);
            }
            out.push(Mapped { window, pos });
            self.entries = out;
            proof {
                lemma_retain_other_props(s, window.id);
                let r = retain_other(s, window.id);
                assert forall|a: int, b: int| 0 <= a < b < self@.len() implies self@[a].window.id
                    != self@[b].window.id by {
                    if b < r.len() {
                        assert(r[a].window.id != r[b].window.id);
                    } else {
                        assert(self@[a] == r[a]);
                        assert(r[a].window.id != window.id);
                    }
                }
                assert forall|k: int| 0 <= k < self@.len() implies valid_point(
                    #[trigger] self@[k].pos,
                ) by {
                    if k < r.len() {
                        let j = choose|j: int| 0 <= j < s.len() && r[k] == s[j];
                        assert(valid_point(s[j].pos));
                    }
                }
            }
        } else if found {
            let mut out: Vec<Mapped> = Vec::new();
            let n = self.entries.len();
            let mut i: usize = 0;
            while i < n
                invariant
                    self@ == s,
                    n == s.len(),
                    i <= n,
                    out@ == replace_id(s.take(i as int), window, pos),
                    valid_point(pos),
                decreases n - i,
            {
                proof {
                    assert(s.take(i as int + 1).drop_last() =~= s.take(i as int));
                    assert(s.take(i as int + 1).last() == s[i as int]);
                }
                if self.entries[i].window.id == window.id {
                    out.push(Mapped { window, pos });
                } else {
                    out.push(self.entries[i]);
                }
                i += 1;
            }
            proof {
                assert(s.take(n as int) =~= s);
            }
            self.entries = out;
            proof {
                lemma_replace_id_props(s, window, pos);
                assert forall|a: int, b: int| 0 <= a < b < self@.len() implies self@[a].window.id
                    != self@[b].window.id by {
                    assert(s[a].window.id != s[b].window.id);
                }
            }
        } else {
            self.entries.push(Mapped { window, pos });
            proof {
                assert forall|a: int, b: int| 0 <= a < b < self@.len() implies self@[a].window.id
                    != self@[b].window.id by {
                    if b < s.len() {
                        assert(s[a].window.id != s[b].window.id);
                    } else {
                        assert(self@[a] == s[a]);
                        assert(!contains_id(s, window.id));
                    }
                }
            }
        }
    }

    /// Move the window with this identity, keeping its stored handle; a
    /// stale identity leaves the table unchanged.
    pub fn remap(&mut self, id: u64, pos: Point, activate: bool)
        requires
            old(self).wf(),
            valid_point(pos),
        ensures
            final(self).wf(),
            final(self)@ == remap_spec(old(self)@, id, pos, activate),
            !contains_id(old(self)@, id) ==> final(self)@ == old(self)@,
    {
        match self.get_window(id) {
            Some(w) => {
                self.map(w, pos, activate);
            },
            None => {},
        }
    }

    /// Remove the window with this identity; absent identities are a
    /// normal empty result, not an error.
    pub fn unmap(&mut self, id: u64)
        requires
            old(self).wf(),
        ensures
            final(self).wf(),
            final(self)@ == unmap_spec(old(self)@, id),
            !contains_id(final(self)@, id),
    {
        let ghost s = self@;
        let mut out: Vec<Mapped> = Vec::new();
        let n = self.entries.len();
        let mut i: usize = 0;
        while i < n
            invariant
                self@ == s,
                n == s.len(),
                i <= n,
                out@ == retain_other(s.take(i as int), id),
            decreases n - i,
        {
            proof {
                assert(s.take(i as int + 1).drop_last() =~= s.take(i as int));
                assert(s.take(i as int + 1).last() == s[i as int]);
            }
            if self.entries[i].window.id != id {
                out.push(self.entries[i]);
            }
            i += 1;
        }
        proof {
            assert(s.take(n as int) =~= s);
        }
        self.entries = out;
        proof {
            lemma_retain_other_props(s, id);
            let r = retain_other(s, id);
            assert forall|k: int| 0 <= k < self@.len() implies valid_point(
                #[trigger] self@[k].pos,
            ) by {
                let j = choose|j: int| 0 <= j < s.len() && r[k] == s[j];
                assert(valid_point(s[j].pos));
            }
            if contains_id(self@, id) {
                let i0 = choose|i0: int| 0 <= i0 < r.len() && r[i0].window.id == id;
                assert(r[i0].window.id != id);
            }
        }
    }

    /// The topmost entry occupying the position, with the full stored
    /// entry: hit-testing against the stacking order.
    pub fn window_under(&self, p: SubPoint) -> (r: Option<Mapped>)
        requires
            self.wf(),
            valid_sub_point(p),
        ensures
            r == hit_spec(self@, p),
    {
        let mut i: usize = self.entries.len();
        proof {
            assert(self@.take(i as int) =~= self@);
        }
        while i > 0
            invariant
                self.wf(),
                valid_sub_point(p),
                i <= self@.len(),
                hit_spec(self@, p) == hit_spec(self@.take(i as int), p),
            decreases i,
        {
            let idx = i - 1;
            proof {
                assert(self@.take(i as int).drop_last() =~= self@.take(idx as int));
                assert(self@.take(i as int).last() == self@[idx as int]);
            }
            let e = self.entries[idx];
            if entry_contains(&e, p) {
                return Some(e);
            }
            i = idx;
        }
        proof {
            assert(self@.take(0) =~= Seq::<Mapped>::empty());
        }
        None
    }

    /// The query input routing uses: the topmost surface under the pointer
    /// and the pointer position in that surface's local coordinates.
    pub fn surface_under(&self, p: SubPoint) -> (r: Option<Hit>)
        requires
            self.wf(),
            valid_sub_point(p),
        ensures
            r == hit_result(self@, p),
    {
        match self.window_under(p) {
            Some(e) => {
                proof {
                    lemma_hit_spec_is_element(self@, p);
                    let i = choose|i: int|
                        0 <= i < self@.len() && self@[i] == hit_spec(self@, p)->Some_0
                            && contains_point(hit_spec(self@, p)->Some_0, p);
                    assert(valid_point(self@[i].pos));
                }
                Some(
                    Hit {
                        surface: e.window.id,
                        local: SubPoint {
                            x: p.x - e.pos.x * SUBPIXEL,
                            y: p.y - e.pos.y * SUBPIXEL,
                        },
                    },
                )
            },
            None => None,
        }
    }
}

/// Whether the entry's surface occupies the fixed-point position; the
/// executable form of `contains_point`.
fn entry_contains(e: &Mapped, p: SubPoint) -> (r: bool)
    requires
        valid_point(e.pos),
    ensures
        r == contains_point(*e, p),
{
    let x0 = e.pos.x * SUBPIXEL;
    let x1 = (e.pos.x + e.window.width as i64) * SUBPIXEL;
    let y0 = e.pos.y * SUBPIXEL;
    let y1 = (e.pos.y + e.window.height as i64) * SUBPIXEL;
    x0 <= p.x && p.x < x1 && y0 <= p.y && p.y < y1
}

} // verus!
