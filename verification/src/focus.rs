use vstd::prelude::*;
use std::collections::VecDeque;
use crate::history::{lemma_insert_desc, sort_desc};
use crate::input::FocusId;

verus! {

/// Number of earlier focus targets remembered for going back.
pub const MAX_FOCUS_HISTORY: usize = 16;

/// Bounds of an element, as bit patterns of 64-bit floats.
#[derive(Debug, Clone, Copy, PartialEq, Eq, Structural)]
pub struct BoundsBits {
    pub x: u64,
    pub y: u64,
    pub width: u64,
    pub height: u64,
}

/// An element that can take keyboard focus.
#[derive(Debug, Clone, Copy, PartialEq, Eq, Structural)]
pub struct FocusableElement {
    pub id: FocusId,
    pub tab_index: i32,
    pub enabled: bool,
    pub visible: bool,
    pub bounds: BoundsBits,
}

/// Whether an element with this identifier is registered.
pub open spec fn has_elem(es: Seq<FocusableElement>, id: FocusId) -> bool {
    exists|i: int| 0 <= i < es.len() && (#[trigger] es[i]).id == id
}

/// The position of the element with this identifier.
pub open spec fn elem_index(es: Seq<FocusableElement>, id: FocusId) -> int {
    choose|i: int| 0 <= i < es.len() && (#[trigger] es[i]).id == id
}

/// The element with this identifier.
pub open spec fn lookup_elem(es: Seq<FocusableElement>, id: FocusId) -> Option<FocusableElement> {
    if has_elem(es, id) {
        Some(es[elem_index(es, id)])
    } else {
        None
    }
}

/// Whether the element with this identifier can take focus: it is
/// registered, enabled and visible.
pub open spec fn eligible(es: Seq<FocusableElement>, id: FocusId) -> bool {
    lookup_elem(es, id) matches Some(e) && e.enabled && e.visible
}

/// Identifiers are unique.
pub open spec fn ids_distinct(es: Seq<FocusableElement>) -> bool {
    forall|i: int, j: int| 0 <= i < j < es.len() ==> es[i].id != es[j].id
}

/// Sort key putting lower tab indices first.
pub open spec fn order_key() -> spec_fn(FocusableElement) -> int {
    |e: FocusableElement| -(e.tab_index as int)
}

/// The tab order: the visible elements by increasing tab index (equal
/// indices in registration order).
pub open spec fn tab_order_of(es: Seq<FocusableElement>) -> Seq<FocusId> {
    sort_desc(es.filter(|e: FocusableElement| e.visible), order_key()).map_values(|e: FocusableElement| e.id)
}

/// `i` is the first position of `x` in `s`.
pub open spec fn is_first_pos(s: Seq<FocusId>, x: FocusId, i: int) -> bool {
    &&& 0 <= i < s.len()
    &&& s[i] == x
    &&& forall|k: int| 0 <= k < i ==> s[k] != x
}

/// The first position of `x` in `s`.
pub open spec fn first_pos(s: Seq<FocusId>, x: FocusId) -> int {
    choose|i: int| is_first_pos(s, x, i)
}

/// Where a forward search starts: after the focused element, or at the
/// beginning.
pub open spec fn next_start(order: Seq<FocusId>, focused: Option<FocusId>) -> int {
    match focused {
        Some(f) => if order.contains(f) {
            if first_pos(order, f) + 1 < order.len() { first_pos(order, f) + 1 } else { 0 }
        } else {
            0
        },
        None => 0,
    }
}

/// The first eligible element going forward `k` or more steps from
/// `start`, wrapping around, before a full round.
pub open spec fn scan_fwd(order: Seq<FocusId>, es: Seq<FocusableElement>, start: int, k: nat) -> Option<FocusId>
    decreases order.len() - k,
{
    if k >= order.len() {
        None
    } else {
        let idx = if start + k < order.len() { start + k } else { start + k - order.len() };
        if eligible(es, order[idx]) {
            Some(order[idx])
        } else {
            scan_fwd(order, es, start, k + 1)
        }
    }
}

/// Where a backward search starts: before the focused element, or at the
/// end.
pub open spec fn prev_start(order: Seq<FocusId>, focused: Option<FocusId>) -> int {
    match focused {
        Some(f) => if order.contains(f) {
            if first_pos(order, f) == 0 { order.len() - 1 } else { first_pos(order, f) - 1 }
        } else {
            order.len() - 1
        },
        None => order.len() - 1,
    }
}

/// The first eligible element going backward `k` or more steps from
/// `start`, wrapping around, before a full round.
pub open spec fn scan_back(order: Seq<FocusId>, es: Seq<FocusableElement>, start: int, k: nat) -> Option<FocusId>
    decreases order.len() - k,
{
    if k >= order.len() {
        None
    } else {
        let idx = if k <= start { start - k } else { start + order.len() - k };
        if eligible(es, order[idx]) {
            Some(order[idx])
        } else {
            scan_back(order, es, start, k + 1)
        }
    }
}

/// The position `d` steps before position `i` in a cycle of `n` positions.
pub open spec fn steps_back(i: int, d: int, n: int) -> int {
    if d <= i { i - d } else { i + n - d }
}

proof fn lemma_scan_back_finds(order: Seq<FocusId>, es: Seq<FocusableElement>, start: int, k: nat)
    requires
        0 <= start < order.len(),
        k <= order.len(),
    ensures
        match scan_back(order, es, start, k) {
            Some(x) => exists|k2: int|
                #![trigger steps_back(start, k2, order.len() as int)]
                k <= k2 < order.len() && x == order[steps_back(start, k2, order.len() as int)]
                && eligible(es, x)
                && forall|k3: int| k <= k3 < k2 ==> !eligible(es, #[trigger] order[steps_back(start, k3, order.len() as int)]),
            None => forall|k3: int| k <= k3 < order.len() ==> !eligible(es, #[trigger] order[steps_back(start, k3, order.len() as int)]),
        },
    decreases order.len() - k,
{
    let n = order.len() as int;
    if k < order.len() {
        let idx = steps_back(start, k as int, n);
        lemma_scan_back_finds(order, es, start, k + 1);
        if !eligible(es, order[idx]) {
            match scan_back(order, es, start, k + 1) {
                Some(x) => {
                    let k2 = choose|k2: int|
                        #![trigger steps_back(start, k2, n)]
                        k + 1 <= k2 < n && x == order[steps_back(start, k2, n)] && eligible(es, x)
                        && forall|k3: int| k + 1 <= k3 < k2 ==> !eligible(es, #[trigger] order[steps_back(start, k3, n)]);
                    assert(forall|k3: int| k <= k3 < k2 ==> !eligible(es, #[trigger] order[steps_back(start, k3, n)]));
                },
                None => {},
            }
        }
    }
}

/// Shift+Tab with nothing usable in the focus history moves focus back in
/// tab order: from the focused element at position `i`, focus goes to the
/// nearest element before it, wrapping around, that can take focus. The
/// element at position `i` itself is reached only after every other
/// position, so it keeps focus only when no other element can take it; and
/// when no element at all can, nothing is focused.
pub proof fn law_focus_previous_moves_back(order: Seq<FocusId>, es: Seq<FocusableElement>, f: FocusId, i: int)
    requires
        is_first_pos(order, f, i),
    ensures
        match scan_back(order, es, prev_start(order, Some(f)), 0) {
            Some(x) => exists|d: int|
                #![trigger steps_back(i, d, order.len() as int)]
                1 <= d <= order.len() && x == order[steps_back(i, d, order.len() as int)]
                && eligible(es, x)
                && forall|d2: int| 1 <= d2 < d ==> !eligible(es, #[trigger] order[steps_back(i, d2, order.len() as int)]),
            None => forall|d: int| 1 <= d <= order.len() ==> !eligible(es, #[trigger] order[steps_back(i, d, order.len() as int)]),
        },
{
    let n = order.len() as int;
    assert(order.contains(f)) by {
        assert(order[i] == f);
    }
    let j = first_pos(order, f);
    assert(is_first_pos(order, f, j));
    assert(j == i) by {
        if j < i {
            assert(order[j] != f);
        } else if j > i {
            assert(order[i] != f);
        }
    }
    let start = prev_start(order, Some(f));
    assert(start == steps_back(i, 1, n));
    lemma_scan_back_finds(order, es, start, 0);
    assert forall|k: int| 0 <= k < n implies steps_back(start, k, n) == steps_back(i, k + 1, n) by {}
    match scan_back(order, es, start, 0) {
        Some(x) => {
            let k2 = choose|k2: int|
                #![trigger steps_back(start, k2, n)]
                0 <= k2 < n && x == order[steps_back(start, k2, n)] && eligible(es, x)
                && forall|k3: int| 0 <= k3 < k2 ==> !eligible(es, #[trigger] order[steps_back(start, k3, n)]);
            assert(steps_back(start, k2, n) == steps_back(i, k2 + 1, n));
            assert forall|d2: int| 1 <= d2 < k2 + 1 implies !eligible(es, #[trigger] order[steps_back(i, d2, n)]) by {
                assert(steps_back(start, d2 - 1, n) == steps_back(i, d2, n));
            }
        },
        None => {
            assert forall|d: int| 1 <= d <= n implies !eligible(es, #[trigger] order[steps_back(i, d, n)]) by {
                assert(steps_back(start, d - 1, n) == steps_back(i, d, n));
            }
        },
    }
}

/// The position `d` steps after position `i` in a cycle of `n` positions.
pub open spec fn steps_fwd(i: int, d: int, n: int) -> int {
    if i + d < n { i + d } else { i + d - n }
}

proof fn lemma_scan_fwd_finds(order: Seq<FocusId>, es: Seq<FocusableElement>, start: int, k: nat)
    requires
        0 <= start < order.len(),
        k <= order.len(),
    ensures
        match scan_fwd(order, es, start, k) {
            Some(x) => exists|k2: int|
                #![trigger steps_fwd(start, k2, order.len() as int)]
                k <= k2 < order.len() && x == order[steps_fwd(start, k2, order.len() as int)]
                && eligible(es, x)
                && forall|k3: int| k <= k3 < k2 ==> !eligible(es, #[trigger] order[steps_fwd(start, k3, order.len() as int)]),
            None => forall|k3: int| k <= k3 < order.len() ==> !eligible(es, #[trigger] order[steps_fwd(start, k3, order.len() as int)]),
        },
    decreases order.len() - k,
{
    let n = order.len() as int;
    if k < order.len() {
        let idx = steps_fwd(start, k as int, n);
        lemma_scan_fwd_finds(order, es, start, k + 1);
        if !eligible(es, order[idx]) {
            match scan_fwd(order, es, start, k + 1) {
                Some(x) => {
                    let k2 = choose|k2: int|
                        #![trigger steps_fwd(start, k2, n)]
                        k + 1 <= k2 < n && x == order[steps_fwd(start, k2, n)] && eligible(es, x)
                        && forall|k3: int| k + 1 <= k3 < k2 ==> !eligible(es, #[trigger] order[steps_fwd(start, k3, n)]);
                    assert(forall|k3: int| k <= k3 < k2 ==> !eligible(es, #[trigger] order[steps_fwd(start, k3, n)]));
                },
                None => {},
            }
        }
    }
}

/// Tab moves focus forward in tab order: from the focused element at
/// position `i`, focus goes to the nearest element after it, wrapping
/// around, that can take focus. The element at position `i` itself is
/// reached only after every other position, so it keeps focus only when no
/// other element can take it; and when no element at all can, nothing is
/// focused.
pub proof fn law_focus_next_moves_forward(order: Seq<FocusId>, es: Seq<FocusableElement>, f: FocusId, i: int)
    requires
        is_first_pos(order, f, i),
    ensures
        match scan_fwd(order, es, next_start(order, Some(f)), 0) {
            Some(x) => exists|d: int|
                #![trigger steps_fwd(i, d, order.len() as int)]
                1 <= d <= order.len() && x == order[steps_fwd(i, d, order.len() as int)]
                && eligible(es, x)
                && forall|d2: int| 1 <= d2 < d ==> !eligible(es, #[trigger] order[steps_fwd(i, d2, order.len() as int)]),
            None => forall|d: int| 1 <= d <= order.len() ==> !eligible(es, #[trigger] order[steps_fwd(i, d, order.len() as int)]),
        },
{
    let n = order.len() as int;
    assert(order.contains(f)) by {
        assert(order[i] == f);
    }
    let j = first_pos(order, f);
    assert(is_first_pos(order, f, j));
    assert(j == i) by {
        if j < i {
            assert(order[j] != f);
        } else if j > i {
            assert(order[i] != f);
        }
    }
    let start = next_start(order, Some(f));
    assert(start == steps_fwd(i, 1, n));
    lemma_scan_fwd_finds(order, es, start, 0);
    match scan_fwd(order, es, start, 0) {
        Some(x) => {
            let k2 = choose|k2: int|
                #![trigger steps_fwd(start, k2, n)]
                0 <= k2 < n && x == order[steps_fwd(start, k2, n)] && eligible(es, x)
                && forall|k3: int| 0 <= k3 < k2 ==> !eligible(es, #[trigger] order[steps_fwd(start, k3, n)]);
            assert(steps_fwd(start, k2, n) == steps_fwd(i, k2 + 1, n));
            assert forall|d2: int| 1 <= d2 < k2 + 1 implies !eligible(es, #[trigger] order[steps_fwd(i, d2, n)]) by {
                assert(steps_fwd(start, d2 - 1, n) == steps_fwd(i, d2, n));
            }
        },
        None => {
            assert forall|d: int| 1 <= d <= n implies !eligible(es, #[trigger] order[steps_fwd(i, d, n)]) by {
                assert(steps_fwd(start, d - 1, n) == steps_fwd(i, d, n));
            }
        },
    }
}

/// The focus history after focus moves from `focused` to `id`: the
/// element left is remembered (the oldest is forgotten beyond the limit).
pub open spec fn hist_after(h: Seq<FocusId>, focused: Option<FocusId>, id: FocusId) -> Seq<FocusId> {
    match focused {
        Some(o) => if o != id {
            let h2 = h.push(o);
            if h2.len() > MAX_FOCUS_HISTORY { h2.drop_first() } else { h2 }
        } else {
            h
        },
        None => h,
    }
}

/// Going back through the history from the newest entry: the first
/// entry that can take focus and is not focused, and what is left of the
/// history after it (the entries looked at are dropped).
pub open spec fn hist_scan(h: Seq<FocusId>, es: Seq<FocusableElement>, focused: Option<FocusId>) -> (Option<FocusId>, Seq<FocusId>)
    decreases h.len(),
{
    if h.len() == 0 {
        (None, h)
    } else {
        let id = h.last();
        if eligible(es, id) && Some(id) != focused {
            (Some(id), h.drop_last())
        } else {
            hist_scan(h.drop_last(), es, focused)
        }
    }
}

/// Going back through the focus history picks the newest remembered
/// element that can take focus and is not the focused one; the history
/// keeps only what is older than it. When there is none, every remembered
/// element is unable to take focus or is the focused one, and the history
/// is used up.
pub proof fn law_focus_history_newest_first(h: Seq<FocusId>, es: Seq<FocusableElement>, focused: Option<FocusId>)
    ensures
        match hist_scan(h, es, focused) {
            (Some(x), rest) => exists|p: int|
                #![trigger h[p]]
                0 <= p < h.len() && h[p] == x && eligible(es, x) && Some(x) != focused && rest == h.take(p)
                && forall|q: int| p < q < h.len() ==> !(eligible(es, #[trigger] h[q]) && Some(h[q]) != focused),
            (None, rest) => rest.len() == 0 && forall|q: int| 0 <= q < h.len() ==> !(eligible(es, #[trigger] h[q])
                && Some(h[q]) != focused),
        },
    decreases h.len(),
{
    if h.len() > 0 {
        let t = h.drop_last();
        law_focus_history_newest_first(t, es, focused);
        let id = h.last();
        if eligible(es, id) && Some(id) != focused {
            assert(h[h.len() - 1] == id);
            assert(t =~= h.take(h.len() - 1));
        } else {
            match hist_scan(t, es, focused) {
                (Some(x), rest) => {
                    let p = choose|p: int|
                        #![trigger t[p]]
                        0 <= p < t.len() && t[p] == x && eligible(es, x) && Some(x) != focused && rest == t.take(p)
                        && forall|q: int| p < q < t.len() ==> !(eligible(es, #[trigger] t[q]) && Some(t[q]) != focused);
                    assert(h[p] == t[p]);
                    assert(t.take(p) =~= h.take(p));
                    assert forall|q: int| p < q < h.len() implies !(eligible(es, #[trigger] h[q]) && Some(h[q]) != focused) by {
                        if q < t.len() {
                            assert(h[q] == t[q]);
                        }
                    }
                },
                (None, rest) => {
                    assert forall|q: int| 0 <= q < h.len() implies !(eligible(es, #[trigger] h[q]) && Some(h[q]) != focused) by {
                        if q < t.len() {
                            assert(h[q] == t[q]);
                        }
                    }
                },
            }
        }
    }
}

/// Keyboard focus among registered elements: the focused element, the
/// tab order and the history used to go back.
pub struct FocusManager {
    focused_id: Option<FocusId>,
    elements: Vec<FocusableElement>,
    tab_order: Vec<FocusId>,
    focus_history: VecDeque<FocusId>,
}

impl FocusManager {
    /// The focused element.
    pub closed spec fn focused(&self) -> Option<FocusId> {
        self.focused_id
    }

    /// The registered elements, in registration order.
    pub closed spec fn elems(&self) -> Seq<FocusableElement> {
        self.elements@
    }

    /// The tab order, as last rebuilt.
    pub closed spec fn order(&self) -> Seq<FocusId> {
        self.tab_order@
    }

    /// The focus history, oldest first.
    pub closed spec fn history(&self) -> Seq<FocusId> {
        self.focus_history@
    }

    /// The invariant: identifiers are unique and the history is bounded.
    pub closed spec fn wf(&self) -> bool {
        &&& ids_distinct(self.elements@)
        &&& self.focus_history@.len() <= MAX_FOCUS_HISTORY
    }

    /// Nothing registered, nothing focused.
    pub fn new() -> (m: Self)
        ensures
            m.wf(),
            m.focused() is None,
            m.elems().len() == 0,
            m.order().len() == 0,
            m.history().len() == 0,
    {
        FocusManager { focused_id: None, elements: Vec::new(), tab_order: Vec::new(), focus_history: VecDeque::new() }
    }

    fn find_elem(&self, id: FocusId) -> (r: Option<usize>)
        requires
            self.wf(),
        ensures
            match r {
                Some(i) => i < self.elems().len() && self.elems()[i as int].id == id && has_elem(self.elems(), id)
                    && elem_index(self.elems(), id) == i && lookup_elem(self.elems(), id) == Some(
                    self.elems()[i as int],
                ),
                None => !has_elem(self.elems(), id) && lookup_elem(self.elems(), id) is None,
            },
    {
        let ghost es = self.elements@;
        let mut i: usize = 0;
        while i < self.elements.len()
            invariant
                es == self.elements@,
                ids_distinct(es),
                i <= es.len(),
                forall|k: int| 0 <= k < i ==> (#[trigger] es[k]).id != id,
            decreases self.elements.len() - i,
        {
            if self.elements[i].id == id {
                assert(has_elem(es, id));
                let ghost j = elem_index(es, id);
                assert(j == i as int) by {
                    if j < i {
                        assert(es[j].id != id);
                    } else if j > i {
                        assert(es[i as int].id != es[j].id);
                    }
                }
                return Some(i);
            }
            i = i + 1;
        }
        None
    }

    /// Whether the element can take focus.
    fn is_eligible(&self, id: FocusId) -> (r: bool)
        requires
            self.wf(),
        ensures
            r == eligible(self.elems(), id),
    {
        match self.find_elem(id) {
            Some(i) => self.elements[i].enabled && self.elements[i].visible,
            None => false,
        }
    }

    /// Rebuild the tab order from the elements.
    fn rebuild_tab_order(&mut self)
        requires
            old(self).wf(),
        ensures
            final(self).wf(),
            final(self).order() == tab_order_of(old(self).elems()),
            final(self).elems() == old(self).elems(),
            final(self).focused() == old(self).focused(),
            final(self).history() == old(self).history(),
    {
        let ghost es = self.elements@;
        let ghost pred = |e: FocusableElement| e.visible;
        let mut vis: Vec<FocusableElement> = Vec::new();
        let mut i: usize = 0;
        while i < self.elements.len()
            invariant
                es == self.elements@,
                pred == (|e: FocusableElement| e.visible),
                i <= es.len(),
                vis@ == es.take(i as int).filter(pred),
            decreases self.elements.len() - i,
        {
            if self.elements[i].visible {
                vis.push(self.elements[i]);
            }
            assert(es.take(i + 1).drop_last() =~= es.take(i as int));
            assert(es.take(i + 1).last() == es[i as int]);
            reveal(Seq::filter);
            i = i + 1;
        }
        assert(es.take(i as int) =~= es);
        let ghost key = order_key();
        let ghost vv = vis@;
        let mut out: Vec<FocusableElement> = Vec::new();
        let mut k: usize = 0;
        assert(out@ =~= sort_desc(vv.take(0), key));
        while k < vis.len()
            invariant
                key == order_key(),
                vv == vis@,
                k <= vv.len(),
                out@ == sort_desc(vv.take(k as int), key),
            decreases vis.len() - k,
        {
            let x = vis[k];
            let ghost so = out@;
            let mut j: usize = out.len();
            while j > 0 && out[j - 1].tab_index > x.tab_index
                invariant
                    key == order_key(),
                    so == out@,
                    j <= out@.len(),
                    forall|m: int| j <= m < so.len() ==> key(#[trigger] so[m]) < key(x),
                decreases j,
            {
                j = j - 1;
            }
            proof {
                lemma_insert_desc(so, x, key, j as int);
            }
            out.insert(j, x);
            assert(vv.take(k + 1).drop_last() =~= vv.take(k as int));
            assert(vv.take(k + 1).last() == vv[k as int]);
            k = k + 1;
        }
        assert(vv.take(k as int) =~= vv);
        let ghost sorted = out@;
        let mut order: Vec<FocusId> = Vec::new();
        let mut m: usize = 0;
        while m < out.len()
            invariant
                sorted == out@,
                m <= sorted.len(),
                order@ == sorted.take(m as int).map_values(|e: FocusableElement| e.id),
            decreases out.len() - m,
        {
            order.push(out[m].id);
            m = m + 1;
            assert(order@ =~= sorted.take(m as int).map_values(|e: FocusableElement| e.id));
        }
        assert(sorted.take(m as int) =~= sorted);
        self.tab_order = order;
    }

    /// Register an element (replacing one with the same identifier) and
    /// rebuild the tab order.
    pub fn register_element(&mut self, element: FocusableElement)
        requires
            old(self).wf(),
        ensures
            final(self).wf(),
            has_elem(old(self).elems(), element.id) ==> final(self).elems() == old(self).elems().update(
                elem_index(old(self).elems(), element.id),
                element,
            ),
            !has_elem(old(self).elems(), element.id) ==> final(self).elems() == old(self).elems().push(element),
            final(self).order() == tab_order_of(final(self).elems()),
            final(self).focused() == old(self).focused(),
            final(self).history() == old(self).history(),
    {
        let ghost es = self.elements@;
        match self.find_elem(element.id) {
            Some(i) => {
                self.elements.set(i, element);
                assert forall|a: int, b: int| 0 <= a < b < self.elements@.len() implies self.elements@[a].id
                    != self.elements@[b].id by {
                    assert(es[a].id != es[b].id);
                }
            },
            None => {
                self.elements.push(element);
                assert forall|a: int, b: int| 0 <= a < b < self.elements@.len() implies self.elements@[a].id
                    != self.elements@[b].id by {
                    if b < es.len() {
                        assert(es[a].id != es[b].id);
                    } else {
                        assert(es[a].id != element.id);
                    }
                }
            },
        }
        self.rebuild_tab_order();
    }

    /// Remove an element; focus is cleared if it had it. The tab order is
    /// rebuilt.
    pub fn unregister_element(&mut self, id: FocusId)
        requires
            old(self).wf(),
        ensures
            final(self).wf(),
            has_elem(old(self).elems(), id) ==> final(self).elems() == old(self).elems().remove(
                elem_index(old(self).elems(), id),
            ),
            !has_elem(old(self).elems(), id) ==> final(self).elems() == old(self).elems(),
            final(self).order() == tab_order_of(final(self).elems()),
            final(self).focused() == if old(self).focused() == Some(id) { None } else { old(self).focused() },
            final(self).history() == old(self).history(),
    {
        let ghost es = self.elements@;
        match self.find_elem(id) {
            Some(i) => {
                self.elements.remove(i);
                assert forall|a: int, b: int| 0 <= a < b < self.elements@.len() implies self.elements@[a].id
                    != self.elements@[b].id by {
                    let aa = if a < i { a } else { a + 1 };
                    let bb = if b < i { b } else { b + 1 };
                    assert(self.elements@[a] == es[aa] && self.elements@[b] == es[bb]);
                }
            },
            None => {},
        }
        if self.focused_id == Some(id) {
            self.focused_id = None;
        }
        self.rebuild_tab_order();
    }

    /// Replace the element at `i` by `e` with the same identifier.
    fn put_elem(&mut self, i: usize, e: FocusableElement)
        requires
            old(self).wf(),
            i < old(self).elems().len(),
            e.id == old(self).elems()[i as int].id,
        ensures
            final(self).wf(),
            final(self).elems() == old(self).elems().update(i as int, e),
            final(self).order() == old(self).order(),
            final(self).focused() == old(self).focused(),
            final(self).history() == old(self).history(),
    {
        let ghost es = self.elements@;
        self.elements.set(i, e);
        assert forall|a: int, b: int| 0 <= a < b < self.elements@.len() implies self.elements@[a].id != self.elements@[b].id by {
            assert(es[a].id != es[b].id);
        }
    }

    /// Change a registered element with `f` and rebuild the tab order. The
    /// element stays registered under `id`: whatever identifier `f` gives
    /// it, the result is stored with `id`. Unknown identifiers change nothing.
    pub fn update_element<F: FnOnce(FocusableElement) -> FocusableElement>(&mut self, id: FocusId, f: F)
        requires
            old(self).wf(),
            has_elem(old(self).elems(), id) ==> f.requires((old(self).elems()[elem_index(old(self).elems(), id)],)),
        ensures
            final(self).wf(),
            has_elem(old(self).elems(), id) ==> exists|e: FocusableElement| {
                &&& #[trigger] f.ensures((old(self).elems()[elem_index(old(self).elems(), id)],), e)
                &&& final(self).elems() == old(self).elems().update(
                    elem_index(old(self).elems(), id),
                    FocusableElement { id, ..e },
                )
                &&& final(self).order() == tab_order_of(final(self).elems())
            },
            !has_elem(old(self).elems(), id) ==> final(self).elems() == old(self).elems() && final(self).order()
                == old(self).order(),
            final(self).focused() == old(self).focused(),
            final(self).history() == old(self).history(),
    {
        if let Some(i) = self.find_elem(id) {
            let e = f(self.elements[i]);
            let e2 = FocusableElement { id, ..e };
            self.put_elem(i, e2);
            self.rebuild_tab_order();
        }
    }

    /// Set an element's bounds.
    pub fn set_bounds(&mut self, id: FocusId, bounds: BoundsBits)
        requires
            old(self).wf(),
        ensures
            final(self).wf(),
            has_elem(old(self).elems(), id) ==> {
                let i = elem_index(old(self).elems(), id);
                final(self).elems() == old(self).elems().update(
                    i,
                    FocusableElement { bounds, ..old(self).elems()[i] },
                )
            },
            !has_elem(old(self).elems(), id) ==> final(self).elems() == old(self).elems(),
            final(self).order() == old(self).order(),
            final(self).focused() == old(self).focused(),
            final(self).history() == old(self).history(),
    {
        if let Some(i) = self.find_elem(id) {
            let e = FocusableElement { bounds, ..self.elements[i] };
            self.put_elem(i, e);
        }
    }

    /// Enable or disable an element; a focused element that is disabled
    /// passes focus on (see [`FocusManager::focus_next`]).
    pub fn set_enabled(&mut self, id: FocusId, enabled: bool)
        requires
            old(self).wf(),
        ensures
            final(self).wf(),
            has_elem(old(self).elems(), id) ==> {
                let i = elem_index(old(self).elems(), id);
                final(self).elems() == old(self).elems().update(i, FocusableElement { enabled, ..old(self).elems()[i] })
            },
            !has_elem(old(self).elems(), id) ==> final(self).elems() == old(self).elems() && final(self).focused()
                == old(self).focused() && final(self).history() == old(self).history(),
            has_elem(old(self).elems(), id) && (enabled || old(self).focused() != Some(id)) ==> final(self).focused()
                == old(self).focused() && final(self).history() == old(self).history(),
            final(self).order() == old(self).order(),
    {
        if let Some(i) = self.find_elem(id) {
            let e = FocusableElement { enabled, ..self.elements[i] };
            self.put_elem(i, e);
            if !enabled && self.focused_id == Some(id) {
                self.focus_next();
            }
        }
    }

    /// Show or hide an element; a focused element that is hidden passes
    /// focus on (see [`FocusManager::focus_next`]). The tab order is not
    /// rebuilt.
    pub fn set_visible(&mut self, id: FocusId, visible: bool)
        requires
            old(self).wf(),
        ensures
            final(self).wf(),
            has_elem(old(self).elems(), id) ==> {
                let i = elem_index(old(self).elems(), id);
                final(self).elems() == old(self).elems().update(i, FocusableElement { visible, ..old(self).elems()[i] })
            },
            !has_elem(old(self).elems(), id) ==> final(self).elems() == old(self).elems() && final(self).focused()
                == old(self).focused() && final(self).history() == old(self).history(),
            has_elem(old(self).elems(), id) && (visible || old(self).focused() != Some(id)) ==> final(self).focused()
                == old(self).focused() && final(self).history() == old(self).history(),
            final(self).order() == old(self).order(),
    {
        if let Some(i) = self.find_elem(id) {
            let e = FocusableElement { visible, ..self.elements[i] };
            self.put_elem(i, e);
            if !visible && self.focused_id == Some(id) {
                self.focus_next();
            }
        }
    }

    /// Focus an element that can take focus; the element left is
    /// remembered. Returns whether focus moved.
    pub fn focus(&mut self, id: FocusId) -> (ok: bool)
        requires
            old(self).wf(),
        ensures
            final(self).wf(),
            ok == eligible(old(self).elems(), id),
            ok ==> final(self).focused() == Some(id) && final(self).history() == hist_after(
                old(self).history(),
                old(self).focused(),
                id,
            ),
            !ok ==> final(self).focused() == old(self).focused() && final(self).history() == old(self).history(),
            final(self).elems() == old(self).elems(),
            final(self).order() == old(self).order(),
    {
        if !self.is_eligible(id) {
            return false;
        }
        let old_focus = self.focused_id;
        self.focused_id = Some(id);
        let ghost h0 = self.focus_history@;
        if let Some(o) = old_focus {
            if o != id {
                self.focus_history.push_back(o);
                if self.focus_history.len() > MAX_FOCUS_HISTORY {
                    self.focus_history.pop_front();
                }
            }
        }
        true
    }

    /// First position of `id` in the tab order.
    fn order_pos(&self, id: FocusId) -> (r: Option<usize>)
        ensures
            match r {
                Some(i) => is_first_pos(self.order(), id, i as int) && self.order().contains(id) && first_pos(
                    self.order(),
                    id,
                ) == i,
                None => !self.order().contains(id),
            },
    {
        let ghost s = self.order();
        let mut i: usize = 0;
        while i < self.tab_order.len()
            invariant
                s == self.order(),
                i <= s.len(),
                forall|k: int| 0 <= k < i ==> s[k] != id,
            decreases self.tab_order.len() - i,
        {
            if self.tab_order[i] == id {
                assert(is_first_pos(s, id, i as int));
                assert(s.contains(id));
                let ghost j = first_pos(s, id);
                assert(is_first_pos(s, id, j));
                assert(j == i as int) by {
                    if j < i {
                        assert(s[j] != id);
                    } else if j > i {
                        assert(s[i as int] != id);
                    }
                }
                return Some(i);
            }
            i = i + 1;
        }
        None
    }

    /// Move focus to the next element that can take it in tab order,
    /// wrapping around; returns it.
    pub fn focus_next(&mut self) -> (r: Option<FocusId>)
        requires
            old(self).wf(),
        ensures
            final(self).wf(),
            r == scan_fwd(old(self).order(), old(self).elems(), next_start(old(self).order(), old(self).focused()), 0),
            match r {
                Some(id) => final(self).focused() == Some(id) && final(self).history() == hist_after(
                    old(self).history(),
                    old(self).focused(),
                    id,
                ),
                None => final(self).focused() == old(self).focused() && final(self).history() == old(self).history(),
            },
            final(self).elems() == old(self).elems(),
            final(self).order() == old(self).order(),
    {
        let n = self.tab_order.len();
        if n == 0 {
            return None;
        }
        let start: usize = match self.focused_id {
            Some(f) => match self.order_pos(f) {
                Some(i) => if i + 1 < n { i + 1 } else { 0 },
                None => 0,
            },
            None => 0,
        };
        let ghost order = self.order();
        let ghost es = self.elems();
        assert(start as int == next_start(order, self.focused()));
        let mut i: usize = 0;
        while i < n
            invariant
                order == self.order(),
                es == self.elems(),
                self.wf(),
                n == order.len(),
                start < n,
                i <= n,
                scan_fwd(order, es, start as int, 0) == scan_fwd(order, es, start as int, i as nat),
                start as int == next_start(old(self).order(), old(self).focused()),
                order == old(self).order(),
                es == old(self).elems(),
                self.focused() == old(self).focused(),
                self.history() == old(self).history(),
            decreases n - i,
        {
            let idx = if i < n - start { start + i } else { i - (n - start) };
            assert(idx == if start + i < n { start + i } else { start + i - n });
            let id = self.tab_order[idx];
            if self.is_eligible(id) {
                assert(scan_fwd(order, es, start as int, i as nat) == Some(id));
                self.focus(id);
                return Some(id);
            }
            assert(scan_fwd(order, es, start as int, i as nat) == scan_fwd(order, es, start as int, (i + 1) as nat));
            i = i + 1;
        }
        None
    }

    /// Move focus back: to the newest remembered element that can take it
    /// (dropping the history looked at), or else to the previous element in
    /// tab order, wrapping around; returns it.
    pub fn focus_previous(&mut self) -> (r: Option<FocusId>)
        requires
            old(self).wf(),
        ensures
            final(self).wf(),
            final(self).elems() == old(self).elems(),
            final(self).order() == old(self).order(),
            old(self).order().len() == 0 ==> r is None && final(self).focused() == old(self).focused()
                && final(self).history() == old(self).history(),
            old(self).order().len() > 0 ==> {
                let (found, rest) = hist_scan(old(self).history(), old(self).elems(), old(self).focused());
                match found {
                    Some(id) => r == Some(id) && final(self).focused() == Some(id) && final(self).history() == rest,
                    None => {
                        let c = scan_back(
                            old(self).order(),
                            old(self).elems(),
                            prev_start(old(self).order(), old(self).focused()),
                            0,
                        );
                        &&& r == c
                        &&& match c {
                            Some(id) => final(self).focused() == Some(id) && final(self).history() == hist_after(
                                Seq::empty(),
                                old(self).focused(),
                                id,
                            ),
                            None => final(self).focused() == old(self).focused() && final(self).history() == Seq::<
                                FocusId,
                            >::empty(),
                        }
                    },
                }
            },
    {
        let n = self.tab_order.len();
        if n == 0 {
            return None;
        }
        let ghost es = self.elems();
        let ghost f0 = self.focused();
        let ghost h0 = self.history();
        loop
            invariant
                es == self.elems(),
                es == old(self).elems(),
                f0 == self.focused(),
                f0 == old(self).focused(),
                h0 == old(self).history(),
                n == self.order().len(),
                n > 0,
                self.wf(),
                self.order() == old(self).order(),
                hist_scan(h0, es, f0) == hist_scan(self.history(), es, f0),
            ensures
                self.history().len() == 0,
                hist_scan(h0, es, f0).0 is None,
                es == self.elems(),
                es == old(self).elems(),
                f0 == self.focused(),
                f0 == old(self).focused(),
                h0 == old(self).history(),
                n == self.order().len(),
                self.wf(),
                self.order() == old(self).order(),
            decreases self.history().len(),
        {
            let ghost hc = self.history();
            match self.focus_history.pop_back() {
                Some(id) => {
                    assert(hc.drop_last() == self.history());
                    if self.is_eligible(id) && self.focused_id != Some(id) {
                        self.focused_id = Some(id);
                        return Some(id);
                    }
                },
                None => {
                    break;
                },
            }
        }
        let start: usize = match self.focused_id {
            Some(f) => match self.order_pos(f) {
                Some(i) => if i == 0 { n - 1 } else { i - 1 },
                None => n - 1,
            },
            None => n - 1,
        };
        let ghost order = self.order();
        assert(start as int == prev_start(order, self.focused()));
        assert(self.history() =~= Seq::<FocusId>::empty());
        let mut i: usize = 0;
        while i < n
            invariant
                order == self.order(),
                es == self.elems(),
                self.wf(),
                n == order.len(),
                start < n,
                i <= n,
                scan_back(order, es, start as int, 0) == scan_back(order, es, start as int, i as nat),
                start as int == prev_start(old(self).order(), old(self).focused()),
                order == old(self).order(),
                es == old(self).elems(),
                f0 == old(self).focused(),
                h0 == old(self).history(),
                hist_scan(h0, es, f0).0 is None,
                self.focused() == f0,
                self.history() == Seq::<FocusId>::empty(),
            decreases n - i,
        {
            let idx = if i <= start { start - i } else { start + (n - i) };
            assert(idx == if i <= start { start - i } else { start + n - i });
            let id = self.tab_order[idx];
            if self.is_eligible(id) {
                assert(scan_back(order, es, start as int, i as nat) == Some(id));
                self.focus(id);
                return Some(id);
            }
            assert(scan_back(order, es, start as int, i as nat) == scan_back(order, es, start as int, (i + 1) as nat));
            i = i + 1;
        }
        None
    }

    /// The focused element.
    pub fn focused_id(&self) -> (r: Option<FocusId>)
        ensures
            r == self.focused(),
    {
        self.focused_id
    }

    /// The focused element's registration.
    pub fn focused_element(&self) -> (r: Option<FocusableElement>)
        requires
            self.wf(),
        ensures
            r == match self.focused() {
                Some(id) => lookup_elem(self.elems(), id),
                None => None,
            },
    {
        match self.focused_id {
            Some(id) => match self.find_elem(id) {
                Some(i) => Some(self.elements[i]),
                None => None,
            },
            None => None,
        }
    }

    /// Whether the element has focus.
    pub fn is_focused(&self, id: FocusId) -> (r: bool)
        ensures
            r == (self.focused() == Some(id)),
    {
        self.focused_id == Some(id)
    }

    /// Nothing has focus.
    pub fn clear_focus(&mut self)
        ensures
            final(self).focused() is None,
            final(self).elems() == old(self).elems(),
            final(self).order() == old(self).order(),
            final(self).history() == old(self).history(),
            final(self).wf() == old(self).wf(),
    {
        self.focused_id = None;
    }

    /// Tab moves focus forward, shift-tab back.
    pub fn handle_tab(&mut self, shift: bool) -> (r: Option<FocusId>)
        requires
            old(self).wf(),
        ensures
            final(self).wf(),
            !shift ==> r == scan_fwd(old(self).order(), old(self).elems(), next_start(old(self).order(), old(self).focused()), 0),
    {
        if shift {
            self.focus_previous()
        } else {
            self.focus_next()
        }
    }

    /// Focus the topmost element, last in tab order, among those that can
    /// take focus and whose bounds contain the point (`hits`, computed from
    /// the bounds); returns it.
    pub fn focus_at_point(&mut self, hits: &[FocusId]) -> (r: Option<FocusId>)
        requires
            old(self).wf(),
        ensures
            final(self).wf(),
            match r {
                Some(id) => hits@.contains(id) && eligible(old(self).elems(), id) && old(self).order().contains(id)
                    && final(self).focused() == Some(id),
                None => forall|k: int| 0 <= k < old(self).order().len() ==> !(hits@.contains(
                    #[trigger] old(self).order()[k],
                ) && eligible(old(self).elems(), old(self).order()[k])),
            },
            final(self).elems() == old(self).elems(),
            final(self).order() == old(self).order(),
    {
        let ghost order = self.order();
        let ghost es = self.elems();
        let mut k: usize = self.tab_order.len();
        while k > 0
            invariant
                order == self.order(),
                es == self.elems(),
                order == old(self).order(),
                es == old(self).elems(),
                self.wf(),
                k <= order.len(),
                forall|m: int| k <= m < order.len() ==> !(hits@.contains(#[trigger] order[m]) && eligible(es, order[m])),
            decreases k,
        {
            k = k - 1;
            let id = self.tab_order[k];
            let mut hit = false;
            let mut j: usize = 0;
            while j < hits.len()
                invariant
                    j <= hits@.len(),
                    hit == exists|q: int| 0 <= q < j && hits@[q] == id,
                decreases hits.len() - j,
            {
                if hits[j] == id {
                    hit = true;
                }
                j = j + 1;
            }
            assert(hit == hits@.contains(id));
            if hit && self.is_eligible(id) {
                self.focus(id);
                assert(order[k as int] == id);
                assert(order.contains(id));
                return Some(id);
            }
        }
        None
    }

    /// Copies of the registered elements.
    pub fn elements(&self) -> (r: Vec<FocusableElement>)
        ensures
            r@ == self.elems(),
    {
        self.elements.clone()
    }

    /// Forget every element and the focus.
    pub fn clear(&mut self)
        ensures
            final(self).wf(),
            final(self).elems().len() == 0,
            final(self).order().len() == 0,
            final(self).history().len() == 0,
            final(self).focused() is None,
    {
        self.elements.clear();
        self.tab_order.clear();
        self.focus_history.clear();
        self.focused_id = None;
    }
}

} // verus!
