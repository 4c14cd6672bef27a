//! The wallpaper queue: an ordered list of paths and a current position.

use vstd::arithmetic::div_mod::{lemma_add_mod_noop, lemma_small_mod, lemma_mod_bound};
use rand::seq::SliceRandom;
use vstd::prelude::*;
use vstd::string::*;
use vstd::math::min;
use vstd::multiset::Multiset;
use vstd::seq_lib::{to_multiset_build, to_multiset_insert};

use crate::text::{decimal, decimal_string, in_category_dir, is_in_category_dir, lemma_lex_total, lemma_lex_trans, lex_le,
    text_le};

verus! {

/// The position after `index` in a cyclic list of `qlen` entries.
pub fn increment_index(index: usize, qlen: usize) -> (r: usize)
    requires
        qlen > 0,
    ensures
        r as int == (index as int + 1) % (qlen as int),
{
    let m = index % qlen;
    proof {
        let n = qlen as int;
        lemma_mod_bound(index as int, n);
        lemma_mod_bound(index as int + 1, n);
        if n > 1 {
            lemma_add_mod_noop(index as int, 1, n);
            lemma_small_mod(1, n as nat);
            if m + 1 < qlen {
                lemma_small_mod((m + 1) as nat, n as nat);
            } else {
                vstd::arithmetic::div_mod::lemma_mod_self_0(n);
            }
        }
    }
    if m + 1 == qlen {
        0
    } else {
        m + 1
    }
}

/// The position before `index` in a cyclic list of `qlen` entries.
pub fn decrement_index(index: usize, qlen: usize) -> (r: usize)
    requires
        qlen > 0,
    ensures
        r as int == (index as int + qlen as int - 1) % (qlen as int),
{
    let m = index % qlen;
    proof {
        let n = qlen as int;
        lemma_add_mod_noop(index as int, n - 1, n);
        lemma_small_mod((n - 1) as nat, n as nat);
        lemma_mod_bound(index as int, n);
        if m > 0 {
            assert((m + n - 1) % n == m - 1) by {
                vstd::arithmetic::div_mod::lemma_mod_sub_multiples_vanish(m - 1 + n, n);
                lemma_small_mod((m - 1) as nat, n as nat);
            }
        }
    }
    if m == 0 {
        qlen - 1
    } else {
        m - 1
    }
}

/// The position `k` steps away from `i` in a cyclic list of `n` entries, for `1 <= k <= n`.
pub open spec fn pos_at(i: int, n: int, k: int, forward: bool) -> int {
    if forward {
        if i + k < n { i + k } else { i + k - n }
    } else {
        if i - k >= 0 { i - k } else { i - k + n }
    }
}

/// The least number of steps `k >= from`, at most `alive.len()`, from `i` in the
/// given direction that reaches a live entry; `alive.len() + 1` when there is none.
pub open spec fn first_alive(alive: Seq<bool>, i: int, forward: bool, from: int) -> int
    decreases alive.len() + 1 - from,
{
    if from < 1 || from > alive.len() {
        alive.len() + 1int
    } else if alive[pos_at(i, alive.len() as int, from, forward)] {
        from
    } else {
        first_alive(alive, i, forward, from + 1)
    }
}

/// The entries and position after moving from `i` to the nearest live entry in
/// the given direction, dropping the dead entries passed over on the way; the
/// flag says whether a live entry was found. When none is, the list is empty.
pub open spec fn advanced(q: Seq<String>, i: int, alive: Seq<bool>, forward: bool) -> (Seq<
    String,
>, int, bool) {
    let n = q.len() as int;
    let k = first_alive(alive, i, forward, 1);
    if n == 0 || k > n {
        (Seq::empty(), 0, false)
    } else if forward {
        if i + k < n {
            (q.subrange(0, i + 1) + q.subrange(i + k, n), i + 1, true)
        } else {
            (q.subrange(i + k - n, i + 1), 0, true)
        }
    } else {
        if i - k >= 0 {
            (q.subrange(0, i - k + 1) + q.subrange(i, n), i - k, true)
        } else {
            (q.subrange(i, i - k + n + 1), i - k + n - i, true)
        }
    }
}

fn step_pos(i: usize, n: usize, k: usize, forward: bool) -> (p: usize)
    requires
        i < n,
        1 <= k <= n,
    ensures
        p == pos_at(i as int, n as int, k as int, forward),
        p < n,
{
    if forward {
        if k <= n - 1 - i { i + k } else { k - (n - i) }
    } else {
        if k <= i { i - k } else { n - (k - i) }
    }
}

/// One entry met while walking the wallpaper tree.
#[derive(Clone, Debug)]
pub struct WalkEntry {
    pub path: String,
    pub is_file: bool,
}

/// The paths of a walk that take part in the rotation, in walk order: the
/// files outside the category directories of `root`.
pub open spec fn rotation_paths(root: Seq<char>, walk: Seq<WalkEntry>) -> Seq<Seq<char>>
    decreases walk.len(),
{
    if walk.len() == 0 {
        Seq::empty()
    } else {
        let rest = rotation_paths(root, walk.drop_last());
        let e = walk.last();
        if e.is_file && !in_category_dir(root, e.path@) {
            rest.push(e.path@)
        } else {
            rest
        }
    }
}

/// The wallpaper paths in rotation order and the current position.
#[derive(Debug)]
pub struct Queue {
    queue: Vec<String>,
    index: usize,
}

impl Queue {
    /// The entries, in order.
    pub closed spec fn entries(&self) -> Seq<String> {
        self.queue@
    }

    /// The current position.
    pub closed spec fn position(&self) -> int {
        self.index as int
    }

    /// The position lies inside the list whenever the list is not empty.
    pub open spec fn wf(&self) -> bool {
        self.entries().len() > 0 ==> 0 <= self.position() < self.entries().len()
    }

    /// The queue of a walk of the wallpaper tree under `root`, positioned at
    /// the first entry.
    pub fn new(root: &str, walk: &Vec<WalkEntry>) -> (r: Queue)
        ensures
            r.wf(),
            r.position() == 0,
            r.entries().map_values(|p: String| p@) == rotation_paths(root@, walk@),
    {
        let mut out: Vec<String> = Vec::new();
        let mut i: usize = 0;
        assert(walk@.subrange(0, 0) =~= Seq::<WalkEntry>::empty());
        assert(out@.map_values(|p: String| p@) =~= Seq::<Seq<char>>::empty());
        while i < walk.len()
            invariant
                i <= walk@.len(),
                out@.map_values(|p: String| p@) == rotation_paths(root@, walk@.subrange(0, i as int)),
            decreases walk@.len() - i,
        {
            let e = &walk[i];
            assert(walk@.subrange(0, i + 1).drop_last() =~= walk@.subrange(0, i as int));
            assert(walk@.subrange(0, i + 1).last() == walk@[i as int]);
            if e.is_file && !is_in_category_dir(root, e.path.as_str()) {
                let ghost before = out@;
                out.push(e.path.clone());
                assert(out@.map_values(|p: String| p@) =~= before.map_values(|p: String| p@).push(
                    e.path@,
                ));
            }
            i = i + 1;
        }
        assert(walk@.subrange(0, walk@.len() as int) =~= walk@);
        Queue { queue: out, index: 0 }
    }

    /// A queue of the given paths, positioned at the first.
    pub fn from_paths(paths: Vec<String>) -> (r: Queue)
        ensures
            r.wf(),
            r.entries() == paths@,
            r.position() == 0,
    {
        Queue { queue: paths, index: 0 }
    }

    /// The number of entries.
    pub fn len(&self) -> (r: usize)
        ensures
            r == self.entries().len(),
    {
        self.queue.len()
    }

    pub fn is_empty(&self) -> (r: bool)
        ensures
            r <==> self.entries().len() == 0,
    {
        self.queue.len() == 0
    }

    /// The current position.
    pub fn index(&self) -> (r: usize)
        ensures
            r == self.position(),
    {
        self.index
    }

    /// The paths, in order.
    pub fn paths(&self) -> (r: &Vec<String>)
        ensures
            r@ == self.entries(),
    {
        &self.queue
    }

    /// The entry at the current position, if the queue is not empty.
    pub fn get_current(&self) -> (r: Option<&String>)
        requires
            self.wf(),
        ensures
            self.entries().len() == 0 ==> r is None,
            self.entries().len() > 0 ==> r == Some(&self.entries()[self.position()]),
    {
        if self.index < self.queue.len() {
            Some(&self.queue[self.index])
        } else {
            None
        }
    }

    /// Steps to the next position, wrapping around; an empty queue is left as it is.
    pub fn next(&mut self)
        requires
            old(self).wf(),
        ensures
            final(self).wf(),
            final(self).entries() == old(self).entries(),
            old(self).entries().len() > 0 ==> final(self).position() == (old(self).position()
                + 1) % (old(self).entries().len() as int),
            old(self).entries().len() == 0 ==> final(self).position() == old(self).position(),
    {
        if self.queue.len() > 0 {
            self.index = increment_index(self.index, self.queue.len());
        }
    }

    /// Steps to the previous position, wrapping around; an empty queue is left as it is.
    pub fn previous(&mut self)
        requires
            old(self).wf(),
        ensures
            final(self).wf(),
            final(self).entries() == old(self).entries(),
            old(self).entries().len() > 0 ==> final(self).position() == (old(self).position()
                + old(self).entries().len() - 1) % (old(self).entries().len() as int),
            old(self).entries().len() == 0 ==> final(self).position() == old(self).position(),
    {
        if self.queue.len() > 0 {
            self.index = decrement_index(self.index, self.queue.len());
        }
    }

    /// Moves to the nearest live entry in the given direction, `alive[p]`
    /// telling whether the file at position `p` still exists. The dead entries
    /// passed over are dropped from the queue; the current entry is kept unless
    /// no entry is alive, in which case the queue is emptied. Returns whether a
    /// live entry was found.
    pub fn advance(&mut self, forward: bool, alive: &Vec<bool>) -> (r: bool)
        requires
            old(self).wf(),
            alive@.len() == old(self).entries().len(),
        ensures
            final(self).wf(),
            advanced(old(self).entries(), old(self).position(), alive@, forward) == (
                final(self).entries(),
                final(self).position(),
                r,
            ),
    {
        let n = self.queue.len();
        if n == 0 {
            self.index = 0;
            return false;
        }
        let i = self.index;
        let mut j: usize = 0;
        while j < n && !alive[step_pos(i, n, j + 1, forward)]
            invariant
                n == alive@.len(),
                i < n,
                0 <= j <= n,
                first_alive(alive@, i as int, forward, 1) == first_alive(
                    alive@,
                    i as int,
                    forward,
                    j + 1,
                ),
            decreases n - j,
        {
            j = j + 1;
        }
        if j == n {
            self.queue.clear();
            self.index = 0;
            return false;
        }
        let k = j + 1;
        if forward {
            if k <= n - 1 - i {
                let mut tail = self.queue.split_off(i + k);
                self.queue.truncate(i + 1);
                self.queue.append(&mut tail);
                self.index = i + 1;
            } else {
                self.queue.truncate(i + 1);
                let rest = self.queue.split_off(k - (n - i));
                self.queue = rest;
                self.index = 0;
            }
        } else {
            if k <= i {
                let mut tail = self.queue.split_off(i);
                self.queue.truncate(i - k + 1);
                self.queue.append(&mut tail);
                self.index = i - k;
            } else {
                let t = n - (k - i);
                self.queue.truncate(t + 1);
                let rest = self.queue.split_off(i);
                self.queue = rest;
                self.index = t - i;
            }
        }
        proof {
            let q = old(self).entries();
            let a = advanced(q, i as int, alive@, forward);
            assert(self.queue@ =~= a.0);
        }
        true
    }

    /// Drops the entries whose file no longer exists (`alive[p]` is false),
    /// keeping the order of the rest, and moves the position back into range.
    /// Returns whether anything was dropped.
    pub fn cleanup_invalid_files(&mut self, alive: &Vec<bool>) -> (r: bool)
        requires
            old(self).wf(),
            alive@.len() == old(self).entries().len(),
        ensures
            final(self).wf(),
            final(self).entries() == kept(old(self).entries(), alive@),
            final(self).entries().len() > 0 ==> final(self).position() == min(
                old(self).position(),
                final(self).entries().len() - 1,
            ),
            r <==> final(self).entries().len() < old(self).entries().len(),
    {
        let n = self.queue.len();
        let mut i: usize = n;
        let ghost q = self.queue@;
        let ghost a = alive@;
        assert(q.subrange(n as int, n as int) =~= Seq::<String>::empty());
        assert(q.subrange(0, n as int) =~= q);
        while i > 0
            invariant
                n == q.len(),
                a.len() == n,
                a == alive@,
                i <= n,
                self.index == old(self).index,
                self.queue@ == q.subrange(0, i as int) + kept(
                    q.subrange(i as int, n as int),
                    a.subrange(i as int, n as int),
                ),
            decreases i,
        {
            let ghost before = self.queue@;
            proof {
                let qs = q.subrange(i - 1, n as int);
                let as_ = a.subrange(i - 1, n as int);
                assert(qs.drop_first() =~= q.subrange(i as int, n as int));
                assert(as_.drop_first() =~= a.subrange(i as int, n as int));
                assert(qs[0] == q[i - 1]);
                assert(as_[0] == a[i - 1]);
            }
            if !alive[i - 1] {
                self.queue.remove(i - 1);
                assert(self.queue@ =~= q.subrange(0, i - 1) + kept(
                    q.subrange(i - 1, n as int),
                    a.subrange(i - 1, n as int),
                ));
            } else {
                assert(before =~= q.subrange(0, i - 1) + kept(
                    q.subrange(i - 1, n as int),
                    a.subrange(i - 1, n as int),
                ));
            }
            i = i - 1;
        }
        assert(q.subrange(0, n as int) =~= q);
        assert(a.subrange(0, n as int) =~= a);
        assert(self.queue@ =~= kept(q, a));
        proof {
            lemma_kept_len(q, a);
        }
        let len = self.queue.len();
        if len > 0 && self.index > len - 1 {
            self.index = len - 1;
        }
        len < n
    }

    /// Puts the entries in a random order and returns to the first position.
    pub fn shuffle(&mut self)
        requires
            old(self).wf(),
        ensures
            final(self).wf(),
            final(self).entries().to_multiset() == old(self).entries().to_multiset(),
            final(self).position() == 0,
    {
        shuffle_in_place(&mut self.queue);
        proof {
            lemma_multiset_len(old(self).queue@, self.queue@);
        }
        self.index = 0;
    }

    /// Puts the entries in lexicographic order of their text and returns to the
    /// first position.
    pub fn sort(&mut self)
        requires
            old(self).wf(),
        ensures
            final(self).wf(),
            sorted_paths(final(self).entries()),
            final(self).entries().to_multiset() == old(self).entries().to_multiset(),
            final(self).position() == 0,
    {
        broadcast use vstd::seq_lib::group_seq_properties, vstd::multiset::group_multiset_axioms;

        let mut sorted: Vec<String> = Vec::new();
        let ghost all = self.queue@.to_multiset();
        assert(sorted@.to_multiset() =~= Multiset::empty());
        assert(sorted@.to_multiset().add(self.queue@.to_multiset()) =~= all);
        while self.queue.len() > 0
            invariant
                sorted_paths(sorted@),
                sorted@.to_multiset().add(self.queue@.to_multiset()) == all,
                all == old(self).queue@.to_multiset(),
            decreases self.queue@.len(),
        {
            let ghost rest = self.queue@;
            let x = match self.queue.pop() {
                Some(x) => x,
                None => { return; },
            };
            proof {
                assert(rest =~= self.queue@.push(x));
                to_multiset_build(self.queue@, x);
            }
            let mut p: usize = 0;
            while p < sorted.len() && text_le(sorted[p].as_str(), x.as_str())
                invariant
                    p <= sorted@.len(),
                    forall|j: int| 0 <= j < p ==> lex_le(#[trigger] sorted@[j]@, x@),
                decreases sorted@.len() - p,
            {
                p = p + 1;
            }
            let ghost old_sorted = sorted@;
            sorted.insert(p, x);
            proof {
                to_multiset_insert(old_sorted, p as int, x);
                assert(sorted@.to_multiset().add(self.queue@.to_multiset()) =~= all);
                if p < old_sorted.len() {
                    lemma_lex_total(old_sorted[p as int]@, x@);
                    assert forall|w: int| p <= w < old_sorted.len() implies lex_le(
                        x@,
                        #[trigger] old_sorted[w]@,
                    ) by {
                        if w > p {
                            lemma_lex_trans(x@, old_sorted[p as int]@, old_sorted[w]@);
                        }
                    }
                }
                assert forall|u: int, v: int| 0 <= u < v < sorted@.len() implies lex_le(
                    #[trigger] sorted@[u]@,
                    #[trigger] sorted@[v]@,
                ) by {
                    if v < p {
                    } else if v == p {
                    } else if u < p {
                        assert(lex_le(x@, old_sorted[v - 1]@));
                        lemma_lex_trans(old_sorted[u]@, x@, old_sorted[v - 1]@);
                    } else if u == p {
                        assert(lex_le(x@, old_sorted[v - 1]@));
                    } else {
                    }
                }
            }
        }
        proof {
            assert(self.queue@ =~= Seq::<String>::empty());
            assert(self.queue@.to_multiset() =~= Multiset::empty());
            assert(sorted@.to_multiset() =~= all);
            lemma_multiset_len(old(self).queue@, sorted@);
        }
        self.queue = sorted;
        self.index = 0;
    }
}

/// The entries whose flag is set, in order.
pub open spec fn kept(q: Seq<String>, alive: Seq<bool>) -> Seq<String>
    decreases q.len(),
{
    if q.len() == 0 {
        Seq::empty()
    } else {
        (if alive[0] { seq![q[0]] } else { Seq::empty() }) + kept(q.drop_first(), alive.drop_first())
    }
}

proof fn lemma_kept_len(q: Seq<String>, alive: Seq<bool>)
    requires
        alive.len() == q.len(),
    ensures
        kept(q, alive).len() <= q.len(),
        kept(q, alive).len() == q.len() <==> forall|p: int| 0 <= p < q.len() ==> alive[p],
    decreases q.len(),
{
    if q.len() > 0 {
        lemma_kept_len(q.drop_first(), alive.drop_first());
        if forall|p: int| 0 <= p < q.len() ==> alive[p] {
            assert forall|p: int| 0 <= p < q.len() - 1 implies alive.drop_first()[p] by {
                assert(alive[p + 1]);
            }
        }
        if kept(q, alive).len() == q.len() {
            assert forall|p: int| 0 <= p < q.len() implies alive[p] by {
                if p > 0 {
                    assert(alive.drop_first()[p - 1]);
                }
            }
        }
    }
}

proof fn lemma_multiset_len(a: Seq<String>, b: Seq<String>)
    requires
        a.to_multiset() == b.to_multiset(),
    ensures
        a.len() == b.len(),
{
    a.to_multiset_ensures();
    b.to_multiset_ensures();
}

/// Every entry comes no later than the ones after it, in lexicographic order.
pub open spec fn sorted_paths(s: Seq<String>) -> bool {
    forall|u: int, v: int| 0 <= u < v < s.len() ==> lex_le(#[trigger] s[u]@, #[trigger] s[v]@)
}

/// Relies on rand::seq::SliceRandom::shuffle, with the thread-local generator:
/// it reorders the elements in place and keeps every one of them.
#[verifier::external_body]
fn shuffle_in_place(v: &mut Vec<String>)
    ensures
        final(v)@.to_multiset() == old(v)@.to_multiset(),
{
    v.shuffle(&mut rand::rng());
}

/// Moving forward and then backward, with no entry dropped by either move,
/// returns to the starting position with the entries unchanged.
pub proof fn lemma_forward_then_backward(q: Seq<String>, i: int, a1: Seq<bool>, a2: Seq<bool>)
    requires
        0 <= i < q.len(),
        a1.len() == q.len(),
        a2.len() == advanced(q, i, a1, true).0.len(),
        advanced(advanced(q, i, a1, true).0, advanced(q, i, a1, true).1, a2, false).0.len()
            == q.len(),
    ensures
        advanced(advanced(q, i, a1, true).0, advanced(q, i, a1, true).1, a2, false).0 == q,
        advanced(advanced(q, i, a1, true).0, advanced(q, i, a1, true).1, a2, false).1 == i,
{
    let n = q.len() as int;
    let s1 = advanced(q, i, a1, true);
    lemma_first_alive_range(a1, i, true, 1);
    let k1 = first_alive(a1, i, true, 1);
    assert(s1.0.len() <= n);
    if s1.0.len() < n {
        lemma_advanced_shrinks(s1.0, s1.1, a2, false);
        assert(false);
    }
    assert(k1 == 1);
    assert(s1.0 =~= q);
    lemma_first_alive_range(a2, s1.1, false, 1);
    let k2 = first_alive(a2, s1.1, false, 1);
    let s2 = advanced(s1.0, s1.1, a2, false);
    assert(k2 == 1);
    assert(s2.0 =~= q);
}

proof fn lemma_first_alive_range(alive: Seq<bool>, i: int, forward: bool, from: int)
    requires
        1 <= from,
    ensures
        (from <= first_alive(alive, i, forward, from) <= alive.len()) || first_alive(
            alive,
            i,
            forward,
            from,
        ) == alive.len() + 1,
    decreases alive.len() + 1 - from,
{
    if from <= alive.len() && !alive[pos_at(i, alive.len() as int, from, forward)] {
        lemma_first_alive_range(alive, i, forward, from + 1);
    }
}

proof fn lemma_advanced_shrinks(q: Seq<String>, i: int, alive: Seq<bool>, forward: bool)
    requires
        q.len() > 0 ==> 0 <= i < q.len(),
    ensures
        advanced(q, i, alive, forward).0.len() <= q.len(),
{
    lemma_first_alive_range(alive, i, forward, 1);
}

/// One line per entry, from `from` on: its position, ` - `, its path.
pub open spec fn listing_from(q: Seq<String>, from: nat) -> Seq<char>
    decreases q.len() - from,
{
    if from >= q.len() {
        Seq::empty()
    } else {
        decimal(from) + " - "@ + q[from as int]@ + "\n"@ + listing_from(q, from + 1)
    }
}

impl Queue {
    /// The queue as text: for each entry a line with its position and path.
    pub fn listing(&self) -> (r: String)
        ensures
            r@ == listing_from(self.entries(), 0),
    {
        let n = self.queue.len();
        let mut i: usize = n;
        let mut out = String::from_str("");
        proof {
            reveal_strlit("");
        }
        assert(out@ =~= listing_from(self.queue@, n as nat));
        while i > 0
            invariant
                i <= n,
                n == self.queue@.len(),
                out@ == listing_from(self.queue@, i as nat),
            decreases i,
        {
            i = i - 1;
            let line = decimal_string(i as u64).concat(" - ").concat(self.queue[i].as_str()).concat(
                "\n",
            );
            out = line.concat(out.as_str());
        }
        out
    }
}

} // verus!
