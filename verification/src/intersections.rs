//! Ray-shape intersections: an ordered collection with the hit rule.
//!
//! An intersection records the ray parameter and a handle (the index of the
//! shape in its scene) rather than a reference, so that two equal-valued
//! shapes stay distinguishable.  A collection keeps its entries sorted by
//! the ray parameter and caches the hit: the entry with the lowest
//! non-negative parameter.
use vstd::prelude::*;

verus! {

/// One crossing of a ray and a shape: the ray parameter and the handle of
/// the shape within its scene.
#[derive(Debug, Clone, Copy, PartialEq, Eq, Structural)]
pub struct Intersection {
    pub t: i64,
    pub object: usize,
}

impl Intersection {
    /// An intersection from a ray parameter and a shape handle.
    pub fn new(t: i64, object: usize) -> (r: Intersection)
        ensures
            r == (Intersection { t, object }),
    {
        Intersection { t, object }
    }
}

/// `x` inserted into `s` after every entry whose parameter is at most
/// `x.t`; on a sorted sequence this keeps the order and is stable.
pub open spec fn insert_by_t_s(s: Seq<Intersection>, x: Intersection) -> Seq<Intersection>
    decreases s.len(),
{
    if s.len() == 0 {
        seq![x]
    } else if s.last().t <= x.t {
        s.push(x)
    } else {
        insert_by_t_s(s.drop_last(), x).push(s.last())
    }
}

/// The stable insertion sort of `s` by ray parameter.
pub open spec fn sort_by_t_s(s: Seq<Intersection>) -> Seq<Intersection>
    decreases s.len(),
{
    if s.len() == 0 {
        Seq::empty()
    } else {
        insert_by_t_s(sort_by_t_s(s.drop_last()), s.last())
    }
}

/// Whether the sequence is ordered by ray parameter.
pub open spec fn sorted_by_t_s(s: Seq<Intersection>) -> bool {
    forall|i: int, j: int| 0 <= i < j < s.len() ==> s[i].t <= s[j].t
}

/// The index of the first entry with a non-negative parameter.
pub open spec fn hit_index_s(s: Seq<Intersection>) -> Option<int>
    decreases s.len(),
{
    if s.len() == 0 {
        Option::None
    } else if s[0].t >= 0 {
        Option::Some(0int)
    } else {
        match hit_index_s(s.subrange(1, s.len() as int)) {
            Option::None => Option::None,
            Option::Some(i) => Option::Some(i + 1),
        }
    }
}

/// The first entry with a non-negative parameter, if any.
pub open spec fn hit_s(s: Seq<Intersection>) -> Option<Intersection> {
    match hit_index_s(s) {
        Option::None => Option::None,
        Option::Some(i) => Option::Some(s[i]),
    }
}

proof fn lemma_insert_by_t_at(s: Seq<Intersection>, x: Intersection, p: int)
    requires
        0 <= p <= s.len(),
        forall|j: int| p <= j < s.len() ==> s[j].t > x.t,
        p > 0 ==> s[p - 1].t <= x.t,
    ensures
        insert_by_t_s(s, x) == s.insert(p, x),
    decreases s.len(),
{
    if s.len() == 0 {
        assert(insert_by_t_s(s, x) =~= s.insert(0, x));
    } else if s.last().t <= x.t {
        assert(p == s.len());
        assert(s.push(x) =~= s.insert(p, x));
    } else {
        assert(p < s.len());
        lemma_insert_by_t_at(s.drop_last(), x, p);
        assert(insert_by_t_s(s.drop_last(), x).push(s.last()) =~= s.insert(p, x));
    }
}

proof fn lemma_insert_by_t_sorted(s: Seq<Intersection>, x: Intersection)
    requires
        sorted_by_t_s(s),
    ensures
        sorted_by_t_s(insert_by_t_s(s, x)),
        insert_by_t_s(s, x).len() == s.len() + 1,
    decreases s.len(),
{
    if s.len() == 0 {
    } else if s.last().t <= x.t {
    } else {
        assert(sorted_by_t_s(s.drop_last()));
        lemma_insert_by_t_sorted(s.drop_last(), x);
        let r = insert_by_t_s(s.drop_last(), x).push(s.last());
        assert forall|i: int, j: int| 0 <= i < j < r.len() implies r[i].t <= r[j].t by {
            if j < r.len() - 1 {
            } else {
                lemma_insert_by_t_members(s.drop_last(), x, i);
            }
        }
    }
}

proof fn lemma_insert_by_t_members(s: Seq<Intersection>, x: Intersection, i: int)
    requires
        0 <= i < insert_by_t_s(s, x).len(),
    ensures
        insert_by_t_s(s, x)[i] == x || s.contains(insert_by_t_s(s, x)[i]),
    decreases s.len(),
{
    if s.len() == 0 {
    } else if s.last().t <= x.t {
        if i < s.len() {
            assert(s.contains(s[i]));
        }
    } else {
        let inner = insert_by_t_s(s.drop_last(), x);
        if i < inner.len() {
            lemma_insert_by_t_members(s.drop_last(), x, i);
            if inner[i] != x {
                let k = choose|k: int| 0 <= k < s.drop_last().len() && s.drop_last()[k] == inner[i];
                assert(s[k] == inner[i]);
                assert(s.contains(s[k]));
            }
        } else {
            assert(s.contains(s[s.len() - 1]));
        }
    }
}

/// Sorting by parameter yields a sorted sequence.
pub proof fn lemma_sort_by_t_sorted(s: Seq<Intersection>)
    ensures
        sorted_by_t_s(sort_by_t_s(s)),
        sort_by_t_s(s).len() == s.len(),
    decreases s.len(),
{
    if s.len() == 0 {
    } else {
        lemma_sort_by_t_sorted(s.drop_last());
        lemma_insert_by_t_sorted(sort_by_t_s(s.drop_last()), s.last());
    }
}

/// Every entry of the sorted sequence is an entry of the input.
pub proof fn lemma_sort_by_t_members(s: Seq<Intersection>, i: int)
    requires
        0 <= i < sort_by_t_s(s).len(),
    ensures
        s.contains(sort_by_t_s(s)[i]),
    decreases s.len(),
{
    if s.len() == 0 {
    } else {
        let inner = sort_by_t_s(s.drop_last());
        let x = sort_by_t_s(s)[i];
        lemma_insert_by_t_members(inner, s.last(), i);
        if x == s.last() {
            assert(s.contains(s[s.len() - 1]));
        } else {
            let k = choose|k: int| 0 <= k < inner.len() && inner[k] == x;
            lemma_sort_by_t_members(s.drop_last(), k);
            let k2 = choose|k2: int|
                0 <= k2 < s.drop_last().len() && s.drop_last()[k2] == x;
            assert(s[k2] == x);
            assert(s.contains(s[k2]));
        }
    }
}

proof fn lemma_insert_by_t_multiset(s: Seq<Intersection>, x: Intersection)
    ensures
        insert_by_t_s(s, x).to_multiset() =~= s.to_multiset().insert(x),
    decreases s.len(),
{
    broadcast use vstd::seq_lib::group_to_multiset_ensures;

    if s.len() == 0 {
        assert(seq![x] =~= Seq::<Intersection>::empty().push(x));
    } else if s.last().t <= x.t {
    } else {
        lemma_insert_by_t_multiset(s.drop_last(), x);
        assert(s.drop_last().push(s.last()) =~= s);
        assert(insert_by_t_s(s.drop_last(), x).push(s.last()).to_multiset() =~= s.drop_last()
            .to_multiset().insert(x).insert(s.last()));
        assert(s.drop_last().to_multiset().insert(x).insert(s.last()) =~= s.drop_last()
            .to_multiset().insert(s.last()).insert(x));
    }
}

/// Sorting by parameter keeps exactly the entries of the input: the result
/// holds the same multiset of intersections.
pub proof fn lemma_sort_by_t_multiset(s: Seq<Intersection>)
    ensures
        sort_by_t_s(s).to_multiset() =~= s.to_multiset(),
    decreases s.len(),
{
    broadcast use vstd::seq_lib::group_to_multiset_ensures;

    if s.len() == 0 {
    } else {
        lemma_sort_by_t_multiset(s.drop_last());
        lemma_insert_by_t_multiset(sort_by_t_s(s.drop_last()), s.last());
        assert(s.drop_last().push(s.last()) =~= s);
        assert(s.drop_last().to_multiset().insert(s.last()) =~= s.to_multiset());
    }
}

proof fn lemma_hit_index_char(s: Seq<Intersection>)
    ensures
        match hit_index_s(s) {
            Option::None => forall|j: int| 0 <= j < s.len() ==> s[j].t < 0,
            Option::Some(i) => 0 <= i < s.len() && s[i].t >= 0 && forall|j: int|
                0 <= j < i ==> s[j].t < 0,
        },
    decreases s.len(),
{
    if s.len() == 0 {
    } else if s[0].t >= 0 {
    } else {
        let rest = s.subrange(1, s.len() as int);
        lemma_hit_index_char(rest);
        match hit_index_s(rest) {
            Option::None => {
                assert forall|j: int| 0 <= j < s.len() implies s[j].t < 0 by {
                    if j > 0 {
                        assert(s[j] == rest[j - 1]);
                    }
                }
            },
            Option::Some(i) => {
                assert(s[i + 1] == rest[i]);
                assert forall|j: int| 0 <= j < i + 1 implies s[j].t < 0 by {
                    if j > 0 {
                        assert(s[j] == rest[j - 1]);
                    }
                }
            },
        }
    }
}

/// The hit rule: on a sorted sequence the hit is an entry with the lowest
/// non-negative parameter, and there is none exactly when every parameter
/// is negative.
pub proof fn lemma_hit_lowest_nonneg(s: Seq<Intersection>)
    requires
        sorted_by_t_s(s),
    ensures
        match hit_s(s) {
            Option::None => forall|j: int| 0 <= j < s.len() ==> s[j].t < 0,
            Option::Some(h) => h.t >= 0 && s.contains(h) && forall|j: int|
                0 <= j < s.len() && s[j].t >= 0 ==> h.t <= s[j].t,
        },
{
    lemma_hit_index_char(s);
    match hit_index_s(s) {
        Option::None => {},
        Option::Some(i) => {
            assert(s.contains(s[i]));
            assert forall|j: int| 0 <= j < s.len() && s[j].t >= 0 implies s[i].t <= s[j].t by {
                if j < i {
                    assert(s[j].t < 0);
                }
            }
        },
    }
}

fn insert_sorted_vec(v: &mut Vec<Intersection>, x: Intersection)
    ensures
        final(v)@ == insert_by_t_s(old(v)@, x),
{
    let ghost orig = v@;
    let mut p: usize = v.len();
    while p > 0 && v[p - 1].t > x.t
        invariant
            p <= v.len(),
            v@ == orig,
            forall|j: int| p <= j < v@.len() ==> v@[j].t > x.t,
        decreases p,
    {
        p = p - 1;
    }
    v.insert(p, x);
    proof {
        lemma_insert_by_t_at(orig, x, p as int);
    }
}

fn sort_intersections(v: &Vec<Intersection>) -> (r: Vec<Intersection>)
    ensures
        r@ == sort_by_t_s(v@),
{
    let mut out: Vec<Intersection> = Vec::new();
    let mut idx: usize = 0;
    while idx < v.len()
        invariant
            idx <= v.len(),
            out@ == sort_by_t_s(v@.take(idx as int)),
        decreases v.len() - idx,
    {
        insert_sorted_vec(&mut out, v[idx]);
        proof {
            assert(v@.take(idx as int + 1).drop_last() =~= v@.take(idx as int));
            assert(v@.take(idx as int + 1).last() == v@[idx as int]);
        }
        idx = idx + 1;
    }
    proof {
        assert(v@.take(v@.len() as int) =~= v@);
    }
    out
}

fn find_hit(v: &Vec<Intersection>) -> (r: Option<usize>)
    ensures
        match hit_index_s(v@) {
            Option::None => r is None,
            Option::Some(i) => r == Option::Some(i as usize),
        },
{
    let mut i: usize = 0;
    while i < v.len() && v[i].t < 0
        invariant
            i <= v.len(),
            forall|j: int| 0 <= j < i ==> v@[j].t < 0,
        decreases v.len() - i,
    {
        i = i + 1;
    }
    proof {
        lemma_hit_index_char(v@);
    }
    if i < v.len() {
        Some(i)
    } else {
        None
    }
}

/// A collection of intersections, sorted by ray parameter, with the hit
/// cached.
#[derive(Debug)]
pub struct Intersections {
    inner: Vec<Intersection>,
    hit: Option<usize>,
}

impl Intersections {
    /// The entries, in ascending parameter order.
    pub closed spec fn seq(&self) -> Seq<Intersection> {
        self.inner@
    }

    #[verifier::type_invariant]
    spec fn inv(self) -> bool {
        &&& sorted_by_t_s(self.inner@)
        &&& match hit_index_s(self.inner@) {
            Option::None => self.hit is None,
            Option::Some(i) => self.hit == Option::Some(i as usize),
        }
    }

    /// A collection from any order of intersections: they are sorted by
    /// parameter and the hit is the first non-negative entry of the result.
    pub fn new(intersections: Vec<Intersection>) -> (r: Intersections)
        ensures
            r.seq() == sort_by_t_s(intersections@),
    {
        let sorted = sort_intersections(&intersections);
        let hit = find_hit(&sorted);
        proof {
            lemma_sort_by_t_sorted(intersections@);
        }
        Intersections { inner: sorted, hit }
    }

    /// How many intersections there are.
    pub fn len(&self) -> (r: usize)
        ensures
            r == self.seq().len(),
    {
        self.inner.len()
    }

    /// Whether there are no intersections.
    pub fn is_empty(&self) -> (r: bool)
        ensures
            r == (self.seq().len() == 0),
    {
        self.inner.len() == 0
    }

    /// The entry at `index` in ascending parameter order.
    pub fn at(&self, index: usize) -> (r: Intersection)
        requires
            index < self.seq().len(),
        ensures
            r == self.seq()[index as int],
    {
        self.inner[index]
    }

    /// The hit: the entry with the lowest non-negative parameter, or `None`
    /// when every parameter is negative.
    pub fn hit(&self) -> (r: Option<Intersection>)
        ensures
            r == hit_s(self.seq()),
            match r {
                Option::None => forall|j: int| 0 <= j < self.seq().len() ==> self.seq()[j].t < 0,
                Option::Some(h) => h.t >= 0 && self.seq().contains(h) && forall|j: int|
                    0 <= j < self.seq().len() && self.seq()[j].t >= 0 ==> h.t <= self.seq()[j].t,
            },
    {
        proof {
            use_type_invariant(&*self);
            lemma_hit_index_char(self.inner@);
            lemma_hit_lowest_nonneg(self.inner@);
        }
        let _n = self.inner.len();
        match self.hit {
            Some(h) => Some(self.inner[h]),
            None => None,
        }
    }
}

} // verus!
