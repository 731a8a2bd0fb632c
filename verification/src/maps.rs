//! Insertion-ordered maps and sets.
use crate::text::same_text;
use vstd::prelude::*;

verus! {

/// A key that can be compared with a borrowed form of itself.
pub trait MapKey: DeepView {
    type Probe: ?Sized;

    /// The key that a probe asks for.
    spec fn probe(p: &Self::Probe) -> <Self as DeepView>::V;

    fn matches(&self, p: &Self::Probe) -> (r: bool)
        ensures
            r == (self.deep_view() == Self::probe(p)),
    ;

    fn as_probe(&self) -> (p: &Self::Probe)
        ensures
            Self::probe(p) == self.deep_view(),
    ;
}

impl MapKey for String {
    type Probe = str;

    open spec fn probe(p: &str) -> Seq<char> {
        p@
    }

    fn matches(&self, p: &str) -> (r: bool) {
        same_text(self.as_str(), p)
    }

    fn as_probe(&self) -> (p: &str) {
        self.as_str()
    }
}

/// A map that keeps its keys in the order of their first insertion.
#[derive(Debug)]
pub struct KeyMap<K, V> {
    entries: Vec<(K, V)>,
}

/// The order of the keys of `m` after `k` was inserted.
pub open spec fn order_with<K, V>(m: Map<K, V>, order: Seq<K>, k: K) -> Seq<K> {
    if m.contains_key(k) {
        order
    } else {
        order.push(k)
    }
}

/// `order` without `k`.
pub open spec fn without<K>(order: Seq<K>, k: K) -> Seq<K>
    decreases order.len(),
{
    if order.len() == 0 {
        order
    } else if order.last() == k {
        without(order.drop_last(), k)
    } else {
        without(order.drop_last(), k).push(order.last())
    }
}

proof fn without_absent<K>(order: Seq<K>, k: K)
    requires
        !order.contains(k),
    ensures
        without(order, k) == order,
    decreases order.len(),
{
    if order.len() > 0 {
        let init = order.drop_last();
        assert forall|j: int| 0 <= j < init.len() implies init[j] != k by {
            assert(init[j] == order[j]);
        }
        assert(order[order.len() - 1] != k);
        without_absent(init, k);
        assert(init.push(order.last()) =~= order);
    }
}

proof fn without_removed<K>(order: Seq<K>, i: int)
    requires
        0 <= i < order.len(),
    ensures
        without(order.remove(i), order[i]) == without(order, order[i]),
    decreases order.len(),
{
    let k = order[i];
    if i < order.len() - 1 {
        without_removed(order.drop_last(), i);
        assert(order.remove(i).drop_last() =~= order.drop_last().remove(i));
        assert(order.remove(i).last() == order.last());
    } else {
        assert(order.remove(i) =~= order.drop_last());
    }
}

/// A map keyed by names.
pub type NameMap<V> = KeyMap<String, V>;

/// The map that a list of entries stands for: a later entry wins.
pub open spec fn map_of<K: DeepView, V: DeepView>(entries: Seq<(K, V)>) -> Map<
    <K as DeepView>::V,
    <V as DeepView>::V,
>
    decreases entries.len(),
{
    if entries.len() == 0 {
        Map::empty()
    } else {
        map_of(entries.drop_last()).insert(
            entries.last().0.deep_view(),
            entries.last().1.deep_view(),
        )
    }
}

proof fn map_of_absent<K: DeepView, V: DeepView>(entries: Seq<(K, V)>, k: <K as DeepView>::V)
    requires
        forall|i: int| 0 <= i < entries.len() ==> entries[i].0.deep_view() != k,
    ensures
        !map_of(entries).contains_key(k),
    decreases entries.len(),
{
    if entries.len() > 0 {
        map_of_absent(entries.drop_last(), k);
    }
}

proof fn map_of_last<K: DeepView, V: DeepView>(
    entries: Seq<(K, V)>,
    k: <K as DeepView>::V,
    at: int,
)
    requires
        0 <= at < entries.len(),
        entries[at].0.deep_view() == k,
        forall|i: int| at < i < entries.len() ==> entries[i].0.deep_view() != k,
    ensures
        map_of(entries).contains_key(k),
        map_of(entries)[k] == entries[at].1.deep_view(),
    decreases entries.len(),
{
    if at < entries.len() - 1 {
        map_of_last(entries.drop_last(), k, at);
    }
}

proof fn map_of_replaced<K: DeepView, V: DeepView>(entries: Seq<(K, V)>, at: int, e: (K, V))
    requires
        0 <= at < entries.len(),
        entries[at].0.deep_view() == e.0.deep_view(),
        forall|i: int|
            at < i < entries.len() ==> entries[i].0.deep_view() != e.0.deep_view(),
    ensures
        map_of(entries.update(at, e)) == map_of(entries).insert(
            e.0.deep_view(),
            e.1.deep_view(),
        ),
    decreases entries.len(),
{
    let after = entries.update(at, e);
    if at < entries.len() - 1 {
        map_of_replaced(entries.drop_last(), at, e);
        assert(after.drop_last() =~= entries.drop_last().update(at, e));
    } else {
        assert(after.drop_last() =~= entries.drop_last());
    }
    assert(map_of(after) =~= map_of(entries).insert(e.0.deep_view(), e.1.deep_view()));
}

proof fn map_of_removed<K: DeepView, V: DeepView>(entries: Seq<(K, V)>, at: int)
    requires
        0 <= at < entries.len(),
    ensures
        map_of(entries.remove(at)).remove(entries[at].0.deep_view()) == map_of(entries).remove(
            entries[at].0.deep_view(),
        ),
    decreases entries.len(),
{
    let k = entries[at].0.deep_view();
    let after = entries.remove(at);
    if at < entries.len() - 1 {
        map_of_removed(entries.drop_last(), at);
        assert(after.drop_last() =~= entries.drop_last().remove(at));
        assert(after.last() == entries.last());
        let e = entries.last();
        let x = map_of(after.drop_last());
        let y = map_of(entries.drop_last());
        assert(x.remove(k) == y.remove(k));
        let xe = x.insert(e.0.deep_view(), e.1.deep_view());
        let ye = y.insert(e.0.deep_view(), e.1.deep_view());
        assert(xe.remove(k) =~= if e.0.deep_view() == k {
            x.remove(k)
        } else {
            x.remove(k).insert(e.0.deep_view(), e.1.deep_view())
        });
        assert(ye.remove(k) =~= if e.0.deep_view() == k {
            y.remove(k)
        } else {
            y.remove(k).insert(e.0.deep_view(), e.1.deep_view())
        });
    } else {
        assert(after =~= entries.drop_last());
        assert(map_of(after).remove(k) =~= map_of(entries).remove(k));
    }
}

proof fn map_of_finite<K: DeepView, V: DeepView>(entries: Seq<(K, V)>)
    ensures
        map_of(entries).dom().finite(),
    decreases entries.len(),
{
    if entries.len() > 0 {
        map_of_finite(entries.drop_last());
    }
}

impl<K: DeepView, V: DeepView> View for KeyMap<K, V> {
    type V = Map<<K as DeepView>::V, <V as DeepView>::V>;

    closed spec fn view(&self) -> Map<<K as DeepView>::V, <V as DeepView>::V> {
        map_of(self.entries@)
    }
}

impl<K: DeepView, V: DeepView> DeepView for KeyMap<K, V> {
    type V = Map<<K as DeepView>::V, <V as DeepView>::V>;

    open spec fn deep_view(&self) -> Map<<K as DeepView>::V, <V as DeepView>::V> {
        self@
    }
}

impl<K: MapKey, V: DeepView> KeyMap<K, V> {
    pub fn new() -> (r: Self)
        ensures
            r@ == Map::<<K as DeepView>::V, <V as DeepView>::V>::empty(),
            r.order() == Seq::<<K as DeepView>::V>::empty(),
    {
        let r = KeyMap { entries: Vec::new() };
        assert(r.order() =~= Seq::<<K as DeepView>::V>::empty());
        r
    }

    /// Position of the entry for `p`, if there is one.
    fn position(&self, p: &K::Probe) -> (r: Option<usize>)
        ensures
            match r {
                Some(i) => {
                    &&& i < self.entries@.len()
                    &&& self.entries@[i as int].0.deep_view() == K::probe(p)
                    &&& forall|j: int|
                        i < j < self.entries@.len() ==> self.entries@[j].0.deep_view() != K::probe(
                            p,
                        )
                },
                None => forall|j: int|
                    0 <= j < self.entries@.len() ==> self.entries@[j].0.deep_view() != K::probe(p),
            },
    {
        let mut i: usize = self.entries.len();
        while i > 0
            invariant
                i <= self.entries@.len(),
                forall|j: int|
                    i <= j < self.entries@.len() ==> self.entries@[j].0.deep_view() != K::probe(p),
            decreases i,
        {
            i -= 1;
            if self.entries[i].0.matches(p) {
                return Some(i);
            }
        }
        None
    }

    pub fn get(&self, p: &K::Probe) -> (r: Option<&V>)
        ensures
            match r {
                Some(v) => self@.contains_key(K::probe(p)) && self@[K::probe(p)] == v.deep_view(),
                None => !self@.contains_key(K::probe(p)),
            },
    {
        match self.position(p) {
            Some(i) => {
                proof {
                    map_of_last(self.entries@, K::probe(p), i as int);
                }
                Some(&self.entries[i].1)
            },
            None => {
                proof {
                    map_of_absent(self.entries@, K::probe(p));
                }
                None
            },
        }
    }

    pub fn contains_key(&self, p: &K::Probe) -> (r: bool)
        ensures
            r == self@.contains_key(K::probe(p)),
    {
        self.get(p).is_some()
    }

    /// Map `k` to `v`, in place of what it was mapped to before.
    pub fn insert(&mut self, k: K, v: V)
        ensures
            final(self)@ == old(self)@.insert(k.deep_view(), v.deep_view()),
            final(self).order() == order_with(old(self)@, old(self).order(), k.deep_view()),
    {
        match self.position(k.as_probe()) {
            Some(i) => {
                proof {
                    map_of_replaced(self.entries@, i as int, (k, v));
                    map_of_last(self.entries@, k.deep_view(), i as int);
                }
                self.entries.set(i, (k, v));
                assert(self.order() =~= old(self).order());
            },
            None => {
                let ghost before = self.entries@;
                proof {
                    map_of_absent(before, k.deep_view());
                }
                self.entries.push((k, v));
                assert(self.entries@.drop_last() =~= before);
                assert(self.order() =~= old(self).order().push(k.deep_view()));
            },
        }
    }

    /// Remove every entry.
    pub fn clear(&mut self)
        ensures
            final(self)@ == Map::<<K as DeepView>::V, <V as DeepView>::V>::empty(),
            final(self).order() == Seq::<<K as DeepView>::V>::empty(),
    {
        self.entries = Vec::new();
        assert(self.order() =~= Seq::<<K as DeepView>::V>::empty());
    }

    /// Forget what `p` is mapped to.
    pub fn remove(&mut self, p: &K::Probe)
        ensures
            final(self)@ == old(self)@.remove(K::probe(p)),
            final(self).order() == without(old(self).order(), K::probe(p)),
    {
        let ghost start = self@;
        let ghost places = self.order();
        let ghost k = K::probe(p);
        while self.contains_key(p)
            invariant
                k == K::probe(p),
                self@.remove(k) == start.remove(k),
                without(self.order(), k) == without(places, k),
            decreases self.entries@.len(),
        {
            if let Some(i) = self.position(p) {
                proof {
                    map_of_removed(self.entries@, i as int);
                    without_removed(self.order(), i as int);
                }
                let ghost before = self.order();
                let _ = self.entries.remove(i);
                assert(self.order() =~= before.remove(i as int));
                assert(self@.remove(k) =~= start.remove(k));
            } else {
                proof {
                    map_of_absent(self.entries@, k);
                }
            }
        }
        proof {
            assert(self@.remove(k) =~= self@);
            self.order_holds_keys();
            without_absent(self.order(), k);
        }
    }

    /// A map has finitely many keys.
    pub proof fn finite_keys(&self)
        ensures
            self@.dom().finite(),
    {
        map_of_finite(self.entries@);
    }

    /// The keys, in the order of their first insertion.
    pub closed spec fn order(&self) -> Seq<<K as DeepView>::V> {
        Seq::new(self.entries@.len(), |i: int| self.entries@[i].0.deep_view())
    }

    /// Every key has a place in the order, and nothing else has one.
    pub proof fn order_holds_keys(&self)
        ensures
            forall|k: <K as DeepView>::V| self@.contains_key(k) <==> self.order().contains(k),
    {
        assert forall|k: <K as DeepView>::V| self@.contains_key(k) <==> self.order().contains(
            k,
        ) by {
            keys_are_listed(self.entries@, k);
            if self.order().contains(k) {
                let i = choose|i: int| 0 <= i < self.order().len() && self.order()[i] == k;
                assert(self.entries@[i].0.deep_view() == k);
            }
            if exists|i: int| 0 <= i < self.entries@.len() && self.entries@[i].0.deep_view() == k {
                let i = choose|i: int|
                    0 <= i < self.entries@.len() && self.entries@[i].0.deep_view() == k;
                assert(self.order()[i] == k);
            }
        }
    }

    /// Number of places in the order.
    pub fn len(&self) -> (r: usize)
        ensures
            r == self.order().len(),
    {
        self.entries.len()
    }

    /// The key at place `i`.
    pub fn key_at(&self, i: usize) -> (r: &K)
        requires
            i < self.order().len(),
        ensures
            r.deep_view() == self.order()[i as int],
            self@.contains_key(r.deep_view()),
    {
        proof {
            self.order_holds_keys();
            assert(self.order().contains(self.order()[i as int]));
        }
        &self.entries[i].0
    }
}

proof fn keys_are_listed<K: DeepView, V: DeepView>(
    entries: Seq<(K, V)>,
    k: <K as DeepView>::V,
)
    ensures
        map_of(entries).contains_key(k) <==> exists|i: int|
            0 <= i < entries.len() && entries[i].0.deep_view() == k,
    decreases entries.len(),
{
    if entries.len() > 0 {
        let init = entries.drop_last();
        keys_are_listed(init, k);
        if exists|i: int| 0 <= i < init.len() && init[i].0.deep_view() == k {
            let i = choose|i: int| 0 <= i < init.len() && init[i].0.deep_view() == k;
            assert(entries[i].0.deep_view() == k);
        }
        if entries.last().0.deep_view() == k {
            assert(entries[entries.len() - 1].0.deep_view() == k);
        }
        if exists|i: int| 0 <= i < entries.len() && entries[i].0.deep_view() == k {
            let i = choose|i: int| 0 <= i < entries.len() && entries[i].0.deep_view() == k;
            if i < entries.len() - 1 {
                assert(init[i].0.deep_view() == k);
            }
        }
    }
}

/// One more place of a sequence adds one element.
pub proof fn take_next<A>(s: Seq<A>, i: int)
    requires
        0 <= i < s.len(),
    ensures
        forall|a: A| #[trigger]
            s.take(i + 1).contains(a) <==> s.take(i).contains(a) || a == s[i],
{
    let next = s.take(i + 1);
    let prev = s.take(i);
    assert forall|a: A| #[trigger] next.contains(a) <==> prev.contains(a) || a == s[i] by {
        if next.contains(a) {
            let j = choose|j: int| 0 <= j < next.len() && next[j] == a;
            if j < i {
                assert(prev[j] == a);
            }
        }
        if prev.contains(a) {
            let j = choose|j: int| 0 <= j < prev.len() && prev[j] == a;
            assert(next[j] == a);
        }
        assert(next[i] == s[i]);
    }
}

/// A set of names.
#[derive(Debug)]
pub struct NameSet {
    names: Vec<String>,
}

impl View for NameSet {
    type V = Set<Seq<char>>;

    closed spec fn view(&self) -> Set<Seq<char>> {
        self.names.deep_view().to_set()
    }
}

impl DeepView for NameSet {
    type V = Set<Seq<char>>;

    open spec fn deep_view(&self) -> Set<Seq<char>> {
        self@
    }
}

/// True when `name` is among `names`.
pub fn lists_name(names: &Vec<String>, name: &str) -> (r: bool)
    ensures
        r == names.deep_view().contains(name@),
{
    let mut i: usize = 0;
    while i < names.len()
        invariant
            i <= names.len(),
            forall|j: int| 0 <= j < i ==> names.deep_view()[j] != name@,
        decreases names.len() - i,
    {
        if same_text(names[i].as_str(), name) {
            assert(names.deep_view()[i as int] == name@);
            return true;
        }
        i += 1;
    }
    false
}

impl NameSet {
    pub fn new() -> (r: Self)
        ensures
            r@ == Set::<Seq<char>>::empty(),
    {
        let r = NameSet { names: Vec::new() };
        assert(r@ =~= Set::<Seq<char>>::empty());
        r
    }

    pub fn contains(&self, name: &str) -> (r: bool)
        ensures
            r == self@.contains(name@),
    {
        lists_name(&self.names, name)
    }

    /// Add `name`; true when it was not there before.
    pub fn insert(&mut self, name: String) -> (r: bool)
        ensures
            final(self)@ == old(self)@.insert(name@),
            r == !old(self)@.contains(name@),
    {
        if lists_name(&self.names, name.as_str()) {
            assert(self@.insert(name@) =~= self@);
            false
        } else {
            let ghost before = self.names.deep_view();
            self.names.push(name);
            proof {
                assert(self.names.deep_view() =~= before.push(name@));
                assert forall|s: Seq<char>|
                    before.push(name@).contains(s) <==> before.contains(s) || s == name@ by {
                    if before.contains(s) {
                        let i = choose|i: int| 0 <= i < before.len() && before[i] == s;
                        assert(before.push(name@)[i] == s);
                    }
                    if s == name@ {
                        assert(before.push(name@)[before.len() as int] == s);
                    }
                }
                assert(self@ =~= old(self)@.insert(name@));
            }
            true
        }
    }
}

/// A value that can be copied without changing its deep view.
pub trait Dup: DeepView + Sized {
    fn dup(&self) -> (r: Self)
        ensures
            r.deep_view() == self.deep_view(),
    ;
}

impl Dup for String {
    fn dup(&self) -> (r: Self) {
        self.clone()
    }
}

impl Dup for bool {
    fn dup(&self) -> (r: Self) {
        *self
    }
}

impl Dup for usize {
    fn dup(&self) -> (r: Self) {
        *self
    }
}

impl Dup for u32 {
    fn dup(&self) -> (r: Self) {
        *self
    }
}

impl<A: Dup, B: Dup> Dup for (A, B) {
    fn dup(&self) -> (r: Self) {
        (self.0.dup(), self.1.dup())
    }
}

impl<T: Dup> Dup for Option<T> {
    fn dup(&self) -> (r: Self) {
        match self {
            Some(t) => Some(t.dup()),
            None => None,
        }
    }
}

impl<T: Dup> Dup for Vec<T> {
    fn dup(&self) -> (r: Self) {
        let mut out: Vec<T> = Vec::new();
        let mut i: usize = 0;
        while i < self.len()
            invariant
                i <= self.len(),
                out.len() == i,
                forall|j: int| 0 <= j < i ==> out.deep_view()[j] == self.deep_view()[j],
            decreases self.len() - i,
        {
            let ghost before = out.deep_view();
            let x = self[i].dup();
            out.push(x);
            assert(out.deep_view() =~= before.push(x.deep_view()));
            i += 1;
        }
        assert(out.deep_view() =~= self.deep_view());
        out
    }
}

proof fn map_of_alike<K: DeepView, V: DeepView>(a: Seq<(K, V)>, b: Seq<(K, V)>)
    requires
        a.len() == b.len(),
        forall|i: int|
            0 <= i < a.len() ==> (#[trigger] a[i]).0.deep_view() == b[i].0.deep_view()
                && a[i].1.deep_view() == b[i].1.deep_view(),
    ensures
        map_of(a) == map_of(b),
    decreases a.len(),
{
    if a.len() > 0 {
        assert(a.drop_last().len() == b.drop_last().len());
        assert forall|i: int| 0 <= i < a.drop_last().len() implies (#[trigger] a.drop_last()[i]).0.deep_view()
            == b.drop_last()[i].0.deep_view() && a.drop_last()[i].1.deep_view()
            == b.drop_last()[i].1.deep_view() by {
            assert(a[i].0.deep_view() == b[i].0.deep_view());
        }
        map_of_alike(a.drop_last(), b.drop_last());
    }
}

impl<K: Dup, V: Dup> Dup for KeyMap<K, V> {
    fn dup(&self) -> (r: Self) {
        let mut out: Vec<(K, V)> = Vec::new();
        let mut i: usize = 0;
        while i < self.entries.len()
            invariant
                i <= self.entries.len(),
                out.len() == i,
                forall|j: int|
                    0 <= j < i ==> (#[trigger] out@[j]).0.deep_view()
                        == self.entries@[j].0.deep_view() && out@[j].1.deep_view()
                        == self.entries@[j].1.deep_view(),
            decreases self.entries.len() - i,
        {
            out.push((self.entries[i].0.dup(), self.entries[i].1.dup()));
            i += 1;
        }
        proof {
            map_of_alike(out@, self.entries@);
        }
        KeyMap { entries: out }
    }
}

impl Dup for NameSet {
    fn dup(&self) -> (r: Self) {
        NameSet { names: self.names.dup() }
    }
}

/// The list that `k` is mapped to, with `x` at its end.
pub open spec fn pushed<K, T>(m: Map<K, Seq<T>>, k: K, x: T) -> Map<K, Seq<T>> {
    m.insert(
        k,
        if m.contains_key(k) {
            m[k].push(x)
        } else {
            seq![x]
        },
    )
}

/// Put `x` at the end of the list that `k` is mapped to.
pub fn push_at<K: MapKey, T: Dup>(m: &mut KeyMap<K, Vec<T>>, k: K, x: T)
    ensures
        final(m)@ == pushed(old(m)@, k.deep_view(), x.deep_view()),
{
    let mut list: Vec<T> = match m.get(k.as_probe()) {
        Some(l) => l.dup(),
        None => Vec::new(),
    };
    let ghost before = list.deep_view();
    list.push(x);
    proof {
        assert(list.deep_view() =~= before.push(x.deep_view()));
        assert(old(m)@.contains_key(k.deep_view()) || before =~= Seq::empty());
        assert(seq![x.deep_view()] =~= Seq::empty().push(x.deep_view()));
    }
    m.insert(k, list);
}

} // verus!
