//! What every encoder family shares: the cartesian product of its option
//! axes and the list of rendered settings with its cursor.

use itertools::Itertools;
use vstd::prelude::*;

verus! {

/// The product of the sizes of `axes`; 1 for no axis at all.
pub open spec fn product_of_sizes<T>(axes: Seq<Seq<T>>) -> nat
    decreases axes.len(),
{
    if axes.len() == 0 {
        1
    } else {
        axes[0].len() * product_of_sizes(axes.drop_first())
    }
}

/// Every way to pick one value from each axis, the first axis varying
/// slowest and the last one fastest.
pub open spec fn cartesian<T>(axes: Seq<Seq<T>>) -> Seq<Seq<T>>
    decreases axes.len(),
{
    if axes.len() == 0 {
        seq![Seq::<T>::empty()]
    } else {
        let rest = cartesian(axes.drop_first());
        Seq::new(
            axes[0].len() * rest.len(),
            |i: int| seq![axes[0][i / (rest.len() as int)]] + rest[i % (rest.len() as int)],
        )
    }
}

/// The values of each axis of a list of borrowed axes.
pub open spec fn axis_values(axes: Seq<&Vec<&'static str>>) -> Seq<Seq<&'static str>> {
    axes.map_values(|a: &Vec<&'static str>| a@)
}

/// The values of each tuple of a list of tuples.
pub open spec fn tuple_values(tuples: Seq<Vec<&'static str>>) -> Seq<Seq<&'static str>> {
    tuples.map_values(|t: Vec<&'static str>| t@)
}

/// The texts that a list of strings holds.
pub open spec fn texts(items: Seq<String>) -> Seq<Seq<char>> {
    items.map_values(|s: String| s@)
}

/// The product has as many tuples as the product of the axis sizes says.
pub proof fn lemma_cartesian_len<T>(axes: Seq<Seq<T>>)
    ensures
        cartesian(axes).len() == product_of_sizes(axes),
    decreases axes.len(),
{
    if axes.len() > 0 {
        lemma_cartesian_len(axes.drop_first());
    }
}

/// The product of the sizes of up to five axes, written out.
pub proof fn lemma_product_of_sizes_small<T>(axes: Seq<Seq<T>>)
    ensures
        axes.len() == 1 ==> product_of_sizes(axes) == axes[0].len(),
        axes.len() == 2 ==> product_of_sizes(axes) == axes[0].len() * axes[1].len(),
        axes.len() == 3 ==> product_of_sizes(axes) == axes[0].len() * (axes[1].len()
            * axes[2].len()),
        axes.len() == 4 ==> product_of_sizes(axes) == axes[0].len() * (axes[1].len() * (
        axes[2].len() * axes[3].len())),
        axes.len() == 5 ==> product_of_sizes(axes) == axes[0].len() * (axes[1].len() * (
        axes[2].len() * (axes[3].len() * axes[4].len()))),
    decreases axes.len(),
{
    if axes.len() > 0 {
        let rest = axes.drop_first();
        lemma_product_of_sizes_small(rest);
        assert(forall|k: int| 0 <= k < rest.len() ==> rest[k] == axes[k + 1]);
        if axes.len() == 1 {
            assert(product_of_sizes(rest) == 1);
            assert(axes[0].len() * 1 == axes[0].len()) by (nonlinear_arith);
        }
    }
}

/// Every tuple of the product has one value per axis, taken from that axis.
pub proof fn lemma_cartesian_tuple<T>(axes: Seq<Seq<T>>, i: int)
    requires
        0 <= i < cartesian(axes).len(),
    ensures
        cartesian(axes)[i].len() == axes.len(),
        forall|k: int| 0 <= k < axes.len() ==> axes[k].contains(#[trigger] cartesian(axes)[i][k]),
    decreases axes.len(),
{
    if axes.len() > 0 {
        let rest = cartesian(axes.drop_first());
        let n = rest.len() as int;
        let a = axes[0].len() as int;
        assert(n > 0 && 0 <= i / n < a && 0 <= i % n < n) by (nonlinear_arith)
            requires
                0 <= i < a * n,
                0 <= n,
                0 <= a,
        ;
        lemma_cartesian_tuple(axes.drop_first(), i % n);
        let t = cartesian(axes)[i];
        assert(t == seq![axes[0][i / n]] + rest[i % n]);
        assert forall|k: int| 0 <= k < axes.len() implies axes[k].contains(#[trigger] t[k]) by {
            if k == 0 {
                assert(t[0] == axes[0][i / n]);
            } else {
                assert(t[k] == rest[i % n][k - 1]);
                assert(axes.drop_first()[k - 1] == axes[k]);
                assert(axes.drop_first()[k - 1].contains(rest[i % n][k - 1]));
            }
        }
    }
}

/// Calls `Itertools::multi_cartesian_product` on the axes and collects what
/// it yields. The contract claims that the adaptor yields every tuple of one
/// value per axis, in the order in which the last axis varies fastest, and a
/// single empty tuple for no axes.
#[verifier::external_body]
pub(crate) fn multi_cartesian_product(axes: Vec<&Vec<&'static str>>) -> (r: Vec<
    Vec<&'static str>,
>)
    requires
        product_of_sizes(axis_values(axes@)) <= usize::MAX,
    ensures
        tuple_values(r@) == cartesian(axis_values(axes@)),
{
    axes.into_iter().map(|a| a.iter().copied()).multi_cartesian_product().collect()
}

/// What a list of yielded entries holds: each index with the text beside it.
pub open spec fn yielded(entries: Seq<(usize, String)>) -> Seq<(usize, Seq<char>)> {
    entries.map_values(|e: (usize, String)| (e.0, e.1@))
}

/// The rendered settings of one encoder family, in generation order, and a
/// cursor over them.
pub struct SettingsList {
    items: Vec<String>,
    next: usize,
}

impl SettingsList {
    /// The settings texts, in order.
    pub closed spec fn entries(&self) -> Seq<Seq<char>> {
        texts(self.items@)
    }

    /// How many entries the cursor has passed.
    pub closed spec fn position(&self) -> nat {
        self.next as nat
    }

    /// The cursor stands at an entry or just behind the last one.
    pub closed spec fn wf(&self) -> bool {
        self.next <= self.items@.len()
    }

    /// What is still to be yielded: each entry from the cursor on, with its
    /// index.
    pub open spec fn pending(&self) -> Seq<(usize, Seq<char>)> {
        Seq::new(
            (self.entries().len() - self.position()) as nat,
            |k: int| ((self.position() + k) as usize, self.entries()[self.position() + k]),
        )
    }

    /// With the cursor before the first entry, what is to be yielded is
    /// every entry, once, in order, under its own index.
    pub proof fn lemma_pending_from_start(&self)
        requires
            self.position() == 0,
        ensures
            self.pending().len() == self.entries().len(),
            forall|k: int|
                0 <= k < self.entries().len() ==> #[trigger] self.pending()[k] == (
                    k as usize,
                    self.entries()[k],
                ),
    {
    }

    /// An empty list.
    pub fn new() -> (r: Self)
        ensures
            r.wf(),
            r.entries() == Seq::<Seq<char>>::empty(),
            r.position() == 0,
    {
        let r = SettingsList { items: Vec::new(), next: 0 };
        assert(r.entries() =~= Seq::<Seq<char>>::empty());
        r
    }

    /// Empties the list and puts the cursor before the first entry.
    pub fn reset(&mut self)
        ensures
            final(self).wf(),
            final(self).entries() == Seq::<Seq<char>>::empty(),
            final(self).position() == 0,
    {
        self.next = 0;
        self.items.clear();
        assert(self.entries() =~= Seq::<Seq<char>>::empty());
    }

    /// Appends one entry; the cursor stays.
    pub fn push(&mut self, settings: String)
        requires
            old(self).wf(),
        ensures
            final(self).wf(),
            final(self).entries() == old(self).entries().push(settings@),
            final(self).position() == old(self).position(),
    {
        self.items.push(settings);
        assert(self.entries() =~= old(self).entries().push(settings@));
    }

    /// The entries, in order.
    pub fn items(&self) -> (r: &Vec<String>)
        ensures
            texts(r@) == self.entries(),
    {
        &self.items
    }

    /// How many entries there are.
    pub fn len(&self) -> (r: usize)
        ensures
            r == self.entries().len(),
    {
        self.items.len()
    }

    /// Whether the cursor has entries ahead of it.
    pub fn has_next(&self) -> (r: bool)
        ensures
            r == (self.position() < self.entries().len()),
    {
        self.next < self.items.len()
    }

    /// Yields the entry at the cursor with its index and moves the cursor
    /// on; `None`, with nothing changed, once every entry was yielded.
    pub fn next(&mut self) -> (r: Option<(usize, String)>)
        requires
            old(self).wf(),
        ensures
            final(self).wf(),
            final(self).entries() == old(self).entries(),
            match r {
                Some((index, settings)) => index == old(self).position() && index < old(self).entries().len() && settings@ == old(self).entries()[index as int] && final(self).position() == index + 1,
                None => old(self).position() >= old(self).entries().len() && final(self).position() == old(self).position(),
            },
    {
        if self.next >= self.items.len() {
            return None;
        }
        let index = self.next;
        let settings = self.items[index].clone();
        self.next = index + 1;
        Some((index, settings))
    }

    /// Yields everything from the cursor to the end: each entry once, in
    /// order, with its index. Afterwards nothing is left.
    pub fn remaining(&mut self) -> (r: Vec<(usize, String)>)
        requires
            old(self).wf(),
        ensures
            final(self).wf(),
            final(self).entries() == old(self).entries(),
            final(self).position() == old(self).entries().len(),
            yielded(r@) == old(self).pending(),
            r@.len() == old(self).entries().len() - old(self).position(),
            forall|k: int|
                0 <= k < r@.len() ==> (#[trigger] r@[k]).0 == old(self).position() + k && r@[k].1@
                    == old(self).entries()[old(self).position() + k],
    {
        let mut out: Vec<(usize, String)> = Vec::new();
        loop
            invariant
                self.wf(),
                old(self).wf(),
                self.entries() == old(self).entries(),
                old(self).position() <= self.position() <= self.entries().len(),
                out@.len() == self.position() - old(self).position(),
                forall|k: int|
                    0 <= k < out@.len() ==> (#[trigger] out@[k]).0 == old(self).position() + k
                        && out@[k].1@ == old(self).entries()[old(self).position() + k],
            decreases self.entries().len() - self.position(),
        {
            match self.next() {
                Some(entry) => {
                    out.push(entry);
                },
                None => {
                    assert(yielded(out@) =~= old(self).pending());
                    return out;
                },
            }
        }
    }
}

} // verus!
