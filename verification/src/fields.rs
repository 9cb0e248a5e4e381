//! Named values in the order of their names.
use crate::model::Duplicate;
use crate::text::{is_less, lemma_text_total, lemma_text_transitive, same_text, text_less};
use vstd::prelude::*;

verus! {

/// The value that stands first under `name`.
pub open spec fn lookup<V>(entries: Seq<(Seq<char>, V)>, name: Seq<char>) -> Option<V>
    decreases entries.len(),
{
    if entries.len() == 0 {
        None
    } else if entries[0].0 == name {
        Some(entries[0].1)
    } else {
        lookup(entries.drop_first(), name)
    }
}

/// The entries with `name` set to `value`, at the place of its name.
pub open spec fn put<V>(entries: Seq<(Seq<char>, V)>, name: Seq<char>, value: V) -> Seq<(Seq<char>, V)>
    decreases entries.len(),
{
    if entries.len() == 0 {
        seq![(name, value)]
    } else if entries[0].0 == name {
        seq![(name, value)] + entries.drop_first()
    } else if text_less(name, entries[0].0) {
        seq![(name, value)] + entries
    } else {
        seq![entries[0]] + put(entries.drop_first(), name, value)
    }
}

/// Every name stands before the names behind it, so none occurs twice.
pub open spec fn ordered<V>(entries: Seq<(Seq<char>, V)>) -> bool {
    forall|i: int, j: int| 0 <= i < j < entries.len() ==> text_less(#[trigger] entries[i].0, #[trigger] entries[j].0)
}

/// A map from names to values, kept in the order of the names.
#[derive(Debug, PartialEq, Eq)]
pub struct StringMap<V> {
    entries: Vec<(String, V)>,
}

impl<V> StringMap<V> {
    /// The names stand in order.
    #[verifier::type_invariant]
    closed spec fn keeps_order(&self) -> bool {
        forall|i: int, j: int|
            0 <= i < j < self.entries@.len() ==> text_less(
                (#[trigger] self.entries@[i]).0@,
                (#[trigger] self.entries@[j]).0@,
            )
    }
}

impl<V: Clone> Clone for StringMap<V> {
    fn clone(&self) -> (copy: Self) {
        proof {
            use_type_invariant(self);
        }
        let mut entries: Vec<(String, V)> = Vec::new();
        let mut i: usize = 0;
        while i < self.entries.len()
            invariant
                i <= self.entries.len(),
                entries.len() == i,
                forall|j: int| 0 <= j < i ==> (#[trigger] entries@[j]).0@ == self.entries@[j].0@,
            decreases self.entries.len() - i,
        {
            entries.push((self.entries[i].0.clone(), self.entries[i].1.clone()));
            i += 1;
        }
        StringMap { entries }
    }
}

impl<V: DeepView> DeepView for StringMap<V> {
    type V = Seq<(Seq<char>, V::V)>;

    closed spec fn deep_view(&self) -> Seq<(Seq<char>, V::V)> {
        self.entries.deep_view()
    }
}

impl<V: Duplicate> Duplicate for StringMap<V> {
    fn duplicate(&self) -> (copy: Self) {
        proof {
            use_type_invariant(self);
        }
        let entries = self.entries.duplicate();
        proof {
            lemma_same_names(self.entries, entries);
        }
        StringMap { entries }
    }
}

impl<V: DeepView> StringMap<V> {
    /// The names stand in order, and so none occurs twice.
    pub open spec fn in_order(&self) -> bool {
        ordered(self.deep_view())
    }

    /// The map without entries.
    pub fn new() -> (map: Self)
        ensures
            map.deep_view() == Seq::<(Seq<char>, V::V)>::empty(),
            map.in_order(),
    {
        let entries: Vec<(String, V)> = Vec::new();
        assert(entries.deep_view() =~= Seq::<(Seq<char>, V::V)>::empty());
        StringMap { entries }
    }

    /// How many entries there are.
    pub fn len(&self) -> (count: usize)
        ensures
            count == self.deep_view().len(),
            self.in_order(),
    {
        proof {
            use_type_invariant(self);
        }
        self.entries.len()
    }

    /// Whether there are no entries.
    pub fn is_empty(&self) -> (empty: bool)
        ensures
            empty == (self.deep_view().len() == 0),
    {
        self.entries.len() == 0
    }

    /// The entry at a place in the order.
    pub fn entry(&self, index: usize) -> (entry: &(String, V))
        requires
            index < self.deep_view().len(),
        ensures
            entry.deep_view() == self.deep_view()[index as int],
    {
        &self.entries[index]
    }

    /// The value under `name`.
    pub fn get(&self, name: &str) -> (value: Option<&V>)
        ensures
            value.deep_view() == lookup(self.deep_view(), name@),
    {
        find_field(&self.entries, name)
    }

    /// Whether there is a value under `name`.
    pub fn contains_key(&self, name: &str) -> (found: bool)
        ensures
            found == (lookup(self.deep_view(), name@) is Some),
    {
        find_field(&self.entries, name).is_some()
    }

    /// Takes the first entry out, where there is one.
    pub fn pop_first(&mut self) -> (entry: Option<(String, V)>)
        ensures
            match entry {
                Some(entry) => old(self).deep_view().len() > 0 && entry.deep_view() == old(self).deep_view()[0]
                    && final(self).deep_view() == old(self).deep_view().drop_first(),
                None => old(self).deep_view().len() == 0 && final(self).deep_view() == old(self).deep_view(),
            },
            final(self).in_order(),
    {
        proof {
            use_type_invariant(&*self);
        }
        if self.entries.len() == 0 {
            return None;
        }
        let ghost before = self.entries.deep_view();
        let mut entries: Vec<(String, V)> = Vec::new();
        std::mem::swap(&mut entries, &mut self.entries);
        let entry = entries.remove(0);
        assert(entries.deep_view() =~= before.drop_first());
        self.entries = entries;
        Some(entry)
    }

    /// Sets the value under `name`.
    pub fn insert(&mut self, name: String, value: V)
        ensures
            final(self).deep_view() == put(old(self).deep_view(), name@, value.deep_view()),
            final(self).in_order(),
    {
        proof {
            use_type_invariant(&*self);
            lemma_put_ordered(self.entries.deep_view(), name@, value.deep_view());
        }
        let mut entries: Vec<(String, V)> = Vec::new();
        std::mem::swap(&mut entries, &mut self.entries);
        put_field(&mut entries, name, value);
        proof {
            lemma_names_ordered(entries);
        }
        self.entries = entries;
    }
}

proof fn lemma_names_ordered<V: DeepView>(entries: Vec<(String, V)>)
    ensures
        ordered(entries.deep_view()) <==> forall|i: int, j: int|
            0 <= i < j < entries@.len() ==> text_less((#[trigger] entries@[i]).0@, (#[trigger] entries@[j]).0@),
{
    let shown = entries.deep_view();
    assert(shown.len() == entries@.len());
    assert forall|i: int| 0 <= i < entries@.len() implies (#[trigger] shown[i]).0 == entries@[i].0@ by {
        assert(shown[i] == entries@[i].deep_view());
    }
    if ordered(shown) {
        assert forall|i: int, j: int| 0 <= i < j < entries@.len() implies text_less(
            (#[trigger] entries@[i]).0@,
            (#[trigger] entries@[j]).0@,
        ) by {
            assert(text_less(shown[i].0, shown[j].0));
        }
    }
}

proof fn lemma_same_names<V: DeepView>(entries: Vec<(String, V)>, others: Vec<(String, V)>)
    requires
        entries.deep_view() == others.deep_view(),
    ensures
        others@.len() == entries@.len(),
        forall|i: int| 0 <= i < entries@.len() ==> (#[trigger] others@[i]).0@ == entries@[i].0@,
{
    let shown = entries.deep_view();
    let other = others.deep_view();
    assert(shown.len() == entries@.len() && other.len() == others@.len());
    assert forall|i: int| 0 <= i < entries@.len() implies (#[trigger] others@[i]).0@ == entries@[i].0@ by {
        assert(shown[i] == entries@[i].deep_view());
        assert(other[i] == others@[i].deep_view());
    }
}

/// The value that stands first under `name`.
pub fn find_field<'a, V: DeepView>(entries: &'a Vec<(String, V)>, name: &str) -> (value: Option<&'a V>)
    ensures
        value.deep_view() == lookup(entries.deep_view(), name@),
{
    let mut i: usize = 0;
    assert(entries.deep_view().skip(0) =~= entries.deep_view());
    while i < entries.len()
        invariant
            i <= entries.len(),
            lookup(entries.deep_view(), name@) == lookup(entries.deep_view().skip(i as int), name@),
        decreases entries.len() - i,
    {
        assert(entries.deep_view().skip(i as int)[0] == entries@[i as int].deep_view());
        if same_text(entries[i].0.as_str(), name) {
            return Some(&entries[i].1);
        }
        assert(entries.deep_view().skip(i as int).drop_first() =~= entries.deep_view().skip(i + 1));
        i += 1;
    }
    None
}

/// Sets the value under `name`, at the place of its name.
pub fn put_field<V: DeepView>(entries: &mut Vec<(String, V)>, name: String, value: V)
    ensures
        final(entries).deep_view() == put(old(entries).deep_view(), name@, value.deep_view()),
{
    let ghost before = entries.deep_view();
    let mut i: usize = 0;
    assert(before.skip(0) =~= before);
    assert(before.take(0) + put(before, name@, value.deep_view()) =~= put(before, name@, value.deep_view()));
    while i < entries.len()
        invariant
            i <= entries.len(),
            before == entries.deep_view(),
            before == old(entries).deep_view(),
            put(before, name@, value.deep_view()) == before.take(i as int) + put(before.skip(i as int), name@, value.deep_view()),
        decreases entries.len() - i,
    {
        let ghost rest = before.skip(i as int);
        assert(rest[0] == entries@[i as int].deep_view());
        if same_text(entries[i].0.as_str(), name.as_str()) {
            let ghost shown = (name@, value.deep_view());
            entries.set(i, (name, value));
            assert(entries.deep_view() =~= before.update(i as int, shown));
            assert(before.update(i as int, shown) =~= before.take(i as int) + (seq![shown] + rest.drop_first()));
            return ;
        }
        if is_less(name.as_str(), entries[i].0.as_str()) {
            let ghost shown = (name@, value.deep_view());
            entries.insert(i, (name, value));
            assert(entries.deep_view() =~= before.insert(i as int, shown));
            assert(before.insert(i as int, shown) =~= before.take(i as int) + (seq![shown] + rest));
            return ;
        }
        proof {
            let tail = put(before.skip(i + 1), name@, value.deep_view());
            assert(rest.drop_first() =~= before.skip(i + 1));
            assert(before.take(i as int) + (seq![rest[0]] + tail) =~= before.take(i + 1) + tail);
        }
        i += 1;
    }
    let ghost shown = (name@, value.deep_view());
    entries.push((name, value));
    assert(before.skip(i as int) =~= Seq::<(Seq<char>, V::V)>::empty());
    assert(entries.deep_view() =~= before.take(i as int) + seq![shown]);
}

proof fn lemma_put_names<V>(entries: Seq<(Seq<char>, V)>, name: Seq<char>, value: V)
    ensures
        forall|i: int| 0 <= i < put(entries, name, value).len() ==> {
            let found = #[trigger] put(entries, name, value)[i];
            found == (name, value) || entries.contains(found)
        },
    decreases entries.len(),
{
    if entries.len() > 0 {
        lemma_put_names(entries.drop_first(), name, value);
        let all = put(entries, name, value);
        assert forall|i: int| 0 <= i < all.len() implies #[trigger] all[i] == (name, value) || entries.contains(all[i]) by {
            if entries[0].0 == name {
                if i > 0 {
                    assert(all[i] == entries[i]);
                }
            } else if text_less(name, entries[0].0) {
                if i > 0 {
                    assert(all[i] == entries[i - 1]);
                }
            } else if i == 0 {
                assert(all[0] == entries[0]);
            } else {
                let inner = put(entries.drop_first(), name, value);
                assert(all[i] == inner[i - 1]);
                if inner[i - 1] != (name, value) {
                    let k = choose|k: int| 0 <= k < entries.drop_first().len() && entries.drop_first()[k] == inner[i - 1];
                    assert(entries[k + 1] == all[i]);
                }
            }
        }
    }
}

/// Setting a name keeps the names in order.
pub proof fn lemma_put_ordered<V>(entries: Seq<(Seq<char>, V)>, name: Seq<char>, value: V)
    requires
        ordered(entries),
    ensures
        ordered(put(entries, name, value)),
    decreases entries.len(),
{
    if entries.len() > 0 {
        let all = put(entries, name, value);
        let rest = entries.drop_first();
        assert(ordered(rest));
        lemma_put_ordered(rest, name, value);
        if entries[0].0 == name {
            assert forall|i: int, j: int| 0 <= i < j < all.len() implies text_less(#[trigger] all[i].0, #[trigger] all[j].0) by {
                assert(all[j] == entries[j]);
                assert(all[i].0 == entries[i].0);
            }
        } else if text_less(name, entries[0].0) {
            assert forall|i: int, j: int| 0 <= i < j < all.len() implies text_less(#[trigger] all[i].0, #[trigger] all[j].0) by {
                assert(all[j] == entries[j - 1]);
                if i == 0 {
                    if j > 1 {
                        assert(text_less(entries[0].0, entries[j - 1].0));
                        lemma_text_transitive(name, entries[0].0, entries[j - 1].0);
                    }
                } else {
                    assert(all[i] == entries[i - 1]);
                }
            }
        } else {
            let inner = put(rest, name, value);
            lemma_text_total(name, entries[0].0);
            lemma_put_names(rest, name, value);
            assert forall|i: int, j: int| 0 <= i < j < all.len() implies text_less(#[trigger] all[i].0, #[trigger] all[j].0) by {
                assert(all[j] == inner[j - 1]);
                if i == 0 {
                    assert(all[0] == entries[0]);
                    if inner[j - 1] != (name, value) {
                        let k = choose|k: int| 0 <= k < rest.len() && rest[k] == inner[j - 1];
                        assert(entries[k + 1] == rest[k]);
                    }
                } else {
                    assert(all[i] == inner[i - 1]);
                }
            }
        }
    }
}

/// A name behind all others is put at the end.
pub proof fn lemma_put_last<V>(entries: Seq<(Seq<char>, V)>, name: Seq<char>, value: V)
    requires
        forall|i: int| 0 <= i < entries.len() ==> text_less((#[trigger] entries[i]).0, name),
    ensures
        put(entries, name, value) == entries.push((name, value)),
    decreases entries.len(),
{
    if entries.len() > 0 {
        let rest = entries.drop_first();
        assert(text_less(entries[0].0, name));
        lemma_text_total(entries[0].0, name);
        assert forall|i: int| 0 <= i < rest.len() implies text_less((#[trigger] rest[i]).0, name) by {
            assert(rest[i] == entries[i + 1]);
        }
        lemma_put_last(rest, name, value);
        assert(seq![entries[0]] + rest.push((name, value)) =~= entries.push((name, value)));
    } else {
        assert(seq![(name, value)] =~= entries.push((name, value)));
    }
}

/// After a name is set, it has the new value, and every other name has the
/// value it had.
pub proof fn law_put_then_lookup<V>(entries: Seq<(Seq<char>, V)>, name: Seq<char>, value: V, other: Seq<char>)
    ensures
        lookup(put(entries, name, value), name) == Some(value),
        other != name ==> lookup(put(entries, name, value), other) == lookup(entries, other),
    decreases entries.len(),
{
    let all = put(entries, name, value);
    if entries.len() == 0 {
        assert(all.drop_first() =~= entries);
    } else {
        law_put_then_lookup(entries.drop_first(), name, value, other);
        if entries[0].0 == name {
            assert(all.drop_first() =~= entries.drop_first());
        } else if text_less(name, entries[0].0) {
            assert(all.drop_first() =~= entries);
        } else {
            assert(all.drop_first() =~= put(entries.drop_first(), name, value));
        }
    }
}

/// An entry is found under its name, where none before it has the same.
pub proof fn lemma_lookup_at<V>(entries: Seq<(Seq<char>, V)>, place: int)
    requires
        0 <= place < entries.len(),
        forall|i: int| 0 <= i < place ==> (#[trigger] entries[i]).0 != entries[place].0,
    ensures
        lookup(entries, entries[place].0) == Some(entries[place].1),
    decreases place,
{
    if place > 0 {
        let rest = entries.drop_first();
        assert(entries[0].0 != entries[place].0);
        assert forall|i: int| 0 <= i < place - 1 implies (#[trigger] rest[i]).0 != rest[place - 1].0 by {
            assert(rest[i] == entries[i + 1]);
        }
        lemma_lookup_at(rest, place - 1);
    }
}

/// Nothing is found under a name that no entry has.
pub proof fn lemma_lookup_none<V>(entries: Seq<(Seq<char>, V)>, name: Seq<char>)
    requires
        forall|i: int| 0 <= i < entries.len() ==> (#[trigger] entries[i]).0 != name,
    ensures
        lookup(entries, name) is None,
    decreases entries.len(),
{
    if entries.len() > 0 {
        let rest = entries.drop_first();
        assert forall|i: int| 0 <= i < rest.len() implies (#[trigger] rest[i]).0 != name by {
            assert(rest[i] == entries[i + 1]);
        }
        lemma_lookup_none(rest, name);
    }
}

/// What stands first is found first.
pub proof fn lemma_lookup_sum<V>(first: Seq<(Seq<char>, V)>, second: Seq<(Seq<char>, V)>, name: Seq<char>)
    ensures
        lookup(first + second, name) == match lookup(first, name) {
            Some(value) => Some(value),
            None => lookup(second, name),
        },
    decreases first.len(),
{
    if first.len() == 0 {
        assert(first + second =~= second);
    } else {
        assert((first + second)[0] == first[0]);
        assert((first + second).drop_first() =~= first.drop_first() + second);
        lemma_lookup_sum(first.drop_first(), second, name);
    }
}

/// An entry that was added last is found under its name, and no other.
pub proof fn lemma_lookup_push<V>(entries: Seq<(Seq<char>, V)>, entry: (Seq<char>, V), name: Seq<char>)
    ensures
        lookup(entries.push(entry), name) == match lookup(entries, name) {
            Some(value) => Some(value),
            None => if entry.0 == name {
                Some(entry.1)
            } else {
                None
            },
        },
{
    let one = seq![entry];
    assert(entries.push(entry) =~= entries + one);
    lemma_lookup_sum(entries, one, name);
    assert(one.drop_first() =~= Seq::empty());
    reveal_with_fuel(lookup, 2);
}

} // verus!
