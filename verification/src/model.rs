//! Values and their mathematical models.
use vstd::prelude::*;

verus! {

/// A value that can be copied so that the copy has the same model.
pub trait Duplicate: DeepView + Sized {
    /// A copy of the value.
    fn duplicate(&self) -> (copy: Self)
        ensures
            copy.deep_view() == self.deep_view(),
    ;
}

/// The model of a result: the models of its value and of its error.
pub open spec fn outcome<T: DeepView, E: DeepView>(result: Result<T, E>) -> Result<T::V, E::V> {
    match result {
        Ok(value) => Ok(value.deep_view()),
        Err(error) => Err(error.deep_view()),
    }
}

impl Duplicate for String {
    fn duplicate(&self) -> (copy: Self) {
        self.clone()
    }
}

impl Duplicate for &'static str {
    fn duplicate(&self) -> (copy: Self) {
        *self
    }
}

impl Duplicate for bool {
    fn duplicate(&self) -> (copy: Self) {
        *self
    }
}

impl Duplicate for u8 {
    fn duplicate(&self) -> (copy: Self) {
        *self
    }
}

impl Duplicate for u16 {
    fn duplicate(&self) -> (copy: Self) {
        *self
    }
}

impl Duplicate for u32 {
    fn duplicate(&self) -> (copy: Self) {
        *self
    }
}

impl Duplicate for u64 {
    fn duplicate(&self) -> (copy: Self) {
        *self
    }
}

impl Duplicate for i32 {
    fn duplicate(&self) -> (copy: Self) {
        *self
    }
}

impl Duplicate for i64 {
    fn duplicate(&self) -> (copy: Self) {
        *self
    }
}

impl Duplicate for usize {
    fn duplicate(&self) -> (copy: Self) {
        *self
    }
}

impl<T: Duplicate> Duplicate for Option<T> {
    fn duplicate(&self) -> (copy: Self) {
        match self {
            Some(value) => Some(value.duplicate()),
            None => None,
        }
    }
}

impl<T: Duplicate> Duplicate for Vec<T> {
    fn duplicate(&self) -> (copy: Self) {
        let mut copy: Vec<T> = Vec::new();
        let mut i: usize = 0;
        while i < self.len()
            invariant
                i <= self.len(),
                copy.len() == i,
                forall|j: int| 0 <= j < i ==> (#[trigger] copy@[j]).deep_view() == self@[j].deep_view(),
            decreases self.len() - i,
        {
            copy.push(self[i].duplicate());
            i += 1;
        }
        assert(copy.deep_view() =~= self.deep_view());
        copy
    }
}

impl<A: Duplicate, B: Duplicate> Duplicate for (A, B) {
    fn duplicate(&self) -> (copy: Self) {
        (self.0.duplicate(), self.1.duplicate())
    }
}

/// Puts an item at the end.
pub fn push_item<T: DeepView>(items: &mut Vec<T>, item: T)
    ensures
        final(items).deep_view() == old(items).deep_view().push(item.deep_view()),
{
    let ghost before = items.deep_view();
    items.push(item);
    assert(items.deep_view() =~= before.push(item.deep_view()));
}

/// Puts items at the end.
pub fn append_items<T: DeepView>(items: &mut Vec<T>, others: Vec<T>)
    ensures
        final(items).deep_view() == old(items).deep_view() + others.deep_view(),
{
    let ghost before = items.deep_view();
    let mut others = others;
    let ghost added = others.deep_view();
    items.append(&mut others);
    assert(items.deep_view() =~= before + added);
}

/// A list without items.
pub fn no_items<T: DeepView>() -> (items: Vec<T>)
    ensures
        items.deep_view() == Seq::<T::V>::empty(),
        items.len() == 0,
{
    let items: Vec<T> = Vec::new();
    assert(items.deep_view() =~= Seq::<T::V>::empty());
    items
}

} // verus!
