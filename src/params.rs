use vstd::prelude::*;

verus! {

/// A value in an open parameter bag: a number, a sequence of numbers, a text
/// or a flag.
pub enum ParamValue<T> {
    Number(T),
    Sequence(Vec<T>),
    Text(String),
    Flag(bool),
}

/// The mathematical model of a `ParamValue`.
pub enum ParamValueModel<T> {
    Number(T),
    Sequence(Seq<T>),
    Text(Seq<char>),
    Flag(bool),
}

/// One named entry of a parameter bag.
pub struct Parameter<T> {
    pub name: String,
    pub value: ParamValue<T>,
}

impl<T> ParamValue<T> {
    pub open spec fn model(&self) -> ParamValueModel<T> {
        match self {
            ParamValue::Number(x) => ParamValueModel::Number(*x),
            ParamValue::Sequence(v) => ParamValueModel::Sequence(v@),
            ParamValue::Text(s) => ParamValueModel::Text(s@),
            ParamValue::Flag(b) => ParamValueModel::Flag(*b),
        }
    }
}

impl<T> Parameter<T> {
    pub open spec fn model(&self) -> (Seq<char>, ParamValueModel<T>) {
        (self.name@, self.value.model())
    }
}

/// The model of a parameter bag: its entries, in order.
pub open spec fn bag_model<T>(bag: Seq<Parameter<T>>) -> Seq<(Seq<char>, ParamValueModel<T>)> {
    bag.map_values(|p: Parameter<T>| p.model())
}

/// An independent copy of a sequence of plain values.
pub fn copy_values<T: Copy>(v: &Vec<T>) -> (r: Vec<T>)
    ensures
        r@ == v@,
{
    let mut r: Vec<T> = Vec::with_capacity(v.len());
    let mut i: usize = 0;
    while i < v.len()
        invariant
            i <= v.len(),
            r@ == v@.subrange(0, i as int),
        decreases v.len() - i,
    {
        r.push(v[i]);
        i += 1;
    }
    assert(r@ =~= v@);
    r
}

impl<T: Copy> ParamValue<T> {
    /// An independent copy of this value.
    pub fn duplicate(&self) -> (r: Self)
        ensures
            r.model() == self.model(),
    {
        match self {
            ParamValue::Number(x) => ParamValue::Number(*x),
            ParamValue::Sequence(v) => ParamValue::Sequence(copy_values(v)),
            ParamValue::Text(s) => ParamValue::Text(s.clone()),
            ParamValue::Flag(b) => ParamValue::Flag(*b),
        }
    }
}

impl<T: Copy> Parameter<T> {
    /// An independent copy of this entry.
    pub fn duplicate(&self) -> (r: Self)
        ensures
            r.model() == self.model(),
    {
        Parameter { name: self.name.clone(), value: self.value.duplicate() }
    }
}

/// An independent copy of a parameter bag, entry for entry.
pub fn copy_bag<T: Copy>(bag: &Vec<Parameter<T>>) -> (r: Vec<Parameter<T>>)
    ensures
        bag_model(r@) == bag_model(bag@),
{
    let mut r: Vec<Parameter<T>> = Vec::with_capacity(bag.len());
    let mut i: usize = 0;
    while i < bag.len()
        invariant
            i <= bag.len(),
            r@.len() == i,
            forall|j: int| 0 <= j < i ==> #[trigger] r@[j].model() == bag@[j].model(),
        decreases bag.len() - i,
    {
        let p = bag[i].duplicate();
        r.push(p);
        i += 1;
    }
    assert(bag_model(r@) =~= bag_model(bag@));
    r
}

} // verus!
