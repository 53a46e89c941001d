//! The tagged union behind every user-configurable parameter, and the
//! adoption rules that carry a user's settings across a script reload.
//!
//! Scalar values that are fractional in the host UI travel through this
//! crate as IEEE-754 bit patterns (`u32`), compared with the semantics in
//! [`crate::fbits`].

use crate::errors::GolobulError;
use crate::fbits::{spec_lt_bits, spec_lt_bits2, lt_bits, lt_bits2};
use vstd::prelude::*;

verus! {

/// A continuous, range-bounded parameter configuration.
#[derive(Debug, Clone, Copy, PartialEq, Eq)]
pub struct Cfg<T> {
    pub default: T,
    pub current: T,
    pub min: T,
    pub max: T,
}

impl<T: Copy> Cfg<T> {
    /// A configuration whose current value starts at its default.
    pub fn new(default: T, min: T, max: T) -> (r: Cfg<T>)
        ensures
            r.default == default,
            r.current == default,
            r.min == min,
            r.max == max,
    {
        Cfg { current: default, default, min, max }
    }
}

/// A discrete parameter configuration: a current value and its default,
/// with no range to validate against.
#[derive(Debug, Clone, Copy, PartialEq, Eq)]
pub struct DiscreteCfg<T> {
    pub current: T,
    pub default: T,
}

impl<T: Copy> DiscreteCfg<T> {
    /// A configuration whose default is its initial current value.
    pub fn new(current: T) -> (r: DiscreteCfg<T>)
        ensures
            r.current == current,
            r.default == current,
    {
        DiscreteCfg { default: current, current }
    }
}

/// An integer parameter whose values carry names: the `tags` list maps
/// each display name to the integer it stands for, in registration order.
#[derive(Debug, PartialEq)]
pub struct TaggedInt {
    pub value: i32,
    pub default: i32,
    pub tags: Vec<(String, i32)>,
}

/// The mathematical value of a [`TaggedInt`]: its tag names as
/// character sequences.
#[verifier::ext_equal]
pub ghost struct TaggedIntV {
    pub value: i32,
    pub default: i32,
    pub tags: Seq<(Seq<char>, i32)>,
}

impl View for TaggedInt {
    type V = TaggedIntV;

    open spec fn view(&self) -> TaggedIntV {
        TaggedIntV {
            value: self.value,
            default: self.default,
            tags: self.tags@.map_values(|p: (String, i32)| (p.0@, p.1)),
        }
    }
}

impl TaggedInt {
    /// A tagged integer whose value starts at its default.
    pub fn new(default: i32, tags: Vec<(String, i32)>) -> (r: TaggedInt)
        ensures
            r.value == default,
            r.default == default,
            r.tags == tags,
    {
        TaggedInt { value: default, default, tags }
    }
}

/// Which way an image slot faces.
#[derive(Debug, Clone, Copy, PartialEq, Eq, Structural)]
pub enum Image {
    Input,
    Output,
}

/// One user-configurable parameter: its kind, range, and current state.
#[derive(Debug, PartialEq)]
pub enum Variant {
    Image(DiscreteCfg<Image>),
    Bool(DiscreteCfg<bool>),
    TaggedInt(TaggedInt),
    Color(DiscreteCfg<[u32; 4]>),
    Int(Cfg<i32>),
    Float(Cfg<u32>),
    Vector2(Cfg<[u32; 2]>),
}

/// The mathematical value of a [`Variant`].
#[verifier::ext_equal]
pub ghost enum VariantV {
    Image(DiscreteCfg<Image>),
    Bool(DiscreteCfg<bool>),
    TaggedInt(TaggedIntV),
    Color(DiscreteCfg<[u32; 4]>),
    Int(Cfg<i32>),
    Float(Cfg<u32>),
    Vector2(Cfg<[u32; 2]>),
}

impl View for Variant {
    type V = VariantV;

    open spec fn view(&self) -> VariantV {
        match self {
            Variant::Image(c) => VariantV::Image(*c),
            Variant::Bool(c) => VariantV::Bool(*c),
            Variant::TaggedInt(t) => VariantV::TaggedInt(t@),
            Variant::Color(c) => VariantV::Color(*c),
            Variant::Int(c) => VariantV::Int(*c),
            Variant::Float(c) => VariantV::Float(*c),
            Variant::Vector2(c) => VariantV::Vector2(*c),
        }
    }
}

/// True when `tags` holds an entry under `name`.
pub open spec fn spec_has_tag(tags: Seq<(Seq<char>, i32)>, name: Seq<char>) -> bool {
    exists|i: int| 0 <= i < tags.len() && tags[i].0 == name
}

/// True when `k` is the position of the first entry of `tags` that maps
/// some name to `v`.
pub open spec fn spec_is_first_tag_of(tags: Seq<(Seq<char>, i32)>, v: i32, k: int) -> bool {
    &&& 0 <= k < tags.len()
    &&& tags[k].1 == v
    &&& forall|j: int| 0 <= j < k ==> tags[j].1 != v
}

/// True when the incoming tagged value may be carried over: its integer
/// still names a tag (looked up by the first matching name in the
/// incoming tag set), and that name still exists in the current tag set.
pub open spec fn spec_tag_value_survives(cur: TaggedIntV, incoming: TaggedIntV) -> bool {
    exists|k: int|
        spec_is_first_tag_of(incoming.tags, incoming.value, k) && spec_has_tag(
            cur.tags,
            incoming.tags[k].0,
        )
}

/// What adopting `incoming` into `cur` yields, or `None` when the two
/// kinds differ.
///
/// Continuous kinds carry the incoming current value only when it lies
/// strictly inside the open interval `(min, max)` of the current
/// configuration; values exactly on a bound reset to the default, which
/// is this crate's fixed reading of the adoption policy. Discrete kinds
/// (booleans and colors) always carry the incoming value; image slots
/// never carry state across a reload.
pub open spec fn spec_adopt(cur: VariantV, incoming: VariantV) -> Option<VariantV> {
    match (cur, incoming) {
        (VariantV::Image(c), VariantV::Image(_)) => Some(VariantV::Image(c)),
        (VariantV::Bool(c), VariantV::Bool(o)) => Some(
            VariantV::Bool(DiscreteCfg { current: o.current, default: c.default }),
        ),
        (VariantV::TaggedInt(c), VariantV::TaggedInt(o)) => {
            if spec_tag_value_survives(c, o) {
                Some(
                    VariantV::TaggedInt(
                        TaggedIntV { value: o.value, default: c.default, tags: c.tags },
                    ),
                )
            } else {
                Some(VariantV::TaggedInt(c))
            }
        },
        (VariantV::Color(c), VariantV::Color(o)) => Some(
            VariantV::Color(DiscreteCfg { current: o.current, default: c.default }),
        ),
        (VariantV::Int(c), VariantV::Int(o)) => {
            if o.current < c.max && o.current > c.min {
                Some(VariantV::Int(Cfg { current: o.current, ..c }))
            } else {
                Some(VariantV::Int(c))
            }
        },
        (VariantV::Float(c), VariantV::Float(o)) => {
            if spec_lt_bits(o.current, c.max) && spec_lt_bits(c.min, o.current) {
                Some(VariantV::Float(Cfg { current: o.current, ..c }))
            } else {
                Some(VariantV::Float(c))
            }
        },
        (VariantV::Vector2(c), VariantV::Vector2(o)) => {
            if spec_lt_bits2(o.current, c.max) && spec_lt_bits2(c.min, o.current) {
                Some(VariantV::Vector2(Cfg { current: o.current, ..c }))
            } else {
                Some(VariantV::Vector2(c))
            }
        },
        _ => None,
    }
}

impl Variant {
    /// Merges the state of `other`, a parameter saved under the same name,
    /// into this freshly registered parameter, keeping this parameter's
    /// kind, defaults, ranges and tag set. See [`spec_adopt`] for the rule
    /// applied to each kind; two different kinds fail with `TypeMismatch`
    /// and leave this parameter unchanged.
    pub fn adopt(&mut self, other: &Variant) -> (r: Result<(), GolobulError>)
        ensures
            match spec_adopt(old(self)@, other@) {
                Some(v) => r is Ok && final(self)@ == v,
                None => r matches Err(e) && e is TypeMismatch && final(self)@ == old(self)@,
            },
    {
        match (&*self, other) {
            (Variant::Image(_), Variant::Image(_)) => Ok(()),
            (Variant::Bool(c), Variant::Bool(o)) => {
                let next = DiscreteCfg { current: o.current, default: c.default };
                *self = Variant::Bool(next);
                Ok(())
            },
            (Variant::TaggedInt(c), Variant::TaggedInt(o)) => {
                if tag_value_survives(c, o) {
                    let value = o.value;
                    if let Variant::TaggedInt(cur) = self {
                        cur.value = value;
                    }
                }
                Ok(())
            },
            (Variant::Color(c), Variant::Color(o)) => {
                let next = DiscreteCfg { current: o.current, default: c.default };
                *self = Variant::Color(next);
                Ok(())
            },
            (Variant::Int(c), Variant::Int(o)) => {
                if o.current < c.max && o.current > c.min {
                    let next = Cfg { current: o.current, ..*c };
                    *self = Variant::Int(next);
                }
                Ok(())
            },
            (Variant::Float(c), Variant::Float(o)) => {
                if lt_bits(o.current, c.max) && lt_bits(c.min, o.current) {
                    let next = Cfg { current: o.current, ..*c };
                    *self = Variant::Float(next);
                }
                Ok(())
            },
            (Variant::Vector2(c), Variant::Vector2(o)) => {
                if lt_bits2(&o.current, &c.max) && lt_bits2(&c.min, &o.current) {
                    let next = Cfg { current: o.current, ..*c };
                    *self = Variant::Vector2(next);
                }
                Ok(())
            },
            _ => Err(GolobulError::TypeMismatch),
        }
    }
}

/// True when the incoming tagged value still names a tag of `cur`; the
/// executable counterpart of [`spec_tag_value_survives`].
fn tag_value_survives(cur: &TaggedInt, incoming: &TaggedInt) -> (r: bool)
    ensures
        r == spec_tag_value_survives(cur@, incoming@),
{
    let mut k: usize = 0;
    let n = incoming.tags.len();
    while k < n
        invariant
            0 <= k <= n,
            n == incoming.tags.len(),
            forall|j: int| 0 <= j < k ==> incoming@.tags[j].1 != incoming.value,
        decreases n - k,
    {
        if incoming.tags[k].1 == incoming.value {
            let found = has_tag(&cur.tags, &incoming.tags[k].0);
            proof {
                let kk = k as int;
                assert(incoming@.tags[kk].1 == incoming.value);
                assert(spec_is_first_tag_of(incoming@.tags, incoming.value, kk));
                assert(incoming@.tags[kk].0 == incoming.tags@[kk].0@);
                if found {
                    assert(spec_has_tag(cur@.tags, incoming@.tags[kk].0));
                    assert(spec_is_first_tag_of(incoming@.tags, incoming@.value, kk)
                        && spec_has_tag(cur@.tags, incoming@.tags[kk].0));
                    assert(spec_tag_value_survives(cur@, incoming@));
                } else {
                    assert forall|k2: int|
                        !(spec_is_first_tag_of(incoming@.tags, incoming.value, k2)
                            && spec_has_tag(cur@.tags, incoming@.tags[k2].0)) by {
                        if spec_is_first_tag_of(incoming@.tags, incoming.value, k2) {
                            if k2 < kk {
                                assert(incoming@.tags[k2].1 != incoming.value);
                            }
                            if k2 > kk {
                                assert(incoming@.tags[kk].1 != incoming.value);
                            }
                            assert(k2 == kk);
                            assert(!spec_has_tag(cur@.tags, incoming@.tags[k2].0));
                        }
                    }
                    assert(!spec_tag_value_survives(cur@, incoming@));
                }
            }
            return found;
        }
        proof {
            assert(incoming@.tags[k as int].1 == incoming.tags@[k as int].1);
        }
        k = k + 1;
    }
    false
}

/// True when `tags` holds an entry under `name`; the executable
/// counterpart of [`spec_has_tag`].
fn has_tag(tags: &Vec<(String, i32)>, name: &String) -> (r: bool)
    ensures
        r == spec_has_tag(tags@.map_values(|p: (String, i32)| (p.0@, p.1)), name@),
{
    let ghost model = tags@.map_values(|p: (String, i32)| (p.0@, p.1));
    let mut i: usize = 0;
    let n = tags.len();
    while i < n
        invariant
            0 <= i <= n,
            n == tags.len(),
            model == tags@.map_values(|p: (String, i32)| (p.0@, p.1)),
            forall|j: int| 0 <= j < i ==> model[j].0 != name@,
        decreases n - i,
    {
        if tags[i].0 == *name {
            proof {
                assert(model[i as int].0 == tags@[i as int].0@);
            }
            return true;
        }
        proof {
            assert(model[i as int].0 == tags@[i as int].0@);
        }
        i = i + 1;
    }
    false
}

impl Clone for TaggedInt {
    /// A copy with the same mathematical value.
    fn clone(&self) -> (r: TaggedInt)
        ensures
            r@ == self@,
    {
        let mut tags: Vec<(String, i32)> = Vec::new();
        let mut i: usize = 0;
        let n = self.tags.len();
        while i < n
            invariant
                0 <= i <= n,
                n == self.tags.len(),
                tags@.len() == i,
                forall|j: int| 0 <= j < i ==> tags@[j] == self.tags@[j],
            decreases n - i,
        {
            let name = self.tags[i].0.clone();
            let code = self.tags[i].1;
            tags.push((name, code));
            i = i + 1;
        }
        let r = TaggedInt { value: self.value, default: self.default, tags };
        proof {
            assert(r@.tags =~= self@.tags);
            assert(r@ =~= self@);
        }
        r
    }
}

impl Clone for Variant {
    /// A copy with the same mathematical value.
    fn clone(&self) -> (r: Variant)
        ensures
            r@ == self@,
    {
        match self {
            Variant::Image(c) => Variant::Image(*c),
            Variant::Bool(c) => Variant::Bool(*c),
            Variant::TaggedInt(t) => Variant::TaggedInt(t.clone()),
            Variant::Color(c) => Variant::Color(*c),
            Variant::Int(c) => Variant::Int(*c),
            Variant::Float(c) => Variant::Float(*c),
            Variant::Vector2(c) => Variant::Vector2(*c),
        }
    }
}

} // verus!
