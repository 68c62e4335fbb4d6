//! What one source gives for the fields of a specification, and how what
//! two sources give is combined.

use vstd::prelude::*;
use crate::config::{Config, ConfigView};
use crate::value::{
    duplicate_option, kind_of_type, type_max, type_min, value_kind, Value, ValueKind, ValueView};
use crate::views::lemma_deep_view_update;

verus! {

/// What one source gives for the fields of a specification: for each
/// parameter and for each switch, in the order of their declaration, a value
/// or none.
#[derive(Debug)]
pub struct RawLayer {
    pub params: Vec<Option<Value>>,
    pub switches: Vec<Option<Value>>,
}

/// What a [`RawLayer`] stands for in contracts.
pub struct LayerView {
    pub params: Seq<Option<ValueView>>,
    pub switches: Seq<Option<ValueView>>,
}

impl DeepView for RawLayer {
    type V = LayerView;

    open spec fn deep_view(&self) -> LayerView {
        LayerView { params: self.params.deep_view(), switches: self.switches.deep_view() }
    }
}

/// The layer of a source that gives nothing, for a specification with
/// `params` parameters and `switches` switches.
pub open spec fn empty_layer(params: nat, switches: nat) -> LayerView {
    LayerView {
        params: Seq::new(params, |i: int| None::<ValueView>),
        switches: Seq::new(switches, |i: int| None::<ValueView>),
    }
}

/// `n`, or the nearest bound if it lies outside `min..=max`.
pub open spec fn clamped(n: int, min: int, max: int) -> int {
    if n < min {
        min
    } else if n > max {
        max
    } else {
        n
    }
}

/// What the combinators that the fields of a specification declare make
/// of two values. Which combinators there are, and what each makes of the
/// value that is there and the value that comes in, is for the program to
/// say; [`Accumulate`] says it for the combinators that add up.
pub trait Combinators {
    /// What the combinator that a field of the kind `kind` declares as
    /// `merge_fn` makes of the value `old` that is there and the value `new`
    /// that comes in.
    spec fn combined(
        &self,
        merge_fn: Seq<char>,
        kind: ValueKind,
        old: ValueView,
        new: ValueView,
    ) -> ValueView;

    /// Computes [`Combinators::combined`].
    fn combine(&self, merge_fn: &str, kind: ValueKind, old: &Value, new: Value) -> (value: Value)
        ensures
            value.deep_view() == self.combined(merge_fn@, kind, old.deep_view(), new.deep_view()),
    ;
}

/// What a combinator that adds up makes of the value `old` that is there
/// and the value `new` that comes in: numbers are added, and the sum is kept
/// inside the range of the field's type; text is joined, the old in front;
/// values of any other kind are not combined, and the new one stands.
pub open spec fn accumulated(kind: ValueKind, old: ValueView, new: ValueView) -> ValueView {
    match (old, new) {
        (ValueView::Integer(a), ValueView::Integer(b)) => match kind {
            ValueKind::Integer(ty) => ValueView::Integer(
                clamped(a + b, type_min(ty), type_max(ty)),
            ),
            _ => ValueView::Integer(clamped(a + b, i128::MIN as int, i128::MAX as int)),
        },
        (ValueView::Text(a), ValueView::Text(b)) => ValueView::Text(a + b),
        _ => new,
    }
}

/// The combinators of a program all of whose combinators add up: whatever
/// a field declares, its values are combined as [`accumulated`] says.
#[derive(Debug, Clone, Copy)]
pub struct Accumulate;

impl Combinators for Accumulate {
    open spec fn combined(
        &self,
        merge_fn: Seq<char>,
        kind: ValueKind,
        old: ValueView,
        new: ValueView,
    ) -> ValueView {
        accumulated(kind, old, new)
    }

    fn combine(&self, merge_fn: &str, kind: ValueKind, old: &Value, new: Value) -> (value: Value) {
        accumulate(kind, old, new)
    }
}

/// The value of a field after `incoming` was merged into `acc`: where
/// nothing comes in, what was there; where something comes in and the field
/// declares the combinator `merge_fn` and has a value, the two combined by
/// that combinator; else what comes in.
pub open spec fn merged_value<C: Combinators>(
    cs: &C,
    merge_fn: Option<Seq<char>>,
    kind: ValueKind,
    acc: Option<ValueView>,
    incoming: Option<ValueView>,
) -> Option<ValueView> {
    match incoming {
        None => acc,
        Some(new) => match (acc, merge_fn) {
            (Some(old), Some(merge_fn)) => Some(cs.combined(merge_fn, kind, old, new)),
            _ => Some(new),
        },
    }
}

/// The value at the place `i` of `values`; none where there is no such
/// place.
pub open spec fn value_at(values: Seq<Option<ValueView>>, i: int) -> Option<ValueView> {
    if 0 <= i < values.len() {
        values[i]
    } else {
        None
    }
}

/// The combinator that the parameter at the place `i` declares, if it
/// declares one.
pub open spec fn declared_combinator(spec: ConfigView, i: int) -> Option<Seq<char>> {
    if 0 <= i < spec.params.len() {
        spec.params[i].merge_fn
    } else {
        None
    }
}

/// Whether the parameter at the place `i` declares a combinator.
pub open spec fn has_combinator(spec: ConfigView, i: int) -> bool {
    declared_combinator(spec, i) is Some
}

/// How the values of the parameter at the place `i` are read.
pub open spec fn param_kind(spec: ConfigView, i: int) -> ValueKind {
    if 0 <= i < spec.params.len() {
        kind_of_type(spec.params[i].ty)
    } else {
        ValueKind::Text
    }
}

/// The layer `acc` after the layer `incoming` was merged into it, field by
/// field as [`merged_value`] says. Switches have no combinator.
pub open spec fn merged<C: Combinators>(
    cs: &C,
    spec: ConfigView,
    acc: LayerView,
    incoming: LayerView,
) -> LayerView {
    LayerView {
        params: Seq::new(
            acc.params.len(),
            |i: int|
                merged_value(
                    cs,
                    declared_combinator(spec, i),
                    param_kind(spec, i),
                    acc.params[i],
                    value_at(incoming.params, i),
                ),
        ),
        switches: Seq::new(
            acc.switches.len(),
            |i: int|
                merged_value(
                    cs,
                    None,
                    ValueKind::Text,
                    acc.switches[i],
                    value_at(incoming.switches, i),
                ),
        ),
    }
}

/// `layer` after `value` came in for the parameter at the place `i`.
pub open spec fn with_param<C: Combinators>(
    cs: &C,
    spec: ConfigView,
    layer: LayerView,
    i: int,
    value: ValueView,
)
    -> LayerView {
    if 0 <= i < layer.params.len() {
        LayerView {
            params: layer.params.update(
                i,
                merged_value(
                    cs,
                    declared_combinator(spec, i),
                    param_kind(spec, i),
                    layer.params[i],
                    Some(value),
                ),
            ),
            switches: layer.switches,
        }
    } else {
        layer
    }
}

/// `layer` with `value` in the place of whatever the parameter at the place
/// `i` had.
pub open spec fn with_param_replaced(layer: LayerView, i: int, value: ValueView) -> LayerView {
    if 0 <= i < layer.params.len() {
        LayerView { params: layer.params.update(i, Some(value)), switches: layer.switches }
    } else {
        layer
    }
}

/// `layer` with `value` for the switch at the place `i`.
pub open spec fn with_switch(layer: LayerView, i: int, value: ValueView) -> LayerView {
    if 0 <= i < layer.switches.len() {
        LayerView { params: layer.params, switches: layer.switches.update(i, Some(value)) }
    } else {
        layer
    }
}

/// How often the switch with the value `value` was counted.
pub open spec fn count_of(value: Option<ValueView>) -> int {
    match value {
        Some(ValueView::Integer(n)) => n,
        _ => 0,
    }
}

/// `layer` after the switch at the place `i` was counted once more. The
/// count stays inside the range of `u32`.
pub open spec fn with_switch_counted(layer: LayerView, i: int) -> LayerView {
    with_switch(
        layer,
        i,
        ValueView::Integer(clamped(count_of(value_at(layer.switches, i)) + 1, 0, u32::MAX as int)),
    )
}

/// The sum of two numbers, or the nearest number that can be held.
fn saturating_sum(a: i128, b: i128) -> (sum: i128)
    ensures
        sum == clamped(a + b, i128::MIN as int, i128::MAX as int),
{
    if b > 0 && a > i128::MAX - b {
        i128::MAX
    } else if b < 0 && a < i128::MIN - b {
        i128::MIN
    } else {
        a + b
    }
}

/// Computes [`clamped`].
fn clamp(n: i128, min: i128, max: i128) -> (r: i128)
    ensures
        r == clamped(n as int, min as int, max as int),
{
    if n < min {
        min
    } else if n > max {
        max
    } else {
        n
    }
}

/// Computes [`accumulated`].
pub fn accumulate(kind: ValueKind, old: &Value, new: Value) -> (value: Value)
    ensures
        value.deep_view() == accumulated(kind, old.deep_view(), new.deep_view()),
{
    match (old, new) {
        (Value::Integer(a), Value::Integer(b)) => {
            let sum = saturating_sum(*a, b);
            match kind {
                ValueKind::Integer(ty) => Value::Integer(clamp(sum, ty.min(), ty.max())),
                _ => Value::Integer(sum),
            }
        },
        (Value::Text(a), Value::Text(b)) => {
            let mut joined = a.clone();
            joined.append(b.as_str());
            Value::Text(joined)
        },
        (_, new) => new,
    }
}

/// Computes [`merged_value`].
pub fn merge_value<C: Combinators>(
    cs: &C,
    merge_fn: Option<&String>,
    kind: ValueKind,
    acc: &Option<Value>,
    incoming: Option<Value>,
) -> (value: Option<Value>)
    ensures
        value.deep_view() == merged_value(
            cs,
            merge_fn.deep_view(),
            kind,
            acc.deep_view(),
            incoming.deep_view(),
        ),
{
    match incoming {
        None => duplicate_option(acc),
        Some(new) => match (acc, merge_fn) {
            (Some(old), Some(merge_fn)) => Some(cs.combine(merge_fn.as_str(), kind, old, new)),
            _ => Some(new),
        },
    }
}

/// A list of `n` places without a value.
fn absent(n: usize) -> (values: Vec<Option<Value>>)
    ensures
        values.deep_view() == Seq::new(n as nat, |i: int| None::<ValueView>),
{
    let mut values: Vec<Option<Value>> = Vec::new();
    let mut i: usize = 0;
    while i < n
        invariant
            i <= n,
            values.len() == i,
            forall|k: int| 0 <= k < i ==> (#[trigger] values[k]) is None,
        decreases n - i,
    {
        values.push(None);
        i = i + 1;
    }
    proof {
        assert(values.deep_view() =~= Seq::new(n as nat, |i: int| None::<ValueView>));
    }
    values
}

impl RawLayer {
    /// The layer of a source that gives nothing.
    pub fn empty(spec: &Config) -> (layer: RawLayer)
        ensures
            layer.deep_view() == empty_layer(spec.params.len() as nat, spec.switches.len() as nat),
    {
        RawLayer { params: absent(spec.params.len()), switches: absent(spec.switches.len()) }
    }

    /// The combinator that the parameter at the place `i` declares.
    fn combinator_at(spec: &Config, i: usize) -> (combinator: Option<&String>)
        ensures
            combinator.deep_view() == declared_combinator(spec.deep_view(), i as int),
    {
        if i < spec.params.len() {
            spec.params[i].merge_fn.as_ref()
        } else {
            None
        }
    }

    /// How the values of the parameter at the place `i` are read.
    fn kind_at(spec: &Config, i: usize) -> (kind: ValueKind)
        ensures
            kind == param_kind(spec.deep_view(), i as int),
    {
        if i < spec.params.len() {
            value_kind(spec.params[i].ty.as_str())
        } else {
            ValueKind::Text
        }
    }

    /// Merges `other` into this layer: what `other` gives for a field
    /// replaces what this layer has, or is combined with it where the field
    /// declares a combinator and has a value; what `other` does not give
    /// stays as it is.
    pub fn merge_in<C: Combinators>(&mut self, cs: &C, spec: &Config, other: RawLayer)
        ensures
            final(self).deep_view() == merged(
                cs,
                spec.deep_view(),
                old(self).deep_view(),
                other.deep_view(),
            ),
    {
        let ghost acc = self.deep_view();
        let ghost incoming = other.deep_view();
        let ghost goal = merged(cs, spec.deep_view(), acc, incoming);
        let mut params: Vec<Option<Value>> = Vec::new();
        let mut i: usize = 0;
        while i < self.params.len()
            invariant
                i <= self.params.len(),
                *self == *old(self),
                acc == self.deep_view(),
                incoming == other.deep_view(),
                goal == merged(cs, spec.deep_view(), acc, incoming),
                params.len() == i,
                forall|k: int| 0 <= k < i ==> (#[trigger] params[k]).deep_view() == goal.params[k],
            decreases self.params.len() - i,
        {
            let given = if i < other.params.len() {
                duplicate_option(&other.params[i])
            } else {
                None
            };
            let value = merge_value(cs, RawLayer::combinator_at(spec, i),
                RawLayer::kind_at(spec, i),
                &self.params[i],
                given,
            );
            params.push(value);
            i = i + 1;
        }
        let mut switches: Vec<Option<Value>> = Vec::new();
        let mut j: usize = 0;
        while j < self.switches.len()
            invariant
                j <= self.switches.len(),
                *self == *old(self),
                acc == self.deep_view(),
                incoming == other.deep_view(),
                goal == merged(cs, spec.deep_view(), acc, incoming),
                switches.len() == j,
                forall|k: int|
                    0 <= k < j ==> (#[trigger] switches[k]).deep_view() == goal.switches[k],
            decreases self.switches.len() - j,
        {
            let given = if j < other.switches.len() {
                duplicate_option(&other.switches[j])
            } else {
                None
            };
            let value = merge_value(cs, None, ValueKind::Text, &self.switches[j], given);
            switches.push(value);
            j = j + 1;
        }
        proof {
            assert(params.deep_view() =~= goal.params);
            assert(switches.deep_view() =~= goal.switches);
        }
        self.params = params;
        self.switches = switches;
    }

    /// Takes in `value` for the parameter at the place `i`, as a layer that
    /// gives only this value would be merged in.
    pub fn set_param<C: Combinators>(&mut self, cs: &C, spec: &Config, i: usize, value: Value)
        ensures
            final(self).deep_view() == with_param(
                cs,
                spec.deep_view(),
                old(self).deep_view(),
                i as int,
                value.deep_view(),
            ),
    {
        if i < self.params.len() {
            let ghost before = self.params;
            let merged = merge_value(cs, RawLayer::combinator_at(spec, i),
                RawLayer::kind_at(spec, i),
                &self.params[i],
                Some(value),
            );
            self.params.set(i, merged);
            proof {
                lemma_deep_view_update(before, self.params, i as int, merged);
            }
        }
    }

    /// Puts `value` in the place of whatever the parameter at the place `i`
    /// had.
    pub fn replace_param(&mut self, i: usize, value: Value)
        ensures
            final(self).deep_view() == with_param_replaced(
                old(self).deep_view(),
                i as int,
                value.deep_view(),
            ),
    {
        if i < self.params.len() {
            let ghost before = self.params;
            let value = Some(value);
            self.params.set(i, value);
            proof {
                lemma_deep_view_update(before, self.params, i as int, value);
            }
        }
    }

    /// Sets the switch at the place `i`.
    pub fn set_switch(&mut self, i: usize, value: Value)
        ensures
            final(self).deep_view() == with_switch(
                old(self).deep_view(),
                i as int,
                value.deep_view(),
            ),
    {
        if i < self.switches.len() {
            let ghost before = self.switches;
            let value = Some(value);
            self.switches.set(i, value);
            proof {
                lemma_deep_view_update(before, self.switches, i as int, value);
            }
        }
    }

    /// Counts the switch at the place `i` once more.
    pub fn count_switch(&mut self, i: usize)
        ensures
            final(self).deep_view() == with_switch_counted(old(self).deep_view(), i as int),
    {
        if i < self.switches.len() {
            let count: i128 = match &self.switches[i] {
                Some(Value::Integer(n)) => *n,
                _ => 0,
            };
            let next = clamp(saturating_sum(count, 1), 0, 0xffff_ffff);
            self.set_switch(i, Value::Integer(next));
        }
    }

    /// The value of the parameter at the place `i`, if the layer has one.
    pub fn param(&self, i: usize) -> (value: Option<&Value>)
        ensures
            value.deep_view() == value_at(self.deep_view().params, i as int),
    {
        if i < self.params.len() {
            self.params[i].as_ref()
        } else {
            None
        }
    }

    /// The value of the switch at the place `i`, if the layer has one.
    pub fn switch(&self, i: usize) -> (value: Option<&Value>)
        ensures
            value.deep_view() == value_at(self.deep_view().switches, i as int),
    {
        if i < self.switches.len() {
            self.switches[i].as_ref()
        } else {
            None
        }
    }

    /// A copy of the layer.
    pub fn duplicate(&self) -> (copy: RawLayer)
        ensures
            copy.deep_view() == self.deep_view(),
    {
        let mut params: Vec<Option<Value>> = Vec::new();
        let mut i: usize = 0;
        while i < self.params.len()
            invariant
                i <= self.params.len(),
                params.len() == i,
                forall|k: int|
                    0 <= k < i ==> (#[trigger] params[k]).deep_view() == self.params[k].deep_view(),
            decreases self.params.len() - i,
        {
            params.push(duplicate_option(&self.params[i]));
            i = i + 1;
        }
        let mut switches: Vec<Option<Value>> = Vec::new();
        let mut j: usize = 0;
        while j < self.switches.len()
            invariant
                j <= self.switches.len(),
                switches.len() == j,
                forall|k: int|
                    0 <= k < j ==> (#[trigger] switches[k]).deep_view()
                        == self.switches[k].deep_view(),
            decreases self.switches.len() - j,
        {
            switches.push(duplicate_option(&self.switches[j]));
            j = j + 1;
        }
        proof {
            assert(params.deep_view() =~= self.params.deep_view());
            assert(switches.deep_view() =~= self.switches.deep_view());
        }
        RawLayer { params, switches }
    }
}

/// Merging in a layer that gives nothing changes nothing.
pub proof fn merging_nothing_changes_nothing<C: Combinators>(
    cs: &C,
    spec: ConfigView,
    acc: LayerView,
    incoming: LayerView,
)
    requires
        forall|i: int| 0 <= i < incoming.params.len() ==> (#[trigger] incoming.params[i]) is None,
        forall|i: int|
            0 <= i < incoming.switches.len() ==> (#[trigger] incoming.switches[i]) is None,
    ensures
        merged(cs, spec, acc, incoming) == acc,
{
    assert(merged(cs, spec, acc, incoming).params =~= acc.params);
    assert(merged(cs, spec, acc, incoming).switches =~= acc.switches);
}

/// What comes in for a field without a combinator replaces what was there,
/// and what does not come in leaves it as it was.
pub proof fn incoming_overwrites<C: Combinators>(
    cs: &C,
    spec: ConfigView,
    acc: LayerView,
    incoming: LayerView,
    i: int,
)
    requires
        0 <= i < acc.params.len(),
        !has_combinator(spec, i),
    ensures
        merged(cs, spec, acc, incoming).params[i] == match value_at(incoming.params, i) {
            Some(value) => Some(value),
            None => acc.params[i],
        },
{
}

/// What comes in for a field with a combinator and a value is combined
/// with that value.
pub proof fn incoming_is_combined<C: Combinators>(
    cs: &C,
    spec: ConfigView,
    acc: LayerView,
    incoming: LayerView,
    i: int,
)
    requires
        0 <= i < acc.params.len(),
        has_combinator(spec, i),
        acc.params[i] is Some,
        value_at(incoming.params, i) is Some,
    ensures
        merged(cs, spec, acc, incoming).params[i] == Some(
            cs.combined(
                declared_combinator(spec, i)->0,
                param_kind(spec, i),
                acc.params[i]->0,
                value_at(incoming.params, i)->0,
            ),
        ),
{
}

} // verus!
