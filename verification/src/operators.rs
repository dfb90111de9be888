//! Scalar projections, logical aggregate projections, and the windowed
//! group-by assembler that merges a grouping-key schema with an
//! aggregate-result schema, materializing the window's boundaries into a
//! dedicated field.

use vstd::prelude::*;

use crate::expressions::{AggregationExpression, Expression};
use crate::schema::{
    clone_flat_type, clone_opt_string, clone_string, field_like, opt_string_eq, Column, StructDef,
    StructField, TypeDef,
};

verus! {

/// An ordered list of named scalar computations over an input row,
/// defining one output row: a projection with no aggregation.
#[derive(Debug)]
pub struct Projection {
    pub field_names: Vec<Column>,
    pub field_computations: Vec<Expression>,
}

/// The names and computations that survive dropping every field whose
/// computation yields the window-interval type, order preserved.
pub open spec fn spec_without_window(names: Seq<Column>, comps: Seq<Expression>) -> (
    Seq<Column>,
    Seq<Expression>,
)
    decreases comps.len(),
{
    if comps.len() == 0 || names.len() != comps.len() {
        (names, comps)
    } else {
        let (tn, tc) = spec_without_window(names.drop_last(), comps.drop_last());
        if comps.last().data_type is Window {
            (tn, tc)
        } else {
            (tn.push(names.last()), tc.push(comps.last()))
        }
    }
}

impl Projection {
    /// Names and computations are positionally aligned.
    pub open spec fn wf(self) -> bool {
        self.field_names@.len() == self.field_computations@.len()
    }

    /// The number of projected fields.
    pub open spec fn len(self) -> int {
        self.field_computations@.len() as int
    }

    /// Drops every field whose computation yields the window-interval
    /// type, keeping the remaining name/computation pairs in order.
    #[verifier::loop_isolation(false)]
    pub fn without_window(self) -> (r: Projection)
        requires
            self.wf(),
        ensures
            r.wf(),
            (r.field_names@, r.field_computations@) == spec_without_window(
                self.field_names@,
                self.field_computations@,
            ),
    {
        let ghost orig_names = self.field_names@;
        let ghost orig_comps = self.field_computations@;
        let n = self.field_computations.len();
        let mut names = self.field_names;
        let mut comps = self.field_computations;
        let mut out_names: Vec<Column> = Vec::new();
        let mut out_comps: Vec<Expression> = Vec::new();
        let mut i: usize = 0;
        while i < n
            invariant
                i <= n,
                names@ == orig_names.subrange(i as int, n as int),
                comps@ == orig_comps.subrange(i as int, n as int),
                out_names@.len() == out_comps@.len(),
                (out_names@, out_comps@) == spec_without_window(
                    orig_names.subrange(0, i as int),
                    orig_comps.subrange(0, i as int),
                ),
            decreases n - i,
        {
            proof {
                assert(names@[0] == orig_names[i as int]);
                assert(comps@[0] == orig_comps[i as int]);
                assert(names@.remove(0) =~= orig_names.subrange(i as int + 1, n as int));
                assert(comps@.remove(0) =~= orig_comps.subrange(i as int + 1, n as int));
                assert(orig_names.subrange(0, i as int + 1).drop_last() =~= orig_names.subrange(
                    0,
                    i as int,
                ));
                assert(orig_comps.subrange(0, i as int + 1).drop_last() =~= orig_comps.subrange(
                    0,
                    i as int,
                ));
                assert(orig_names.subrange(0, i as int + 1).last() == orig_names[i as int]);
                assert(orig_comps.subrange(0, i as int + 1).last() == orig_comps[i as int]);
            }
            let name = names.remove(0);
            let comp = comps.remove(0);
            match &comp.data_type {
                TypeDef::Window => {},
                _ => {
                    out_names.push(name);
                    out_comps.push(comp);
                },
            }
            i += 1;
        }
        proof {
            assert(orig_names.subrange(0, n as int) =~= orig_names);
            assert(orig_comps.subrange(0, n as int) =~= orig_comps);
        }
        Projection { field_names: out_names, field_computations: out_comps }
    }

    /// The output row schema: one field per computation, named by its
    /// column, typed by the computation's return type.
    #[verifier::loop_isolation(false)]
    pub fn output_struct(&self) -> (r: StructDef)
        requires
            self.wf(),
            forall|i: int|
                0 <= i < self.len() ==> (
                #[trigger] self.field_computations@[i]).data_type.is_flat(),
        ensures
            r.name is None,
            r.fields@.len() == self.len(),
            forall|i: int|
                0 <= i < self.len() ==> {
                    &&& (#[trigger] r.fields@[i]).name@ == self.field_names@[i].name@
                    &&& opt_string_eq(r.fields@[i].alias, self.field_names@[i].relation)
                    &&& r.fields@[i].data_type == self.field_computations@[i].data_type
                },
            r.wf(),
    {
        let n = self.field_computations.len();
        let mut fields: Vec<StructField> = Vec::new();
        let mut i: usize = 0;
        while i < n
            invariant
                i <= n,
                fields@.len() == i,
                forall|j: int|
                    0 <= j < i ==> {
                        &&& (#[trigger] fields@[j]).name@ == self.field_names@[j].name@
                        &&& opt_string_eq(fields@[j].alias, self.field_names@[j].relation)
                        &&& fields@[j].data_type == self.field_computations@[j].data_type
                    },
            decreases n - i,
        {
            let col = &self.field_names[i];
            let comp = &self.field_computations[i];
            fields.push(
                StructField {
                    name: clone_string(&col.name),
                    alias: clone_opt_string(&col.relation),
                    data_type: clone_flat_type(&comp.data_type),
                },
            );
            i += 1;
        }
        StructDef { name: None, fields }
    }

    /// The schema of the first `terms` fields only.
    #[verifier::loop_isolation(false)]
    pub fn truncated_return_type(&self, terms: usize) -> (r: StructDef)
        requires
            self.wf(),
            forall|i: int|
                0 <= i < self.len() ==> (
                #[trigger] self.field_computations@[i]).data_type.is_flat(),
        ensures
            r.name is None,
            r.fields@.len() == if terms as int <= self.len() {
                terms as int
            } else {
                self.len()
            },
            forall|i: int|
                0 <= i < r.fields@.len() ==> {
                    &&& (#[trigger] r.fields@[i]).name@ == self.field_names@[i].name@
                    &&& opt_string_eq(r.fields@[i].alias, self.field_names@[i].relation)
                    &&& r.fields@[i].data_type == self.field_computations@[i].data_type
                },
            r.wf(),
    {
        let n = self.field_computations.len();
        let m = if terms <= n {
            terms
        } else {
            n
        };
        let mut fields: Vec<StructField> = Vec::new();
        let mut i: usize = 0;
        while i < m
            invariant
                i <= m,
                fields@.len() == i,
                forall|j: int|
                    0 <= j < i ==> {
                        &&& (#[trigger] fields@[j]).name@ == self.field_names@[j].name@
                        &&& opt_string_eq(fields@[j].alias, self.field_names@[j].relation)
                        &&& fields@[j].data_type == self.field_computations@[j].data_type
                    },
            decreases m - i,
        {
            let col = &self.field_names[i];
            let comp = &self.field_computations[i];
            fields.push(
                StructField {
                    name: clone_string(&col.name),
                    alias: clone_opt_string(&col.relation),
                    data_type: clone_flat_type(&comp.data_type),
                },
            );
            i += 1;
        }
        StructDef { name: None, fields }
    }

    /// Builds one output row from the evaluated field computations: the
    /// values pass through in field order.
    #[verifier::loop_isolation(false)]
    pub fn construct_row(&self, values: &Vec<Option<i64>>) -> (r: Vec<Option<i64>>)
        requires
            self.wf(),
            values@.len() == self.len(),
        ensures
            r@ == values@,
    {
        self.construct_truncated_row(values, values.len())
    }

    /// Builds the output row of the first `terms` fields only from the
    /// evaluated field computations.
    #[verifier::loop_isolation(false)]
    pub fn construct_truncated_row(&self, values: &Vec<Option<i64>>, terms: usize) -> (r: Vec<
        Option<i64>,
    >)
        requires
            self.wf(),
            values@.len() == self.len(),
        ensures
            r@ == values@.subrange(
                0,
                if terms as int <= self.len() {
                    terms as int
                } else {
                    self.len()
                },
            ),
    {
        let n = values.len();
        let m = if terms <= n {
            terms
        } else {
            n
        };
        let mut out: Vec<Option<i64>> = Vec::new();
        let mut i: usize = 0;
        while i < m
            invariant
                i <= m,
                out@.len() == i,
                forall|j: int| 0 <= j < i ==> #[trigger] out@[j] == values@[j],
            decreases m - i,
        {
            out.push(values[i]);
            i += 1;
        }
        proof {
            assert(out@ =~= values@.subrange(0, m as int));
        }
        out
    }

    /// The projection's type as a whole: its output schema as a
    /// non-nullable composite type.
    pub fn return_type(&self) -> (r: TypeDef)
        requires
            self.wf(),
            forall|i: int|
                0 <= i < self.len() ==> (
                #[trigger] self.field_computations@[i]).data_type.is_flat(),
        ensures
            r matches TypeDef::Struct(s, nullable) ==> {
                &&& !nullable
                &&& s.fields@.len() == self.len()
                &&& forall|i: int|
                    0 <= i < self.len() ==> {
                        &&& (#[trigger] s.fields@[i]).name@ == self.field_names@[i].name@
                        &&& opt_string_eq(s.fields@[i].alias, self.field_names@[i].relation)
                        &&& s.fields@[i].data_type == self.field_computations@[i].data_type
                    }
            },
            r is Struct,
    {
        TypeDef::Struct(self.output_struct(), false)
    }
}

/// An ordered list of named aggregate expressions: the logical
/// (pre-optimization) aggregate clause of a query.
#[derive(Debug)]
pub struct AggregateProjection {
    pub field_names: Vec<Column>,
    pub field_computations: Vec<AggregationExpression>,
}

impl AggregateProjection {
    /// Names and computations are positionally aligned and every
    /// aggregate's types pass the upstream checker.
    pub open spec fn wf(self) -> bool {
        &&& self.field_names@.len() == self.field_computations@.len()
        &&& forall|i: int|
            0 <= i < self.field_computations@.len() ==> (
            #[trigger] self.field_computations@[i]).types_ok()
    }

    /// The number of aggregate fields.
    pub open spec fn len(self) -> int {
        self.field_computations@.len() as int
    }

    /// The output row schema: one field per aggregate, named by its
    /// column, typed by the aggregate's return type.
    #[verifier::loop_isolation(false)]
    pub fn output_struct(&self) -> (r: StructDef)
        requires
            self.wf(),
        ensures
            r.name is None,
            r.fields@.len() == self.len(),
            forall|i: int|
                0 <= i < self.len() ==> {
                    &&& (#[trigger] r.fields@[i]).name@ == self.field_names@[i].name@
                    &&& opt_string_eq(r.fields@[i].alias, self.field_names@[i].relation)
                    &&& r.fields@[i].data_type == self.field_computations@[i].spec_return_type()
                },
    {
        let n = self.field_computations.len();
        let mut fields: Vec<StructField> = Vec::new();
        let mut i: usize = 0;
        while i < n
            invariant
                i <= n,
                fields@.len() == i,
                forall|j: int|
                    0 <= j < i ==> {
                        &&& (#[trigger] fields@[j]).name@ == self.field_names@[j].name@
                        &&& opt_string_eq(fields@[j].alias, self.field_names@[j].relation)
                        &&& fields@[j].data_type
                            == self.field_computations@[j].spec_return_type()
                    },
            decreases n - i,
        {
            let col = &self.field_names[i];
            let comp = &self.field_computations[i];
            fields.push(
                StructField {
                    name: clone_string(&col.name),
                    alias: clone_opt_string(&col.relation),
                    data_type: comp.return_type(),
                },
            );
            i += 1;
        }
        StructDef { name: None, fields }
    }

    /// The projection's type as a whole: its output schema as a
    /// non-nullable composite type.
    pub fn return_type(&self) -> (r: TypeDef)
        requires
            self.wf(),
        ensures
            r matches TypeDef::Struct(s, nullable) ==> {
                &&& !nullable
                &&& s.fields@.len() == self.len()
                &&& forall|i: int|
                    0 <= i < self.len() ==> {
                        &&& (#[trigger] s.fields@[i]).name@ == self.field_names@[i].name@
                        &&& opt_string_eq(s.fields@[i].alias, self.field_names@[i].relation)
                        &&& s.fields@[i].data_type
                            == self.field_computations@[i].spec_return_type()
                    }
            },
            r is Struct,
    {
        TypeDef::Struct(self.output_struct(), false)
    }
}

/// A window's shape: a fixed non-overlapping partition, an overlapping
/// partition advancing by a slide, or a per-event instant whose width is
/// treated as zero. Durations are in nanoseconds.
#[derive(Clone, Copy, PartialEq, Eq, Structural, Debug)]
pub enum WindowType {
    Tumbling { width: i64 },
    Sliding { width: i64, slide: i64 },
    Instant,
}

/// The width a window contributes to its boundary arithmetic: zero for an
/// instant window.
pub open spec fn spec_window_width(w: WindowType) -> int {
    match w {
        WindowType::Tumbling { width } => width as int,
        WindowType::Sliding { width, slide } => width as int,
        WindowType::Instant => 0,
    }
}

/// The half-open interval `[start, end)` a window covers at event time
/// `timestamp`, at nanosecond granularity: `start = timestamp - width +
/// 1ns` and `end = timestamp + 1ns`. The one-nanosecond epsilon makes the
/// upper bound exclusive and the lower bound inclusive while using
/// closed-interval arithmetic; the surrounding runtime's watermark
/// comparisons depend on these exact boundaries.
pub fn window_interval(timestamp: i64, width: i64) -> (r: (i64, i64))
    requires
        width >= 0,
        i64::MIN <= timestamp - width,
        timestamp + 1 <= i64::MAX,
    ensures
        r.0 as int == timestamp - width + 1,
        r.1 as int == timestamp + 1,
{
    (timestamp - width + 1, timestamp + 1)
}

/// One value of an output row: a scalar, possibly null, or the
/// materialized window interval.
#[derive(Clone, Copy, PartialEq, Eq, Debug)]
pub enum RowValue {
    Data(Option<i64>),
    Window { start: i64, end: i64 },
}

/// How a grouped query shapes its output row: keys then aggregates, or
/// the same with a synthesized window field inserted among the keys.
#[derive(Debug)]
pub enum GroupByKind {
    Basic,
    WindowOutput { index: usize, column: Column, window_type: WindowType },
}

impl GroupByKind {
    /// Merges the grouping-key schema and the aggregate-result schema into
    /// the output schema: key fields then aggregate fields, order
    /// preserved; a windowed group-by inserts the synthesized
    /// window-interval field at its index within the key-field region.
    #[verifier::loop_isolation(false)]
    pub fn output_struct(&self, key_struct: &StructDef, aggregate_struct: &StructDef) -> (r:
        StructDef)
        requires
            key_struct.wf(),
            aggregate_struct.wf(),
            key_struct.fields@.len() + aggregate_struct.fields@.len() + 1 <= usize::MAX,
            self matches GroupByKind::WindowOutput { index, .. } ==> index as int
                <= key_struct.fields@.len(),
        ensures
            r.name is None,
            r.wf(),
            match self {
                GroupByKind::Basic => {
                    let k = key_struct.fields@.len() as int;
                    let a = aggregate_struct.fields@.len() as int;
                    &&& r.fields@.len() == k + a
                    &&& forall|i: int|
                        0 <= i < k ==> field_like(#[trigger] r.fields@[i], key_struct.fields@[i])
                    &&& forall|i: int|
                        k <= i < k + a ==> field_like(
                            #[trigger] r.fields@[i],
                            aggregate_struct.fields@[i - k],
                        )
                },
                GroupByKind::WindowOutput { index, column, window_type } => {
                    let k = key_struct.fields@.len() as int;
                    let a = aggregate_struct.fields@.len() as int;
                    &&& r.fields@.len() == k + a + 1
                    &&& r.fields@[index as int].name@ == column.name@
                    &&& opt_string_eq(r.fields@[index as int].alias, column.relation)
                    &&& r.fields@[index as int].data_type is Window
                    &&& forall|i: int|
                        0 <= i < index as int ==> field_like(
                            #[trigger] r.fields@[i],
                            key_struct.fields@[i],
                        )
                    &&& forall|i: int|
                        (index as int) < i < k + 1 ==> field_like(
                            #[trigger] r.fields@[i],
                            key_struct.fields@[i - 1],
                        )
                    &&& forall|i: int|
                        k + 1 <= i < k + a + 1 ==> field_like(
                            #[trigger] r.fields@[i],
                            aggregate_struct.fields@[i - k - 1],
                        )
                },
            },
    {
        let k = key_struct.fields.len();
        let a = aggregate_struct.fields.len();
        let mut fields: Vec<StructField> = Vec::new();
        match self {
            GroupByKind::WindowOutput { index, column, window_type: _ } => {
                let mut i: usize = 0;
                while i < k + a + 1
                    invariant
                        i <= k + a + 1,
                        fields@.len() == i,
                        forall|j: int|
                            0 <= j < i && j < *index as int ==> field_like(
                                #[trigger] fields@[j],
                                key_struct.fields@[j],
                            ),
                        (*index as int) < i ==> {
                            &&& fields@[*index as int].name@ == column.name@
                            &&& opt_string_eq(fields@[*index as int].alias, column.relation)
                            &&& fields@[*index as int].data_type is Window
                        },
                        forall|j: int|
                            (*index as int) < j < i && j < k + 1 ==> field_like(
                                #[trigger] fields@[j],
                                key_struct.fields@[j - 1],
                            ),
                        forall|j: int|
                            k + 1 <= j < i ==> field_like(
                                #[trigger] fields@[j],
                                aggregate_struct.fields@[j - k - 1],
                            ),
                    decreases k + a + 1 - i,
                {
                    if i < k + 1 {
                        if i == *index {
                            fields.push(
                                StructField {
                                    name: clone_string(&column.name),
                                    alias: clone_opt_string(&column.relation),
                                    data_type: TypeDef::Window,
                                },
                            );
                        } else if i < *index {
                            fields.push(key_struct.fields[i].clone_field());
                        } else {
                            fields.push(key_struct.fields[i - 1].clone_field());
                        }
                    } else {
                        fields.push(aggregate_struct.fields[i - k - 1].clone_field());
                    }
                    i += 1;
                }
                let r = StructDef { name: None, fields };
                proof {
                    assert(r.fields@[*index as int].name@ == column.name@);
                }
                r
            },
            GroupByKind::Basic => {
                let mut i: usize = 0;
                while i < k + a
                    invariant
                        i <= k + a,
                        fields@.len() == i,
                        forall|j: int|
                            0 <= j < i && j < k ==> field_like(
                                #[trigger] fields@[j],
                                key_struct.fields@[j],
                            ),
                        forall|j: int|
                            k <= j < i ==> field_like(
                                #[trigger] fields@[j],
                                aggregate_struct.fields@[j - k],
                            ),
                    decreases k + a - i,
                {
                    if i < k {
                        fields.push(key_struct.fields[i].clone_field());
                    } else {
                        fields.push(aggregate_struct.fields[i - k].clone_field());
                    }
                    i += 1;
                }
                StructDef { name: None, fields }
            },
        }
    }

    /// Builds one output row: key values then aggregate values copied in
    /// order; a windowed group-by inserts the materialized window interval
    /// of the event's timestamp at its index. Values are in nanoseconds.
    #[verifier::loop_isolation(false)]
    pub fn construct_row(
        &self,
        key: &Vec<Option<i64>>,
        aggregate: &Vec<Option<i64>>,
        timestamp: i64,
    ) -> (r: Vec<RowValue>)
        requires
            key@.len() + aggregate@.len() + 1 <= usize::MAX,
            self matches GroupByKind::WindowOutput { index, column, window_type } ==> {
                &&& index as int <= key@.len()
                &&& spec_window_width(*window_type) >= 0
                &&& i64::MIN <= timestamp - spec_window_width(*window_type)
                &&& timestamp + 1 <= i64::MAX
            },
        ensures
            match self {
                GroupByKind::Basic => {
                    let k = key@.len() as int;
                    let a = aggregate@.len() as int;
                    &&& r@.len() == k + a
                    &&& forall|i: int|
                        0 <= i < k ==> #[trigger] r@[i] == RowValue::Data(key@[i])
                    &&& forall|i: int|
                        k <= i < k + a ==> #[trigger] r@[i] == RowValue::Data(aggregate@[i - k])
                },
                GroupByKind::WindowOutput { index, column, window_type } => {
                    let k = key@.len() as int;
                    let a = aggregate@.len() as int;
                    let w = spec_window_width(*window_type);
                    &&& r@.len() == k + a + 1
                    &&& r@[index as int] == (RowValue::Window {
                        start: (timestamp - w + 1) as i64,
                        end: (timestamp + 1) as i64,
                    })
                    &&& forall|i: int|
                        0 <= i < index as int ==> #[trigger] r@[i] == RowValue::Data(key@[i])
                    &&& forall|i: int|
                        (index as int) < i < k + 1 ==> #[trigger] r@[i] == RowValue::Data(
                            key@[i - 1],
                        )
                    &&& forall|i: int|
                        k + 1 <= i < k + a + 1 ==> #[trigger] r@[i] == RowValue::Data(
                            aggregate@[i - k - 1],
                        )
                },
            },
    {
        let k = key.len();
        let a = aggregate.len();
        let mut out: Vec<RowValue> = Vec::new();
        match self {
            GroupByKind::WindowOutput { index, column: _, window_type } => {
                let width: i64 = match window_type {
                    WindowType::Tumbling { width } => *width,
                    WindowType::Sliding { width, slide: _ } => *width,
                    WindowType::Instant => 0,
                };
                let interval = window_interval(timestamp, width);
                let mut i: usize = 0;
                while i < k + a + 1
                    invariant
                        i <= k + a + 1,
                        out@.len() == i,
                        forall|j: int|
                            0 <= j < i && j < *index as int ==> #[trigger] out@[j]
                                == RowValue::Data(key@[j]),
                        (*index as int) < i ==> out@[*index as int] == (RowValue::Window {
                            start: interval.0,
                            end: interval.1,
                        }),
                        forall|j: int|
                            (*index as int) < j < i && j < k + 1 ==> #[trigger] out@[j]
                                == RowValue::Data(key@[j - 1]),
                        forall|j: int|
                            k + 1 <= j < i ==> #[trigger] out@[j] == RowValue::Data(
                                aggregate@[j - k - 1],
                            ),
                    decreases k + a + 1 - i,
                {
                    if i < k + 1 {
                        if i == *index {
                            out.push(RowValue::Window { start: interval.0, end: interval.1 });
                        } else if i < *index {
                            out.push(RowValue::Data(key[i]));
                        } else {
                            out.push(RowValue::Data(key[i - 1]));
                        }
                    } else {
                        out.push(RowValue::Data(aggregate[i - k - 1]));
                    }
                    i += 1;
                }
                out
            },
            GroupByKind::Basic => {
                let mut i: usize = 0;
                while i < k + a
                    invariant
                        i <= k + a,
                        out@.len() == i,
                        forall|j: int|
                            0 <= j < i && j < k ==> #[trigger] out@[j] == RowValue::Data(key@[j]),
                        forall|j: int|
                            k <= j < i ==> #[trigger] out@[j] == RowValue::Data(
                                aggregate@[j - k],
                            ),
                    decreases k + a - i,
                {
                    if i < k {
                        out.push(RowValue::Data(key[i]));
                    } else {
                        out.push(RowValue::Data(aggregate[i - k]));
                    }
                    i += 1;
                }
                out
            },
        }
    }
}

} // verus!
