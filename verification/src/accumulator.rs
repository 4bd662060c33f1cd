//! The accumulation pipeline: rows are validated against the schema and
//! appended into column buffers; full windows are handed out as batches.
//!
//! A row either fully succeeds (exactly one entry lands in every column) or
//! is fully skipped; the first field that fails, in schema order, names the
//! row's rejection reason.

use vstd::prelude::*;
use crate::engine::json::{JsonValue, spec_lookup, lookup};
use crate::engine::schema::{
    Cell, CellModel, Column, ColumnType, Field, ScalarType, Schema, columns_match,
    make_builders,
};

verus! {

/// Why a row was rejected, or why the pipeline failed.
///
/// The first four variants are per-row and recoverable; `Parquet` and `Io`
/// are fatal storage faults reported by the flush path.
#[derive(Debug, Clone, PartialEq)]
pub enum Error {
    ObjectExpected,
    HomogeneousArrayExpected(String),
    MissingField(String),
    TypeMismatch(String),
    Parquet(String),
    Io(String),
}

/// Every element is a string.
pub open spec fn all_str(elems: Seq<JsonValue>) -> bool {
    forall|i: int| 0 <= i < elems.len() ==> elems[i] is Str
}

/// The strings of a sequence of string elements.
pub open spec fn str_items(elems: Seq<JsonValue>) -> Seq<String> {
    elems.map_values(
        |e: JsonValue|
            match e {
                JsonValue::Str(s) => s,
                _ => vstd::pervasive::arbitrary(),
            },
    )
}

/// Every element is a number representable as a signed 64-bit integer.
pub open spec fn all_i64(elems: Seq<JsonValue>) -> bool {
    forall|i: int|
        0 <= i < elems.len() ==> ((#[trigger] elems[i]) matches JsonValue::Num(n) && n.spec_is_i64())
}

/// The integers of a sequence of integer elements.
pub open spec fn i64_items(elems: Seq<JsonValue>) -> Seq<i64> {
    elems.map_values(
        |e: JsonValue|
            match e {
                JsonValue::Num(n) => n.spec_as_i64(),
                _ => vstd::pervasive::arbitrary(),
            },
    )
}

/// Every element is a number written in floating-point form.
pub open spec fn all_f64(elems: Seq<JsonValue>) -> bool {
    forall|i: int|
        0 <= i < elems.len() ==> ((#[trigger] elems[i]) matches JsonValue::Num(n) && n.spec_is_f64())
}

/// The float bit patterns of a sequence of float elements.
pub open spec fn f64_items(elems: Seq<JsonValue>) -> Seq<u64> {
    elems.map_values(
        |e: JsonValue|
            match e {
                JsonValue::Num(n) => n.spec_f64_bits(),
                _ => vstd::pervasive::arbitrary(),
            },
    )
}

/// Every element is a boolean.
pub open spec fn all_bool(elems: Seq<JsonValue>) -> bool {
    forall|i: int| 0 <= i < elems.len() ==> elems[i] is Bool
}

/// The booleans of a sequence of boolean elements.
pub open spec fn bool_items(elems: Seq<JsonValue>) -> Seq<bool> {
    elems.map_values(
        |e: JsonValue|
            match e {
                JsonValue::Bool(b) => b,
                _ => vstd::pervasive::arbitrary(),
            },
    )
}

/// The entry a homogeneous array yields for a list field with the given
/// inner type, or the rejection it earns.
pub open spec fn spec_list_cell(name: String, inner: ScalarType, elems: Seq<JsonValue>) -> Result<
    CellModel,
    Error,
> {
    match inner {
        ScalarType::Str => if all_str(elems) {
            Ok(CellModel::ListStr(str_items(elems)))
        } else {
            Err(Error::HomogeneousArrayExpected(name))
        },
        ScalarType::Int64 => if all_i64(elems) {
            Ok(CellModel::ListI64(i64_items(elems)))
        } else {
            Err(Error::HomogeneousArrayExpected(name))
        },
        ScalarType::Float64 => if all_f64(elems) {
            Ok(CellModel::ListF64(f64_items(elems)))
        } else {
            Err(Error::HomogeneousArrayExpected(name))
        },
        ScalarType::Boolean => if all_bool(elems) {
            Ok(CellModel::ListBool(bool_items(elems)))
        } else {
            Err(Error::HomogeneousArrayExpected(name))
        },
    }
}

/// The entry one field contributes for a row, or the rejection it earns:
/// an absent entry is null for a nullable field and a missing-field
/// rejection otherwise; a present entry must match the field's type.
pub open spec fn spec_field_cell(f: Field, pairs: Seq<(String, JsonValue)>) -> Result<
    CellModel,
    Error,
> {
    match spec_lookup(pairs, f.name@) {
        None => if f.nullable {
            Ok(CellModel::Null)
        } else {
            Err(Error::MissingField(f.name))
        },
        Some(v) => match f.ty {
            ColumnType::Scalar(ScalarType::Str) => match v {
                JsonValue::Str(s) => Ok(CellModel::Str(s)),
                _ => Err(Error::TypeMismatch(f.name)),
            },
            ColumnType::Scalar(ScalarType::Int64) => match v {
                JsonValue::Num(n) => if n.spec_is_i64() {
                    Ok(CellModel::I64(n.spec_as_i64()))
                } else {
                    Err(Error::TypeMismatch(f.name))
                },
                _ => Err(Error::TypeMismatch(f.name)),
            },
            ColumnType::Scalar(ScalarType::Float64) => match v {
                JsonValue::Num(n) => Ok(CellModel::F64(n.spec_f64_bits())),
                _ => Err(Error::TypeMismatch(f.name)),
            },
            ColumnType::Scalar(ScalarType::Boolean) => match v {
                JsonValue::Bool(b) => Ok(CellModel::Bool(b)),
                _ => Err(Error::TypeMismatch(f.name)),
            },
            ColumnType::List(inner) => match v {
                JsonValue::Arr(a) => spec_list_cell(f.name, inner, a@),
                _ => Err(Error::TypeMismatch(f.name)),
            },
        },
    }
}

/// A field's entry always fits the field's declared type.
pub proof fn lemma_field_cell_fits(f: Field, pairs: Seq<(String, JsonValue)>)
    ensures
        spec_field_cell(f, pairs) matches Ok(c) ==> c.fits(f.ty),
{
}

fn decode_str_list(name: &String, elems: &Vec<JsonValue>) -> (r: Result<Vec<String>, Error>)
    ensures
        match r {
            Ok(items) => all_str(elems@) && items@ == str_items(elems@),
            Err(e) => !all_str(elems@) && e == Error::HomogeneousArrayExpected(*name),
        },
{
    let mut items: Vec<String> = Vec::new();
    let n = elems.len();
    let mut i: usize = 0;
    proof {
        assert(elems@.take(0) =~= Seq::<JsonValue>::empty());
        assert(items@ =~= str_items(elems@.take(0)));
    }
    while i < n
        invariant
            n == elems@.len(),
            i <= n,
            all_str(elems@.take(i as int)),
            items@ == str_items(elems@.take(i as int)),
        decreases n - i,
    {
        match &elems[i] {
            JsonValue::Str(s) => items.push(s.clone()),
            _ => {
                return Err(Error::HomogeneousArrayExpected(name.clone()));
            },
        }
        proof {
            assert(elems@.take(i + 1).drop_last() =~= elems@.take(i as int));
            assert(items@ =~= str_items(elems@.take(i + 1)));
        }
        i += 1;
    }
    proof {
        assert(elems@.take(n as int) =~= elems@);
    }
    Ok(items)
}

fn decode_i64_list(name: &String, elems: &Vec<JsonValue>) -> (r: Result<Vec<i64>, Error>)
    ensures
        match r {
            Ok(items) => all_i64(elems@) && items@ == i64_items(elems@),
            Err(e) => !all_i64(elems@) && e == Error::HomogeneousArrayExpected(*name),
        },
{
    let mut items: Vec<i64> = Vec::new();
    let n = elems.len();
    let mut i: usize = 0;
    proof {
        assert(items@ =~= i64_items(elems@.take(0)));
    }
    while i < n
        invariant
            n == elems@.len(),
            i <= n,
            all_i64(elems@.take(i as int)),
            items@ == i64_items(elems@.take(i as int)),
        decreases n - i,
    {
        match &elems[i] {
            JsonValue::Num(m) => {
                match m.as_i64() {
                    Some(x) => items.push(x),
                    None => {
                        return Err(Error::HomogeneousArrayExpected(name.clone()));
                    },
                }
            },
            _ => {
                return Err(Error::HomogeneousArrayExpected(name.clone()));
            },
        }
        proof {
            assert(elems@.take(i + 1).drop_last() =~= elems@.take(i as int));
            assert(items@ =~= i64_items(elems@.take(i + 1)));
        }
        i += 1;
    }
    proof {
        assert(elems@.take(n as int) =~= elems@);
    }
    Ok(items)
}

fn decode_f64_list(name: &String, elems: &Vec<JsonValue>) -> (r: Result<Vec<u64>, Error>)
    ensures
        match r {
            Ok(items) => all_f64(elems@) && items@ == f64_items(elems@),
            Err(e) => !all_f64(elems@) && e == Error::HomogeneousArrayExpected(*name),
        },
{
    let mut items: Vec<u64> = Vec::new();
    let n = elems.len();
    let mut i: usize = 0;
    proof {
        assert(items@ =~= f64_items(elems@.take(0)));
    }
    while i < n
        invariant
            n == elems@.len(),
            i <= n,
            all_f64(elems@.take(i as int)),
            items@ == f64_items(elems@.take(i as int)),
        decreases n - i,
    {
        match &elems[i] {
            JsonValue::Num(m) => {
                if m.is_f64() {
                    items.push(m.to_f64_bits());
                } else {
                    return Err(Error::HomogeneousArrayExpected(name.clone()));
                }
            },
            _ => {
                return Err(Error::HomogeneousArrayExpected(name.clone()));
            },
        }
        proof {
            assert(elems@.take(i + 1).drop_last() =~= elems@.take(i as int));
            assert(items@ =~= f64_items(elems@.take(i + 1)));
        }
        i += 1;
    }
    proof {
        assert(elems@.take(n as int) =~= elems@);
    }
    Ok(items)
}

fn decode_bool_list(name: &String, elems: &Vec<JsonValue>) -> (r: Result<Vec<bool>, Error>)
    ensures
        match r {
            Ok(items) => all_bool(elems@) && items@ == bool_items(elems@),
            Err(e) => !all_bool(elems@) && e == Error::HomogeneousArrayExpected(*name),
        },
{
    let mut items: Vec<bool> = Vec::new();
    let n = elems.len();
    let mut i: usize = 0;
    proof {
        assert(items@ =~= bool_items(elems@.take(0)));
    }
    while i < n
        invariant
            n == elems@.len(),
            i <= n,
            all_bool(elems@.take(i as int)),
            items@ == bool_items(elems@.take(i as int)),
        decreases n - i,
    {
        match &elems[i] {
            JsonValue::Bool(b) => items.push(*b),
            _ => {
                return Err(Error::HomogeneousArrayExpected(name.clone()));
            },
        }
        proof {
            assert(elems@.take(i + 1).drop_last() =~= elems@.take(i as int));
            assert(items@ =~= bool_items(elems@.take(i + 1)));
        }
        i += 1;
    }
    proof {
        assert(elems@.take(n as int) =~= elems@);
    }
    Ok(items)
}

/// Decodes the entry one field contributes for a row.
fn decode_field(f: &Field, pairs: &Vec<(String, JsonValue)>) -> (r: Result<Cell, Error>)
    ensures
        match r {
            Ok(c) => spec_field_cell(*f, pairs@) == Result::<CellModel, Error>::Ok(c@),
            Err(e) => spec_field_cell(*f, pairs@) == Result::<CellModel, Error>::Err(e),
        },
{
    let v = match lookup(pairs, &f.name) {
        Some(v) => v,
        None => {
            if f.nullable {
                return Ok(Cell::Null);
            } else {
                return Err(Error::MissingField(f.name.clone()));
            }
        },
    };
    match f.ty {
        ColumnType::Scalar(ScalarType::Str) => match v {
            JsonValue::Str(s) => Ok(Cell::Str(s.clone())),
            _ => Err(Error::TypeMismatch(f.name.clone())),
        },
        ColumnType::Scalar(ScalarType::Int64) => match v {
            JsonValue::Num(n) => match n.as_i64() {
                Some(x) => Ok(Cell::I64(x)),
                None => Err(Error::TypeMismatch(f.name.clone())),
            },
            _ => Err(Error::TypeMismatch(f.name.clone())),
        },
        ColumnType::Scalar(ScalarType::Float64) => match v {
            JsonValue::Num(n) => Ok(Cell::F64(n.to_f64_bits())),
            _ => Err(Error::TypeMismatch(f.name.clone())),
        },
        ColumnType::Scalar(ScalarType::Boolean) => match v {
            JsonValue::Bool(b) => Ok(Cell::Bool(*b)),
            _ => Err(Error::TypeMismatch(f.name.clone())),
        },
        ColumnType::List(inner) => match v {
            JsonValue::Arr(a) => match inner {
                ScalarType::Str => match decode_str_list(&f.name, a) {
                    Ok(items) => Ok(Cell::ListStr(items)),
                    Err(e) => Err(e),
                },
                ScalarType::Int64 => match decode_i64_list(&f.name, a) {
                    Ok(items) => Ok(Cell::ListI64(items)),
                    Err(e) => Err(e),
                },
                ScalarType::Float64 => match decode_f64_list(&f.name, a) {
                    Ok(items) => Ok(Cell::ListF64(items)),
                    Err(e) => Err(e),
                },
                ScalarType::Boolean => match decode_bool_list(&f.name, a) {
                    Ok(items) => Ok(Cell::ListBool(items)),
                    Err(e) => Err(e),
                },
            },
            _ => Err(Error::TypeMismatch(f.name.clone())),
        },
    }
}

/// The entries a whole row contributes, one per schema field in order, or
/// the first rejection in field order.
pub open spec fn spec_row_cells(fields: Seq<Field>, pairs: Seq<(String, JsonValue)>) -> Result<
    Seq<CellModel>,
    Error,
>
    decreases fields.len(),
{
    if fields.len() == 0 {
        Ok(Seq::empty())
    } else {
        match spec_row_cells(fields.drop_last(), pairs) {
            Err(e) => Err(e),
            Ok(cs) => match spec_field_cell(fields.last(), pairs) {
                Err(e) => Err(e),
                Ok(c) => Ok(cs.push(c)),
            },
        }
    }
}

/// What validating one row yields: its typed entries, or its rejection.
/// A row that is not an object is rejected outright.
pub open spec fn spec_validate_row(schema: Schema, row: JsonValue) -> Result<
    Seq<CellModel>,
    Error,
> {
    match row {
        JsonValue::Obj(pairs) => spec_row_cells(schema.fields@, pairs@),
        _ => Err(Error::ObjectExpected),
    }
}

/// Once a prefix of the fields rejects a row, the whole schema rejects it
/// for the same reason.
proof fn lemma_row_cells_err_extends(
    fields: Seq<Field>,
    pairs: Seq<(String, JsonValue)>,
    k: int,
)
    requires
        0 <= k <= fields.len(),
        spec_row_cells(fields.take(k), pairs) is Err,
    ensures
        spec_row_cells(fields, pairs) == spec_row_cells(fields.take(k), pairs),
    decreases fields.len() - k,
{
    if k == fields.len() {
        assert(fields.take(k) =~= fields);
    } else {
        assert(fields.take(k + 1).drop_last() =~= fields.take(k));
        assert(spec_row_cells(fields.take(k + 1), pairs) == spec_row_cells(fields.take(k), pairs));
        lemma_row_cells_err_extends(fields, pairs, k + 1);
    }
}

/// An accepted row contributes exactly one entry per field, each fitting
/// its field's declared type.
pub proof fn lemma_row_cells_ok(fields: Seq<Field>, pairs: Seq<(String, JsonValue)>)
    ensures
        spec_row_cells(fields, pairs) matches Ok(cs) ==> {
            &&& cs.len() == fields.len()
            &&& forall|i: int| 0 <= i < fields.len() ==> (#[trigger] cs[i]).fits(fields[i].ty)
        },
    decreases fields.len(),
{
    if fields.len() > 0 {
        lemma_row_cells_ok(fields.drop_last(), pairs);
        lemma_field_cell_fits(fields.last(), pairs);
    }
}

/// Decodes a whole row into one typed entry per schema field, without
/// touching any column buffer.
pub fn decode_row(schema: &Schema, row: &JsonValue) -> (r: Result<Vec<Cell>, Error>)
    ensures
        match r {
            Ok(cells) => spec_validate_row(*schema, *row) == Result::<Seq<CellModel>, Error>::Ok(
                cells@.map_values(|c: Cell| c@),
            ) && cells@.len() == schema.fields@.len(),
            Err(e) => spec_validate_row(*schema, *row) == Result::<Seq<CellModel>, Error>::Err(e),
        },
{
    let pairs = match row {
        JsonValue::Obj(pairs) => pairs,
        _ => {
            return Err(Error::ObjectExpected);
        },
    };
    let n = schema.fields.len();
    let mut cells: Vec<Cell> = Vec::new();
    let mut i: usize = 0;
    proof {
        assert(schema.fields@.take(0) =~= Seq::<Field>::empty());
        assert(cells@.map_values(|c: Cell| c@) =~= Seq::<CellModel>::empty());
    }
    while i < n
        invariant
            n == schema.fields@.len(),
            i <= n,
            *row matches JsonValue::Obj(ps) && ps@ == pairs@,
            cells@.len() == i,
            spec_row_cells(schema.fields@.take(i as int), pairs@) == Result::<
                Seq<CellModel>,
                Error,
            >::Ok(cells@.map_values(|c: Cell| c@)),
        decreases n - i,
    {
        proof {
            assert(schema.fields@.take(i + 1).drop_last() =~= schema.fields@.take(i as int));
            assert(schema.fields@.take(i + 1).last() == schema.fields@[i as int]);
        }
        match decode_field(&schema.fields[i], pairs) {
            Ok(c) => {
                let ghost prev = cells@.map_values(|c: Cell| c@);
                let ghost cv = c@;
                cells.push(c);
                proof {
                    assert(cells@.map_values(|c: Cell| c@) =~= prev.push(cv));
                    assert(spec_row_cells(schema.fields@.take(i + 1), pairs@) == Result::<
                        Seq<CellModel>,
                        Error,
                    >::Ok(prev.push(cv)));
                }
            },
            Err(e) => {
                proof {
                    lemma_row_cells_err_extends(schema.fields@, pairs@, i + 1);
                }
                return Err(e);
            },
        }
        i += 1;
    }
    proof {
        assert(schema.fields@.take(n as int) =~= schema.fields@);
    }
    Ok(cells)
}

/// Validates one row and, only if every field accepts, appends exactly one
/// entry to every column buffer; a rejected row leaves every buffer
/// untouched.
pub fn add_row_json(schema: &Schema, builders: &mut Vec<Column>, row: &JsonValue) -> (r: Result<
    (),
    Error,
>)
    requires
        columns_match(old(builders)@, schema.fields@),
    ensures
        columns_match(final(builders)@, schema.fields@),
        match spec_validate_row(*schema, *row) {
            Ok(cells) => r is Ok && forall|i: int|
                0 <= i < final(builders)@.len() ==> (#[trigger] final(builders)@[i]).entries()
                    == old(builders)@[i].entries().push(cells[i]),
            Err(e) => r == Result::<(), Error>::Err(e) && final(builders)@ == old(builders)@,
        },
{
    let mut cells = match decode_row(schema, row) {
        Ok(c) => c,
        Err(e) => {
            return Err(e);
        },
    };
    let ghost spec_cells = cells@.map_values(|c: Cell| c@);
    let ghost base = builders@;
    proof {
        match row {
            JsonValue::Obj(ps) => lemma_row_cells_ok(schema.fields@, ps@),
            _ => {},
        }
    }
    let n = builders.len();
    let mut i: usize = 0;
    while i < n
        invariant
            n == schema.fields@.len(),
            base.len() == n,
            builders@.len() == n,
            i <= n,
            cells@.len() == n - i,
            cells@.map_values(|c: Cell| c@) == spec_cells.skip(i as int),
            spec_cells.len() == n,
            forall|j: int| 0 <= j < n ==> (#[trigger] spec_cells[j]).fits(schema.fields@[j].ty),
            forall|j: int| i <= j < n ==> #[trigger] builders@[j] == base[j],
            forall|j: int| 0 <= j < i ==> (#[trigger] builders@[j]).ty() == base[j].ty(),
            forall|j: int|
                0 <= j < i ==> (#[trigger] builders@[j]).entries() == base[j].entries().push(
                    spec_cells[j],
                ),
            forall|j: int| 0 <= j < n ==> (#[trigger] base[j]).ty() == schema.fields@[j].ty,
        decreases n - i,
    {
        let c = cells.remove(0);
        proof {
            assert(c@ == spec_cells.skip(i as int)[0]);
            assert(spec_cells.skip(i as int)[0] == spec_cells[i as int]);
            assert(cells@.map_values(|c: Cell| c@) =~= spec_cells.skip(i as int).remove(0));
            assert(spec_cells.skip(i as int).remove(0) =~= spec_cells.skip(i + 1));
        }
        builders[i].append(c);
        i += 1;
    }
    Ok(())
}

/// The rejected rows of a batch, each paired with its reason, in
/// submission order.
pub open spec fn spec_rejected(schema: Schema, rows: Seq<JsonValue>) -> Seq<(JsonValue, Error)>
    decreases rows.len(),
{
    if rows.len() == 0 {
        Seq::empty()
    } else {
        let rest = spec_rejected(schema, rows.drop_last());
        match spec_validate_row(schema, rows.last()) {
            Ok(_) => rest,
            Err(e) => rest.push((rows.last(), e)),
        }
    }
}

/// How many rows of a batch are accepted.
pub open spec fn spec_accepted_count(schema: Schema, rows: Seq<JsonValue>) -> nat
    decreases rows.len(),
{
    if rows.len() == 0 {
        0
    } else {
        spec_accepted_count(schema, rows.drop_last()) + if spec_validate_row(
            schema,
            rows.last(),
        ) is Ok {
            1nat
        } else {
            0nat
        }
    }
}

/// The entries of every column, oldest first.
pub open spec fn columns_entries(cols: Seq<Column>) -> Seq<Seq<CellModel>> {
    cols.map_values(|c: Column| c.entries())
}

/// The column entries after appending a batch's accepted rows in order.
pub open spec fn spec_after_batch(
    schema: Schema,
    entries: Seq<Seq<CellModel>>,
    rows: Seq<JsonValue>,
) -> Seq<Seq<CellModel>>
    decreases rows.len(),
{
    if rows.len() == 0 {
        entries
    } else {
        let prev = spec_after_batch(schema, entries, rows.drop_last());
        match spec_validate_row(schema, rows.last()) {
            Ok(cells) => prev.map(|i: int, es: Seq<CellModel>| es.push(cells[i])),
            Err(_) => prev,
        }
    }
}

/// Every row accepted adds one entry to every column; rejected rows add
/// none.
pub proof fn lemma_after_batch_len(
    schema: Schema,
    entries: Seq<Seq<CellModel>>,
    rows: Seq<JsonValue>,
)
    ensures
        spec_after_batch(schema, entries, rows).len() == entries.len(),
        forall|i: int|
            0 <= i < entries.len() ==> (#[trigger] spec_after_batch(schema, entries, rows)[i]).len()
                == entries[i].len() + spec_accepted_count(schema, rows),
    decreases rows.len(),
{
    if rows.len() > 0 {
        lemma_after_batch_len(schema, entries, rows.drop_last());
    }
}

/// A batch splits exactly into accepted and rejected rows.
pub proof fn lemma_batch_counts(schema: Schema, rows: Seq<JsonValue>)
    ensures
        spec_rejected(schema, rows).len() + spec_accepted_count(schema, rows) == rows.len(),
    decreases rows.len(),
{
    if rows.len() > 0 {
        lemma_batch_counts(schema, rows.drop_last());
    }
}

/// Validates a batch of rows in submission order, appending every accepted
/// row into the column buffers, and returns the rejected rows with their
/// reasons.
pub fn add_rows_json(schema: &Schema, builders: &mut Vec<Column>, rows: Vec<JsonValue>) -> (rejected:
    Vec<(JsonValue, Error)>)
    requires
        columns_match(old(builders)@, schema.fields@),
    ensures
        columns_match(final(builders)@, schema.fields@),
        rejected@ == spec_rejected(*schema, rows@),
        columns_entries(final(builders)@) == spec_after_batch(
            *schema,
            columns_entries(old(builders)@),
            rows@,
        ),
{
    let ghost all_rows = rows@;
    let ghost base = columns_entries(builders@);
    let mut rows = rows;
    let mut rejected: Vec<(JsonValue, Error)> = Vec::new();
    let total = rows.len();
    let mut k: usize = 0;
    proof {
        assert(all_rows.take(0) =~= Seq::<JsonValue>::empty());
        assert(rows@ =~= all_rows.skip(0));
    }
    while k < total
        invariant
            total == all_rows.len(),
            k <= total,
            rows@ == all_rows.skip(k as int),
            columns_match(builders@, schema.fields@),
            rejected@ == spec_rejected(*schema, all_rows.take(k as int)),
            columns_entries(builders@) == spec_after_batch(
                *schema,
                base,
                all_rows.take(k as int),
            ),
        decreases total - k,
    {
        let row = rows.remove(0);
        proof {
            assert(all_rows.skip(k as int)[0] == all_rows[k as int]);
            assert(all_rows.skip(k as int).remove(0) =~= all_rows.skip(k + 1));
            assert(all_rows.take(k + 1).drop_last() =~= all_rows.take(k as int));
            assert(all_rows.take(k + 1).last() == all_rows[k as int]);
        }
        let ghost before = columns_entries(builders@);
        match add_row_json(schema, builders, &row) {
            Ok(()) => {
                proof {
                    match spec_validate_row(*schema, row) {
                        Ok(cells) => {
                            assert(columns_entries(builders@) =~= before.map(
                                |i: int, es: Seq<CellModel>| es.push(cells[i]),
                            ));
                        },
                        Err(_) => {},
                    }
                }
            },
            Err(e) => {
                rejected.push((row, e));
                proof {
                    assert(columns_entries(builders@) =~= before);
                }
            },
        }
        k += 1;
    }
    proof {
        assert(all_rows.take(total as int) =~= all_rows);
    }
    rejected
}

/// A homogeneous array of the given inner scalar type.
pub open spec fn list_ok(inner: ScalarType, elems: Seq<JsonValue>) -> bool {
    match inner {
        ScalarType::Str => all_str(elems),
        ScalarType::Int64 => all_i64(elems),
        ScalarType::Float64 => all_f64(elems),
        ScalarType::Boolean => all_bool(elems),
    }
}

/// A prefix of fields that all accept a row yields entries for the whole
/// prefix.
proof fn lemma_row_cells_prefix_ok(fields: Seq<Field>, pairs: Seq<(String, JsonValue)>, k: int)
    requires
        0 <= k <= fields.len(),
        forall|j: int| 0 <= j < k ==> spec_field_cell(#[trigger] fields[j], pairs) is Ok,
    ensures
        spec_row_cells(fields.take(k), pairs) is Ok,
    decreases k,
{
    if k > 0 {
        lemma_row_cells_prefix_ok(fields, pairs, k - 1);
        assert(fields.take(k).drop_last() =~= fields.take(k - 1));
        assert(fields.take(k).last() == fields[k - 1]);
    }
}

/// A row whose every field accepts is accepted as a whole.
pub proof fn lemma_all_fields_ok_accepts(fields: Seq<Field>, pairs: Seq<(String, JsonValue)>)
    requires
        forall|j: int| 0 <= j < fields.len() ==> spec_field_cell(#[trigger] fields[j], pairs) is Ok,
    ensures
        spec_row_cells(fields, pairs) is Ok,
{
    lemma_row_cells_prefix_ok(fields, pairs, fields.len() as int);
    assert(fields.take(fields.len() as int) =~= fields);
}

/// A row that lacks a non-nullable field, every earlier field accepting,
/// is rejected with a missing-field reason naming that field.
pub proof fn lemma_missing_field_rejects(
    fields: Seq<Field>,
    pairs: Seq<(String, JsonValue)>,
    i: int,
)
    requires
        0 <= i < fields.len(),
        forall|j: int| 0 <= j < i ==> spec_field_cell(#[trigger] fields[j], pairs) is Ok,
        spec_lookup(pairs, fields[i].name@) is None,
        !fields[i].nullable,
    ensures
        spec_row_cells(fields, pairs) == Result::<Seq<CellModel>, Error>::Err(
            Error::MissingField(fields[i].name),
        ),
{
    lemma_row_cells_prefix_ok(fields, pairs, i);
    assert(fields.take(i + 1).drop_last() =~= fields.take(i));
    assert(fields.take(i + 1).last() == fields[i]);
    lemma_row_cells_err_extends(fields, pairs, i + 1);
}

/// A row whose array for a list-typed field mixes element types, every
/// earlier field accepting, is rejected with a non-homogeneous-array
/// reason naming that field.
pub proof fn lemma_mixed_array_rejects(
    fields: Seq<Field>,
    pairs: Seq<(String, JsonValue)>,
    i: int,
)
    requires
        0 <= i < fields.len(),
        forall|j: int| 0 <= j < i ==> spec_field_cell(#[trigger] fields[j], pairs) is Ok,
        fields[i].ty matches ColumnType::List(inner)
            && spec_lookup(pairs, fields[i].name@) matches Some(v)
            && v matches JsonValue::Arr(a)
            && !list_ok(inner, a@),
    ensures
        spec_row_cells(fields, pairs) == Result::<Seq<CellModel>, Error>::Err(
            Error::HomogeneousArrayExpected(fields[i].name),
        ),
{
    lemma_row_cells_prefix_ok(fields, pairs, i);
    assert(fields.take(i + 1).drop_last() =~= fields.take(i));
    assert(fields.take(i + 1).last() == fields[i]);
    lemma_row_cells_err_extends(fields, pairs, i + 1);
}

/// The rejected list holds exactly the rows that fail, each with the
/// reason its validation yields.
pub proof fn lemma_rejected_exact(schema: Schema, rows: Seq<JsonValue>)
    ensures
        forall|p: (JsonValue, Error)| #[trigger]
            spec_rejected(schema, rows).contains(p) ==> spec_validate_row(schema, p.0)
                == Result::<Seq<CellModel>, Error>::Err(p.1),
        forall|k: int|
            0 <= k < rows.len() ==> (spec_validate_row(schema, #[trigger] rows[k]) matches Err(e)
                ==> spec_rejected(schema, rows).contains((rows[k], e))),
    decreases rows.len(),
{
    if rows.len() > 0 {
        lemma_rejected_exact(schema, rows.drop_last());
        let rest = spec_rejected(schema, rows.drop_last());
        match spec_validate_row(schema, rows.last()) {
            Ok(_) => {},
            Err(e) => {
                let whole = rest.push((rows.last(), e));
                assert(whole[rest.len() as int] == (rows.last(), e));
                assert(whole.contains((rows.last(), e)));
                assert forall|p: (JsonValue, Error)| #[trigger] whole.contains(p) implies rest
                    .contains(p) || p == (rows.last(), e) by {
                    let idx = choose|idx: int| 0 <= idx < whole.len() && whole[idx] == p;
                    if idx < rest.len() {
                        assert(rest[idx] == p);
                    }
                }
                assert forall|p: (JsonValue, Error)| rest.contains(p) implies whole.contains(
                    p,
                ) by {
                    let idx = choose|idx: int| 0 <= idx < rest.len() && rest[idx] == p;
                    assert(whole[idx] == p);
                }
            },
        }
        assert forall|k: int| 0 <= k < rows.len() - 1 implies rows.drop_last()[k] == rows[k] by {}
    }
}

/// Upper bound of rows accumulated before a size-triggered flush.
pub const MAX_ROWS: usize = 8192;

/// A batch of submitted rows.
pub enum Rows {
    Json(Vec<JsonValue>),
}

impl Rows {
    /// The rows of the batch, in submission order.
    pub open spec fn rows(self) -> Seq<JsonValue> {
        match self {
            Rows::Json(v) => v@,
        }
    }
}

/// Owns one schema's column buffers for the open accumulation window and
/// decides when a finished window must be flushed.
pub struct Accumulator {
    pub schema: Schema,
    pub builders: Vec<Column>,
    pub rows_count: usize,
}

impl Accumulator {
    /// Buffers line up with the schema and hold exactly one entry per
    /// accepted row of the open window.
    pub open spec fn wf(self) -> bool {
        &&& self.schema.wf()
        &&& columns_match(self.builders@, self.schema.fields@)
        &&& forall|i: int|
            0 <= i < self.builders@.len() ==> (#[trigger] self.builders@[i]).entries().len()
                == self.rows_count
    }

    /// A fresh accumulator with an empty window.
    pub fn new(schema: Schema) -> (acc: Accumulator)
        requires
            schema.wf(),
        ensures
            acc.wf(),
            acc.schema == schema,
            acc.rows_count == 0,
    {
        let builders = make_builders(&schema);
        Accumulator { schema, builders, rows_count: 0 }
    }

    /// Validates a batch in submission order, appends every accepted row
    /// into the open window, and returns the rejected rows with their
    /// reasons. The row count grows by exactly the number of accepted rows.
    pub fn add_rows(&mut self, rows: Rows) -> (rejected: Vec<(JsonValue, Error)>)
        requires
            old(self).wf(),
            old(self).rows_count + rows.rows().len() <= usize::MAX,
        ensures
            final(self).wf(),
            final(self).schema == old(self).schema,
            rejected@ == spec_rejected(old(self).schema, rows.rows()),
            columns_entries(final(self).builders@) == spec_after_batch(
                old(self).schema,
                columns_entries(old(self).builders@),
                rows.rows(),
            ),
            final(self).rows_count == old(self).rows_count + spec_accepted_count(
                old(self).schema,
                rows.rows(),
            ),
    {
        let Rows::Json(rows) = rows;
        let total = rows.len();
        let ghost rs = rows@;
        let ghost base = columns_entries(self.builders@);
        let rejected = add_rows_json(&self.schema, &mut self.builders, rows);
        proof {
            lemma_batch_counts(self.schema, rs);
            lemma_after_batch_len(self.schema, base, rs);
        }
        let accepted = total - rejected.len();
        self.rows_count = self.rows_count + accepted;
        proof {
            assert forall|i: int| 0 <= i < self.builders@.len() implies (
            #[trigger] self.builders@[i]).entries().len() == self.rows_count by {
                assert(columns_entries(self.builders@)[i] == self.builders@[i].entries());
                assert(base[i].len() == old(self).rows_count);
            }
        }
        rejected
    }

    /// Whether the open window has reached the row-count threshold and
    /// must be flushed at once, without waiting for the timer.
    pub fn needs_flush(&self) -> (r: bool)
        ensures
            r == (self.rows_count >= MAX_ROWS),
    {
        self.rows_count >= MAX_ROWS
    }

    /// Finalizes the open window: hands back every filled column buffer
    /// and installs fresh empty ones, resetting the row count to zero.
    /// Every column of the batch holds exactly one entry per accepted row
    /// of the finished window.
    pub fn take_batch(&mut self) -> (batch: Vec<Column>)
        requires
            old(self).wf(),
        ensures
            final(self).wf(),
            final(self).schema == old(self).schema,
            final(self).rows_count == 0,
            batch == old(self).builders,
            columns_match(batch@, old(self).schema.fields@),
            forall|i: int|
                0 <= i < batch@.len() ==> (#[trigger] batch@[i]).entries().len() == old(
                    self,
                ).rows_count,
    {
        let mut fresh = make_builders(&self.schema);
        core::mem::swap(&mut self.builders, &mut fresh);
        self.rows_count = 0;
        fresh
    }
}

} // verus!
