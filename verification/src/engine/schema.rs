//! The columnar schema and its mapping to column buffers.
//!
//! A schema is an ordered list of named, typed, possibly nullable fields.
//! Each field maps to one append-only column buffer; all buffers of one
//! accumulation window always hold the same number of entries.

use vstd::prelude::*;

verus! {

/// The four scalar data types a column may hold.
#[derive(Clone, Copy, PartialEq, Eq, Structural, Debug)]
pub enum ScalarType {
    Str,
    Int64,
    Float64,
    Boolean,
}

/// A column's declared type: a scalar, or a homogeneous list of scalars.
/// Deeper nesting is unrepresentable by construction.
#[derive(Clone, Copy, PartialEq, Eq, Structural, Debug)]
pub enum ColumnType {
    Scalar(ScalarType),
    List(ScalarType),
}

/// One field of a schema: a name, a data type and a nullability flag.
pub struct Field {
    pub name: String,
    pub ty: ColumnType,
    pub nullable: bool,
}

/// An ordered sequence of fields, immutable for the lifetime of an
/// accumulator instance.
pub struct Schema {
    pub fields: Vec<Field>,
}

impl Schema {
    /// Field names are pairwise distinct.
    pub open spec fn wf(self) -> bool {
        forall|i: int, j: int|
            0 <= i < j < self.fields@.len() ==> self.fields@[i].name@ != self.fields@[j].name@
    }

    /// Decides well-formedness: whether field names are pairwise distinct.
    pub fn names_unique(&self) -> (r: bool)
        ensures
            r == self.wf(),
    {
        let n = self.fields.len();
        let mut i: usize = 0;
        while i < n
            invariant
                n == self.fields@.len(),
                i <= n,
                forall|p: int, q: int|
                    0 <= p < q < n && p < i ==> self.fields@[p].name@ != self.fields@[q].name@,
            decreases n - i,
        {
            let mut j = i + 1;
            while j < n
                invariant
                    n == self.fields@.len(),
                    i < j <= n,
                    forall|q: int| i < q < j ==> self.fields@[i as int].name@ != self.fields@[q].name@,
                decreases n - j,
            {
                if self.fields[i].name == self.fields[j].name {
                    return false;
                }
                j += 1;
            }
            i += 1;
        }
        true
    }
}

/// One appended entry of a column: an explicit null, or a typed value.
/// Floating-point data is carried as IEEE 754 bit patterns in `u64`.
pub enum Cell {
    Null,
    Str(String),
    I64(i64),
    F64(u64),
    Bool(bool),
    ListStr(Vec<String>),
    ListI64(Vec<i64>),
    ListF64(Vec<u64>),
    ListBool(Vec<bool>),
}

/// The mathematical shape of one column entry: list entries are sequences.
pub enum CellModel {
    Null,
    Str(String),
    I64(i64),
    F64(u64),
    Bool(bool),
    ListStr(Seq<String>),
    ListI64(Seq<i64>),
    ListF64(Seq<u64>),
    ListBool(Seq<bool>),
}

impl CellModel {
    /// Whether this entry may stand in a column of the given type.
    pub open spec fn fits(self, ty: ColumnType) -> bool {
        match self {
            CellModel::Null => true,
            CellModel::Str(_) => ty == ColumnType::Scalar(ScalarType::Str),
            CellModel::I64(_) => ty == ColumnType::Scalar(ScalarType::Int64),
            CellModel::F64(_) => ty == ColumnType::Scalar(ScalarType::Float64),
            CellModel::Bool(_) => ty == ColumnType::Scalar(ScalarType::Boolean),
            CellModel::ListStr(_) => ty == ColumnType::List(ScalarType::Str),
            CellModel::ListI64(_) => ty == ColumnType::List(ScalarType::Int64),
            CellModel::ListF64(_) => ty == ColumnType::List(ScalarType::Float64),
            CellModel::ListBool(_) => ty == ColumnType::List(ScalarType::Boolean),
        }
    }
}

impl View for Cell {
    type V = CellModel;

    open spec fn view(&self) -> CellModel {
        match *self {
            Cell::Null => CellModel::Null,
            Cell::Str(s) => CellModel::Str(s),
            Cell::I64(x) => CellModel::I64(x),
            Cell::F64(x) => CellModel::F64(x),
            Cell::Bool(x) => CellModel::Bool(x),
            Cell::ListStr(v) => CellModel::ListStr(v@),
            Cell::ListI64(v) => CellModel::ListI64(v@),
            Cell::ListF64(v) => CellModel::ListF64(v@),
            Cell::ListBool(v) => CellModel::ListBool(v@),
        }
    }
}

impl Cell {
    /// Whether this entry may be appended to a column of the given type.
    pub open spec fn fits(self, ty: ColumnType) -> bool {
        self@.fits(ty)
    }
}

/// A mutable, append-only buffer holding one field's column. A `None` slot
/// is an explicit null entry.
pub enum Column {
    Str(Vec<Option<String>>),
    I64(Vec<Option<i64>>),
    F64(Vec<Option<u64>>),
    Bool(Vec<Option<bool>>),
    ListStr(Vec<Option<Vec<String>>>),
    ListI64(Vec<Option<Vec<i64>>>),
    ListF64(Vec<Option<Vec<u64>>>),
    ListBool(Vec<Option<Vec<bool>>>),
}

impl Column {
    /// The column's data type.
    pub open spec fn ty(self) -> ColumnType {
        match self {
            Column::Str(_) => ColumnType::Scalar(ScalarType::Str),
            Column::I64(_) => ColumnType::Scalar(ScalarType::Int64),
            Column::F64(_) => ColumnType::Scalar(ScalarType::Float64),
            Column::Bool(_) => ColumnType::Scalar(ScalarType::Boolean),
            Column::ListStr(_) => ColumnType::List(ScalarType::Str),
            Column::ListI64(_) => ColumnType::List(ScalarType::Int64),
            Column::ListF64(_) => ColumnType::List(ScalarType::Float64),
            Column::ListBool(_) => ColumnType::List(ScalarType::Boolean),
        }
    }

    /// The appended entries, oldest first.
    pub open spec fn entries(self) -> Seq<CellModel> {
        match self {
            Column::Str(v) => v@.map_values(
                |o: Option<String>|
                    match o {
                        Option::Some(x) => CellModel::Str(x),
                        Option::None => CellModel::Null,
                    },
            ),
            Column::I64(v) => v@.map_values(
                |o: Option<i64>|
                    match o {
                        Option::Some(x) => CellModel::I64(x),
                        Option::None => CellModel::Null,
                    },
            ),
            Column::F64(v) => v@.map_values(
                |o: Option<u64>|
                    match o {
                        Option::Some(x) => CellModel::F64(x),
                        Option::None => CellModel::Null,
                    },
            ),
            Column::Bool(v) => v@.map_values(
                |o: Option<bool>|
                    match o {
                        Option::Some(x) => CellModel::Bool(x),
                        Option::None => CellModel::Null,
                    },
            ),
            Column::ListStr(v) => v@.map_values(
                |o: Option<Vec<String>>|
                    match o {
                        Option::Some(x) => CellModel::ListStr(x@),
                        Option::None => CellModel::Null,
                    },
            ),
            Column::ListI64(v) => v@.map_values(
                |o: Option<Vec<i64>>|
                    match o {
                        Option::Some(x) => CellModel::ListI64(x@),
                        Option::None => CellModel::Null,
                    },
            ),
            Column::ListF64(v) => v@.map_values(
                |o: Option<Vec<u64>>|
                    match o {
                        Option::Some(x) => CellModel::ListF64(x@),
                        Option::None => CellModel::Null,
                    },
            ),
            Column::ListBool(v) => v@.map_values(
                |o: Option<Vec<bool>>|
                    match o {
                        Option::Some(x) => CellModel::ListBool(x@),
                        Option::None => CellModel::Null,
                    },
            ),
        }
    }

    /// The number of appended entries.
    pub fn length(&self) -> (n: usize)
        ensures
            n == self.entries().len(),
    {
        match self {
            Column::Str(v) => v.len(),
            Column::I64(v) => v.len(),
            Column::F64(v) => v.len(),
            Column::Bool(v) => v.len(),
            Column::ListStr(v) => v.len(),
            Column::ListI64(v) => v.len(),
            Column::ListF64(v) => v.len(),
            Column::ListBool(v) => v.len(),
        }
    }

    /// Appends one entry; the entry must fit the column's type.
    pub fn append(&mut self, c: Cell)
        requires
            c.fits(old(self).ty()),
        ensures
            final(self).ty() == old(self).ty(),
            final(self).entries() == old(self).entries().push(c@),
    {
        match self {
            Column::Str(v) => {
                match c {
                    Cell::Str(x) => v.push(Some(x)),
                    Cell::Null => v.push(None),
                    _ => vstd::pervasive::unreached(),
                }
            },
            Column::I64(v) => {
                match c {
                    Cell::I64(x) => v.push(Some(x)),
                    Cell::Null => v.push(None),
                    _ => vstd::pervasive::unreached(),
                }
            },
            Column::F64(v) => {
                match c {
                    Cell::F64(x) => v.push(Some(x)),
                    Cell::Null => v.push(None),
                    _ => vstd::pervasive::unreached(),
                }
            },
            Column::Bool(v) => {
                match c {
                    Cell::Bool(x) => v.push(Some(x)),
                    Cell::Null => v.push(None),
                    _ => vstd::pervasive::unreached(),
                }
            },
            Column::ListStr(v) => {
                match c {
                    Cell::ListStr(x) => v.push(Some(x)),
                    Cell::Null => v.push(None),
                    _ => vstd::pervasive::unreached(),
                }
            },
            Column::ListI64(v) => {
                match c {
                    Cell::ListI64(x) => v.push(Some(x)),
                    Cell::Null => v.push(None),
                    _ => vstd::pervasive::unreached(),
                }
            },
            Column::ListF64(v) => {
                match c {
                    Cell::ListF64(x) => v.push(Some(x)),
                    Cell::Null => v.push(None),
                    _ => vstd::pervasive::unreached(),
                }
            },
            Column::ListBool(v) => {
                match c {
                    Cell::ListBool(x) => v.push(Some(x)),
                    Cell::Null => v.push(None),
                    _ => vstd::pervasive::unreached(),
                }
            },
        }
        proof {
            assert(final(self).entries() =~= old(self).entries().push(c@));
        }
    }
}

/// Maps a declared field type to a fresh empty column buffer and to the
/// null-append operation for a buffer of that type.
pub trait DomainField {
    /// The field's declared column type.
    spec fn declared_ty(&self) -> ColumnType;

    /// A fresh, empty column buffer of the field's type.
    fn builder(&self) -> (c: Column)
        ensures
            c.ty() == self.declared_ty(),
            c.entries() == Seq::<CellModel>::empty(),
    ;

    /// Appends an explicit null to a buffer of the field's type.
    fn append_null(&self, b: &mut Column)
        requires
            old(b).ty() == self.declared_ty(),
        ensures
            final(b).ty() == old(b).ty(),
            final(b).entries() == old(b).entries().push(CellModel::Null),
    ;
}

impl DomainField for Field {
    open spec fn declared_ty(&self) -> ColumnType {
        self.ty
    }

    fn builder(&self) -> (c: Column) {
        let c = match self.ty {
            ColumnType::Scalar(ScalarType::Str) => Column::Str(Vec::new()),
            ColumnType::Scalar(ScalarType::Int64) => Column::I64(Vec::new()),
            ColumnType::Scalar(ScalarType::Float64) => Column::F64(Vec::new()),
            ColumnType::Scalar(ScalarType::Boolean) => Column::Bool(Vec::new()),
            ColumnType::List(ScalarType::Str) => Column::ListStr(Vec::new()),
            ColumnType::List(ScalarType::Int64) => Column::ListI64(Vec::new()),
            ColumnType::List(ScalarType::Float64) => Column::ListF64(Vec::new()),
            ColumnType::List(ScalarType::Boolean) => Column::ListBool(Vec::new()),
        };
        proof {
            assert(c.entries() =~= Seq::<CellModel>::empty());
        }
        c
    }

    fn append_null(&self, b: &mut Column) {
        b.append(Cell::Null);
    }
}

/// Column buffers line up with schema fields: same count, same types,
/// in the same order.
pub open spec fn columns_match(cols: Seq<Column>, fields: Seq<Field>) -> bool {
    &&& cols.len() == fields.len()
    &&& forall|i: int| 0 <= i < cols.len() ==> (#[trigger] cols[i]).ty() == fields[i].ty
}

/// Fresh, empty column buffers for every field of the schema, in order.
pub fn make_builders(schema: &Schema) -> (cols: Vec<Column>)
    ensures
        columns_match(cols@, schema.fields@),
        forall|i: int|
            0 <= i < cols@.len() ==> (#[trigger] cols@[i]).entries() == Seq::<CellModel>::empty(),
{
    let n = schema.fields.len();
    let mut cols: Vec<Column> = Vec::new();
    let mut i: usize = 0;
    while i < n
        invariant
            n == schema.fields@.len(),
            i <= n,
            cols@.len() == i,
            forall|j: int| 0 <= j < i ==> (#[trigger] cols@[j]).ty() == schema.fields@[j].ty,
            forall|j: int|
                0 <= j < i ==> (#[trigger] cols@[j]).entries() == Seq::<CellModel>::empty(),
        decreases n - i,
    {
        cols.push(schema.fields[i].builder());
        i += 1;
    }
    cols
}

} // verus!
