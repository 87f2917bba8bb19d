use vstd::prelude::*;
use crate::value::{convert_cell, converted, is_cell_value, Cell, CellModel, Value, ValueModel};

verus! {

/// One column of a record: the column's name and the value under it.
#[derive(Clone, Debug, PartialEq, Eq)]
pub struct Field {
    pub name: String,
    pub value: Value,
}

/// One record of a result: its fields in the order of the statement's
/// columns. Two columns may carry the same name; each keeps its own field.
#[derive(Clone, Debug, PartialEq, Eq)]
pub struct Record {
    pub fields: Vec<Field>,
}

/// Mathematical model of a [`Field`].
pub ghost struct FieldModel {
    pub name: Seq<char>,
    pub value: ValueModel,
}

impl View for Field {
    type V = FieldModel;

    open spec fn view(&self) -> FieldModel {
        FieldModel { name: self.name@, value: self.value@ }
    }
}

impl View for Record {
    type V = Seq<FieldModel>;

    open spec fn view(&self) -> Seq<FieldModel> {
        Seq::new(self.fields@.len(), |i: int| self.fields@[i]@)
    }
}

/// The column names as sequences of characters.
pub open spec fn names_of(names: Seq<String>) -> Seq<Seq<char>> {
    Seq::new(names.len(), |i: int| names[i]@)
}

/// The cells as models; `None` stands for a cell that could not be read.
pub open spec fn cells_of(cells: Seq<Option<Cell>>) -> Seq<Option<CellModel>> {
    Seq::new(
        cells.len(),
        |i: int|
            match cells[i] {
                Some(c) => Some(c@),
                None => None,
            },
    )
}

/// A record after one more column: a cell that was read adds a field under
/// the column's name, a cell that could not be read is skipped.
pub open spec fn with_cell(
    record: Seq<FieldModel>,
    name: Seq<char>,
    cell: Option<CellModel>,
) -> Seq<FieldModel> {
    match cell {
        Some(c) => record.push(FieldModel { name: name, value: converted(c) }),
        None => record,
    }
}

/// The record made of the first `n` columns.
pub open spec fn record_prefix(
    names: Seq<Seq<char>>,
    cells: Seq<Option<CellModel>>,
    n: nat,
) -> Seq<FieldModel>
    recommends
        n <= names.len(),
        n <= cells.len(),
    decreases n,
{
    if n == 0 {
        Seq::empty()
    } else {
        with_cell(record_prefix(names, cells, (n - 1) as nat), names[n - 1], cells[n - 1])
    }
}

/// The number of columns that `names` and `cells` both cover.
pub open spec fn width(names: Seq<Seq<char>>, cells: Seq<Option<CellModel>>) -> nat {
    if names.len() <= cells.len() {
        names.len()
    } else {
        cells.len()
    }
}

/// The record that the column names and the cells of one result record make.
pub open spec fn record_of(names: Seq<Seq<char>>, cells: Seq<Option<CellModel>>) -> Seq<
    FieldModel,
> {
    record_prefix(names, cells, width(names, cells))
}

/// How many of the first `n` cells were read.
pub open spec fn present(cells: Seq<Option<CellModel>>, n: nat) -> nat
    recommends
        n <= cells.len(),
    decreases n,
{
    if n == 0 {
        0
    } else {
        present(cells, (n - 1) as nat) + if cells[n - 1] is Some {
            1nat
        } else {
            0nat
        }
    }
}

/// A record is a record of a statement with the columns `names` when some
/// outcome of reading one cell per column gives it.
pub open spec fn record_conforms(record: Seq<FieldModel>, names: Seq<Seq<char>>) -> bool {
    exists|cells: Seq<Option<CellModel>>|
        cells.len() == names.len() && record == #[trigger] record_of(names, cells)
}

/// Builds a record from the column names of a statement and the cells read
/// for one of its result records, column by column. `None` stands for a cell
/// that could not be read: it is left out, and the other cells of the record
/// are kept.
pub fn build_record(names: &Vec<String>, cells: &Vec<Option<Cell>>) -> (record: Record)
    ensures
        record@ == record_of(names_of(names@), cells_of(cells@)),
{
    let n: usize = if names.len() <= cells.len() {
        names.len()
    } else {
        cells.len()
    };
    let mut fields: Vec<Field> = Vec::new();
    let mut i: usize = 0;
    while i < n
        invariant
            i <= n,
            n <= names.len(),
            n <= cells.len(),
            Seq::new(fields@.len(), |k: int| fields@[k]@) == record_prefix(
                names_of(names@),
                cells_of(cells@),
                i as nat,
            ),
        decreases n - i,
    {
        let ghost before = Seq::new(fields@.len(), |k: int| fields@[k]@);
        match &cells[i] {
            Some(cell) => {
                let field = Field { name: names[i].clone(), value: convert_cell(cell) };
                fields.push(field);
                assert(Seq::new(fields@.len(), |k: int| fields@[k]@) =~= before.push(field@));
            },
            None => {},
        }
        i = i + 1;
    }
    Record { fields }
}

/// The length of a record is the number of cells that were read.
pub proof fn lemma_record_prefix_len(names: Seq<Seq<char>>, cells: Seq<Option<CellModel>>, n: nat)
    ensures
        record_prefix(names, cells, n).len() == present(cells, n),
        present(cells, n) <= n,
    decreases n,
{
    if n > 0 {
        lemma_record_prefix_len(names, cells, (n - 1) as nat);
    }
}

/// Later columns do not disturb the fields of earlier ones.
pub proof fn lemma_record_prefix_extends(
    names: Seq<Seq<char>>,
    cells: Seq<Option<CellModel>>,
    m: nat,
    n: nat,
)
    requires
        m <= n,
    ensures
        record_prefix(names, cells, m).len() <= record_prefix(names, cells, n).len(),
        forall|k: int|
            0 <= k < record_prefix(names, cells, m).len() ==> record_prefix(names, cells, n)[k]
                == record_prefix(names, cells, m)[k],
    decreases n,
{
    if m < n {
        lemma_record_prefix_extends(names, cells, m, (n - 1) as nat);
    }
}

/// Every cell that was read has its field, under its column's name and with
/// its converted value, and the fields stand in the order of the columns: the
/// field of column `i` comes after exactly the fields of the columns before
/// `i` that were read.
pub proof fn lemma_field_of_column(names: Seq<Seq<char>>, cells: Seq<Option<CellModel>>, i: int)
    requires
        0 <= i < width(names, cells),
        cells[i] is Some,
    ensures
        present(cells, i as nat) < record_of(names, cells).len(),
        record_of(names, cells)[present(cells, i as nat) as int] == (FieldModel {
            name: names[i],
            value: converted(cells[i]->Some_0),
        }),
{
    let n = width(names, cells);
    lemma_record_prefix_len(names, cells, i as nat);
    lemma_record_prefix_len(names, cells, (i + 1) as nat);
    lemma_record_prefix_extends(names, cells, (i + 1) as nat, n);
}

/// A native null is never left out of the record: it has a field, and that
/// field holds a null.
pub proof fn lemma_null_is_kept(names: Seq<Seq<char>>, cells: Seq<Option<CellModel>>, i: int)
    requires
        0 <= i < width(names, cells),
        cells[i] == Some(CellModel::Null),
    ensures
        present(cells, i as nat) < record_of(names, cells).len(),
        record_of(names, cells)[present(cells, i as nat) as int] == (FieldModel {
            name: names[i],
            value: ValueModel::Null,
        }),
{
    lemma_field_of_column(names, cells, i);
}

proof fn lemma_prefix_values(names: Seq<Seq<char>>, cells: Seq<Option<CellModel>>, n: nat)
    ensures
        forall|k: int|
            0 <= k < record_prefix(names, cells, n).len() ==> is_cell_value(
                (#[trigger] record_prefix(names, cells, n)[k]).value,
            ),
    decreases n,
{
    if n > 0 {
        lemma_prefix_values(names, cells, (n - 1) as nat);
    }
}

/// Every value in a record is the conversion of a cell: none is binary or
/// boolean, and every real number is finite.
pub proof fn lemma_record_values(names: Seq<Seq<char>>, cells: Seq<Option<CellModel>>)
    ensures
        forall|k: int|
            0 <= k < record_of(names, cells).len() ==> is_cell_value(
                (#[trigger] record_of(names, cells)[k]).value,
            ),
{
    lemma_prefix_values(names, cells, width(names, cells));
}

proof fn lemma_all_present(cells: Seq<Option<CellModel>>, n: nat)
    requires
        n <= cells.len(),
    ensures
        present(cells, n) <= n,
        present(cells, n) == n <==> (forall|i: int| 0 <= i < n ==> (#[trigger] cells[i]) is Some),
    decreases n,
{
    if n > 0 {
        lemma_all_present(cells, (n - 1) as nat);
        if present(cells, n) == n {
            assert forall|i: int| 0 <= i < n implies (#[trigger] cells[i]) is Some by {
                if i < n - 1 {
                } else {
                }
            }
        } else if forall|i: int| 0 <= i < n ==> (#[trigger] cells[i]) is Some {
            assert(cells[n - 1] is Some);
            assert(forall|i: int| 0 <= i < n - 1 ==> (#[trigger] cells[i]) is Some);
        }
    }
}

proof fn lemma_present_counts_all(cells: Seq<Option<CellModel>>, i: nat)
    requires
        i <= cells.len(),
        forall|k: int| 0 <= k < cells.len() ==> (#[trigger] cells[k]) is Some,
    ensures
        present(cells, i) == i,
    decreases i,
{
    if i > 0 {
        lemma_present_counts_all(cells, (i - 1) as nat);
    }
}

/// Where every cell of a record was read, the names of the record's fields
/// are the column names of the statement, one for one and in the same order,
/// and each field holds the converted cell of its column.
pub proof fn lemma_record_complete(names: Seq<Seq<char>>, cells: Seq<Option<CellModel>>)
    requires
        names.len() == cells.len(),
        forall|i: int| 0 <= i < cells.len() ==> (#[trigger] cells[i]) is Some,
    ensures
        record_of(names, cells).len() == names.len(),
        forall|i: int|
            0 <= i < names.len() ==> (#[trigger] record_of(names, cells)[i]) == (FieldModel {
                name: names[i],
                value: converted(cells[i]->Some_0),
            }),
{
    let n = names.len();
    lemma_record_prefix_len(names, cells, n);
    lemma_present_counts_all(cells, n);
    assert forall|i: int| 0 <= i < names.len() implies (#[trigger] record_of(names, cells)[i]) == (
    FieldModel { name: names[i], value: converted(cells[i]->Some_0) }) by {
        lemma_present_counts_all(cells, i as nat);
        lemma_field_of_column(names, cells, i);
    }
}

/// A record of a statement never has more fields than the statement has
/// columns, and where it has as many, its field names are the column names in
/// the same order.
pub proof fn lemma_conforming_record(record: Seq<FieldModel>, names: Seq<Seq<char>>)
    requires
        record_conforms(record, names),
    ensures
        record.len() <= names.len(),
        record.len() == names.len() ==> forall|i: int|
            0 <= i < names.len() ==> (#[trigger] record[i]).name == names[i],
        forall|k: int| 0 <= k < record.len() ==> is_cell_value((#[trigger] record[k]).value),
{
    let cells = choose|cells: Seq<Option<CellModel>>|
        cells.len() == names.len() && record == #[trigger] record_of(names, cells);
    lemma_record_prefix_len(names, cells, names.len());
    lemma_record_values(names, cells);
    lemma_all_present(cells, names.len());
    if record.len() == names.len() {
        lemma_record_complete(names, cells);
    }
}

/// The names of a record's fields, in their order.
pub open spec fn field_names(record: Seq<FieldModel>) -> Seq<Seq<char>> {
    Seq::new(record.len(), |i: int| record[i].name)
}

/// Whether every value in a record can be the conversion of a cell.
pub open spec fn holds_cell_values(record: Seq<FieldModel>) -> bool {
    forall|j: int| 0 <= j < record.len() ==> is_cell_value((#[trigger] record[j]).value)
}

/// A cell that converts to `v`, for a value that is the conversion of a cell.
pub open spec fn source_cell(v: ValueModel) -> CellModel {
    match v {
        ValueModel::Integer(i) => CellModel::Integer(i),
        ValueModel::Real(bits) => CellModel::Real(bits),
        ValueModel::Text(s) => CellModel::Text(s),
        _ => CellModel::Null,
    }
}

spec fn embedding_names(
    before: Seq<Seq<char>>,
    record: Seq<FieldModel>,
    after: Seq<Seq<char>>,
) -> Seq<Seq<char>> {
    before + field_names(record) + after
}

spec fn embedding_cells(
    before: Seq<Seq<char>>,
    record: Seq<FieldModel>,
    after: Seq<Seq<char>>,
) -> Seq<Option<CellModel>> {
    Seq::new(
        before.len() + record.len() + after.len(),
        |i: int|
            if before.len() <= i < before.len() + record.len() {
                Some(source_cell(record[i - before.len()].value))
            } else {
                None
            },
    )
}

proof fn lemma_embedding_prefix(
    before: Seq<Seq<char>>,
    record: Seq<FieldModel>,
    after: Seq<Seq<char>>,
    n: nat,
)
    requires
        holds_cell_values(record),
        n <= before.len() + record.len() + after.len(),
    ensures
        record_prefix(
            embedding_names(before, record, after),
            embedding_cells(before, record, after),
            n,
        ) == (if n <= before.len() {
            Seq::<FieldModel>::empty()
        } else if n <= before.len() + record.len() {
            record.take(n - before.len())
        } else {
            record
        }),
    decreases n,
{
    let names = embedding_names(before, record, after);
    let cells = embedding_cells(before, record, after);
    if n > 0 {
        lemma_embedding_prefix(before, record, after, (n - 1) as nat);
        let earlier = record_prefix(names, cells, (n - 1) as nat);
        if n <= before.len() {
        } else if n <= before.len() + record.len() {
            let j = n - 1 - before.len();
            let field = record[j];
            assert(names[n - 1] == field.name);
            assert(cells[n - 1] == Some(source_cell(field.value)));
            assert(is_cell_value(field.value));
            assert(converted(source_cell(field.value)) == field.value);
            assert(earlier =~= record.take(j));
            assert(record.take(j).push(field) =~= record.take(j + 1));
        } else {
            assert(record.take(record.len() as int) =~= record);
        }
    }
}

/// A record whose values are all conversions of cells is a record of every
/// statement whose column names hold the record's field names in a row: the
/// columns before and after them are those whose cells could not be read.
pub proof fn lemma_record_embeds(
    before: Seq<Seq<char>>,
    record: Seq<FieldModel>,
    after: Seq<Seq<char>>,
)
    requires
        holds_cell_values(record),
    ensures
        record_conforms(record, before + field_names(record) + after),
{
    let names = embedding_names(before, record, after);
    let cells = embedding_cells(before, record, after);
    lemma_embedding_prefix(before, record, after, names.len());
    assert(record.take(record.len() as int) =~= record);
    assert(record == record_of(names, cells));
}

} // verus!
