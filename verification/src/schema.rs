use vstd::prelude::*;
use crate::record::names_of;
use crate::value::{Cell, CellModel};

verus! {

/// One column of a table, as the engine's schema reflection describes it.
#[derive(Clone, Debug, PartialEq, Eq)]
pub struct ColumnInfo {
    /// Position of the column in the table, from zero.
    pub cid: i64,
    /// The column's name.
    pub name: String,
    /// The type the column was declared with; empty where none was given.
    pub decl_type: String,
    /// Whether the column was declared not null.
    pub notnull: bool,
    /// The text of the column's default value, if it has one.
    pub dflt_value: Option<String>,
    /// Whether the column is part of the primary key.
    pub pk: bool,
}

/// Mathematical model of a [`ColumnInfo`].
pub ghost struct ColumnInfoModel {
    pub cid: int,
    pub name: Seq<char>,
    pub decl_type: Seq<char>,
    pub notnull: bool,
    pub dflt_value: Option<Seq<char>>,
    pub pk: bool,
}

impl View for ColumnInfo {
    type V = ColumnInfoModel;

    open spec fn view(&self) -> ColumnInfoModel {
        ColumnInfoModel {
            cid: self.cid as int,
            name: self.name@,
            decl_type: self.decl_type@,
            notnull: self.notnull,
            dflt_value: match self.dflt_value {
                Some(text) => Some(text@),
                None => None,
            },
            pk: self.pk,
        }
    }
}

/// What the names of the engine's own tables begin with.
pub open spec fn internal_prefix() -> Seq<char> {
    "sqlite_"@
}

/// Whether `name` is the name of one of the engine's own tables. The engine
/// keeps every name with this beginning for itself.
pub open spec fn is_internal_name(name: Seq<char>) -> bool {
    internal_prefix().is_prefix_of(name)
}

/// The names that are left when the engine's own tables are taken out, in the
/// order they came in.
pub open spec fn user_tables(names: Seq<Seq<char>>) -> Seq<Seq<char>> {
    names.filter(|name: Seq<char>| !is_internal_name(name))
}

/// The models of the cells of one record.
pub open spec fn cell_models(cells: Seq<Cell>) -> Seq<CellModel> {
    Seq::new(cells.len(), |i: int| cells[i]@)
}

/// The integer in a cell; only an integer cell has one.
pub open spec fn integer_in(cell: CellModel) -> Option<int> {
    match cell {
        CellModel::Integer(i) => Some(i),
        _ => None,
    }
}

/// The text in a cell; only a text cell has one.
pub open spec fn text_in(cell: CellModel) -> Option<Seq<char>> {
    match cell {
        CellModel::Text(s) => Some(s),
        _ => None,
    }
}

/// The text in a cell that may be null: a null cell has none, a text cell has
/// its text, and any other cell does not fit.
pub open spec fn optional_text_in(cell: CellModel) -> Option<Option<Seq<char>>> {
    match cell {
        CellModel::Null => Some(None),
        CellModel::Text(s) => Some(Some(s)),
        _ => None,
    }
}

/// The flag in a cell: an integer cell holds one, set unless the integer is
/// zero.
pub open spec fn flag_in(cell: CellModel) -> Option<bool> {
    match cell {
        CellModel::Integer(i) => Some(i != 0),
        _ => None,
    }
}

/// The column that a record of the engine's schema reflection describes, if
/// the record has the six cells of such a record, each of its kind: position,
/// name, declared type, not-null flag, default value and primary-key flag.
pub open spec fn column_info_of(cells: Seq<CellModel>) -> Option<ColumnInfoModel> {
    if cells.len() == 6 && integer_in(cells[0]) is Some && text_in(cells[1]) is Some && text_in(
        cells[2],
    ) is Some && flag_in(cells[3]) is Some && optional_text_in(cells[4]) is Some && flag_in(
        cells[5],
    ) is Some {
        Some(
            ColumnInfoModel {
                cid: integer_in(cells[0])->Some_0,
                name: text_in(cells[1])->Some_0,
                decl_type: text_in(cells[2])->Some_0,
                notnull: flag_in(cells[3])->Some_0,
                dflt_value: optional_text_in(cells[4])->Some_0,
                pk: flag_in(cells[5])->Some_0,
            },
        )
    } else {
        None
    }
}

/// Reads a cell as an integer.
pub fn integer_of(cell: &Cell) -> (r: Option<i64>)
    ensures
        r is Some <==> integer_in(cell@) is Some,
        r matches Some(i) ==> integer_in(cell@) == Some(i as int),
{
    match cell {
        Cell::Integer(i) => Some(*i),
        _ => None,
    }
}

/// Reads a cell as a text.
pub fn text_of(cell: &Cell) -> (r: Option<String>)
    ensures
        r is Some <==> text_in(cell@) is Some,
        r matches Some(s) ==> text_in(cell@) == Some(s@),
{
    match cell {
        Cell::Text(s) => Some(s.clone()),
        _ => None,
    }
}

/// Reads a cell as a text that may be missing.
pub fn optional_text_of(cell: &Cell) -> (r: Option<Option<String>>)
    ensures
        r is Some <==> optional_text_in(cell@) is Some,
        r matches Some(Some(s)) ==> optional_text_in(cell@) == Some(Some(s@)),
        r matches Some(None) ==> optional_text_in(cell@) == Some(None::<Seq<char>>),
{
    match cell {
        Cell::Null => Some(None),
        Cell::Text(s) => Some(Some(s.clone())),
        _ => None,
    }
}

/// Reads a cell as a flag.
pub fn flag_of(cell: &Cell) -> (r: Option<bool>)
    ensures
        r == flag_in(cell@),
{
    match cell {
        Cell::Integer(i) => Some(*i != 0),
        _ => None,
    }
}

/// Reads one record of the engine's schema reflection as the description of a
/// column. `None` where the record has not exactly six cells or a cell is not
/// of the kind its place asks for.
pub fn column_info(cells: &Vec<Cell>) -> (r: Option<ColumnInfo>)
    ensures
        r is Some <==> column_info_of(cell_models(cells@)) is Some,
        r matches Some(column) ==> column_info_of(cell_models(cells@)) == Some(column@),
{
    if cells.len() != 6 {
        return None;
    }
    let cid = match integer_of(&cells[0]) {
        Some(cid) => cid,
        None => {
            return None;
        },
    };
    let name = match text_of(&cells[1]) {
        Some(name) => name,
        None => {
            return None;
        },
    };
    let decl_type = match text_of(&cells[2]) {
        Some(decl_type) => decl_type,
        None => {
            return None;
        },
    };
    let notnull = match flag_of(&cells[3]) {
        Some(notnull) => notnull,
        None => {
            return None;
        },
    };
    let dflt_value = match optional_text_of(&cells[4]) {
        Some(dflt_value) => dflt_value,
        None => {
            return None;
        },
    };
    let pk = match flag_of(&cells[5]) {
        Some(pk) => pk,
        None => {
            return None;
        },
    };
    Some(ColumnInfo { cid, name, decl_type, notnull, dflt_value, pk })
}

/// Tells whether `name` is the name of one of the engine's own tables.
pub fn internal_name(name: &str) -> (internal: bool)
    ensures
        internal == is_internal_name(name@),
{
    proof {
        reveal_strlit("sqlite_");
    }
    if name.unicode_len() < 7 {
        return false;
    }
    let internal = name.get_char(0) == 's' && name.get_char(1) == 'q' && name.get_char(2) == 'l'
        && name.get_char(3) == 'i' && name.get_char(4) == 't' && name.get_char(5) == 'e'
        && name.get_char(6) == '_';
    proof {
        let prefix = internal_prefix();
        let head = name@.subrange(0, 7);
        assert(prefix =~= seq!['s', 'q', 'l', 'i', 't', 'e', '_']);
        if internal {
            assert(prefix =~= head);
        } else {
            assert(prefix[0] != head[0] || prefix[1] != head[1] || prefix[2] != head[2]
                || prefix[3] != head[3] || prefix[4] != head[4] || prefix[5] != head[5]
                || prefix[6] != head[6]);
        }
    }
    internal
}

/// Takes the engine's own tables out of a list of table names and keeps the
/// others in their order.
pub fn keep_user_tables(names: &Vec<String>) -> (tables: Vec<String>)
    ensures
        names_of(tables@) == user_tables(names_of(names@)),
        forall|i: int| 0 <= i < tables@.len() ==> !is_internal_name((#[trigger] tables@[i])@),
{
    let ghost user = |name: Seq<char>| !is_internal_name(name);
    let mut tables: Vec<String> = Vec::new();
    let mut i: usize = 0;
    proof {
        reveal(Seq::filter);
        assert(names_of(names@).take(0) =~= Seq::<Seq<char>>::empty());
    }
    while i < names.len()
        invariant
            i <= names.len(),
            user == |name: Seq<char>| !is_internal_name(name),
            names_of(tables@) == names_of(names@).take(i as int).filter(user),
            forall|k: int| 0 <= k < tables@.len() ==> !is_internal_name((#[trigger] tables@[k])@),
        decreases names.len() - i,
    {
        let ghost before = names_of(tables@);
        proof {
            reveal(Seq::filter);
            let next = names_of(names@).take(i + 1);
            assert(next.drop_last() =~= names_of(names@).take(i as int));
            assert(next.last() == names@[i as int]@);
        }
        if !internal_name(names[i].as_str()) {
            tables.push(names[i].clone());
            assert(names_of(tables@) =~= before.push(names@[i as int]@));
        }
        i = i + 1;
    }
    proof {
        assert(names_of(names@).take(names@.len() as int) =~= names_of(names@));
    }
    tables
}

} // verus!
