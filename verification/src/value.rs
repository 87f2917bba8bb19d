use vstd::prelude::*;

verus! {

/// One cell of a result record, as the engine stores it.
///
/// A real number is carried as its IEEE 754 binary64 bit pattern, so that it
/// crosses the library without rounding.
#[derive(Clone, Debug, PartialEq, Eq)]
pub enum Cell {
    Null,
    Integer(i64),
    Real(u64),
    Text(String),
    Blob(Vec<u8>),
}

/// The value that crosses the boundary to the caller.
///
/// A real number is carried as its IEEE 754 binary64 bit pattern and is always
/// finite when it comes out of [`convert_cell`].
#[derive(Clone, Debug, PartialEq, Eq)]
pub enum Value {
    Null,
    Integer(i64),
    Real(u64),
    Text(String),
    Binary(Vec<u8>),
    Boolean(bool),
}

/// Mathematical model of a [`Cell`].
pub ghost enum CellModel {
    Null,
    Integer(int),
    Real(u64),
    Text(Seq<char>),
    Blob(Seq<u8>),
}

/// Mathematical model of a [`Value`].
pub ghost enum ValueModel {
    Null,
    Integer(int),
    Real(u64),
    Text(Seq<char>),
    Binary(Seq<u8>),
    Boolean(bool),
}

impl View for Cell {
    type V = CellModel;

    open spec fn view(&self) -> CellModel {
        match *self {
            Cell::Null => CellModel::Null,
            Cell::Integer(i) => CellModel::Integer(i as int),
            Cell::Real(bits) => CellModel::Real(bits),
            Cell::Text(s) => CellModel::Text(s@),
            Cell::Blob(b) => CellModel::Blob(b@),
        }
    }
}

impl View for Value {
    type V = ValueModel;

    open spec fn view(&self) -> ValueModel {
        match *self {
            Value::Null => ValueModel::Null,
            Value::Integer(i) => ValueModel::Integer(i as int),
            Value::Real(bits) => ValueModel::Real(bits),
            Value::Text(s) => ValueModel::Text(s@),
            Value::Binary(b) => ValueModel::Binary(b@),
            Value::Boolean(b) => ValueModel::Boolean(b),
        }
    }
}

/// The decimal digit that stands for `d`, for `d` below ten.
pub open spec fn digit(d: nat) -> char
    recommends
        d < 10,
{
    seq!['0', '1', '2', '3', '4', '5', '6', '7', '8', '9'][d as int]
}

/// `n` written in base ten, most significant digit first, without padding.
pub open spec fn decimal(n: nat) -> Seq<char>
    decreases n,
{
    if n < 10 {
        seq![digit(n)]
    } else {
        decimal(n / 10).push(digit(n % 10))
    }
}

/// The number that a decimal digit stands for.
pub open spec fn digit_value(c: char) -> nat
    recommends
        '0' <= c <= '9',
{
    (c as nat - '0' as nat) as nat
}

/// The number that a text of decimal digits spells.
pub open spec fn decimal_value(digits: Seq<char>) -> nat
    decreases digits.len(),
{
    if digits.len() == 0 {
        0
    } else {
        10 * decimal_value(digits.drop_last()) + digit_value(digits.last())
    }
}

/// The text that stands for a binary cell of `len` bytes.
pub open spec fn blob_placeholder(len: nat) -> Seq<char> {
    seq!['B', 'L', 'O', 'B', '['] + decimal(len) + seq![']']
}

/// Whether a binary64 bit pattern is a finite number: its exponent field is
/// not all ones, which is what infinities and NaNs have.
pub open spec fn real_is_finite(bits: u64) -> bool {
    (bits >> 52) & 0x7ff != 0x7ff
}

/// Whether a value can be the conversion of a cell: a null, an integer, a
/// text, or a real number that is finite.
pub open spec fn is_cell_value(v: ValueModel) -> bool {
    match v {
        ValueModel::Null => true,
        ValueModel::Integer(_) => true,
        ValueModel::Real(bits) => real_is_finite(bits),
        ValueModel::Text(_) => true,
        ValueModel::Binary(_) => false,
        ValueModel::Boolean(_) => false,
    }
}

/// What a cell becomes on its way to the caller.
pub open spec fn converted(cell: CellModel) -> ValueModel {
    match cell {
        CellModel::Null => ValueModel::Null,
        CellModel::Integer(i) => ValueModel::Integer(i),
        CellModel::Real(bits) => if real_is_finite(bits) {
            ValueModel::Real(bits)
        } else {
            ValueModel::Null
        },
        CellModel::Text(s) => ValueModel::Text(s),
        CellModel::Blob(b) => ValueModel::Text(blob_placeholder(b.len())),
    }
}

/// The one-character text of the digit `d`.
fn digit_text(d: usize) -> (s: &'static str)
    requires
        d < 10,
    ensures
        s@ == seq![digit(d as nat)],
{
    proof {
        reveal_strlit("0");
        reveal_strlit("1");
        reveal_strlit("2");
        reveal_strlit("3");
        reveal_strlit("4");
        reveal_strlit("5");
        reveal_strlit("6");
        reveal_strlit("7");
        reveal_strlit("8");
        reveal_strlit("9");
    }
    let s = if d == 0 {
        "0"
    } else if d == 1 {
        "1"
    } else if d == 2 {
        "2"
    } else if d == 3 {
        "3"
    } else if d == 4 {
        "4"
    } else if d == 5 {
        "5"
    } else if d == 6 {
        "6"
    } else if d == 7 {
        "7"
    } else if d == 8 {
        "8"
    } else {
        "9"
    };
    assert(s@ =~= seq![digit(d as nat)]);
    s
}

/// Writes `n` in base ten.
pub fn decimal_string(n: usize) -> (s: String)
    ensures
        s@ == decimal(n as nat),
    decreases n,
{
    if n < 10 {
        String::from_str(digit_text(n))
    } else {
        let mut s = decimal_string(n / 10);
        s.append(digit_text(n % 10));
        s
    }
}

/// The placeholder text `BLOB[len]` for a binary cell of `len` bytes.
pub fn blob_text(len: usize) -> (s: String)
    ensures
        s@ == blob_placeholder(len as nat),
{
    proof {
        reveal_strlit("BLOB[");
        reveal_strlit("]");
    }
    let mut s = String::from_str("BLOB[");
    let digits = decimal_string(len);
    s.append(digits.as_str());
    s.append("]");
    assert("BLOB["@ =~= seq!['B', 'L', 'O', 'B', '[']);
    assert("]"@ =~= seq![']']);
    s
}

/// Tells whether a binary64 bit pattern is a finite number.
pub fn finite_real(bits: u64) -> (b: bool)
    ensures
        b == real_is_finite(bits),
{
    (bits >> 52) & 0x7ff != 0x7ff
}

/// Converts one cell into the value handed to the caller. The conversion is
/// total: a null stays a null, an integer and a text are kept as they are, a
/// real number that is not finite becomes a null, and a binary cell becomes
/// the text `BLOB[n]` with `n` its length in bytes.
pub fn convert_cell(cell: &Cell) -> (v: Value)
    ensures
        v@ == converted(cell@),
        cell@ is Null ==> v@ is Null,
        cell@ matches CellModel::Text(s) ==> v@ == ValueModel::Text(s),
        cell@ matches CellModel::Blob(b) ==> v@ == ValueModel::Text(
            blob_placeholder(b.len()),
        ),
        is_cell_value(v@),
{
    match cell {
        Cell::Null => Value::Null,
        Cell::Integer(i) => Value::Integer(*i),
        Cell::Real(bits) => {
            if finite_real(*bits) {
                Value::Real(*bits)
            } else {
                Value::Null
            }
        },
        Cell::Text(s) => Value::Text(s.clone()),
        Cell::Blob(b) => Value::Text(blob_text(b.len())),
    }
}

/// The decimal text of a number is made of digits only, has no leading zero
/// but for zero itself, and spells that number.
pub proof fn lemma_decimal_reads_back(n: nat)
    ensures
        decimal(n).len() >= 1,
        forall|i: int| 0 <= i < decimal(n).len() ==> '0' <= (#[trigger] decimal(n)[i]) <= '9',
        n > 0 ==> decimal(n)[0] != '0',
        decimal_value(decimal(n)) == n,
    decreases n,
{
    let last = digit(n % 10);
    assert('0' <= last <= '9' && digit_value(last) == n % 10);
    if n < 10 {
        assert(decimal(n).drop_last() =~= Seq::<char>::empty());
        assert(decimal(n).last() == last);
        assert(decimal_value(decimal(n).drop_last()) == 0);
        assert(n > 0 ==> last != '0');
    } else {
        lemma_decimal_reads_back(n / 10);
        assert(decimal(n).drop_last() =~= decimal(n / 10));
        assert(decimal(n).last() == last);
        assert(decimal_value(decimal(n)) == 10 * decimal_value(decimal(n / 10)) + digit_value(
            last,
        ));
    }
}

} // verus!
