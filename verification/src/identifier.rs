use vstd::prelude::*;
use crate::error::BridgeError;

verus! {

/// Whether `c` may stand in a name that is spliced into a statement: an ASCII
/// letter, an ASCII digit or an underscore.
pub open spec fn is_identifier_char(c: char) -> bool {
    ('a' <= c && c <= 'z') || ('A' <= c && c <= 'Z') || ('0' <= c && c <= '9') || c == '_'
}

/// Whether `s` is a plain identifier: not empty, and made of identifier
/// characters only. Such a name cannot end the statement it is spliced into,
/// nor start another one.
pub open spec fn is_identifier(s: Seq<char>) -> bool {
    s.len() > 0 && forall|i: int| 0 <= i < s.len() ==> is_identifier_char(#[trigger] s[i])
}

/// The statement that asks the engine for the columns of the table `name`.
pub open spec fn table_info_sql(name: Seq<char>) -> Seq<char> {
    "PRAGMA table_info("@ + name + ")"@
}

/// Tells whether the ASCII character with the code `b` is an identifier
/// character.
fn identifier_byte(b: u8) -> (ok: bool)
    ensures
        b < 0x80 ==> ok == is_identifier_char(b as char),
{
    (0x61 <= b && b <= 0x7a) || (0x41 <= b && b <= 0x5a) || (0x30 <= b && b <= 0x39) || b == 0x5f
}

/// Tells whether `name` is a plain identifier.
pub fn valid_identifier(name: &str) -> (ok: bool)
    ensures
        ok == is_identifier(name@),
{
    if !name.is_ascii() {
        return false;
    }
    let bytes = name.as_bytes();
    let n: usize = bytes.len();
    proof {
        vstd::string::is_ascii_spec_bytes(name);
    }
    if n == 0 {
        return false;
    }
    let mut i: usize = 0;
    while i < n
        invariant
            i <= n,
            n == name@.len(),
            bytes@.len() == n,
            forall|k: int| 0 <= k < n ==> bytes@[k] == (#[trigger] name@[k]) as u8,
            forall|k: int| 0 <= k < n ==> '\0' <= (#[trigger] name@[k]) <= '\u{7f}',
            forall|k: int| 0 <= k < i ==> is_identifier_char(#[trigger] name@[k]),
        decreases n - i,
    {
        let b: u8 = bytes[i];
        assert((b as char) == name@[i as int]);
        if !identifier_byte(b) {
            return false;
        }
        i = i + 1;
    }
    true
}

/// The statement that describes the table `table_name`. The name cannot be
/// bound as a parameter, so it becomes part of the statement's text, and only
/// a plain identifier is let in.
pub fn table_info_statement(table_name: &str) -> (r: Result<String, BridgeError>)
    ensures
        is_identifier(table_name@) ==> (r matches Ok(sql) && sql@ == table_info_sql(table_name@)),
        !is_identifier(table_name@) ==> (r matches Err(BridgeError::InvalidIdentifier(name))
            && name@ == table_name@),
{
    if valid_identifier(table_name) {
        let mut sql = String::from_str("PRAGMA table_info(");
        sql.append(table_name);
        sql.append(")");
        Ok(sql)
    } else {
        Err(BridgeError::InvalidIdentifier(String::from_str(table_name)))
    }
}

} // verus!
