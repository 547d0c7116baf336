//! Questions about a database and its statements that are answered from
//! the rows of a query.

use vstd::prelude::*;
use vstd::string::{StrSliceExecFns, StringExecFns};
use vstd::slice::slice_index_get;
use vstd::utf8::{encode_utf8, encode_utf8_decode_utf8};
use crate::connection::{
    column_names,
    connection_fault,
    inconsistent,
    prepare,
    step_by,
    Context,
    VirtualConnection,
};
use crate::error::RusqliteError;
use crate::naming::{demangled, get_filename, without_suffix};
use crate::value::SQLiteValue;

verus! {

/// Whether two texts are the same.
pub fn same_text(a: &str, b: &str) -> (same: bool)
    ensures
        same == (a@ == b@),
{
    proof {
        encode_utf8_decode_utf8(a@);
        encode_utf8_decode_utf8(b@);
    }
    let x = a.as_bytes();
    let y = b.as_bytes();
    if x.len() != y.len() {
        return false;
    }
    let mut i: usize = 0;
    while i < x.len()
        invariant
            i <= x@.len(),
            x@.len() == y@.len(),
            x@ == encode_utf8(a@),
            y@ == encode_utf8(b@),
            forall|k: int| 0 <= k < i ==> x@[k] == y@[k],
        decreases x@.len() - i,
    {
        if *slice_index_get(x, i) != *slice_index_get(y, i) {
            return false;
        }
        i = i + 1;
    }
    assert(x@ =~= y@);
    true
}

/// The operations of the engine's bytecode that may write to the database.
pub open spec fn is_writing_opcode(opcode: Seq<char>) -> bool {
    ||| opcode == "Insert"@
    ||| opcode == "Update"@
    ||| opcode == "Delete"@
    ||| opcode == "NewRowid"@
    ||| opcode == "WriteCookie"@
    ||| opcode == "Commit"@
    ||| opcode == "Rollback"@
    ||| opcode == "AutoCommit"@
    ||| opcode == "Savepoint"@
    ||| opcode == "Release"@
    ||| opcode == "JournalMode"@
    ||| opcode == "Vacuum"@
    ||| opcode == "Expire"@
    ||| opcode == "InsertInt"@
    ||| opcode == "InsertReal"@
    ||| opcode == "RealAffinity"@
}

/// Whether an operation of the engine's bytecode may write to the database.
pub fn opcode_writes(opcode: &str) -> (writes: bool)
    ensures
        writes == is_writing_opcode(opcode@),
{
    same_text(opcode, "Insert") || same_text(opcode, "Update") || same_text(opcode, "Delete")
        || same_text(opcode, "NewRowid") || same_text(opcode, "WriteCookie") || same_text(
        opcode,
        "Commit",
    ) || same_text(opcode, "Rollback") || same_text(opcode, "AutoCommit") || same_text(
        opcode,
        "Savepoint",
    ) || same_text(opcode, "Release") || same_text(opcode, "JournalMode") || same_text(
        opcode,
        "Vacuum",
    ) || same_text(opcode, "Expire") || same_text(opcode, "InsertInt") || same_text(
        opcode,
        "InsertReal",
    ) || same_text(opcode, "RealAffinity")
}

/// The query that asks the engine for the bytecode of a statement.
pub fn explain_query(sql: &str) -> (query: String)
    ensures
        query@ == "EXPLAIN "@ + sql@,
{
    let mut query = "EXPLAIN ".to_owned();
    query.append(sql);
    query
}

/// The index of the column that holds the operation in the rows of an
/// explained statement: the first one named `opcode`.
pub fn opcode_column(names: &Vec<String>) -> (index: Option<usize>)
    ensures
        match index {
            Some(i) => i < names@.len() && names@[i as int]@ == "opcode"@ && forall|k: int|
                0 <= k < i ==> names@[k]@ != "opcode"@,
            None => forall|k: int| 0 <= k < names@.len() ==> names@[k]@ != "opcode"@,
        },
{
    let mut i: usize = 0;
    while i < names.len()
        invariant
            i <= names.len(),
            forall|k: int| 0 <= k < i ==> names@[k]@ != "opcode"@,
        decreases names.len() - i,
    {
        if same_text(names[i].as_str(), "opcode") {
            return Some(i);
        }
        i = i + 1;
    }
    None
}

/// The row holds a text at the column, and that text is an operation that
/// may write.
pub open spec fn row_writes(row: Seq<SQLiteValue>, column: int) -> bool {
    0 <= column < row.len() && (row[column] matches SQLiteValue::Text(opcode)
        && is_writing_opcode(opcode@))
}

/// The row holds a text at the column.
pub open spec fn row_has_opcode(row: Seq<SQLiteValue>, column: int) -> bool {
    0 <= column < row.len() && row[column] is Text
}

/// Whether none of the operations in the rows of an explained statement may
/// write; `None` where a row holds no operation at the column.
pub fn rows_read_only(rows: &Vec<Vec<SQLiteValue>>, column: usize) -> (read_only: Option<bool>)
    ensures
        match read_only {
            Some(answer) => (forall|k: int|
                0 <= k < rows@.len() ==> row_has_opcode(#[trigger] rows@[k]@, column as int))
                && answer == !exists|k: int|
                0 <= k < rows@.len() && row_writes(#[trigger] rows@[k]@, column as int),
            None => exists|k: int|
                0 <= k < rows@.len() && !row_has_opcode(#[trigger] rows@[k]@, column as int),
        },
{
    let mut writes = false;
    let mut i: usize = 0;
    while i < rows.len()
        invariant
            i <= rows.len(),
            forall|k: int| 0 <= k < i ==> row_has_opcode(#[trigger] rows@[k]@, column as int),
            writes == exists|k: int|
                0 <= k < i && row_writes(#[trigger] rows@[k]@, column as int),
        decreases rows.len() - i,
    {
        let row = &rows[i];
        if column >= row.len() {
            assert(!row_has_opcode(rows@[i as int]@, column as int));
            return None;
        }
        match &row[column] {
            SQLiteValue::Text(opcode) => {
                let here = opcode_writes(opcode.as_str());
                assert(here == row_writes(rows@[i as int]@, column as int));
                let ghost before = writes;
                writes = writes || here;
                proof {
                    if writes {
                        if here {
                            assert(row_writes(rows@[i as int]@, column as int));
                        } else {
                            let k = choose|k: int|
                                0 <= k < i && row_writes(#[trigger] rows@[k]@, column as int);
                            assert(0 <= k < i + 1 && row_writes(rows@[k]@, column as int));
                        }
                    } else {
                        assert forall|k: int| 0 <= k < i + 1 implies !row_writes(
                            #[trigger] rows@[k]@,
                            column as int,
                        ) by {
                            if k < i {
                            }
                        }
                    }
                }
            },
            _ => {
                assert(!row_has_opcode(rows@[i as int]@, column as int));
                return None;
            },
        }
        i = i + 1;
    }
    Some(!writes)
}

/// Whether a statement leaves the database as it is, judged by the bytecode
/// that the engine compiles it to. Handles that do not belong together end
/// the call before anything is sent; an explanation that has not the shape
/// of one is reported as an answer out of step.
pub fn is_read_only(ctx: &Context, conn: &VirtualConnection, sql: &str) -> (result: Result<
    bool,
    RusqliteError,
>)
    ensures
        connection_fault(ctx, conn) matches Some(reason) ==> inconsistent(result, reason),
{
    let query = explain_query(sql);
    let stmt = match prepare(ctx, conn, query.as_str()) {
        Ok(stmt) => stmt,
        Err(e) => {
            return Err(e);
        },
    };
    let names = match column_names(ctx, conn, &stmt) {
        Ok(names) => names,
        Err(e) => {
            return Err(e);
        },
    };
    let column = match opcode_column(&names) {
        Some(column) => column,
        None => {
            return Err(RusqliteError::CommunicationError("Unexpected answer".to_owned()));
        },
    };
    let rows = match step_by(ctx, conn, &stmt, 100) {
        Ok(Some(rows)) => rows,
        Ok(None) => {
            return Err(RusqliteError::CommunicationError("Unexpected answer".to_owned()));
        },
        Err(e) => {
            return Err(e);
        },
    };
    match rows_read_only(&rows, column) {
        Some(answer) => Ok(answer),
        None => Err(RusqliteError::CommunicationError("Unexpected answer".to_owned())),
    }
}

/// The last component of a path, as the platform reads paths, where the path
/// has one and it is text.
pub uninterp spec fn file_name_of(path: Seq<char>) -> Option<Seq<char>>;

/// `Path::file_name`, from text to text: the last component of a path, where
/// it has one that is valid Unicode.
#[verifier::external_body]
fn last_component(path: &str) -> (name: Option<String>)
    ensures
        match name {
            Some(n) => file_name_of(path@) == Some(n@),
            None => file_name_of(path@) is None,
        },
{
    std::path::Path::new(path).file_name().and_then(|name| name.to_str()).map(
        |name| name.to_owned(),
    )
}

/// The logical name of a database file, from its name on disk: the name on
/// disk without its three-character suffix, decoded.
pub fn logical_file_name(file_name: &str) -> (name: Option<String>)
    ensures
        match name {
            Some(n) => file_name@.len() >= 3 && demangled(without_suffix(file_name@)) == Some(
                n@,
            ),
            None => file_name@.len() < 3 || demangled(without_suffix(file_name@)) is None,
        },
{
    let len = file_name.unicode_len();
    if len < 3 {
        return None;
    }
    let stem = file_name.substring_char(0, len - 3);
    get_filename(stem)
}

/// One database attached to a connection: its number, the name it is
/// attached under, and the logical name of its file.
#[derive(Debug)]
pub struct AttachedDatabase {
    pub seq: usize,
    pub name: String,
    pub file: String,
}

/// The row has the shape of a row of the list of attached databases: a
/// number that is not negative, then two texts.
pub open spec fn lists_database(row: Seq<SQLiteValue>) -> bool {
    &&& row.len() >= 3
    &&& row[0] matches SQLiteValue::Integer(seq) && 0 <= seq <= usize::MAX
    &&& row[1] is Text
    &&& row[2] is Text
}

/// One attached database, by content.
pub struct AttachedDatabaseView {
    pub seq: usize,
    pub name: Seq<char>,
    pub file: Seq<char>,
}

impl View for AttachedDatabase {
    type V = AttachedDatabaseView;

    open spec fn view(&self) -> AttachedDatabaseView {
        AttachedDatabaseView { seq: self.seq, name: self.name@, file: self.file@ }
    }
}

/// What was read, by content.
pub open spec fn entry_view(entry: Option<AttachedDatabase>) -> Option<AttachedDatabaseView> {
    match entry {
        Some(db) => Some(db@),
        None => None,
    }
}

/// The path of the file in a row of the list of attached databases.
pub open spec fn listed_path(row: Seq<SQLiteValue>) -> Option<Seq<char>> {
    if lists_database(row) {
        Some(row[2]->Text_0@)
    } else {
        None
    }
}

/// The database that a row lists, given the last component of its path: the
/// number and the name are those of the row, and the file is the logical
/// name that the component stands for without its three-character suffix.
/// A row of another shape, a path without such a component and a component
/// that stands for no name list nothing.
pub open spec fn listed_database(row: Seq<SQLiteValue>, file_name: Option<Seq<char>>) -> Option<
    AttachedDatabaseView,
> {
    if !lists_database(row) {
        None
    } else {
        match file_name {
            Some(f) => if f.len() >= 3 {
                match demangled(without_suffix(f)) {
                    Some(file) => Some(
                        AttachedDatabaseView {
                            seq: row[0]->Integer_0 as usize,
                            name: row[1]->Text_0@,
                            file,
                        },
                    ),
                    None => None,
                }
            } else {
                None
            },
            None => None,
        }
    }
}

/// Whether a row has the shape of a row of the list of attached databases.
pub fn has_database_shape(row: &Vec<SQLiteValue>) -> (shaped: bool)
    ensures
        shaped == lists_database(row@),
{
    if row.len() < 3 {
        return false;
    }
    let numbered = match &row[0] {
        SQLiteValue::Integer(seq) => 0 <= *seq && *seq as u64 <= usize::MAX as u64,
        _ => false,
    };
    let named = match &row[1] {
        SQLiteValue::Text(_) => true,
        _ => false,
    };
    let placed = match &row[2] {
        SQLiteValue::Text(_) => true,
        _ => false,
    };
    numbered && named && placed
}

/// Reads one row of the list of attached databases, given the last component
/// of the path in it.
pub fn read_database(row: &Vec<SQLiteValue>, file_name: Option<String>) -> (entry: Option<
    AttachedDatabase,
>)
    ensures
        entry_view(entry) == listed_database(
            row@,
            match file_name {
                Some(f) => Some(f@),
                None => None,
            },
        ),
{
    if !has_database_shape(row) {
        return None;
    }
    let seq = match &row[0] {
        SQLiteValue::Integer(seq) => *seq,
        _ => {
            return None;
        },
    };
    let name = match &row[1] {
        SQLiteValue::Text(name) => name.clone(),
        _ => {
            return None;
        },
    };
    let file_name = match file_name {
        Some(file_name) => file_name,
        None => {
            return None;
        },
    };
    match logical_file_name(file_name.as_str()) {
        Some(file) => Some(AttachedDatabase { seq: seq as usize, name, file }),
        None => None,
    }
}

/// Reads one row of the list of attached databases: the database that the
/// row lists, given the last component of the path in it.
pub fn database_entry(row: &Vec<SQLiteValue>) -> (entry: Option<AttachedDatabase>)
    ensures
        entry_view(entry) == listed_database(
            row@,
            match listed_path(row@) {
                Some(path) => file_name_of(path),
                None => None,
            },
        ),
{
    if !has_database_shape(row) {
        return None;
    }
    let file_name = match &row[2] {
        SQLiteValue::Text(path) => last_component(path.as_str()),
        _ => None,
    };
    read_database(row, file_name)
}

/// Reads the rows of the list of attached databases, in order; `None` where
/// one of them cannot be read.
pub fn database_entries(rows: &Vec<Vec<SQLiteValue>>) -> (entries: Option<Vec<AttachedDatabase>>)
    ensures
        match entries {
            Some(list) => list@.len() == rows@.len() && forall|k: int|
                0 <= k < rows@.len() ==> lists_database(#[trigger] rows@[k]@) && rows@[k]@[0]
                    == SQLiteValue::Integer(list@[k].seq as i64),
            None => rows@.len() > 0,
        },
{
    let mut list: Vec<AttachedDatabase> = Vec::new();
    let mut i: usize = 0;
    while i < rows.len()
        invariant
            i <= rows.len(),
            list@.len() == i,
            forall|k: int|
                0 <= k < i ==> lists_database(#[trigger] rows@[k]@) && rows@[k]@[0]
                    == SQLiteValue::Integer(list@[k].seq as i64),
        decreases rows.len() - i,
    {
        match database_entry(&rows[i]) {
            Some(entry) => {
                list.push(entry);
            },
            None => {
                return None;
            },
        }
        i = i + 1;
    }
    Some(list)
}

} // verus!
