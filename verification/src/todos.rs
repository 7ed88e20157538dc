//! The computational part of the task endpoints: converting stored rows
//! into task records, merging a partial update onto a stored record, and
//! assembling a record from uploaded form fields. The storage and HTTP
//! I/O around these stays outside the library and hands plain values in.

use vstd::prelude::*;
use crate::common::{OptionalTodo, Todo};
use crate::responses::MessageOnlyResponse;
use crate::strutil::str_eq;

verus! {

/// A task row as the store returns it: `completed` and `user_id` are
/// nullable columns.
pub struct TodoRow {
    pub id: i32,
    pub title: String,
    pub description: String,
    pub completed: Option<bool>,
    pub user_id: Option<i32>,
}

/// A row could not be converted into a task record.
#[derive(Debug, PartialEq, Eq, Structural)]
pub enum RowError {
    /// The row's `user_id` column is null.
    MissingUserId,
}

/// `t` is `row` as a task record: absent `completed` defaults to false,
/// `user_id` must be present.
pub open spec fn todo_matches_row(t: Todo, row: TodoRow) -> bool {
    &&& t.id == Some(row.id)
    &&& t.title@ == row.title@
    &&& t.description@ == row.description@
    &&& t.completed == (row.completed matches Some(c) && c)
    &&& row.user_id matches Some(u) && t.user_id == u
}

/// Convert one stored row into a task record.
pub fn todo_from_row(row: &TodoRow) -> (r: Result<Todo, RowError>)
    ensures
        r is Ok <==> row.user_id is Some,
        r matches Ok(t) ==> todo_matches_row(t, *row),
{
    match row.user_id {
        None => Err(RowError::MissingUserId),
        Some(user_id) => Ok(
            Todo {
                id: Some(row.id),
                title: row.title.clone(),
                description: row.description.clone(),
                completed: match row.completed {
                    Some(c) => c,
                    None => false,
                },
                user_id,
            },
        ),
    }
}

/// Convert every stored row into a task record; the first row with a
/// null `user_id` fails the whole conversion.
pub fn todos_from_rows(rows: &Vec<TodoRow>) -> (r: Result<Vec<Todo>, RowError>)
    ensures
        r is Ok <==> (forall|i: int| 0 <= i < rows@.len() ==> (#[trigger] rows@[i].user_id) is Some),
        r matches Ok(v) ==> v@.len() == rows@.len()
            && (forall|i: int| 0 <= i < rows@.len() ==> todo_matches_row(#[trigger] v@[i], rows@[i])),
{
    let mut out: Vec<Todo> = Vec::new();
    let mut i: usize = 0;
    while i < rows.len()
        invariant
            i <= rows@.len(),
            out@.len() == i,
            forall|j: int| 0 <= j < i ==> (#[trigger] rows@[j].user_id) is Some,
            forall|j: int| 0 <= j < i ==> todo_matches_row(#[trigger] out@[j], rows@[j]),
        decreases rows@.len() - i,
    {
        match todo_from_row(&rows[i]) {
            Ok(t) => {
                out.push(t);
            },
            Err(e) => {
                return Err(e);
            },
        }
        i += 1;
    }
    Ok(out)
}

/// Merge a partial update onto a stored record: every absent field of
/// `patch` keeps the stored value; the record's identity and owner are
/// never patched.
pub fn merge_todo(current: &Todo, patch: &OptionalTodo) -> (r: Todo)
    ensures
        r.id == current.id,
        r.user_id == current.user_id,
        r.title@ == (match patch.title {
            Some(t) => t@,
            None => current.title@,
        }),
        r.description@ == (match patch.description {
            Some(d) => d@,
            None => current.description@,
        }),
        r.completed == (match patch.completed {
            Some(c) => c,
            None => current.completed,
        }),
{
    Todo {
        id: current.id,
        title: match &patch.title {
            Some(t) => t.clone(),
            None => current.title.clone(),
        },
        description: match &patch.description {
            Some(d) => d.clone(),
            None => current.description.clone(),
        },
        completed: match patch.completed {
            Some(c) => c,
            None => current.completed,
        },
        user_id: current.user_id,
    }
}

/// Parse a boolean the way the standard parser does: exactly `"true"`
/// and `"false"`, nothing else.
pub fn parse_bool(s: &str) -> (r: Option<bool>)
    ensures
        r == Some(true) <==> s@ == "true"@,
        r == Some(false) <==> s@ == "false"@,
        r is None <==> s@ != "true"@ && s@ != "false"@,
{
    proof {
        reveal_strlit("true");
        reveal_strlit("false");
        assert("true"@.len() == 4);
        assert("false"@.len() == 5);
    }
    if str_eq(s, "true") {
        Some(true)
    } else if str_eq(s, "false") {
        Some(false)
    } else {
        None
    }
}

/// A decimal digit.
pub open spec fn is_digit(c: char) -> bool {
    '0' <= c && c <= '9'
}

/// The value of one digit.
pub open spec fn digit_val(c: char) -> int {
    c as int - '0' as int
}

/// Every character is a digit, and there is at least one.
pub open spec fn all_digits(s: Seq<char>) -> bool {
    s.len() > 0 && (forall|i: int| 0 <= i < s.len() ==> is_digit(#[trigger] s[i]))
}

/// The number a digit string denotes.
pub open spec fn digits_val(s: Seq<char>) -> int
    decreases s.len(),
{
    if s.len() == 0 {
        0
    } else {
        digits_val(s.drop_last()) * 10 + digit_val(s.last())
    }
}

/// The signed 32-bit value a digit string denotes under a sign, if it
/// fits.
pub open spec fn digits_as_i32(digits: Seq<char>, neg: bool) -> Option<i32> {
    if all_digits(digits) {
        if neg && digits_val(digits) <= 0x8000_0000 {
            Some((-digits_val(digits)) as i32)
        } else if !neg && digits_val(digits) <= 0x7fff_ffff {
            Some(digits_val(digits) as i32)
        } else {
            None
        }
    } else {
        None
    }
}

/// What the standard signed 32-bit parser accepts: an optional sign,
/// then one or more digits, denoting a value in range.
pub open spec fn spec_parse_i32(s: Seq<char>) -> Option<i32> {
    if s.len() > 0 && s[0] == '-' {
        digits_as_i32(s.subrange(1, s.len() as int), true)
    } else if s.len() > 0 && s[0] == '+' {
        digits_as_i32(s.subrange(1, s.len() as int), false)
    } else {
        digits_as_i32(s, false)
    }
}

/// A digit string denotes a nonnegative number.
proof fn lemma_digits_val_nonneg(s: Seq<char>)
    requires
        forall|i: int| 0 <= i < s.len() ==> is_digit(#[trigger] s[i]),
    ensures
        digits_val(s) >= 0,
    decreases s.len(),
{
    if s.len() > 0 {
        lemma_digits_val_nonneg(s.drop_last());
    }
}

/// Extending a digit string never shrinks its value.
proof fn lemma_digits_val_prefix_le(s: Seq<char>, k: int)
    requires
        0 <= k <= s.len(),
        forall|i: int| 0 <= i < s.len() ==> is_digit(#[trigger] s[i]),
    ensures
        digits_val(s.subrange(0, k)) <= digits_val(s),
    decreases s.len() - k,
{
    if k == s.len() {
        assert(s.subrange(0, k) =~= s);
    } else {
        lemma_digits_val_prefix_le(s, k + 1);
        let p = s.subrange(0, k + 1);
        assert(p.drop_last() =~= s.subrange(0, k));
        assert(p.last() == s[k]);
        lemma_digits_val_nonneg(s.subrange(0, k));
    }
}

/// A digit character, executably.
fn digit_char(c: char) -> (r: bool)
    ensures
        r == is_digit(c),
{
    '0' <= c && c <= '9'
}

/// Parse a signed 32-bit integer the way the standard parser does: an
/// optional `+` or `-`, then one or more decimal digits; `None` on any
/// other shape and on overflow.
pub fn parse_i32(s: &str) -> (r: Option<i32>)
    ensures
        r == spec_parse_i32(s@),
{
    let n = s.unicode_len();
    if n == 0 {
        return None;
    }
    let c0 = s.get_char(0);
    let neg = c0 == '-';
    let start: usize = if c0 == '-' || c0 == '+' {
        1
    } else {
        0
    };
    if start >= n {
        return None;
    }
    let ghost digits = s@.subrange(start as int, n as int);
    proof {
        assert(s@.subrange(0, s@.len() as int) =~= s@);
    }
    let mut acc: u64 = 0;
    let mut i: usize = start;
    while i < n
        invariant
            start <= i <= n,
            start < n,
            n == s@.len(),
            digits == s@.subrange(start as int, n as int),
            spec_parse_i32(s@) == digits_as_i32(digits, neg),
            forall|j: int| start <= j < i ==> is_digit(#[trigger] s@[j]),
            acc == digits_val(s@.subrange(start as int, i as int)),
            acc <= 0x8000_0000,
        decreases n - i,
    {
        let c = s.get_char(i);
        if !digit_char(c) {
            proof {
                assert(digits[i - start as int] == s@[i as int]);
            }
            return None;
        }
        let d: u64 = (c as u32 - '0' as u32) as u64;
        acc = acc * 10 + d;
        proof {
            let p = s@.subrange(start as int, i + 1 as int);
            assert(p.drop_last() =~= s@.subrange(start as int, i as int));
            assert(p.last() == s@[i as int]);
        }
        if acc > 0x8000_0000 {
            proof {
                if all_digits(digits) {
                    lemma_digits_val_prefix_le(digits, i + 1 - start as int);
                    assert(digits.subrange(0, i + 1 - start as int)
                        =~= s@.subrange(start as int, i + 1 as int));
                }
            }
            return None;
        }
        i += 1;
    }
    proof {
        assert(digits =~= s@.subrange(start as int, n as int));
        assert(all_digits(digits));
        assert(digits_val(digits) == acc);
    }
    if neg {
        if acc == 0x8000_0000 {
            Some(i32::MIN)
        } else {
            Some(-(acc as i32))
        }
    } else {
        if acc >= 0x8000_0000 {
            return None;
        }
        Some(acc as i32)
    }
}

/// Fields of a multipart upload could not make a task record.
#[derive(Debug, PartialEq, Eq, Structural)]
pub enum UploadError {
    /// The request carries no file; the file is read before any other
    /// field.
    MissingFile,
    /// The `user_id` field is absent or not a decimal integer.
    InvalidUserId,
}

/// Assemble a task record from uploaded form fields: the uploaded file's
/// content — which must be there — is the description, a missing title
/// defaults to `"Untitled"`, the completed flag is true exactly on the
/// text `"true"`, and the owner id must be present and numeric.
pub fn upload_fields(
    title: Option<String>,
    completed_text: Option<String>,
    user_id_text: Option<String>,
    description: Option<String>,
) -> (r: Result<Todo, UploadError>)
    ensures
        r == Err::<Todo, UploadError>(UploadError::MissingFile) <==> description is None,
        r is Ok <==> (description is Some && (user_id_text matches Some(u)
            && spec_parse_i32(u@) is Some)),
        r matches Ok(t) ==> {
            &&& t.id is None
            &&& (match title {
                Some(tt) => t.title@ == tt@,
                None => t.title@ == "Untitled"@,
            })
            &&& t.description@ == description->0@
            &&& t.completed == (completed_text matches Some(ct) && ct@ == "true"@)
            &&& (user_id_text matches Some(u) && spec_parse_i32(u@) == Some(t.user_id))
        },
{
    let description = match description {
        None => {
            return Err(UploadError::MissingFile);
        },
        Some(d) => d,
    };
    let user_id = match user_id_text {
        None => {
            return Err(UploadError::InvalidUserId);
        },
        Some(u) => match parse_i32(u.as_str()) {
            None => {
                return Err(UploadError::InvalidUserId);
            },
            Some(uid) => uid,
        },
    };
    let completed = match completed_text {
        Some(ct) => match parse_bool(ct.as_str()) {
            Some(b) => b,
            None => false,
        },
        None => false,
    };
    let title = match title {
        Some(t) => t,
        None => "Untitled".to_owned(),
    };
    Ok(Todo { id: None, title, description, completed, user_id })
}

/// The one table that maps an upload failure to its user-visible
/// message.
pub fn upload_error_message(e: &UploadError) -> (r: String)
    ensures
        e is MissingFile ==> r@ == "No file found in the request"@,
        e is InvalidUserId ==> r@ == "Invalid user_id"@,
{
    match e {
        UploadError::MissingFile => "No file found in the request".to_owned(),
        UploadError::InvalidUserId => "Invalid user_id".to_owned(),
    }
}

/// The one table that maps a row-conversion failure to its user-visible
/// status and message.
pub fn row_error_response(e: &RowError) -> (r: (u16, MessageOnlyResponse))
    ensures
        r.0 == 400,
        r.1.message@ == "User ID is missing"@,
{
    match e {
        RowError::MissingUserId => (
            400,
            MessageOnlyResponse { message: "User ID is missing".to_owned() },
        ),
    }
}

/// The stored record under the id the store assigned to it: what a
/// creation returns to the client.
pub fn assign_id(todo: &Todo, id: i32) -> (r: Todo)
    ensures
        r.id == Some(id),
        r.title@ == todo.title@,
        r.description@ == todo.description@,
        r.completed == todo.completed,
        r.user_id == todo.user_id,
{
    Todo {
        id: Some(id),
        title: todo.title.clone(),
        description: todo.description.clone(),
        completed: todo.completed,
        user_id: todo.user_id,
    }
}

/// The outcome of a deletion, from how many rows the store removed: a
/// deletion that touched nothing is reported as an unknown id.
pub fn delete_todo_response(rows_affected: u64, id_text: &str) -> (r: Result<
    MessageOnlyResponse,
    (u16, MessageOnlyResponse),
>)
    ensures
        r is Ok <==> rows_affected > 0,
        r matches Ok(m) ==> m.message@ == "Todo with id "@ + id_text@ + " deleted successfully!"@,
        r matches Err(e) ==> e.0 == 404
            && e.1.message@ == "Todo with id "@ + id_text@ + " not found"@,
{
    if rows_affected > 0 {
        Ok(MessageOnlyResponse { message: todo_deleted_message(id_text) })
    } else {
        Err((404, MessageOnlyResponse { message: todo_not_found_message(id_text) }))
    }
}

/// The message for a task id that the store does not hold; the caller
/// renders the id's digits.
pub fn todo_not_found_message(id_text: &str) -> (r: String)
    ensures
        r@ == "Todo with id "@ + id_text@ + " not found"@,
{
    let mut m = "Todo with id ".to_owned();
    m.append(id_text);
    m.append(" not found");
    m
}

/// The message for a deleted task.
pub fn todo_deleted_message(id_text: &str) -> (r: String)
    ensures
        r@ == "Todo with id "@ + id_text@ + " deleted successfully!"@,
{
    let mut m = "Todo with id ".to_owned();
    m.append(id_text);
    m.append(" deleted successfully!");
    m
}

/// The file a task is exported to.
pub fn todo_file_name(id_text: &str) -> (r: String)
    ensures
        r@ == "todo_"@ + id_text@ + ".txt"@,
{
    let mut m = "todo_".to_owned();
    m.append(id_text);
    m.append(".txt");
    m
}

/// The message for a task exported to a file.
pub fn todo_saved_message(id_text: &str, file_name: &str) -> (r: String)
    ensures
        r@ == "Todo with id "@ + id_text@ + " saved to "@ + file_name@,
{
    let mut m = "Todo with id ".to_owned();
    m.append(id_text);
    m.append(" saved to ");
    m.append(file_name);
    m
}

} // verus!
