use vstd::prelude::*;
use crate::error::StorageError;
use crate::json::{JsonValue, member, find_member};
use crate::todo::{Todo, TodoView, list_view};

verus! {

pub open spec fn key_id() -> Seq<char> {
    seq!['i', 'd']
}

pub open spec fn key_title() -> Seq<char> {
    seq!['t', 'i', 't', 'l', 'e']
}

pub open spec fn key_completed() -> Seq<char> {
    seq!['c', 'o', 'm', 'p', 'l', 'e', 't', 'e', 'd']
}

pub open spec fn key_due_date() -> Seq<char> {
    seq!['d', 'u', 'e', 'D', 'a', 't', 'e']
}

pub open spec fn key_worked_at() -> Seq<char> {
    seq!['w', 'o', 'r', 'k', 'e', 'd', 'A', 't']
}

pub open spec fn key_done_at() -> Seq<char> {
    seq!['d', 'o', 'n', 'e', 'A', 't']
}

/// The member names as the code writes them are the names above.
proof fn lemma_key_literals()
    ensures
        "id"@ == key_id(),
        "title"@ == key_title(),
        "completed"@ == key_completed(),
        "dueDate"@ == key_due_date(),
        "workedAt"@ == key_worked_at(),
        "doneAt"@ == key_done_at(),
{
    reveal_strlit("id");
    reveal_strlit("title");
    reveal_strlit("completed");
    reveal_strlit("dueDate");
    reveal_strlit("workedAt");
    reveal_strlit("doneAt");
    assert("id"@ =~= key_id());
    assert("title"@ =~= key_title());
    assert("completed"@ =~= key_completed());
    assert("dueDate"@ =~= key_due_date());
    assert("workedAt"@ =~= key_worked_at());
    assert("doneAt"@ =~= key_done_at());
}

/// The names of the members that a record is read from.
pub open spec fn is_known_key(k: Seq<char>) -> bool {
    k == key_id() || k == key_title() || k == key_completed() || k == key_due_date()
        || k == key_worked_at() || k == key_done_at()
}

/// The identifier: an integer that fits in 32 unsigned bits.
pub open spec fn read_id(v: Option<JsonValue>) -> Option<u32> {
    match v {
        Some(JsonValue::Int(n)) => if 0 <= n <= u32::MAX {
            Some(n as u32)
        } else {
            None
        },
        _ => None,
    }
}

pub open spec fn read_text(v: Option<JsonValue>) -> Option<Seq<char>> {
    match v {
        Some(JsonValue::Str(s)) => Some(s@),
        _ => None,
    }
}

pub open spec fn read_flag(v: Option<JsonValue>) -> Option<bool> {
    match v {
        Some(JsonValue::Bool(b)) => Some(b),
        _ => None,
    }
}

/// An optional text: absent or null reads as not present, a string as
/// itself; anything else is no valid value (outer `None`).
pub open spec fn read_opt_text(v: Option<JsonValue>) -> Option<Option<Seq<char>>> {
    match v {
        None => Some(None),
        Some(JsonValue::Null) => Some(None),
        Some(JsonValue::Str(s)) => Some(Some(s@)),
        _ => None,
    }
}

/// The record that the members of an object stand for, if they stand for one.
/// Members of other names are ignored; of two members with one name the
/// first counts.
pub open spec fn decode_record(m: Seq<(String, JsonValue)>) -> Option<TodoView> {
    let id = read_id(member(m, key_id()));
    let title = read_text(member(m, key_title()));
    let completed = read_flag(member(m, key_completed()));
    let due = read_opt_text(member(m, key_due_date()));
    let worked = read_opt_text(member(m, key_worked_at()));
    let done = read_opt_text(member(m, key_done_at()));
    if id.is_some() && title.is_some() && completed.is_some() && due.is_some() && worked.is_some()
        && done.is_some() {
        Some(
            TodoView {
                id: id.unwrap(),
                title: title.unwrap(),
                completed: completed.unwrap(),
                due_date: due.unwrap(),
                worked_at: worked.unwrap(),
                done_at: done.unwrap(),
            },
        )
    } else {
        None
    }
}

pub open spec fn decode_record_value(v: JsonValue) -> Option<TodoView> {
    match v {
        JsonValue::Object(m) => decode_record(m@),
        _ => None,
    }
}

/// The list that a document stands for: an array whose every element is a
/// record, in the array's order.
pub open spec fn decode_list(v: JsonValue) -> Option<Seq<TodoView>> {
    match v {
        JsonValue::Array(items) => if forall|i: int|
            0 <= i < items@.len() ==> (#[trigger] decode_record_value(items@[i])).is_some() {
            Some(Seq::new(items@.len(), |i: int| decode_record_value(items@[i]).unwrap()))
        } else {
            None
        },
        _ => None,
    }
}

fn corrupt(what: &str) -> (r: StorageError)
    ensures
        r is CorruptData,
{
    StorageError::CorruptData(what.to_owned())
}

fn text_member<'a>(members: &'a Vec<(String, JsonValue)>, key: &str) -> (r: Option<&'a JsonValue>)
    ensures
        match r {
            Some(v) => member(members@, key@) == Some(*v),
            None => member(members@, key@).is_none(),
        },
{
    let k = key.to_owned();
    find_member(members, &k)
}

spec fn deref_opt(v: Option<&JsonValue>) -> Option<JsonValue> {
    match v {
        Some(x) => Some(*x),
        None => None,
    }
}

fn copy_opt_text(v: Option<&JsonValue>) -> (r: Result<Option<String>, StorageError>)
    ensures
        match r {
            Ok(o) => read_opt_text(deref_opt(v)) == Some(crate::todo::opt_text_view(o)),
            Err(e) => read_opt_text(deref_opt(v)).is_none() && e is CorruptData,
        },
{
    match v {
        None => Ok(None),
        Some(JsonValue::Null) => Ok(None),
        Some(JsonValue::Str(s)) => Ok(Some(s.clone())),
        Some(_) => Err(corrupt("a date member is neither a string nor null")),
    }
}

/// Reads one record from a JSON value.
pub fn decode_todo(v: &JsonValue) -> (r: Result<Todo, StorageError>)
    ensures
        match r {
            Ok(t) => decode_record_value(*v) == Some(t@),
            Err(e) => decode_record_value(*v).is_none() && e is CorruptData,
        },
{
    let m = match v {
        JsonValue::Object(m) => m,
        _ => {
            return Err(corrupt("a record is not an object"));
        },
    };
    proof {
        lemma_key_literals();
    }
    let id: u32 = match text_member(m, "id") {
        Some(JsonValue::Int(n)) => {
            if 0 <= *n && *n <= 0xffff_ffff {
                *n as u32
            } else {
                return Err(corrupt("member `id` is out of range"));
            }
        },
        Some(_) => {
            return Err(corrupt("member `id` is not an integer"));
        },
        None => {
            return Err(corrupt("missing member `id`"));
        },
    };
    let title = match text_member(m, "title") {
        Some(JsonValue::Str(s)) => s.clone(),
        Some(_) => {
            return Err(corrupt("member `title` is not a string"));
        },
        None => {
            return Err(corrupt("missing member `title`"));
        },
    };
    let completed = match text_member(m, "completed") {
        Some(JsonValue::Bool(b)) => *b,
        Some(_) => {
            return Err(corrupt("member `completed` is not a boolean"));
        },
        None => {
            return Err(corrupt("missing member `completed`"));
        },
    };
    let due_date = copy_opt_text(text_member(m, "dueDate"))?;
    let worked_at = copy_opt_text(text_member(m, "workedAt"))?;
    let done_at = copy_opt_text(text_member(m, "doneAt"))?;
    Ok(Todo { id, title, completed, due_date, worked_at, done_at })
}

/// Reads a whole list; the first element that is no record makes it fail.
pub fn decode_todos(v: &JsonValue) -> (r: Result<Vec<Todo>, StorageError>)
    ensures
        match r {
            Ok(l) => decode_list(*v) == Some(list_view(l@)),
            Err(e) => decode_list(*v).is_none() && e is CorruptData,
        },
{
    let items = match v {
        JsonValue::Array(items) => items,
        _ => {
            return Err(corrupt("the document is not an array"));
        },
    };
    let mut out: Vec<Todo> = Vec::new();
    let mut i: usize = 0;
    while i < items.len()
        invariant
            i <= items@.len(),
            *v == JsonValue::Array(*items),
            out@.len() == i,
            forall|j: int| 0 <= j < i ==> decode_record_value(items@[j]) == Some(#[trigger] out@[j]@),
        decreases items.len() - i,
    {
        match decode_todo(&items[i]) {
            Ok(t) => {
                out.push(t);
            },
            Err(e) => {
                assert(decode_record_value(items@[i as int]).is_none());
                return Err(e);
            },
        }
        i = i + 1;
    }
    proof {
        assert forall|j: int| 0 <= j < items@.len() implies (#[trigger] decode_record_value(items@[j])).is_some() by {
            assert(decode_record_value(items@[j]) == Some(out@[j]@));
        }
        assert(Seq::new(items@.len(), |j: int| decode_record_value(items@[j]).unwrap()) =~= list_view(out@));
    }
    Ok(out)
}

pub open spec fn text_is(v: JsonValue, s: Seq<char>) -> bool {
    match v {
        JsonValue::Str(x) => x@ == s,
        _ => false,
    }
}

/// A date that is not present is written as null.
pub open spec fn opt_text_is(v: JsonValue, o: Option<Seq<char>>) -> bool {
    match o {
        None => v is Null,
        Some(s) => text_is(v, s),
    }
}

/// `v` is the object that a record is written as: the six members in a fixed
/// order, every date present as a string or null.
pub open spec fn encodes_record(t: TodoView, v: JsonValue) -> bool {
    match v {
        JsonValue::Object(m) => m@.len() == 6 && m@[0].0@ == key_id() && m@[0].1 == JsonValue::Int(
            t.id as i128,
        ) && m@[1].0@ == key_title() && text_is(m@[1].1, t.title) && m@[2].0@ == key_completed()
            && m@[2].1 == JsonValue::Bool(t.completed) && m@[3].0@ == key_due_date() && opt_text_is(
            m@[3].1,
            t.due_date,
        ) && m@[4].0@ == key_worked_at() && opt_text_is(m@[4].1, t.worked_at) && m@[5].0@
            == key_done_at() && opt_text_is(m@[5].1, t.done_at),
        _ => false,
    }
}

/// `v` is the array that a list is written as, one record per element, in order.
pub open spec fn encodes_list(l: Seq<TodoView>, v: JsonValue) -> bool {
    match v {
        JsonValue::Array(items) => items@.len() == l.len() && forall|i: int|
            0 <= i < l.len() ==> encodes_record(l[i], #[trigger] items@[i]),
        _ => false,
    }
}

fn opt_text_value(o: &Option<String>) -> (r: JsonValue)
    ensures
        opt_text_is(r, crate::todo::opt_text_view(*o)),
{
    match o {
        Some(s) => JsonValue::Str(s.clone()),
        None => JsonValue::Null,
    }
}

/// Writes one record as a JSON object.
pub fn encode_todo(t: &Todo) -> (r: JsonValue)
    ensures
        encodes_record(t@, r),
{
    proof {
        lemma_key_literals();
    }
    let mut m: Vec<(String, JsonValue)> = Vec::new();
    m.push(("id".to_owned(), JsonValue::Int(t.id as i128)));
    m.push(("title".to_owned(), JsonValue::Str(t.title.clone())));
    m.push(("completed".to_owned(), JsonValue::Bool(t.completed)));
    m.push(("dueDate".to_owned(), opt_text_value(&t.due_date)));
    m.push(("workedAt".to_owned(), opt_text_value(&t.worked_at)));
    m.push(("doneAt".to_owned(), opt_text_value(&t.done_at)));
    JsonValue::Object(m)
}

/// Writes a whole list as a JSON array, in order.
pub fn encode_todos(todos: &Vec<Todo>) -> (r: JsonValue)
    ensures
        encodes_list(list_view(todos@), r),
{
    let mut items: Vec<JsonValue> = Vec::new();
    let mut i: usize = 0;
    while i < todos.len()
        invariant
            i <= todos@.len(),
            items@.len() == i,
            forall|j: int| 0 <= j < i ==> encodes_record(todos@[j]@, #[trigger] items@[j]),
        decreases todos.len() - i,
    {
        items.push(encode_todo(&todos[i]));
        i = i + 1;
    }
    JsonValue::Array(items)
}

proof fn lemma_member_at(m: Seq<(String, JsonValue)>, i: int, key: Seq<char>)
    requires
        0 <= i < m.len(),
        m[i].0@ == key,
        forall|j: int| 0 <= j < i ==> (#[trigger] m[j]).0@ != key,
    ensures
        member(m, key) == Some(m[i].1),
    decreases i,
{
    if i > 0 {
        assert forall|j: int| 0 <= j < i - 1 implies (#[trigger] m.drop_first()[j]).0@ != key by {
            assert(m.drop_first()[j] == m[j + 1]);
        }
        lemma_member_at(m.drop_first(), i - 1, key);
    }
}

proof fn lemma_member_insert_other(
    m: Seq<(String, JsonValue)>,
    i: int,
    extra: (String, JsonValue),
    key: Seq<char>,
)
    requires
        0 <= i <= m.len(),
        extra.0@ != key,
    ensures
        member(m.insert(i, extra), key) == member(m, key),
    decreases i,
{
    if i == 0 {
        assert(m.insert(0, extra).drop_first() =~= m);
    } else {
        assert(m.insert(i, extra).drop_first() =~= m.drop_first().insert(i - 1, extra));
        lemma_member_insert_other(m.drop_first(), i - 1, extra, key);
    }
}

/// The object that a record is written as reads back as that same record.
pub proof fn lemma_record_round_trip(t: TodoView, v: JsonValue)
    requires
        encodes_record(t, v),
    ensures
        decode_record_value(v) == Some(t),
{
    if let JsonValue::Object(m) = v {
        let s = m@;
        assert(key_id().len() == 2);
        assert(key_title().len() == 5);
        assert(key_completed().len() == 9);
        assert(key_due_date().len() == 7);
        assert(key_worked_at().len() == 8);
        assert(key_done_at().len() == 6);
        lemma_member_at(s, 0, key_id());
        lemma_member_at(s, 1, key_title());
        lemma_member_at(s, 2, key_completed());
        lemma_member_at(s, 3, key_due_date());
        lemma_member_at(s, 4, key_worked_at());
        lemma_member_at(s, 5, key_done_at());
    }
}

/// Whatever array a list is written as reads back as the same list: every
/// record equal field for field, in the same order. This holds for the empty
/// list and for every choice of present and absent dates.
pub proof fn lemma_round_trip(l: Seq<TodoView>, v: JsonValue)
    requires
        encodes_list(l, v),
    ensures
        decode_list(v) == Some(l),
{
    if let JsonValue::Array(items) = v {
        assert forall|i: int| 0 <= i < items@.len() implies (#[trigger] decode_record_value(
            items@[i],
        )) == Some(l[i]) by {
            lemma_record_round_trip(l[i], items@[i]);
        }
        assert(Seq::new(items@.len(), |i: int| decode_record_value(items@[i]).unwrap()) =~= l);
    }
}

/// A member whose name a record does not use changes nothing of what the
/// record reads as, wherever in the object it stands: the record is read
/// exactly as without it.
pub proof fn lemma_unknown_member_ignored(
    m: Seq<(String, JsonValue)>,
    i: int,
    extra: (String, JsonValue),
)
    requires
        0 <= i <= m.len(),
        !is_known_key(extra.0@),
    ensures
        decode_record(m.insert(i, extra)) == decode_record(m),
{
    lemma_member_insert_other(m, i, extra, key_id());
    lemma_member_insert_other(m, i, extra, key_title());
    lemma_member_insert_other(m, i, extra, key_completed());
    lemma_member_insert_other(m, i, extra, key_due_date());
    lemma_member_insert_other(m, i, extra, key_worked_at());
    lemma_member_insert_other(m, i, extra, key_done_at());
}

/// A record written without any of the three dates reads successfully, with
/// each date not present, as long as its identifier, title and completion
/// flag are valid.
pub proof fn lemma_missing_dates_absent(m: Seq<(String, JsonValue)>)
    requires
        member(m, key_due_date()).is_none(),
        member(m, key_worked_at()).is_none(),
        member(m, key_done_at()).is_none(),
        read_id(member(m, key_id())).is_some(),
        read_text(member(m, key_title())).is_some(),
        read_flag(member(m, key_completed())).is_some(),
    ensures
        decode_record(m) == Some(
            TodoView {
                id: read_id(member(m, key_id())).unwrap(),
                title: read_text(member(m, key_title())).unwrap(),
                completed: read_flag(member(m, key_completed())).unwrap(),
                due_date: None,
                worked_at: None,
                done_at: None,
            },
        ),
{
}

} // verus!
