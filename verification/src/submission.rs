//! What a form submission does: read the submitted JSON object, work out the
//! column order of the task's table, record that order in the task's table
//! configuration, and append the submission to the task's stored rows.
use crate::json::encode_json_list;
use crate::json::encode_string_map;
use crate::json::encode_strings;
use crate::json::entries_map;
use crate::json::fields_view;
use crate::json::json_list_values;
use crate::json::json_text_of_values;
use crate::json::json_value;
use crate::json::json_string_map;
use crate::json::json_text_of_strings;
use crate::json::json_quoted;
use crate::json::json_top_fields;
use crate::json::keys_distinct;
use crate::json::parse_json;
use crate::json::parse_json_list;
use crate::json::parse_string_map;
use crate::json::strings_view;
use crate::json::utf8_text;
use crate::json::Field;
use crate::order::all_occur;
use crate::order::is_field_order;
use crate::order::order_fields;
use vstd::prelude::*;
use vstd::utf8::decode_utf8;
use vstd::utf8::encode_utf8;
use vstd::utf8::valid_utf8;

verus! {

/// The member of a submission that names its task.
pub const TASK_NAME_FIELD: &'static str = "task_name";

/// The key, in a task's table configuration, of the column order.
pub const ORDER_CONFIG_KEY: &'static str = "order_config";

/// The key, in a task's storage tree, under which its table configuration is kept.
pub const TABLE_CONFIG_KEY: &'static str = "table_config";

/// The reply to a submission that was stored.
pub const SUBMIT_OK: &'static str = "提交成功";

/// The reply to a submission whose body is not JSON.
pub const SUBMIT_FAILED: &'static str = "提交失败";

/// Why a submission cannot be stored.
pub enum SubmitError {
    /// The body is not a JSON document.
    Json(serde_json::Error),
    /// The body is JSON but not an object.
    NotObject,
    /// The object has no `task_name` member.
    MissingTaskName,
    /// The `task_name` member is not a string.
    TaskNameNotText,
    /// Some member's name does not appear verbatim in the body (it was written
    /// with escapes); the task's name is given.
    FieldNotInText(String),
}

/// A submission that can be stored.
pub struct Submission {
    /// The task the submission belongs to.
    pub task_name: String,
    /// The names of the submitted members, in the order of the task's table.
    pub order: Vec<String>,
    /// The submitted object itself.
    pub record: serde_json::Value,
}

/// The value of member `key` in `fields`: `None` when there is none, and
/// `Some(None)` when its value is not a string.
pub open spec fn field_lookup(
    fields: Seq<(Seq<char>, Option<Seq<char>>)>,
    key: Seq<char>,
) -> Option<Option<Seq<char>>>
    decreases fields.len(),
{
    if fields.len() == 0 {
        None
    } else if fields[0].0 == key {
        Some(fields[0].1)
    } else {
        field_lookup(fields.drop_first(), key)
    }
}

/// The member names of `fields`, in order.
pub open spec fn field_keys(fields: Seq<(Seq<char>, Option<Seq<char>>)>) -> Seq<Seq<char>> {
    fields.map_values(|f: (Seq<char>, Option<Seq<char>>)| f.0)
}

/// The value of member `key` among `fields`.
fn find_field(fields: &Vec<Field>, key: &String) -> (r: Option<Option<String>>)
    ensures
        match field_lookup(fields_view(fields@), key@) {
            None => r is None,
            Some(None) => r matches Some(None),
            Some(Some(t)) => r matches Some(Some(s)) && s@ == t,
        },
{
    let ghost fv = fields_view(fields@);
    let n = fields.len();
    assert(fv.subrange(0, n as int) =~= fv);
    for k in 0..n
        invariant
            n == fields@.len(),
            fv == fields_view(fields@),
            field_lookup(fv, key@) == field_lookup(fv.subrange(k as int, n as int), key@),
    {
        assert(fv.subrange(k as int, n as int).drop_first() =~= fv.subrange(k + 1, n as int));
        if fields[k].key == *key {
            return match &fields[k].text {
                Some(t) => Some(Some(t.clone())),
                None => Some(None),
            };
        }
    }
    assert(fv.subrange(n as int, n as int) =~= Seq::<(Seq<char>, Option<Seq<char>>)>::empty());
    None
}

/// The member names of `fields`, in order.
fn field_names(fields: &Vec<Field>) -> (r: Vec<String>)
    ensures
        strings_view(r@) == field_keys(fields_view(fields@)),
{
    let mut r: Vec<String> = Vec::new();
    for k in 0..fields.len()
        invariant
            r@.len() == k,
            forall|m: int| 0 <= m < k ==> #[trigger] r@[m]@ == fields@[m].key@,
    {
        r.push(fields[k].key.clone());
    }
    assert(strings_view(r@) =~= field_keys(fields_view(fields@)));
    r
}

/// The body `json_text` is one the service stores or refuses as not JSON:
/// when it is JSON, it is an object whose `task_name` member is a string and
/// whose member names all appear verbatim in it.  On other bodies the
/// service stops.
pub open spec fn submission_accepted(json_text: Seq<char>) -> bool {
    match json_top_fields(json_text) {
        None => true,
        Some(None) => false,
        Some(Some(fs)) => field_lookup(fs, TASK_NAME_FIELD@) matches Some(Some(_)) && all_occur(
            json_text,
            field_keys(fs),
        ),
    }
}

/// What reading the body `json_text` gives, on every body.
pub open spec fn submission_outcome(json_text: Seq<char>, r: Result<Submission, SubmitError>) -> bool {
    match json_top_fields(json_text) {
        None => r matches Err(SubmitError::Json(_)),
        Some(None) => r matches Err(SubmitError::NotObject),
        Some(Some(fs)) => match field_lookup(fs, TASK_NAME_FIELD@) {
            None => r matches Err(SubmitError::MissingTaskName),
            Some(None) => r matches Err(SubmitError::TaskNameNotText),
            Some(Some(name)) => if all_occur(json_text, field_keys(fs)) {
                &&& r matches Ok(s)
                &&& s.task_name@ == name
                &&& s.record == json_value(json_text)
                &&& is_field_order(json_text, field_keys(fs), strings_view(s.order@))
            } else {
                r matches Err(SubmitError::FieldNotInText(t)) && t@ == name
            },
        },
    }
}

fn submission_of(json_text: &str) -> (r: Result<Submission, SubmitError>)
    ensures
        submission_outcome(json_text@, r),
{
    let (record, fields) = match parse_json(json_text) {
        Ok(parsed) => parsed,
        Err(e) => return Err(SubmitError::Json(e)),
    };
    let fields = match fields {
        Some(fs) => fs,
        None => return Err(SubmitError::NotObject),
    };
    let key = String::from_str(TASK_NAME_FIELD);
    let task_name = match find_field(&fields, &key) {
        None => return Err(SubmitError::MissingTaskName),
        Some(None) => return Err(SubmitError::TaskNameNotText),
        Some(Some(t)) => t,
    };
    let names = field_names(&fields);
    match order_fields(json_text, &names) {
        Some(order) => Ok(Submission { task_name, order, record }),
        None => Err(SubmitError::FieldNotInText(task_name)),
    }
}

/// Reads a submitted form.  `Err` when the body `json_text` is not JSON;
/// otherwise the submission names its task, the column order lists the
/// member names by where each first appears in the body, and the record is
/// the submitted object.
pub fn plan_submission(json_text: &str) -> (r: Result<Submission, serde_json::Error>)
    requires
        submission_accepted(json_text@),
    ensures
        match json_top_fields(json_text@) {
            None => r is Err,
            Some(None) => false,
            Some(Some(fs)) => match field_lookup(fs, TASK_NAME_FIELD@) {
                Some(Some(name)) => {
                    &&& r matches Ok(s)
                    &&& s.task_name@ == name
                    &&& s.record == json_value(json_text@)
                    &&& is_field_order(json_text@, field_keys(fs), strings_view(s.order@))
                },
                _ => false,
            },
        },
{
    match submission_of(json_text) {
        Ok(s) => Ok(s),
        Err(SubmitError::Json(e)) => Err(e),
        Err(_) => vstd::pervasive::unreached(),
    }
}

/// Reads a submitted form on every body: `plan_submission` where it applies,
/// and otherwise why the body cannot be stored.
pub fn try_plan_submission(json_text: &str) -> (r: Result<Submission, SubmitError>)
    ensures
        submission_outcome(json_text@, r),
{
    match submission_of(json_text) {
        Err(SubmitError::Json(e)) => Err(SubmitError::Json(e)),
        Err(e) => Err(e),
        Ok(_) => match plan_submission(json_text) {
            Ok(s) => Ok(s),
            Err(e) => Err(SubmitError::Json(e)),
        },
    }
}

/// The reply to a submission: whether it was stored.
pub fn submit_reply(stored: bool) -> (r: &'static str)
    ensures
        r == (if stored {
            SUBMIT_OK
        } else {
            SUBMIT_FAILED
        }),
{
    if stored {
        SUBMIT_OK
    } else {
        SUBMIT_FAILED
    }
}

/// Why stored data cannot be read back.
#[derive(PartialEq, Eq, Structural, Debug)]
pub enum StoreError {
    /// The stored bytes are not UTF-8.
    NotUtf8,
    /// The stored text is not JSON of the expected shape.
    NotJson,
}

/// The text of stored bytes; `None` when they are not UTF-8.
pub open spec fn stored_text(bytes: Seq<u8>) -> Option<Seq<char>> {
    if valid_utf8(bytes) {
        Some(decode_utf8(bytes))
    } else {
        None
    }
}

/// The table configuration after a submission whose column order has the JSON
/// text `order_text`: the stored configuration (if any) with its column order
/// set to `order_text`.  `Err` when stored bytes do not read back.
pub open spec fn next_config(
    stored: Option<Seq<u8>>,
    order_text: Seq<char>,
) -> Result<Map<Seq<char>, Seq<char>>, StoreError> {
    match stored {
        None => Ok(Map::empty().insert(ORDER_CONFIG_KEY@, order_text)),
        Some(b) => match stored_text(b) {
            None => Err(StoreError::NotUtf8),
            Some(t) => match json_string_map(t) {
                None => Err(StoreError::NotJson),
                Some(m) => Ok(m.insert(ORDER_CONFIG_KEY@, order_text)),
            },
        },
    }
}

/// A configuration that a submission wrote reads back, and a later
/// submission with the same column order leaves it as it was: the text
/// `written` that `updated_table_config` returned, stored as its UTF-8 bytes,
/// gives the same configuration again.
pub proof fn lemma_config_resubmit(
    stored: Option<Seq<u8>>,
    order_text: Seq<char>,
    written: Seq<char>,
)
    requires
        next_config(stored, order_text) is Ok,
        json_string_map(written) == Some(next_config(stored, order_text)->Ok_0),
    ensures
        next_config(Some(encode_utf8(written)), order_text) == next_config(stored, order_text),
{
    broadcast use vstd::utf8::encode_utf8_valid_utf8, vstd::utf8::encode_utf8_decode_utf8;

    let m = next_config(stored, order_text)->Ok_0;
    assert(stored_text(encode_utf8(written)) == Some(written));
    assert(m.insert(ORDER_CONFIG_KEY@, order_text) =~= m);
}

proof fn lemma_entries_map_dom(e: Seq<(String, String)>, x: Seq<char>)
    ensures
        entries_map(e).dom().contains(x) <==> exists|i: int| 0 <= i < e.len() && #[trigger] e[i].0@ == x,
    decreases e.len(),
{
    if e.len() > 0 {
        lemma_entries_map_dom(e.drop_last(), x);
        if entries_map(e.drop_last()).dom().contains(x) {
            let i = choose|i: int| 0 <= i < e.drop_last().len() && #[trigger] e.drop_last()[i].0@ == x;
            assert(e[i].0@ == x);
        }
        if exists|i: int| 0 <= i < e.len() && #[trigger] e[i].0@ == x {
            let i = choose|i: int| 0 <= i < e.len() && #[trigger] e[i].0@ == x;
            if i < e.len() - 1 {
                assert(e.drop_last()[i].0@ == x);
            }
        }
    }
}

proof fn lemma_entries_map_value(e: Seq<(String, String)>, i: int)
    requires
        keys_distinct(e),
        0 <= i < e.len(),
    ensures
        entries_map(e).dom().contains(e[i].0@),
        entries_map(e)[e[i].0@] == e[i].1@,
    decreases e.len(),
{
    if i < e.len() - 1 {
        lemma_entries_map_value(e.drop_last(), i);
        assert(e.drop_last()[i] == e[i]);
    }
}

/// Sets `key` to `value` among distinct-keyed `entries`.
fn set_entry(entries: &mut Vec<(String, String)>, key: String, value: String)
    requires
        keys_distinct(old(entries)@),
    ensures
        keys_distinct(final(entries)@),
        entries_map(final(entries)@) == entries_map(old(entries)@).insert(key@, value@),
        old(entries)@.len() == 0 ==> final(entries)@ == seq![(key, value)],
{
    let n = entries.len();
    for k in 0..n
        invariant
            n == entries@.len(),
            entries@ == old(entries)@,
            keys_distinct(entries@),
            forall|m: int| 0 <= m < k ==> #[trigger] entries@[m].0@ != key@,
    {
        if entries[k].0 == key {
            let ghost e0 = entries@;
            entries.set(k, (key, value));
            let ghost e1 = entries@;
            assert forall|i: int, j: int|
                0 <= i < j < e1.len() implies #[trigger] e1[i].0@ != #[trigger] e1[j].0@ by {
                assert(e0[i].0@ != e0[j].0@);
            };
            assert forall|x: Seq<char>|
                #[trigger] entries_map(e1).dom().contains(x) <==> entries_map(e0).insert(
                    key@,
                    value@,
                ).dom().contains(x) by {
                lemma_entries_map_dom(e1, x);
                lemma_entries_map_dom(e0, x);
                if x == key@ {
                    assert(e1[k as int].0@ == x);
                } else if entries_map(e1).dom().contains(x) {
                    let i = choose|i: int| 0 <= i < e1.len() && #[trigger] e1[i].0@ == x;
                    assert(e0[i].0@ == x);
                } else if entries_map(e0).dom().contains(x) {
                    let i = choose|i: int| 0 <= i < e0.len() && #[trigger] e0[i].0@ == x;
                    assert(e1[i].0@ == x);
                }
            };
            assert forall|x: Seq<char>| #[trigger]
                entries_map(e1).dom().contains(x) implies entries_map(e1)[x] == entries_map(
                e0,
            ).insert(key@, value@)[x] by {
                lemma_entries_map_dom(e1, x);
                let i = choose|i: int| 0 <= i < e1.len() && #[trigger] e1[i].0@ == x;
                lemma_entries_map_value(e1, i);
                if i != k {
                    lemma_entries_map_value(e0, i);
                    assert(e0[i] == e1[i]);
                }
            };
            assert(entries_map(e1) =~= entries_map(e0).insert(key@, value@));
            return;
        }
    }
    let ghost e0 = entries@;
    entries.push((key, value));
    assert(entries@.drop_last() =~= e0);
    if n == 0 {
        assert(entries@ =~= seq![(key, value)]);
    }
}

pub open spec fn bytes_of(stored: &Option<Vec<u8>>) -> Option<Seq<u8>> {
    match stored {
        Some(b) => Some(b@),
        None => None,
    }
}

/// The entries of the stored table configuration (none when nothing is stored).
fn stored_config_entries(stored: &Option<Vec<u8>>) -> (r: Result<Vec<(String, String)>, StoreError>)
    ensures
        match stored {
            None => r matches Ok(e) && e@.len() == 0,
            Some(b) => match stored_text(b@) {
                None => r == Err::<Vec<(String, String)>, StoreError>(StoreError::NotUtf8),
                Some(t) => match json_string_map(t) {
                    None => r == Err::<Vec<(String, String)>, StoreError>(StoreError::NotJson),
                    Some(m) => r matches Ok(e) && keys_distinct(e@) && entries_map(e@) == m,
                },
            },
        },
{
    match stored {
        None => Ok(Vec::new()),
        Some(bytes) => {
            let text = match utf8_text(bytes.as_slice()) {
                Some(t) => t,
                None => return Err(StoreError::NotUtf8),
            };
            match parse_string_map(text.as_str()) {
                Ok(e) => Ok(e),
                Err(_) => Err(StoreError::NotJson),
            }
        },
    }
}

/// The text of the configuration that holds only the column order `order_text`.
pub open spec fn order_only_config(order_text: Seq<char>) -> Seq<char> {
    seq!['{'] + json_quoted(ORDER_CONFIG_KEY@) + seq![':'] + json_quoted(order_text) + seq!['}']
}

/// The stored table configuration `stored` (if any) with its column order set
/// to the JSON text of `order`, as JSON text; when nothing is stored, the
/// configuration holds only the column order.
pub fn updated_table_config(stored: &Option<Vec<u8>>, order: &Vec<String>) -> (r: String)
    requires
        next_config(bytes_of(stored), json_text_of_strings(strings_view(order@))) is Ok,
    ensures
        json_string_map(r@) == Some(
            next_config(bytes_of(stored), json_text_of_strings(strings_view(order@)))->Ok_0,
        ),
        stored is None ==> r@ == order_only_config(json_text_of_strings(strings_view(order@))),
{
    let order_text = encode_strings(order);
    let mut entries = match stored_config_entries(stored) {
        Ok(e) => e,
        Err(_) => vstd::pervasive::unreached(),
    };
    proof {
        if entries@.len() == 0 {
            assert(entries_map(entries@) =~= Map::empty());
        }
    }
    let key = String::from_str(ORDER_CONFIG_KEY);
    set_entry(&mut entries, key, order_text);
    encode_string_map(&entries)
}

/// The configuration update on every stored value: `updated_table_config`
/// where the stored bytes read back, and otherwise why they do not.
pub fn try_updated_table_config(stored: &Option<Vec<u8>>, order: &Vec<String>) -> (r: Result<
    String,
    StoreError,
>)
    ensures
        match next_config(bytes_of(stored), json_text_of_strings(strings_view(order@))) {
            Ok(m) => r matches Ok(s) && json_string_map(s@) == Some(m),
            Err(e) => r == Err::<String, StoreError>(e),
        },
{
    match stored_config_entries(stored) {
        Err(e) => Err(e),
        Ok(_) => Ok(updated_table_config(stored, order)),
    }
}

/// The rows of a task after a submission, as stored: the stored rows (if any)
/// followed by `record`.
pub open spec fn next_rows(stored: Option<Seq<u8>>, record: serde_json::Value) -> Result<
    Seq<serde_json::Value>,
    StoreError,
> {
    match stored {
        None => Ok(seq![record]),
        Some(b) => match stored_text(b) {
            None => Err(StoreError::NotUtf8),
            Some(t) => match json_list_values(t) {
                None => Err(StoreError::NotJson),
                Some(vs) => Ok(vs.push(record)),
            },
        },
    }
}

/// The stored rows (none when nothing is stored).
fn stored_rows(stored: &Option<Vec<u8>>) -> (r: Result<Vec<serde_json::Value>, StoreError>)
    ensures
        match stored {
            None => r matches Ok(rows) && rows@.len() == 0,
            Some(b) => match stored_text(b@) {
                None => r == Err::<Vec<serde_json::Value>, StoreError>(StoreError::NotUtf8),
                Some(t) => match json_list_values(t) {
                    None => r == Err::<Vec<serde_json::Value>, StoreError>(StoreError::NotJson),
                    Some(vs) => r matches Ok(rows) && rows@ == vs,
                },
            },
        },
        stored matches Some(b) && stored_text(b@) matches Some(t) && json_string_map(t) is Some
            ==> r == Err::<Vec<serde_json::Value>, StoreError>(StoreError::NotJson),
{
    match stored {
        None => Ok(Vec::new()),
        Some(bytes) => {
            let text = match utf8_text(bytes.as_slice()) {
                Some(t) => t,
                None => return Err(StoreError::NotUtf8),
            };
            match parse_json_list(text.as_str()) {
                Ok(rows) => Ok(rows),
                Err(_) => Err(StoreError::NotJson),
            }
        },
    }
}

/// The rows of a task after a submission: the stored rows (if any) followed
/// by `record`.
pub fn rows_with_record(stored: &Option<Vec<u8>>, record: serde_json::Value) -> (r: Vec<
    serde_json::Value,
>)
    requires
        next_rows(bytes_of(stored), record) is Ok,
    ensures
        r@ == next_rows(bytes_of(stored), record)->Ok_0,
{
    let mut rows = match stored_rows(stored) {
        Ok(rows) => rows,
        Err(_) => vstd::pervasive::unreached(),
    };
    rows.push(record);
    proof {
        if stored is None {
            assert(rows@ =~= seq![record]);
        }
    }
    rows
}

/// The JSON text of a task's rows after a submission: the stored rows (if
/// any) followed by `record`.
pub fn appended_rows(stored: &Option<Vec<u8>>, record: serde_json::Value) -> (r: String)
    requires
        next_rows(bytes_of(stored), record) is Ok,
    ensures
        r@ == json_text_of_values(next_rows(bytes_of(stored), record)->Ok_0),
        r@.len() >= 2 && r@[0] == '[' && r@.last() == ']',
{
    let rows = rows_with_record(stored, record);
    encode_json_list(&rows)
}

/// The rows update on every stored value: `appended_rows` where the stored
/// bytes read back as a list (a stored table configuration, for one, does
/// not), and otherwise why they do not.
pub fn try_appended_rows(stored: &Option<Vec<u8>>, record: serde_json::Value) -> (r: Result<
    String,
    StoreError,
>)
    ensures
        match next_rows(bytes_of(stored), record) {
            Ok(rows) => r matches Ok(t) && t@ == json_text_of_values(rows),
            Err(e) => r == Err::<String, StoreError>(e),
        },
        stored matches Some(b) && stored_text(b@) matches Some(t) && json_string_map(t) is Some
            ==> r == Err::<String, StoreError>(StoreError::NotJson),
{
    match stored_rows(stored) {
        Err(e) => Err(e),
        Ok(_) => Ok(appended_rows(stored, record)),
    }
}

/// Rows a submission wrote read back: where the written text reads back as
/// the rows it was written from (serde_json reads back every array whose
/// nesting stays within its depth limit), the next submission finds those
/// rows and appends its record after them.
pub proof fn lemma_rows_read_back(rows: Seq<serde_json::Value>, record: serde_json::Value)
    requires
        json_list_values(json_text_of_values(rows)) == Some(rows),
    ensures
        next_rows(Some(encode_utf8(json_text_of_values(rows))), record) == Ok::<
            Seq<serde_json::Value>,
            StoreError,
        >(rows.push(record)),
{
    broadcast use vstd::utf8::encode_utf8_valid_utf8, vstd::utf8::encode_utf8_decode_utf8;

    assert(stored_text(encode_utf8(json_text_of_values(rows))) == Some(json_text_of_values(rows)));
}

} // verus!
