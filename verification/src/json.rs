//! JSON texts, read and written through `serde_json`.
//!
//! A JSON value is known here by its compact text and, where it is an object, by the compact texts
//! of its members.

use crate::packets::UVec2;
use crate::text::{
    bool_text, decimal, join, law_joining_lists, law_truth_words, signed_decimal,
};
use vstd::prelude::*;

verus! {

/// A parsed JSON value of `serde_json`.
#[verifier::external_type_specification]
#[verifier::external_body]
pub struct ExValue(serde_json::Value);

/// Why `serde_json` could not read a text.
#[verifier::external_type_specification]
#[verifier::external_body]
pub struct ExError(serde_json::Error);

/// The members of a JSON object of `serde_json`.
#[verifier::external_type_specification]
#[verifier::external_body]
#[verifier::reject_recursive_types(K)]
#[verifier::reject_recursive_types(V)]
pub struct ExMap<K, V>(serde_json::Map<K, V>);

/// The members that a `serde_json::Map` holds, each by its compact text.
pub uninterp spec fn map_members(members: serde_json::Map<String, serde_json::Value>) -> Map<
    Seq<char>,
    Seq<char>,
>;

/// The compact text of a value.
pub uninterp spec fn json_text(value: serde_json::Value) -> Seq<char>;

/// The members of an object, each by its compact text; no members for any other value.
pub uninterp spec fn json_members(value: serde_json::Value) -> Map<Seq<char>, Seq<char>>;

/// The members of the document that a text denotes, `None` where the text is not JSON.
pub uninterp spec fn json_document(text: Seq<char>) -> Option<Map<Seq<char>, Seq<char>>>;

/// The members of the document that was parsed, `None` where parsing failed.
pub open spec fn document_of(parsed: Result<serde_json::Value, serde_json::Error>) -> Option<
    Map<Seq<char>, Seq<char>>,
> {
    match parsed {
        Ok(value) => Some(json_members(value)),
        Err(_) => None,
    }
}

/// An object without members.
pub open spec fn no_members() -> Map<Seq<char>, Seq<char>> {
    Map::empty()
}

/// The compact text of the null value.
pub open spec fn null_text() -> Seq<char> {
    seq!['n', 'u', 'l', 'l']
}

/// The compact text of a member, that of null where there is no such member.
pub open spec fn member_text(members: Map<Seq<char>, Seq<char>>, key: Seq<char>) -> Seq<char> {
    if members.contains_key(key) {
        members[key]
    } else {
        null_text()
    }
}

/// The truth value that a compact text denotes.
pub open spec fn bool_of(text: Seq<char>) -> Option<bool> {
    if text == bool_text(true) {
        Some(true)
    } else if text == bool_text(false) {
        Some(false)
    } else {
        None
    }
}

/// A truth value is read as it was written.
pub proof fn lemma_bool_of_text(b: bool)
    ensures
        bool_of(bool_text(b)) == Some(b),
{
    assert(bool_text(true).len() == 4);
    assert(bool_text(false).len() == 5);
}

/// A compact text denotes a number.
pub open spec fn is_number(text: Seq<char>) -> bool {
    text.len() > 0 && (text[0] == '-' || '0' <= text[0] <= '9')
}

/// The compact text of a pair of unsigned numbers.
pub open spec fn pair_text(x: nat, y: nat) -> Seq<char> {
    seq!['['] + decimal(x) + seq![','] + decimal(y) + seq![']']
}

/// `serde_json::from_str`: succeeds on the texts that are JSON documents, and the value has the
/// members of the document. What makes a text a document is not spelled out.
#[verifier::external_body]
pub(crate) fn parse(text: &str) -> (r: Result<serde_json::Value, serde_json::Error>)
    ensures
        document_of(r) == json_document(text@),
{
    serde_json::from_str(text)
}

/// `serde_json::Value::index` by a string: the member, or null where there is none.
#[verifier::external_body]
pub(crate) fn member<'a>(value: &'a serde_json::Value, key: &str) -> (r: &'a serde_json::Value)
    ensures
        json_text(*r) == member_text(json_members(*value), key@),
{
    &value[key]
}

/// `serde_json::Value::as_bool`: the truth value, of a boolean only.
#[verifier::external_body]
pub(crate) fn as_bool(value: &serde_json::Value) -> (r: Option<bool>)
    ensures
        r == bool_of(json_text(*value)),
{
    value.as_bool()
}

/// `serde_json::Value::as_number`: the number, of a number only, here by its compact text.
#[verifier::external_body]
pub(crate) fn number_text(value: &serde_json::Value) -> (r: Option<String>)
    ensures
        r is Some <==> is_number(json_text(*value)),
        r matches Some(text) ==> text@ == json_text(*value),
{
    match value.as_number() {
        Some(number) => Some(number.to_string()),
        None => None,
    }
}

/// `serde_json::from_value` to an unsigned 32 bit number: succeeds on the integers in range.
#[verifier::external_body]
pub(crate) fn as_u32(value: &serde_json::Value) -> (r: Result<u32, serde_json::Error>)
    ensures
        match r {
            Ok(n) => json_text(*value) == decimal(n as nat),
            Err(_) => forall|n: u32| json_text(*value) != #[trigger] decimal(n as nat),
        },
{
    serde_json::from_value(value.clone())
}

/// `serde_json::from_value` to a `glam::UVec2`: succeeds on the arrays of two unsigned 32 bit
/// numbers.
#[verifier::external_body]
pub(crate) fn as_uvec2(value: &serde_json::Value) -> (r: Result<UVec2, serde_json::Error>)
    ensures
        match r {
            Ok(v) => json_text(*value) == pair_text(v.x as nat, v.y as nat),
            Err(_) => forall|x: u32, y: u32|
                json_text(*value) != #[trigger] pair_text(x as nat, y as nat),
        },
{
    let v: glam::UVec2 = serde_json::from_value(value.clone())?;
    Ok(UVec2 { x: v.x, y: v.y })
}

/// A character that stands for itself in a JSON string.
pub open spec fn is_unescaped(c: char) -> bool {
    c as int >= 0x20 && c != '"' && c != '\\'
}

/// The compact texts of values.
pub open spec fn value_texts(values: Seq<serde_json::Value>) -> Seq<Seq<char>> {
    values.map_values(|v: serde_json::Value| json_text(v))
}

/// `a` comes before `b` in the order of their characters.
pub open spec fn text_less(a: Seq<char>, b: Seq<char>) -> bool
    decreases a.len(),
{
    if b.len() == 0 {
        false
    } else if a.len() == 0 {
        true
    } else if a[0] != b[0] {
        a[0] < b[0]
    } else {
        text_less(a.skip(1), b.skip(1))
    }
}

/// The keys of an object in order, none of which needs an escape.
pub open spec fn ordered_keys(keys: Seq<Seq<char>>) -> bool {
    &&& forall|i: int, j: int|
        0 <= i && j == i + 1 && j < keys.len() ==> text_less(#[trigger] keys[i], #[trigger] keys[j])
    &&& forall|i: int, c: int|
        0 <= i < keys.len() && 0 <= c < keys[i].len() ==> is_unescaped(#[trigger] keys[i][c])
}

/// The keys of a list of members.
pub open spec fn keys_of(entries: Seq<(Seq<char>, Seq<char>)>) -> Seq<Seq<char>> {
    entries.map_values(|e: (Seq<char>, Seq<char>)| e.0)
}

/// The list holds just these members, in the order of their keys, none of which needs an escape.
pub open spec fn lists_members(
    entries: Seq<(Seq<char>, Seq<char>)>,
    members: Map<Seq<char>, Seq<char>>,
) -> bool {
    &&& ordered_keys(keys_of(entries))
    &&& members.dom() == keys_of(entries).to_set()
    &&& forall|i: int| 0 <= i < entries.len() ==> members[(#[trigger] entries[i]).0] == entries[i].1
}

/// The compact text of a member.
pub open spec fn entry_text(entry: (Seq<char>, Seq<char>)) -> Seq<char> {
    seq!['"'] + entry.0 + seq!['"', ':'] + entry.1
}

/// The compact text of an object with these members.
pub open spec fn object_text(entries: Seq<(Seq<char>, Seq<char>)>) -> Seq<char> {
    seq!['{'] + join(entries.map_values(|e: (Seq<char>, Seq<char>)| entry_text(e)), seq![','])
        + seq!['}']
}

/// `serde_json::Map::new`: no members.
#[verifier::external_body]
pub(crate) fn new_members() -> (r: serde_json::Map<String, serde_json::Value>)
    ensures
        map_members(r) == no_members(),
{
    serde_json::Map::new()
}

/// `serde_json::Map::insert`: the member is added, or replaced where there is one of that name.
#[verifier::external_body]
pub(crate) fn insert_member(
    members: &mut serde_json::Map<String, serde_json::Value>,
    key: &str,
    value: serde_json::Value,
)
    ensures
        map_members(*final(members)) == map_members(*old(members)).insert(key@, json_text(value)),
{
    members.insert(key.to_owned(), value);
}

/// `serde_json::Value::Object`: the object with these members. Its compact text lists them in the order
/// of their keys, where no key needs an escape.
#[verifier::external_body]
pub(crate) fn object_value(members: serde_json::Map<String, serde_json::Value>) -> (r:
    serde_json::Value)
    ensures
        json_members(r) == map_members(members),
        forall|entries: Seq<(Seq<char>, Seq<char>)>| #[trigger]
            lists_members(entries, map_members(members)) ==> json_text(r) == object_text(entries),
{
    serde_json::Value::Object(members)
}

/// `serde_json::Value::Array`: the array of these values, whose compact text is theirs between
/// brackets.
#[verifier::external_body]
pub(crate) fn array_value(values: Vec<serde_json::Value>) -> (r: serde_json::Value)
    ensures
        json_text(r) == seq!['['] + join(value_texts(values@), seq![',']) + seq![']'],
{
    serde_json::Value::Array(values)
}

/// `serde_json::Value::Null`.
#[verifier::external_body]
pub(crate) fn null_value() -> (r: serde_json::Value)
    ensures
        json_text(r) == null_text(),
{
    serde_json::Value::Null
}

/// `serde_json::Value::from` a truth value.
#[verifier::external_body]
pub(crate) fn bool_value(b: bool) -> (r: serde_json::Value)
    ensures
        json_text(r) == bool_text(b),
{
    serde_json::Value::from(b)
}

/// `serde_json::Value::from` an unsigned number: its text is the number's decimal digits.
#[verifier::external_body]
pub(crate) fn unsigned_value(n: u64) -> (r: serde_json::Value)
    ensures
        json_text(r) == decimal(n as nat),
{
    serde_json::Value::from(n)
}

/// `serde_json::Value::from` a signed number: its text is the number's decimal digits, after a minus
/// sign where it is negative.
#[verifier::external_body]
pub(crate) fn signed_value(n: i32) -> (r: serde_json::Value)
    ensures
        json_text(r) == signed_decimal(n as int),
{
    serde_json::Value::from(n)
}

/// `serde_json::Value::from` a string: its text is the string between quotes, where none of its
/// characters needs an escape. What the escapes look like is not spelled out.
#[verifier::external_body]
pub(crate) fn string_value(s: &str) -> (r: serde_json::Value)
    ensures
        (forall|i: int| 0 <= i < s@.len() ==> is_unescaped(#[trigger] s@[i])) ==> json_text(r)
            == seq!['"'] + s@ + seq!['"'],
{
    serde_json::Value::from(s)
}

/// `serde_json::Value::clone`: a value with the same text and the same members.
#[verifier::external_body]
pub(crate) fn copy_value(value: &serde_json::Value) -> (r: serde_json::Value)
    ensures
        json_text(r) == json_text(*value),
        json_members(r) == json_members(*value),
{
    value.clone()
}

/// `serde_json::Value::to_string`: the compact text.
#[verifier::external_body]
pub(crate) fn value_string(value: &serde_json::Value) -> (r: String)
    ensures
        r@ == json_text(*value),
{
    value.to_string()
}

/// The order of texts is transitive.
proof fn lemma_text_less_transitive(a: Seq<char>, b: Seq<char>, c: Seq<char>)
    requires
        text_less(a, b),
        text_less(b, c),
    ensures
        text_less(a, c),
    decreases a.len(),
{
    if a.len() > 0 && b.len() > 0 && c.len() > 0 && a[0] == b[0] && b[0] == c[0] {
        lemma_text_less_transitive(a.skip(1), b.skip(1), c.skip(1));
    }
}

/// No text comes before itself.
proof fn lemma_text_less_irreflexive(a: Seq<char>)
    ensures
        !text_less(a, a),
    decreases a.len(),
{
    if a.len() > 0 {
        lemma_text_less_irreflexive(a.skip(1));
    }
}

/// The first character in which two texts differ orders them.
pub proof fn lemma_text_less_at(a: Seq<char>, b: Seq<char>, k: int)
    requires
        0 <= k < a.len(),
        k < b.len(),
        forall|i: int| 0 <= i < k ==> a[i] == b[i],
        a[k] < b[k],
    ensures
        text_less(a, b),
    decreases k,
{
    if k > 0 {
        lemma_text_less_at(a.skip(1), b.skip(1), k - 1);
    }
}

/// In a list of keys in order, each comes before every later one.
proof fn lemma_ordered_keys(keys: Seq<Seq<char>>, i: int, j: int)
    requires
        ordered_keys(keys),
        0 <= i < j < keys.len(),
    ensures
        text_less(keys[i], keys[j]),
    decreases j - i,
{
    if i + 1 < j {
        lemma_ordered_keys(keys, i, j - 1);
        assert(text_less(keys[j - 1], keys[j]));
        lemma_text_less_transitive(keys[i], keys[j - 1], keys[j]);
    }
}

/// The members of a list of values, each by its compact text.
pub open spec fn value_entries(entries: Seq<(&'static str, serde_json::Value)>) -> Seq<
    (Seq<char>, Seq<char>),
> {
    entries.map_values(|e: (&'static str, serde_json::Value)| (e.0@, json_text(e.1)))
}

/// The object with these members, which are in the order of their keys.
pub(crate) fn object(entries: Vec<(&'static str, serde_json::Value)>) -> (r: serde_json::Value)
    requires
        ordered_keys(keys_of(value_entries(entries@))),
    ensures
        json_text(r) == object_text(value_entries(entries@)),
{
    let ghost listed = value_entries(entries@);
    let ghost keys = keys_of(listed);
    let mut members = new_members();
    let mut i: usize = 0;
    assert(keys.take(0).to_set() =~= Set::empty());
    while i < entries.len()
        invariant
            i <= entries@.len(),
            listed == value_entries(entries@),
            keys == keys_of(listed),
            ordered_keys(keys),
            map_members(members).dom() == keys.take(i as int).to_set(),
            forall|j: int|
                0 <= j < i ==> map_members(members)[(#[trigger] listed[j]).0] == listed[j].1,
        decreases entries@.len() - i,
    {
        let ghost before = map_members(members);
        insert_member(&mut members, entries[i].0, copy_value(&entries[i].1));
        proof {
            let taken = keys.take(i + 1);
            let key = keys[i as int];
            assert(key == entries@[i as int].0@);
            assert(listed[i as int] == (key, json_text(entries@[i as int].1)));
            assert forall|j: int| 0 <= j < i implies (#[trigger] listed[j]).0 != key by {
                lemma_ordered_keys(keys, j, i as int);
                lemma_text_less_irreflexive(key);
                assert(keys[j] == listed[j].0);
            }
            assert(taken =~= keys.take(i as int).push(key));
            assert forall|k: Seq<char>| #[trigger] taken.to_set().contains(k) <==> keys.take(
                i as int,
            ).to_set().insert(key).contains(k) by {
                if taken.contains(k) {
                    let j = choose|j: int| 0 <= j < taken.len() && taken[j] == k;
                    if j < i {
                        assert(keys.take(i as int)[j] == k);
                    }
                }
                if keys.take(i as int).contains(k) {
                    let j = choose|j: int| 0 <= j < i && keys.take(i as int)[j] == k;
                    assert(taken[j] == k);
                }
                assert(taken[i as int] == key);
            }
            assert(map_members(members).dom() =~= taken.to_set());
        }
        i += 1;
    }
    proof {
        assert(keys.take(i as int) =~= keys);
        assert(lists_members(listed, map_members(members)));
    }
    object_value(members)
}

/// A truth value of a document, or `default` where there is none under `key`.
pub open spec fn flag_or(
    document: Option<Map<Seq<char>, Seq<char>>>,
    key: Seq<char>,
    default: bool,
) -> bool {
    match document {
        Some(members) => match bool_of(member_text(members, key)) {
            Some(b) => b,
            None => default,
        },
        None => default,
    }
}

/// The text of a number of a document, or `default` where there is none under `key`.
pub open spec fn number_or(
    document: Option<Map<Seq<char>, Seq<char>>>,
    key: Seq<char>,
    default: Seq<char>,
) -> Seq<char> {
    match document {
        Some(members) => if is_number(member_text(members, key)) {
            member_text(members, key)
        } else {
            default
        },
        None => default,
    }
}

/// Reads a truth value of a document that may not have parsed.
pub fn read_flag(
    parsed: &Result<serde_json::Value, serde_json::Error>,
    key: &str,
    default: bool,
) -> (r: bool)
    ensures
        r == flag_or(document_of(*parsed), key@, default),
{
    match parsed {
        Ok(value) => match as_bool(member(value, key)) {
            Some(b) => b,
            None => default,
        },
        Err(_) => default,
    }
}

/// Reads the text of a number of a document that may not have parsed.
pub fn read_number(
    parsed: &Result<serde_json::Value, serde_json::Error>,
    key: &str,
    default: &str,
) -> (r: String)
    ensures
        r@ == number_or(document_of(*parsed), key@, default@),
{
    match parsed {
        Ok(value) => match number_text(member(value, key)) {
            Some(number) => number,
            None => default.to_owned(),
        },
        Err(_) => default.to_owned(),
    }
}

/// The words of JSON, and how a pair and a member are written.
pub proof fn law_written_forms(x: nat, y: nat, key: Seq<char>, value: Seq<char>)
    ensures
        null_text() == "null"@,
        pair_text(x, y) == "["@ + decimal(x) + ","@ + decimal(y) + "]"@,
        entry_text((key, value)) == "\""@ + key + "\":"@ + value,
{
    reveal_strlit("null");
    reveal_strlit("[");
    reveal_strlit(",");
    reveal_strlit("]");
    reveal_strlit("\"");
    reveal_strlit("\":");
    assert(null_text() =~= "null"@);
    assert(pair_text(x, y) =~= "["@ + decimal(x) + ","@ + decimal(y) + "]"@);
    assert(entry_text((key, value)) =~= "\""@ + key + "\":"@ + value);
}

/// An object is written as its members in their order, with commas between them, in braces. Its text
/// with more members is that of the first ones, opened at its end, and of the others.
pub proof fn law_object_is_written_member_by_member(
    first: Seq<(Seq<char>, Seq<char>)>,
    rest: Seq<(Seq<char>, Seq<char>)>,
)
    ensures
        first.len() == 0 ==> object_text(first) == "{}"@,
        first.len() == 1 ==> object_text(first) == "{"@ + entry_text(first[0]) + "}"@,
        first.len() > 0 && rest.len() > 0 ==> object_text(first + rest) == object_text(
            first,
        ).drop_last() + ","@ + object_text(rest).skip(1),
{
    reveal_strlit("{}");
    reveal_strlit("{");
    reveal_strlit("}");
    reveal_strlit(",");
    let written = |e: (Seq<char>, Seq<char>)| entry_text(e);
    let left = first.map_values(written);
    let right = rest.map_values(written);
    law_joining_lists(left, right, seq![',']);
    if first.len() == 0 {
        assert(object_text(first) =~= "{}"@);
    }
    if first.len() == 1 {
        assert(object_text(first) =~= "{"@ + entry_text(first[0]) + "}"@);
    }
    if first.len() > 0 && rest.len() > 0 {
        assert((first + rest).map_values(written) =~= left + right);
        assert(object_text(first + rest) =~= object_text(first).drop_last() + ","@ + object_text(
            rest,
        ).skip(1));
    }
}

/// A member is what stands under its name, and null where nothing does. Only the two truth words are
/// truth values.
pub proof fn law_members_are_read_by_name(members: Map<Seq<char>, Seq<char>>, key: Seq<char>)
    ensures
        members.contains_key(key) ==> member_text(members, key) == members[key],
        !members.contains_key(key) ==> member_text(members, key) == "null"@,
        bool_of(member_text(members, key)) == Some(true) <==> members.contains_key(key)
            && members[key] == "true"@,
        bool_of(member_text(members, key)) == Some(false) <==> members.contains_key(key)
            && members[key] == "false"@,
{
    reveal_strlit("null");
    law_truth_words();
    assert(bool_text(true).len() == 4 && bool_text(true)[0] == 't');
    assert(bool_text(false).len() == 5);
    assert(null_text() =~= "null"@);
    assert(null_text()[0] == 'n');
}

/// A truth value is read where one stands under the name, and is the default everywhere else: where
/// the text is not JSON, nothing stands there, or something that is no truth value.
pub proof fn law_flags_have_defaults(
    document: Option<Map<Seq<char>, Seq<char>>>,
    key: Seq<char>,
    default: bool,
)
    ensures
        document is None ==> flag_or(document, key, default) == default,
        document matches Some(members) ==> {
            &&& members.contains_key(key) && members[key] == "true"@ ==> flag_or(
                document,
                key,
                default,
            )
            &&& members.contains_key(key) && members[key] == "false"@ ==> !flag_or(
                document,
                key,
                default,
            )
            &&& !members.contains_key(key) || (members[key] != "true"@ && members[key]
                != "false"@) ==> flag_or(document, key, default) == default
        },
{
    if let Some(members) = document {
        law_members_are_read_by_name(members, key);
    }
}

/// A number is read as its text where one stands under the name, and is the default everywhere else.
/// A text denotes a number just where it starts with a digit or a minus sign.
pub proof fn law_numbers_have_defaults(
    document: Option<Map<Seq<char>, Seq<char>>>,
    key: Seq<char>,
    default: Seq<char>,
)
    ensures
        document is None ==> number_or(document, key, default) == default,
        document matches Some(members) ==> {
            let number = members.contains_key(key) && members[key].len() > 0 && (members[key][0]
                == '-' || '0' <= members[key][0] <= '9');
            &&& number ==> number_or(document, key, default) == members[key]
            &&& !number ==> number_or(document, key, default) == default
        },
{
    assert(null_text()[0] == 'n');
}

/// Of two texts that are alike up to a place, the one that ends there or has the smaller character
/// there comes first. Two texts are the same or one of them comes first.
pub proof fn law_order_of_texts(a: Seq<char>, b: Seq<char>, k: int)
    requires
        0 <= k <= a.len(),
        k <= b.len(),
        a.take(k) == b.take(k),
        k < a.len() && k < b.len() ==> a[k] != b[k],
    ensures
        text_less(a, b) <==> k < b.len() && (k == a.len() || a[k] < b[k]),
    decreases k,
{
    if k > 0 {
        assert(a[0] == a.take(k)[0] && b[0] == b.take(k)[0]);
        assert(a.skip(1).take(k - 1) =~= a.take(k).skip(1));
        assert(b.skip(1).take(k - 1) =~= b.take(k).skip(1));
        law_order_of_texts(a.skip(1), b.skip(1), k - 1);
    }
}

} // verus!
