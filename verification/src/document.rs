//! The registry's answer as a JSON document: what the value holds, and the
//! few questions the report asks of it.

use vstd::prelude::*;
use vstd::string::*;

verus! {

/// The most digits that may stand in a row in a text that is read as JSON.
/// The reader counts the digits of a fraction in sixteen bits, and a longer
/// row would take it past what they hold.
pub const MAX_DIGIT_RUN: usize = 32_768;

/// How deep the filled arrays and objects of a document that was read from a
/// text lie in one another at most.
pub const MAX_DEPTH: usize = 512;

#[verifier::external_type_specification]
#[verifier::external_body]
pub struct ExJsonValue(json::JsonValue);

/// How a JSON number is marked.
pub enum Sign {
    Positive,
    Negative,
    NotANumber,
}

/// A JSON value as a mathematical tree.
///
/// A number is `mantissa * 10^exponent` with its mark. An object holds its
/// entries in the order in which they were put in, each key once.
pub enum JsonTree {
    Null,
    Text(Seq<char>),
    Number { sign: Sign, mantissa: u64, exponent: i16 },
    Boolean(bool),
    Object(Seq<(Seq<char>, JsonTree)>),
    Array(Seq<JsonTree>),
}

/// The value that the first of `entries` with the key `key` holds, and `Null`
/// where none has that key.
pub open spec fn lookup(entries: Seq<(Seq<char>, JsonTree)>, key: Seq<char>) -> JsonTree
    decreases entries.len(),
{
    if entries.len() == 0 {
        JsonTree::Null
    } else if entries[0].0 == key {
        entries[0].1
    } else {
        lookup(entries.skip(1), key)
    }
}

impl JsonTree {
    /// What an object holds under `key`; `Null` where it has no such key, and
    /// for every value that is no object.
    pub open spec fn member(self, key: Seq<char>) -> JsonTree {
        match self {
            JsonTree::Object(entries) => lookup(entries, key),
            _ => JsonTree::Null,
        }
    }

    /// The members of an array, in order; none for every other value.
    pub open spec fn members(self) -> Seq<JsonTree> {
        match self {
            JsonTree::Array(items) => items,
            _ => Seq::empty(),
        }
    }

    /// The text of a string; the empty text for every other value.
    pub open spec fn text(self) -> Seq<char> {
        match self {
            JsonTree::Text(s) => s,
            _ => Seq::empty(),
        }
    }

    /// The value of a number that is written as a whole number from zero up,
    /// without a fraction and without an exponent; zero for every other
    /// value. So `100` counts as a hundred, and `100.0`, `1e2` and `-1` as
    /// zero.
    pub open spec fn count(self) -> u64 {
        match self {
            JsonTree::Number { sign: Sign::Positive, mantissa, exponent } => if exponent == 0 {
                mantissa
            } else {
                0
            },
            _ => 0,
        }
    }

    /// Whether the value is an object that has the key `key`.
    pub open spec fn has_key(self, key: Seq<char>) -> bool {
        self matches JsonTree::Object(entries) && exists|i: int|
            0 <= i < entries.len() && (#[trigger] entries[i]).0 == key
    }

    /// Whether the value is the boolean `true`.
    pub open spec fn flag(self) -> bool {
        self == JsonTree::Boolean(true)
    }

    /// Whether the arrays and objects of the value that hold anything lie at
    /// most `limit` deep in one another. One that holds nothing adds no
    /// depth.
    pub open spec fn within_depth(self, limit: nat) -> bool
        decreases limit,
    {
        match self {
            JsonTree::Array(items) => items.len() == 0 || (limit > 0 && forall|i: int|
                0 <= i < items.len() ==> (#[trigger] items[i]).within_depth((limit - 1) as nat)),
            JsonTree::Object(entries) => entries.len() == 0 || (limit > 0 && forall|i: int|
                0 <= i < entries.len() ==> (#[trigger] entries[i]).1.within_depth(
                    (limit - 1) as nat,
                )),
            _ => true,
        }
    }
}

/// Whether a character is a decimal digit.
pub open spec fn is_digit(c: char) -> bool {
    '0' <= c && c <= '9'
}

/// How many digits stand in a row in `text` just before the place `end`.
pub open spec fn digit_run(text: Seq<char>, end: int) -> nat
    decreases end,
{
    if end <= 0 || end > text.len() {
        0
    } else if is_digit(text[end - 1]) {
        digit_run(text, end - 1) + 1
    } else {
        0
    }
}

/// Whether no more than `MAX_DIGIT_RUN` digits stand in a row anywhere in
/// `text`.
pub open spec fn digit_runs_fit(text: Seq<char>) -> bool {
    forall|end: int| 0 <= end <= text.len() ==> #[trigger] digit_run(text, end) <= MAX_DIGIT_RUN
}

/// The value that a text is read as: the one it is the JSON notation of,
/// and none where it is no such notation or holds too many digits in a row.
pub open spec fn read_json(text: Seq<char>) -> Option<JsonTree> {
    if digit_runs_fit(text) {
        parsed_json(text)
    } else {
        None
    }
}

/// The texts of the strings among `items`, in order; what is no string is
/// left out.
pub open spec fn strings_among(items: Seq<JsonTree>) -> Seq<Seq<char>>
    decreases items.len(),
{
    if items.len() == 0 {
        Seq::empty()
    } else {
        match items.last() {
            JsonTree::Text(s) => strings_among(items.drop_last()).push(s),
            _ => strings_among(items.drop_last()),
        }
    }
}

/// A key that none of the entries has is looked up as `Null`.
pub proof fn lemma_lookup_absent(entries: Seq<(Seq<char>, JsonTree)>, key: Seq<char>)
    requires
        forall|i: int| 0 <= i < entries.len() ==> (#[trigger] entries[i]).0 != key,
    ensures
        lookup(entries, key) is Null,
    decreases entries.len(),
{
    if entries.len() > 0 {
        let rest = entries.skip(1);
        assert forall|i: int| 0 <= i < rest.len() implies (#[trigger] rest[i]).0 != key by {
            assert(rest[i] == entries[i + 1]);
        }
        lemma_lookup_absent(rest, key);
    }
}

/// What a JSON value holds.
pub uninterp spec fn json_tree(v: json::JsonValue) -> JsonTree;

/// The value that a text is the JSON notation of, where it is one.
pub uninterp spec fn parsed_json(text: Seq<char>) -> Option<JsonTree>;

/// A value in JSON notation, as short as that gets.
pub uninterp spec fn compact_text(tree: JsonTree) -> Seq<char>;

/// A value in JSON notation over several lines, each level indented by
/// `spaces` blanks.
pub uninterp spec fn pretty_text(tree: JsonTree, spaces: u16) -> Seq<char>;

/// `json::parse`: reads a text as JSON. Claimed: whether it gives a value,
/// and which, depends on the text alone; and in a value that it gives, the
/// arrays and objects that hold anything lie at most `MAX_DEPTH` deep in one
/// another, for it refuses a text that goes deeper. Texts with more than
/// `MAX_DIGIT_RUN` digits in a row are left out: on the digits of a long
/// fraction its count of them runs over.
#[verifier::external_body]
pub(crate) fn parse(text: &str) -> (r: Option<json::JsonValue>)
    requires
        digit_runs_fit(text@),
    ensures
        match r {
            Some(v) => parsed_json(text@) == Some(json_tree(v)) && json_tree(v).within_depth(
                MAX_DEPTH as nat,
            ),
            None => parsed_json(text@) is None,
        },
{
    match json::parse(text) {
        Ok(v) => Some(v),
        Err(_) => None,
    }
}

/// `JsonValue`'s index by a key. Claimed: the value an object holds under
/// that key, and null where it holds none or `v` is no object.
#[verifier::external_body]
pub(crate) fn member<'a>(v: &'a json::JsonValue, key: &str) -> (r: &'a json::JsonValue)
    ensures
        json_tree(*r) == json_tree(*v).member(key@),
{
    &v[key]
}

/// `JsonValue::members`. Claimed: it hands out the members of an array in
/// order, and nothing for a value that is no array.
#[verifier::external_body]
pub(crate) fn members<'a>(v: &'a json::JsonValue) -> (r: Vec<&'a json::JsonValue>)
    ensures
        r@.len() == json_tree(*v).members().len(),
        forall|i: int| 0 <= i < r@.len() ==> json_tree(*#[trigger] r@[i]) == json_tree(*v).members()[i],
{
    v.members().collect()
}

/// `JsonValue::as_str`. Claimed: the text of a string, and nothing for any
/// other value.
#[verifier::external_body]
pub(crate) fn as_str<'a>(v: &'a json::JsonValue) -> (r: Option<&'a str>)
    ensures
        match json_tree(*v) {
            JsonTree::Text(s) => r matches Some(t) && t@ == s,
            _ => r is None,
        },
{
    v.as_str()
}

/// `JsonValue::as_u64`. Claimed: the mantissa of a number marked positive
/// whose exponent is zero, and nothing for any other value.
#[verifier::external_body]
pub(crate) fn as_u64(v: &json::JsonValue) -> (r: Option<u64>)
    ensures
        r == match json_tree(*v) {
            JsonTree::Number { sign: Sign::Positive, mantissa, exponent } => if exponent == 0 {
                Some(mantissa)
            } else {
                None
            },
            _ => None,
        },
{
    v.as_u64()
}

/// `JsonValue::as_bool`. Claimed: the value of a boolean, and nothing for
/// any other value.
#[verifier::external_body]
pub(crate) fn as_bool(v: &json::JsonValue) -> (r: Option<bool>)
    ensures
        r == match json_tree(*v) {
            JsonTree::Boolean(b) => Some(b),
            _ => None,
        },
{
    v.as_bool()
}

/// `JsonValue::dump`. Claimed: the text it writes depends on nothing but
/// what the value holds.
#[verifier::external_body]
pub(crate) fn dump(v: &json::JsonValue) -> (r: String)
    ensures
        r@ == compact_text(json_tree(*v)),
{
    v.dump()
}

/// `JsonValue::pretty`. Claimed: the text it writes depends on nothing but
/// what the value holds and the width of an indent. The value may not go
/// deeper than `MAX_DEPTH`, and the indent of the deepest level has to fit
/// sixteen bits, in which the writer works it out.
#[verifier::external_body]
pub(crate) fn pretty(v: &json::JsonValue, spaces: u16) -> (r: String)
    requires
        json_tree(*v).within_depth(MAX_DEPTH as nat),
        spaces * MAX_DEPTH <= u16::MAX,
    ensures
        r@ == pretty_text(json_tree(*v), spaces),
{
    v.pretty(spaces)
}

/// Whether no more than `MAX_DIGIT_RUN` digits stand in a row anywhere in
/// `text`.
pub fn has_fitting_digit_runs(text: &str) -> (ok: bool)
    ensures
        ok == digit_runs_fit(text@),
{
    let mut run: usize = 0;
    let mut ok = true;
    for c in it: text.chars()
        invariant
            it.seq() == text@,
            run <= MAX_DIGIT_RUN + 1,
            run <= MAX_DIGIT_RUN ==> run == digit_run(text@, it.index() as int),
            run > MAX_DIGIT_RUN ==> digit_run(text@, it.index() as int) > MAX_DIGIT_RUN,
            ok == forall|end: int|
                0 <= end <= it.index() ==> #[trigger] digit_run(text@, end) <= MAX_DIGIT_RUN,
    {
        if '0' <= c && c <= '9' {
            if run <= MAX_DIGIT_RUN {
                run = run + 1;
            }
        } else {
            run = 0;
        }
        if run > MAX_DIGIT_RUN {
            ok = false;
        }
    }
    ok
}

/// Reads a text as JSON. A text that is no JSON gives nothing, and so does
/// one with more than `MAX_DIGIT_RUN` digits in a row.
pub fn read(text: &str) -> (out: Option<json::JsonValue>)
    ensures
        match out {
            Some(v) => read_json(text@) == Some(json_tree(v)) && json_tree(v).within_depth(
                MAX_DEPTH as nat,
            ),
            None => read_json(text@) is None,
        },
{
    if has_fitting_digit_runs(text) {
        parse(text)
    } else {
        None
    }
}

/// The text under `name` in `record`. A field that is absent, null or no
/// string reads as the empty text.
pub fn text_field(record: &json::JsonValue, name: &str) -> (out: String)
    ensures
        out@ == json_tree(*record).member(name@).text(),
{
    match as_str(member(record, name)) {
        Some(s) => String::from_str(s),
        None => String::new(),
    }
}

/// The count under `name` in `record`. A number counts where it is written
/// as a whole number from zero up, without a fraction and without an
/// exponent. A field that is absent, null or anything else reads as zero:
/// `100.0` and `1e2` do, as `-1` and `"100"` do.
pub fn count_field(record: &json::JsonValue, name: &str) -> (out: u64)
    ensures
        out == json_tree(*record).member(name@).count(),
{
    match as_u64(member(record, name)) {
        Some(n) => n,
        None => 0,
    }
}

/// The flag under `name` in `record`. A field that is absent, null or no
/// boolean reads as not set.
pub fn flag_field(record: &json::JsonValue, name: &str) -> (out: bool)
    ensures
        out == json_tree(*record).member(name@).flag(),
{
    match as_bool(member(record, name)) {
        Some(b) => b,
        None => false,
    }
}

/// The texts of the list under `name` in `record`, in order. A field that
/// is absent, null or no array reads as the empty list, and a member that
/// is no string is left out.
pub fn texts_field(record: &json::JsonValue, name: &str) -> (out: Vec<String>)
    ensures
        crate::text::texts(out@) == strings_among(json_tree(*record).member(name@).members()),
{
    let items = members(member(record, name));
    let ghost all = json_tree(*record).member(name@).members();
    let mut out: Vec<String> = Vec::new();
    let mut i: usize = 0;
    assert(all.take(0) =~= Seq::empty());
    assert(crate::text::texts(out@) =~= Seq::empty());
    while i < items.len()
        invariant
            i <= items.len(),
            items@.len() == all.len(),
            forall|j: int| 0 <= j < items@.len() ==> json_tree(*#[trigger] items@[j]) == all[j],
            crate::text::texts(out@) == strings_among(all.take(i as int)),
        decreases items.len() - i,
    {
        let item: &json::JsonValue = items[i];
        let ghost before = out@;
        proof {
            assert(all.take(i + 1).drop_last() =~= all.take(i as int));
            assert(all.take(i + 1).last() == json_tree(*item));
        }
        match as_str(item) {
            Some(s) => {
                out.push(String::from_str(s));
                assert(crate::text::texts(out@) =~= crate::text::texts(before).push(s@));
            },
            None => {},
        }
        i = i + 1;
    }
    assert(all.take(i as int) =~= all);
    out
}

} // verus!
