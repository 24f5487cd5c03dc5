//! The JSON that crosses the wire, as far as this crate reads and writes it.
//!
//! An inbound document is an object whose members are leaves or objects of
//! leaves. A leaf is a scalar, or anything nested deeper, which is kept as
//! text and never looked into. Reading JSON text and escaping string literals
//! is left to `serde_json`.

use vstd::prelude::*;
use vstd::string::{StrSliceExecFns, StringExecFns};
use serde_json::Value;

verus! {

/// A value that is not looked into any further.
#[derive(Debug, Clone)]
pub enum JsonLeaf {
    Null,
    Bool(bool),
    /// A number, in the text `serde_json` prints for it.
    Number(String),
    Text(String),
    /// An array or an object, in the compact text `serde_json` prints for it.
    Nested(String),
}

/// What a `JsonLeaf` stands for.
pub enum JsonLeafView {
    Null,
    Bool(bool),
    Number(Seq<char>),
    Text(Seq<char>),
    Nested(Seq<char>),
}

impl View for JsonLeaf {
    type V = JsonLeafView;

    open spec fn view(&self) -> JsonLeafView {
        match self {
            JsonLeaf::Null => JsonLeafView::Null,
            JsonLeaf::Bool(b) => JsonLeafView::Bool(*b),
            JsonLeaf::Number(n) => JsonLeafView::Number(n@),
            JsonLeaf::Text(s) => JsonLeafView::Text(s@),
            JsonLeaf::Nested(s) => JsonLeafView::Nested(s@),
        }
    }
}

/// The members of an object of leaves, in document order.
pub type Leaves = Seq<(Seq<char>, JsonLeafView)>;

/// An object whose members are all leaves.
#[derive(Debug, Clone)]
pub struct JsonLeaves {
    pub entries: Vec<(String, JsonLeaf)>,
}

impl View for JsonLeaves {
    type V = Leaves;

    open spec fn view(&self) -> Leaves {
        Seq::new(self.entries@.len(), |i: int| (self.entries@[i].0@, self.entries@[i].1@))
    }
}

/// One member value of a document: a leaf, or an object of leaves.
#[derive(Debug, Clone)]
pub enum JsonField {
    Leaf(JsonLeaf),
    Object(JsonLeaves),
}

/// What a `JsonField` stands for.
pub enum JsonFieldView {
    Leaf(JsonLeafView),
    Object(Leaves),
}

impl View for JsonField {
    type V = JsonFieldView;

    open spec fn view(&self) -> JsonFieldView {
        match self {
            JsonField::Leaf(leaf) => JsonFieldView::Leaf(leaf@),
            JsonField::Object(inner) => JsonFieldView::Object(inner@),
        }
    }
}

/// The members of a document, in document order.
pub type Members = Seq<(Seq<char>, JsonFieldView)>;

/// A JSON document: an object, with its members in document order.
#[derive(Debug, Clone)]
pub struct JsonObject {
    pub entries: Vec<(String, JsonField)>,
}

impl View for JsonObject {
    type V = Members;

    open spec fn view(&self) -> Members {
        Seq::new(self.entries@.len(), |i: int| (self.entries@[i].0@, self.entries@[i].1@))
    }
}

/// The first member named `key` at or after position `start`.
pub open spec fn lookup_from(members: Members, key: Seq<char>, start: int) -> Option<JsonFieldView>
    decreases members.len() - start,
{
    if start < 0 || start >= members.len() {
        None
    } else if members[start].0 == key {
        Some(members[start].1)
    } else {
        lookup_from(members, key, start + 1)
    }
}

/// The first member named `key`, if there is one.
pub open spec fn lookup(members: Members, key: Seq<char>) -> Option<JsonFieldView> {
    lookup_from(members, key, 0)
}

/// The first leaf named `key` at or after position `start`.
pub open spec fn leaf_lookup_from(leaves: Leaves, key: Seq<char>, start: int) -> Option<JsonLeafView>
    decreases leaves.len() - start,
{
    if start < 0 || start >= leaves.len() {
        None
    } else if leaves[start].0 == key {
        Some(leaves[start].1)
    } else {
        leaf_lookup_from(leaves, key, start + 1)
    }
}

/// The first leaf named `key`, if there is one.
pub open spec fn leaf_lookup(leaves: Leaves, key: Seq<char>) -> Option<JsonLeafView> {
    leaf_lookup_from(leaves, key, 0)
}

/// The leaf `key` where it is a string.
pub open spec fn leaf_text(leaves: Leaves, key: Seq<char>) -> Option<Seq<char>> {
    match leaf_lookup(leaves, key) {
        Some(JsonLeafView::Text(s)) => Some(s),
        _ => None,
    }
}

/// The member `key` where it is a string.
pub open spec fn text_member(members: Members, key: Seq<char>) -> Option<Seq<char>> {
    match lookup(members, key) {
        Some(JsonFieldView::Leaf(JsonLeafView::Text(s))) => Some(s),
        _ => None,
    }
}

/// The member `key` where it is a boolean.
pub open spec fn bool_member(members: Members, key: Seq<char>) -> Option<bool> {
    match lookup(members, key) {
        Some(JsonFieldView::Leaf(JsonLeafView::Bool(b))) => Some(b),
        _ => None,
    }
}

/// The members of the member `key` where it is an object.
pub open spec fn object_member(members: Members, key: Seq<char>) -> Option<Leaves> {
    match lookup(members, key) {
        Some(JsonFieldView::Object(inner)) => Some(inner),
        _ => None,
    }
}

/// An optional string member: absent and `null` both count as `None`.
/// The outer `None` says that the member holds something else.
pub open spec fn optional_text_member(members: Members, key: Seq<char>) -> Option<Option<Seq<char>>> {
    match lookup(members, key) {
        None => Some(None),
        Some(JsonFieldView::Leaf(JsonLeafView::Null)) => Some(None),
        Some(JsonFieldView::Leaf(JsonLeafView::Text(s))) => Some(Some(s)),
        _ => None,
    }
}

impl JsonLeaves {
    /// The first leaf named `key`.
    pub fn get(&self, key: &str) -> (found: Option<&JsonLeaf>)
        ensures
            match found {
                Some(leaf) => leaf_lookup(self@, key@) == Some(leaf@),
                None => leaf_lookup(self@, key@) is None,
            },
    {
        let wanted = String::from_str(key);
        let mut i: usize = 0;
        while i < self.entries.len()
            invariant
                i <= self.entries.len(),
                wanted@ == key@,
                leaf_lookup(self@, key@) == leaf_lookup_from(self@, key@, i as int),
            decreases self.entries.len() - i,
        {
            if self.entries[i].0 == wanted {
                return Some(&self.entries[i].1);
            }
            i += 1;
        }
        None
    }

    /// The leaf `key` where it is a string.
    pub fn get_text(&self, key: &str) -> (found: Option<String>)
        ensures
            match found {
                Some(s) => leaf_text(self@, key@) == Some(s@),
                None => leaf_text(self@, key@) is None,
            },
    {
        match self.get(key) {
            Some(JsonLeaf::Text(s)) => Some(s.clone()),
            _ => None,
        }
    }
}

impl JsonObject {
    /// The first member named `key`.
    pub fn get(&self, key: &str) -> (found: Option<&JsonField>)
        ensures
            match found {
                Some(field) => lookup(self@, key@) == Some(field@),
                None => lookup(self@, key@) is None,
            },
    {
        let wanted = String::from_str(key);
        let mut i: usize = 0;
        while i < self.entries.len()
            invariant
                i <= self.entries.len(),
                wanted@ == key@,
                lookup(self@, key@) == lookup_from(self@, key@, i as int),
            decreases self.entries.len() - i,
        {
            if self.entries[i].0 == wanted {
                return Some(&self.entries[i].1);
            }
            i += 1;
        }
        None
    }

    /// The member `key` where it is a string.
    pub fn get_text(&self, key: &str) -> (found: Option<String>)
        ensures
            match found {
                Some(s) => text_member(self@, key@) == Some(s@),
                None => text_member(self@, key@) is None,
            },
    {
        match self.get(key) {
            Some(JsonField::Leaf(JsonLeaf::Text(s))) => Some(s.clone()),
            _ => None,
        }
    }

    /// The member `key` where it is a boolean.
    pub fn get_bool(&self, key: &str) -> (found: Option<bool>)
        ensures
            found == bool_member(self@, key@),
    {
        match self.get(key) {
            Some(JsonField::Leaf(JsonLeaf::Bool(b))) => Some(*b),
            _ => None,
        }
    }

    /// The member `key` where it is an object.
    pub fn get_object(&self, key: &str) -> (found: Option<&JsonLeaves>)
        ensures
            match found {
                Some(inner) => object_member(self@, key@) == Some(inner@),
                None => object_member(self@, key@) is None,
            },
    {
        match self.get(key) {
            Some(JsonField::Object(inner)) => Some(inner),
            _ => None,
        }
    }

    /// An optional string member: `Ok(None)` where it is absent or `null`,
    /// `Err(())` where it holds anything but a string.
    pub fn get_optional_text(&self, key: &str) -> (found: Result<Option<String>, ()>)
        ensures
            match found {
                Ok(Some(s)) => optional_text_member(self@, key@) == Some(Some(s@)),
                Ok(None) => optional_text_member(self@, key@) == Some(None::<Seq<char>>),
                Err(_) => optional_text_member(self@, key@) is None,
            },
    {
        match self.get(key) {
            None => Ok(None),
            Some(JsonField::Leaf(JsonLeaf::Null)) => Ok(None),
            Some(JsonField::Leaf(JsonLeaf::Text(s))) => Ok(Some(s.clone())),
            Some(_) => Err(()),
        }
    }
}

/// The members of the JSON object that `text` spells, in document order, as
/// `serde_json` reads them; `None` where `text` is not one JSON object.
pub uninterp spec fn json_object_of_text(text: Seq<char>) -> Option<Seq<(Seq<char>, JsonFieldView)>>;

/// Reads `text` with `serde_json::from_str` as a `serde_json::Value`.
///
/// Trusted: the result is a function of the text alone. An object comes back
/// with its members in document order. A member that is an object has its
/// own members listed the same way. Scalars come as they are; a number, an
/// array, and an object inside an object come as the text `serde_json`
/// prints for them. Anything but an object, and text that is not JSON, gives
/// `None`.
#[verifier::external_body]
pub(crate) fn parse_object(text: &str) -> (parsed: Option<JsonObject>)
    ensures
        parsed matches Some(object) ==> json_object_of_text(text@) == Some(object@),
        parsed is None ==> json_object_of_text(text@) is None,
{
    let leaf = |value| match value {
        Value::Null => JsonLeaf::Null,
        Value::Bool(b) => JsonLeaf::Bool(b),
        Value::Number(n) => JsonLeaf::Number(n.to_string()),
        Value::String(s) => JsonLeaf::Text(s),
        nested => JsonLeaf::Nested(nested.to_string()),
    };
    match serde_json::from_str(text) {
        Ok(Value::Object(m)) => Some(JsonObject { entries: m.into_iter().map(|(k, v)| (k, match v {
            Value::Object(inner) => JsonField::Object(JsonLeaves { entries: inner.into_iter().map(|(k, v)| (k, leaf(v))).collect() }),
            other => JsonField::Leaf(leaf(other)),
        })).collect() }),
        _ => None,
    }
}

/// The sixteen hexadecimal digits, in lower case.
pub open spec fn hex_digits() -> Seq<char> {
    "0123456789abcdef"@
}

/// Whether `c` is written otherwise than as itself in a JSON string literal:
/// the quote, the backslash, and everything below the space.
pub open spec fn needs_escape(c: char) -> bool {
    c == '"' || c == '\\' || ' ' > c
}

/// How `c` stands in a JSON string literal: a two-character escape for the
/// quote, the backslash, backspace, tab, line feed, form feed and carriage
/// return; `\u00` and two hexadecimal digits for any other character below
/// the space; else the character itself.
pub open spec fn escaped_char(c: char) -> Seq<char> {
    if c == '"' {
        seq!['\\', '"']
    } else if c == '\\' {
        seq!['\\', '\\']
    } else if c == '\u{8}' {
        seq!['\\', 'b']
    } else if c == '\t' {
        seq!['\\', 't']
    } else if c == '\n' {
        seq!['\\', 'n']
    } else if c == '\u{c}' {
        seq!['\\', 'f']
    } else if c == '\r' {
        seq!['\\', 'r']
    } else if ' ' > c {
        seq![
            '\\',
            'u',
            '0',
            '0',
            hex_digits()[(c as u32 / 16) as int],
            hex_digits()[(c as u32 % 16) as int],
        ]
    } else {
        seq![c]
    }
}

/// The characters of `text`, each as it stands in a JSON string literal.
pub open spec fn escaped_text(text: Seq<char>) -> Seq<char>
    decreases text.len(),
{
    if text.len() == 0 {
        Seq::empty()
    } else {
        escaped_text(text.drop_last()) + escaped_char(text.last())
    }
}

/// The JSON string literal for `text`: its escaped characters between quotes.
pub open spec fn json_string_text(text: Seq<char>) -> Seq<char> {
    seq!['"'] + escaped_text(text) + seq!['"']
}

/// Writes `text` as a JSON string literal by printing a
/// `serde_json::Value::String`.
///
/// Trusted: the literal is `text` between quotes, escaped as `serde_json`'s
/// table says, which `escaped_char` restates.
#[verifier::external_body]
pub(crate) fn quote(text: &str) -> (literal: String)
    ensures
        literal@ == json_string_text(text@),
{
    Value::String(text.to_owned()).to_string()
}

/// Text that holds no quote, no backslash and nothing below the space stands
/// in its literal as it is, between quotes.
pub proof fn lemma_plain_text_is_quoted_as_it_is(text: Seq<char>)
    requires
        forall|i: int| 0 <= i < text.len() ==> !needs_escape(#[trigger] text[i]),
    ensures
        escaped_text(text) == text,
        json_string_text(text) == seq!['"'] + text + seq!['"'],
    decreases text.len(),
{
    if text.len() > 0 {
        let front = text.drop_last();
        assert forall|i: int| 0 <= i < front.len() implies !needs_escape(#[trigger] front[i]) by {
            assert(front[i] == text[i]);
        }
        lemma_plain_text_is_quoted_as_it_is(front);
        assert(!needs_escape(text[text.len() - 1]));
        assert(escaped_char(text.last()) == seq![text.last()]);
        assert(front + seq![text.last()] =~= text);
    } else {
        assert(escaped_text(text) =~= text);
    }
}

/// The JSON text of a boolean.
pub open spec fn bool_literal(b: bool) -> Seq<char> {
    if b {
        "true"@
    } else {
        "false"@
    }
}

/// The JSON text of an optional boolean: `null` where there is none.
pub open spec fn optional_bool_literal(b: Option<bool>) -> Seq<char> {
    match b {
        Some(b) => bool_literal(b),
        None => "null"@,
    }
}

/// The JSON text of an optional string: `null` where there is none.
pub open spec fn optional_text_literal(text: Option<Seq<char>>) -> Seq<char> {
    match text {
        Some(t) => json_string_text(t),
        None => "null"@,
    }
}

/// What an optional borrowed string stands for.
pub open spec fn optional_str_view(text: Option<&str>) -> Option<Seq<char>> {
    match text {
        Some(t) => Some(t@),
        None => None,
    }
}

/// The digits, in order.
pub open spec fn digits() -> Seq<char> {
    "0123456789"@
}

/// `n` in decimal, without sign or leading zeros.
pub open spec fn decimal_text(n: nat) -> Seq<char>
    decreases n,
{
    if n < 10 {
        seq![digits()[n as int]]
    } else {
        decimal_text(n / 10).push(digits()[(n % 10) as int])
    }
}

/// Appends `text` as a JSON string literal.
pub fn push_text(out: &mut String, text: &str)
    ensures
        final(out)@ == old(out)@ + json_string_text(text@),
{
    let literal = quote(text);
    out.append(literal.as_str());
}

/// Appends an optional string: its literal, or `null`.
pub fn push_optional_text(out: &mut String, text: Option<&str>)
    ensures
        final(out)@ == old(out)@ + optional_text_literal(optional_str_view(text)),
{
    match text {
        Some(t) => push_text(out, t),
        None => out.append("null"),
    }
}

/// Appends `true` or `false`.
pub fn push_bool(out: &mut String, b: bool)
    ensures
        final(out)@ == old(out)@ + bool_literal(b),
{
    if b {
        out.append("true");
    } else {
        out.append("false");
    }
}

/// Appends an optional boolean: `true`, `false` or `null`.
pub fn push_optional_bool(out: &mut String, b: Option<bool>)
    ensures
        final(out)@ == old(out)@ + optional_bool_literal(b),
{
    match b {
        Some(b) => push_bool(out, b),
        None => out.append("null"),
    }
}

/// Appends `n` in decimal.
pub fn push_decimal(out: &mut String, n: u64)
    ensures
        final(out)@ == old(out)@ + decimal_text(n as nat),
    decreases n,
{
    if n >= 10 {
        push_decimal(out, n / 10);
    }
    let d = (n % 10) as usize;
    proof {
        reveal_strlit("0123456789");
    }
    let all = "0123456789";
    let digit = all.substring_ascii(d, d + 1);
    out.append(digit);
    proof {
        assert(digit@ =~= seq![digits()[d as int]]);
        assert(final(out)@ =~= old(out)@ + decimal_text(n as nat));
    }
}

} // verus!
