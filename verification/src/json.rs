//! JSON values as the browser protocol and the command parser exchange them.

use vstd::prelude::*;
use vstd::string::*;

use crate::text::same_text;

verus! {

/// A JSON number. An integer without a sign is `Unsigned`, one below zero is
/// `Negative`; every other number is carried by its decimal text.
#[derive(Debug)]
pub enum JsonNumber {
    Unsigned(u64),
    Negative(i64),
    Decimal(String),
}

/// A JSON value. The members of an object stand in the order in which they
/// were put there.
#[derive(Debug)]
pub enum JsonValue {
    Null,
    Bool(bool),
    Number(JsonNumber),
    Text(String),
    Array(Vec<JsonValue>),
    Object(Vec<(String, JsonValue)>),
}

/// The mathematical content of a [`JsonNumber`].
pub enum Numeral {
    Unsigned(u64),
    Negative(i64),
    Decimal(Seq<char>),
}

/// The mathematical content of a [`JsonValue`].
pub enum Json {
    Null,
    Bool(bool),
    Number(Numeral),
    Text(Seq<char>),
    Array(Seq<Json>),
    Object(Seq<(Seq<char>, Json)>),
}

impl View for JsonNumber {
    type V = Numeral;

    open spec fn view(&self) -> Numeral {
        match self {
            JsonNumber::Unsigned(n) => Numeral::Unsigned(*n),
            JsonNumber::Negative(n) => Numeral::Negative(*n),
            JsonNumber::Decimal(t) => Numeral::Decimal(t@),
        }
    }
}

impl Clone for JsonNumber {
    fn clone(&self) -> (r: Self)
        ensures
            r@ == self@,
    {
        match self {
            JsonNumber::Unsigned(n) => JsonNumber::Unsigned(*n),
            JsonNumber::Negative(n) => JsonNumber::Negative(*n),
            JsonNumber::Decimal(t) => JsonNumber::Decimal(t.clone()),
        }
    }
}

impl JsonValue {
    /// The content of the value, level by level.
    pub open spec fn content(self) -> Json
        decreases self,
    {
        match self {
            JsonValue::Null => Json::Null,
            JsonValue::Bool(b) => Json::Bool(b),
            JsonValue::Number(n) => Json::Number(n@),
            JsonValue::Text(t) => Json::Text(t@),
            JsonValue::Array(items) => Json::Array(
                Seq::new(
                    items@.len(),
                    |i: int|
                        if 0 <= i < items@.len() {
                            items@[i].content()
                        } else {
                            Json::Null
                        },
                ),
            ),
            JsonValue::Object(members) => Json::Object(
                Seq::new(
                    members@.len(),
                    |i: int|
                        if 0 <= i < members@.len() {
                            (members@[i].0@, members@[i].1.content())
                        } else {
                            (Seq::empty(), Json::Null)
                        },
                ),
            ),
        }
    }
}

impl View for JsonValue {
    type V = Json;

    open spec fn view(&self) -> Json {
        self.content()
    }
}

/// The value of the first member named `key`.
pub open spec fn lookup(members: Seq<(Seq<char>, Json)>, key: Seq<char>) -> Option<Json>
    decreases members.len(),
{
    if members.len() == 0 {
        None
    } else if members[0].0 == key {
        Some(members[0].1)
    } else {
        lookup(members.drop_first(), key)
    }
}

impl Json {
    /// The member named `key`; only an object has members.
    pub open spec fn member(self, key: Seq<char>) -> Option<Json> {
        match self {
            Json::Object(members) => lookup(members, key),
            _ => None,
        }
    }

    /// The characters of a text.
    pub open spec fn as_text(self) -> Option<Seq<char>> {
        match self {
            Json::Text(t) => Some(t),
            _ => None,
        }
    }

    /// The truth value of a boolean.
    pub open spec fn as_truth(self) -> Option<bool> {
        match self {
            Json::Bool(b) => Some(b),
            _ => None,
        }
    }

    /// A number that is an integer without a sign.
    pub open spec fn as_unsigned(self) -> Option<u64> {
        match self {
            Json::Number(Numeral::Unsigned(n)) => Some(n),
            _ => None,
        }
    }

    /// A number that is an integer in the range of `i64`.
    pub open spec fn as_signed(self) -> Option<i64> {
        match self {
            Json::Number(Numeral::Unsigned(n)) => if n <= i64::MAX {
                Some(n as i64)
            } else {
                None
            },
            Json::Number(Numeral::Negative(n)) => Some(n),
            _ => None,
        }
    }

    /// A number of any kind.
    pub open spec fn as_numeral(self) -> Option<Numeral> {
        match self {
            Json::Number(n) => Some(n),
            _ => None,
        }
    }

    /// The object with one more member behind those that it has.
    pub open spec fn with(self, key: Seq<char>, value: Json) -> Json {
        match self {
            Json::Object(members) => Json::Object(members.push((key, value))),
            other => other,
        }
    }

    /// The object without members.
    pub open spec fn empty_object() -> Json {
        Json::Object(Seq::empty())
    }
}

impl JsonValue {
    /// The object without members.
    pub fn empty_object() -> (r: JsonValue)
        ensures
            r@ == Json::empty_object(),
    {
        let r = JsonValue::Object(Vec::new());
        assert(r@->Object_0 =~= Seq::empty());
        r
    }

    /// A text value.
    pub fn text(value: &str) -> (r: JsonValue)
        ensures
            r@ == Json::Text(value@),
    {
        JsonValue::Text(value.to_owned())
    }

    /// The object with one more member. A value that is no object stays as it is.
    pub fn with(self, key: &str, value: JsonValue) -> (r: JsonValue)
        ensures
            r@ == self@.with(key@, value@),
    {
        match self {
            JsonValue::Object(members) => {
                let ghost before = members@;
                let mut members = members;
                members.push((key.to_owned(), value));
                let r = JsonValue::Object(members);
                assert(members@ == before.push(members@.last()));
                assert(r@->Object_0 =~= self@->Object_0.push((key@, value@)));
                r
            },
            other => other,
        }
    }

    /// Whether the value is null.
    pub fn is_null(&self) -> (r: bool)
        ensures
            r == (self@ is Null),
    {
        match self {
            JsonValue::Null => true,
            _ => false,
        }
    }

    /// Whether the value is an object.
    pub fn is_object(&self) -> (r: bool)
        ensures
            r == (self@ is Object),
    {
        match self {
            JsonValue::Object(_) => true,
            _ => false,
        }
    }

    /// The first member named `key`.
    pub fn get(&self, key: &str) -> (r: Option<&JsonValue>)
        ensures
            match r {
                Some(v) => self@.member(key@) == Some(v@),
                None => self@.member(key@) is None,
            },
    {
        match self {
            JsonValue::Object(members) => {
                let ghost all = self@->Object_0;
                let mut i: usize = 0;
                assert(all.skip(0) =~= all);
                while i < members.len()
                    invariant
                        i <= members@.len(),
                        self@ == Json::Object(all),
                        all.len() == members@.len(),
                        forall|j: int|
                            0 <= j < members@.len() ==> all[j] == (
                                #[trigger] members@[j].0@,
                                members@[j].1@,
                            ),
                        lookup(all, key@) == lookup(all.skip(i as int), key@),
                    decreases members@.len() - i,
                {
                    let member = &members[i];
                    assert(all[i as int] == (members@[i as int].0@, members@[i as int].1@));
                    assert(all.skip(i as int)[0] == all[i as int]);
                    assert(all.skip(i as int).drop_first() =~= all.skip(i + 1));
                    if same_text(member.0.as_str(), key) {
                        return Some(&member.1);
                    }
                    i = i + 1;
                }
                None
            },
            _ => None,
        }
    }

    /// The text of a text value.
    pub fn as_str(&self) -> (r: Option<&str>)
        ensures
            match r {
                Some(t) => self@.as_text() == Some(t@),
                None => self@.as_text() is None,
            },
    {
        match self {
            JsonValue::Text(t) => Some(t.as_str()),
            _ => None,
        }
    }

    /// The truth value of a boolean.
    pub fn as_bool(&self) -> (r: Option<bool>)
        ensures
            r == self@.as_truth(),
    {
        match self {
            JsonValue::Bool(b) => Some(*b),
            _ => None,
        }
    }

    /// A number that is an integer without a sign.
    pub fn as_u64(&self) -> (r: Option<u64>)
        ensures
            r == self@.as_unsigned(),
    {
        match self {
            JsonValue::Number(JsonNumber::Unsigned(n)) => Some(*n),
            _ => None,
        }
    }

    /// A number that is an integer in the range of `i64`.
    pub fn as_i64(&self) -> (r: Option<i64>)
        ensures
            r == self@.as_signed(),
    {
        match self {
            JsonValue::Number(JsonNumber::Unsigned(n)) => if *n <= i64::MAX as u64 {
                Some(*n as i64)
            } else {
                None
            },
            JsonValue::Number(JsonNumber::Negative(n)) => Some(*n),
            _ => None,
        }
    }

    /// A number of any kind.
    pub fn as_number(&self) -> (r: Option<&JsonNumber>)
        ensures
            match r {
                Some(n) => self@.as_numeral() == Some(n@),
                None => self@.as_numeral() is None,
            },
    {
        match self {
            JsonValue::Number(n) => Some(n),
            _ => None,
        }
    }
}

/// The lower-case hexadecimal digit of `d`, for `d` below sixteen.
pub open spec fn hex_digit(d: int) -> char {
    if d < 10 {
        ('0' as u8 + d) as char
    } else {
        ('a' as u8 + (d - 10)) as char
    }
}

/// One character inside a JSON string literal: a quotation mark, a backslash and
/// the control characters below U+0020 are escaped, the rest stand for themselves.
pub open spec fn escaped_char(c: char) -> Seq<char> {
    if c == '"' {
        seq!['\\', '"']
    } else if c == '\\' {
        seq!['\\', '\\']
    } else if c == '\u{8}' {
        seq!['\\', 'b']
    } else if c == '\u{c}' {
        seq!['\\', 'f']
    } else if c == '\n' {
        seq!['\\', 'n']
    } else if c == '\r' {
        seq!['\\', 'r']
    } else if c == '\t' {
        seq!['\\', 't']
    } else if (c as u32) < 0x20 {
        seq!['\\', 'u', '0', '0', hex_digit(c as int / 16), hex_digit(c as int % 16)]
    } else {
        seq![c]
    }
}

/// The characters of `text`, each as it stands inside a JSON string literal.
pub open spec fn escaped(text: Seq<char>) -> Seq<char>
    decreases text.len(),
{
    if text.len() == 0 {
        Seq::empty()
    } else {
        escaped_char(text[0]) + escaped(text.drop_first())
    }
}

/// `text` as a JSON string literal.
pub open spec fn quoted(text: Seq<char>) -> Seq<char> {
    seq!['"'] + escaped(text) + seq!['"']
}

/// The value of a lower-case hexadecimal digit.
pub open spec fn hex_value(c: char) -> Option<int> {
    if '0' <= c && c <= '9' {
        Some(c as int - '0' as int)
    } else if 'a' <= c && c <= 'f' {
        Some(c as int - 'a' as int + 10)
    } else {
        None
    }
}

/// What a backslash and `c` stand for in a string literal.
pub open spec fn short_escape(c: char) -> Option<char> {
    if c == '"' || c == '\\' || c == '/' {
        Some(c)
    } else if c == 'b' {
        Some('\u{8}')
    } else if c == 'f' {
        Some('\u{c}')
    } else if c == 'n' {
        Some('\n')
    } else if c == 'r' {
        Some('\r')
    } else if c == 't' {
        Some('\t')
    } else {
        None
    }
}

/// The first character that the inside of a string literal stands for, and how
/// many characters it takes. There is none where a bare quotation mark would end
/// the literal, nor at a bare control character or an incomplete escape.
pub open spec fn read_char(inside: Seq<char>) -> Option<(char, int)> {
    if inside.len() == 0 || inside[0] == '"' || (inside[0] as u32) < 0x20 {
        None
    } else if inside[0] != '\\' {
        Some((inside[0], 1))
    } else if inside.len() >= 2 && short_escape(inside[1]) is Some {
        Some((short_escape(inside[1])->0, 2))
    } else if inside.len() >= 6 && inside[1] == 'u' && inside[2] == '0' && inside[3] == '0'
        && hex_value(inside[4]) is Some && hex_value(inside[5]) is Some {
        Some(((16 * hex_value(inside[4])->0 + hex_value(inside[5])->0) as char, 6))
    } else {
        None
    }
}

/// The text that the inside of a string literal stands for.
pub open spec fn read_literal(inside: Seq<char>) -> Option<Seq<char>>
    decreases inside.len(),
{
    if inside.len() == 0 {
        Some(Seq::empty())
    } else {
        match read_char(inside) {
            Some((c, width)) => match read_literal(inside.skip(width)) {
                Some(rest) => Some(seq![c] + rest),
                None => None,
            },
            None => None,
        }
    }
}

proof fn lemma_read_escaped_char(c: char, rest: Seq<char>)
    ensures
        escaped_char(c).len() > 0,
        read_char(escaped_char(c) + rest) == Some((c, escaped_char(c).len() as int)),
        (escaped_char(c) + rest).skip(escaped_char(c).len() as int) == rest,
{
    let all = escaped_char(c) + rest;
    assert(all.skip(escaped_char(c).len() as int) =~= rest);
    if (c as u32) < 0x20 {
        let high = c as int / 16;
        let low = c as int % 16;
        assert(hex_value(hex_digit(high)) == Some(high));
        assert(hex_value(hex_digit(low)) == Some(low));
        assert((16 * high + low) as char == c);
    }
}

/// A quoted text is read back as it was: nothing in it can end the literal early
/// or stand for another text.
pub proof fn quoted_text_reads_back(text: Seq<char>)
    ensures
        quoted(text).len() >= 2,
        quoted(text).first() == '"',
        quoted(text).last() == '"',
        read_literal(quoted(text).subrange(1, quoted(text).len() - 1)) == Some(text),
{
    assert(quoted(text).subrange(1, quoted(text).len() - 1) =~= escaped(text));
    lemma_escaped_reads_back(text);
}

proof fn lemma_escaped_reads_back(text: Seq<char>)
    ensures
        read_literal(escaped(text)) == Some(text),
    decreases text.len(),
{
    if text.len() > 0 {
        let rest = text.drop_first();
        lemma_escaped_reads_back(rest);
        lemma_read_escaped_char(text[0], escaped(rest));
        assert(seq![text[0]] + rest =~= text);
    } else {
        assert(text =~= Seq::empty());
    }
}

/// Two texts with the same literal are the same text.
pub proof fn quoted_is_injective(a: Seq<char>, b: Seq<char>)
    requires
        quoted(a) == quoted(b),
    ensures
        a == b,
{
    quoted_text_reads_back(a);
    quoted_text_reads_back(b);
}

/// `serde_json::to_string` on a string slice. It does not fail there, and gives
/// the string literal with the escapes of [`escaped_char`].
#[verifier::external_body]
fn to_json_string(value: &str) -> (r: Option<String>)
    ensures
        r is Some,
        r->0@ == quoted(value@),
{
    serde_json::to_string(value).ok()
}

/// `value` as a string literal that can stand in a script.
pub fn js_string(value: &str) -> (r: String)
    ensures
        r@ == quoted(value@),
{
    match to_json_string(value) {
        Some(literal) => literal,
        None => "\"\"".to_owned(),
    }
}

} // verus!
