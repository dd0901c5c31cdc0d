//! Laws of texts, JSON values, times, options and commands.

use vstd::prelude::*;

use crate::cdp::{
    bare_command, browser_command, evaluate_by_value, evaluate_with_promise, jpeg_screenshot,
    session_command, CdpCommand, Command, ExceptionDetails,
};
use crate::json::{
    escaped, escaped_char, lookup, quoted, Json, JsonNumber, JsonValue, Numeral,
};
use crate::options::{bounded, flag_option, text_option};
use crate::text::{
    agrees, decimal, first_chars, is_blank_text, is_tail, is_white, lower, occurs_at, occurs_in,
};
use crate::time::{elapsed_nanos, millis, TimePoint};

verus! {

/// A text contains another where it is that other with something, or nothing, before
/// and behind it.
pub proof fn contained_texts_stand_in_between(haystack: Seq<char>, needle: Seq<char>)
    ensures
        occurs_in(haystack, needle) <==> exists|before: Seq<char>, behind: Seq<char>|
            haystack == #[trigger] (before + needle + behind),
{
    if occurs_in(haystack, needle) {
        let at = choose|at: int| #[trigger] occurs_at(haystack, needle, at);
        let before = haystack.take(at);
        let behind = haystack.skip(at + needle.len());
        assert(haystack =~= before + needle + behind);
    }
    if exists|before: Seq<char>, behind: Seq<char>|
        haystack == #[trigger] (before + needle + behind) {
        let (before, behind) = choose|before: Seq<char>, behind: Seq<char>|
            haystack == #[trigger] (before + needle + behind);
        let at = before.len() as int;
        assert(haystack.subrange(at, at + needle.len() as int) =~= needle);
        assert(occurs_at(haystack, needle, at));
    }
}

/// A text ends in another where it is that other with something, or nothing, before it.
pub proof fn tails_stand_at_the_end(text: Seq<char>, tail: Seq<char>)
    ensures
        is_tail(text, tail) <==> exists|stem: Seq<char>| text == #[trigger] (stem + tail),
{
    if is_tail(text, tail) {
        let stem = text.take(text.len() - tail.len());
        assert(text =~= stem + tail);
    }
    if exists|stem: Seq<char>| text == #[trigger] (stem + tail) {
        let stem = choose|stem: Seq<char>| text == #[trigger] (stem + tail);
        let at = text.len() - tail.len();
        assert(text.subrange(at, at + tail.len() as int) =~= tail);
    }
}

/// Lower case changes the letters `A` to `Z` and nothing else, each into the letter with
/// which it is a pair, and leaves nothing to change.
pub proof fn lower_case_changes_capitals_only(text: Seq<char>)
    ensures
        lower(text).len() == text.len(),
        forall|i: int|
            0 <= i < text.len() && 'A' <= #[trigger] text[i] <= 'Z' ==> lower(text)[i] as int
                == text[i] as int + 32,
        forall|i: int|
            0 <= i < text.len() && !('A' <= #[trigger] text[i] <= 'Z') ==> lower(text)[i]
                == text[i],
        lower(lower(text)) == lower(text),
{
    assert forall|i: int|
        0 <= i < text.len() && 'A' <= #[trigger] text[i] <= 'Z' implies lower(text)[i] as int
        == text[i] as int + 32 by {
        let c: char = text[i];
        assert(c as u8 == c as int);
    }
    assert(lower(lower(text)) =~= lower(text));
}

/// A text is blank where every part of it is; one character is where it is white space,
/// and no character behind the ideographic space is.
pub proof fn blank_texts_are_made_of_white_space(a: Seq<char>, b: Seq<char>, c: char)
    ensures
        is_blank_text(Seq::empty()),
        is_blank_text(seq![c]) <==> is_white(c),
        is_blank_text(a + b) <==> is_blank_text(a) && is_blank_text(b),
        is_white(c) ==> c as u32 <= 0x3000,
        c as u32 == 32 ==> is_white(c),
{
    assert(seq![c][0] == c);
    if is_blank_text(a + b) {
        assert forall|i: int| 0 <= i < a.len() implies is_white(#[trigger] a[i]) by {
            assert((a + b)[i] == a[i]);
        }
        assert forall|i: int| 0 <= i < b.len() implies is_white(#[trigger] b[i]) by {
            assert((a + b)[a.len() + i] == b[i]);
        }
    }
}

/// The number that some digits stand for.
pub open spec fn digits_value(digits: Seq<char>) -> nat
    decreases digits.len(),
{
    if digits.len() == 0 {
        0
    } else {
        (10 * digits_value(digits.drop_last()) + (digits.last() as u32 - 48)) as nat
    }
}

/// A number in decimal is made of digits, has no needless zero at the front, and is read
/// back as that number.
pub proof fn decimals_read_back(n: nat)
    ensures
        decimal(n).len() > 0,
        forall|i: int| 0 <= i < decimal(n).len() ==> 48 <= (#[trigger] decimal(n)[i]) as u32 <= 57,
        n > 0 ==> decimal(n)[0] as u32 != 48,
        n == 0 ==> decimal(n).len() == 1,
        digits_value(decimal(n)) == n,
    decreases n,
{
    reveal_with_fuel(digits_value, 2);
    if n < 10 {
        assert(decimal(n).drop_last() =~= Seq::empty());
        assert(decimal(n).last() as u32 == 48 + n);
    } else {
        decimals_read_back(n / 10);
        assert(decimal(n).drop_last() =~= decimal(n / 10));
        assert(decimal(n).last() as u32 == 48 + n % 10);
    }
}

/// Two numbers with the same decimal text are the same number.
pub proof fn decimals_tell_numbers_apart(a: nat, b: nat)
    requires
        decimal(a) == decimal(b),
    ensures
        a == b,
{
    decimals_read_back(a);
    decimals_read_back(b);
}

/// The first characters are the beginning of the text: all of it, or as many as asked
/// for.
pub proof fn first_chars_begin_the_text(text: Seq<char>, n: nat)
    ensures
        first_chars(text, n).len() == if text.len() < n {
            text.len()
        } else {
            n
        },
        exists|rest: Seq<char>| text == #[trigger] (first_chars(text, n) + rest),
{
    let rest = if text.len() <= n {
        Seq::empty()
    } else {
        text.skip(n as int)
    };
    assert(text =~= first_chars(text, n) + rest);
}

/// A result agrees with what is expected where both succeed with the same value or both
/// fail with the same characters.
pub proof fn agreement_is_exact<T>(value: T, wanted: T, message: String, expected: Seq<char>)
    ensures
        agrees(Ok(value), Ok(wanted)) <==> value == wanted,
        agrees(Err::<T, String>(message), Err(expected)) <==> message@ == expected,
        !agrees(Ok(value), Err(expected)),
        !agrees(Err(message), Ok(wanted)),
{
}

/// A millisecond is a million nanoseconds, and milliseconds add up.
pub proof fn milliseconds_add_up(a: nat, b: nat)
    ensures
        millis(0) == 0,
        millis(1) == 1_000_000,
        millis(1000) == 1_000_000_000,
        millis(a + b) == millis(a) + millis(b),
        millis(a) == a * 1_000_000,
{
}

/// What has passed between two readings brings the first to the second; nothing has
/// passed where the second is not the later one.
pub proof fn elapsed_time_joins_two_readings(earlier: TimePoint, later: TimePoint)
    ensures
        earlier.nanos <= later.nanos ==> earlier.nanos + elapsed_nanos(earlier, later)
            == later.nanos,
        later.nanos <= earlier.nanos ==> elapsed_nanos(earlier, later) == 0,
{
}

/// A JSON value has the content that it was made with.
pub proof fn values_have_their_content(
    flag: bool,
    text: String,
    unsigned: u64,
    negative: i64,
    decimal_number: String,
    items: Vec<JsonValue>,
    members: Vec<(String, JsonValue)>,
    i: int,
)
    ensures
        JsonValue::Null@ == Json::Null,
        JsonValue::Bool(flag)@ == Json::Bool(flag),
        JsonValue::Text(text)@ == Json::Text(text@),
        JsonValue::Number(JsonNumber::Unsigned(unsigned))@ == Json::Number(
            Numeral::Unsigned(unsigned),
        ),
        JsonValue::Number(JsonNumber::Negative(negative))@ == Json::Number(
            Numeral::Negative(negative),
        ),
        JsonValue::Number(JsonNumber::Decimal(decimal_number))@ == Json::Number(
            Numeral::Decimal(decimal_number@),
        ),
        JsonValue::Array(items)@ is Array,
        JsonValue::Array(items)@->Array_0.len() == items@.len(),
        0 <= i < items@.len() ==> JsonValue::Array(items)@->Array_0[i] == items@[i]@,
        JsonValue::Object(members)@ is Object,
        JsonValue::Object(members)@->Object_0.len() == members@.len(),
        0 <= i < members@.len() ==> JsonValue::Object(members)@->Object_0[i] == (
            members@[i].0@,
            members@[i].1@,
        ),
{
}

/// Each kind of value is read as what it is, and as nothing else.
pub proof fn values_are_read_by_kind(value: Json)
    ensures
        match value {
            Json::Text(text) => value.as_text() == Some(text),
            _ => value.as_text() is None,
        },
        match value {
            Json::Bool(flag) => value.as_truth() == Some(flag),
            _ => value.as_truth() is None,
        },
        match value {
            Json::Number(Numeral::Unsigned(n)) => value.as_unsigned() == Some(n),
            _ => value.as_unsigned() is None,
        },
        match value {
            Json::Number(Numeral::Unsigned(n)) => if n <= 0x7fff_ffff_ffff_ffff {
                value.as_signed() is Some && value.as_signed()->0 == n
            } else {
                value.as_signed() is None
            },
            Json::Number(Numeral::Negative(n)) => value.as_signed() == Some(n),
            _ => value.as_signed() is None,
        },
        match value {
            Json::Number(n) => value.as_numeral() == Some(n),
            _ => value.as_numeral() is None,
        },
        !(value is Object) ==> forall|key: Seq<char>| #[trigger] value.member(key) is None,
{
}

proof fn lemma_lookup_push(
    members: Seq<(Seq<char>, Json)>,
    key: Seq<char>,
    value: Json,
    asked: Seq<char>,
)
    ensures
        lookup(members.push((key, value)), asked) == match lookup(members, asked) {
            Some(found) => Some(found),
            None => if asked == key {
                Some(value)
            } else {
                None
            },
        },
    decreases members.len(),
{
    let more = members.push((key, value));
    if members.len() == 0 {
        assert(more.drop_first() =~= Seq::empty());
        assert(lookup(more.drop_first(), asked) is None);
    } else {
        assert(more[0] == members[0]);
        assert(more.drop_first() =~= members.drop_first().push((key, value)));
        lemma_lookup_push(members.drop_first(), key, value, asked);
    }
}

/// An object starts without members; a member that is put there is found under its
/// name, unless one of that name was there before, and no other member changes.
pub proof fn members_are_found_under_their_names(
    object: Json,
    key: Seq<char>,
    value: Json,
    asked: Seq<char>,
)
    requires
        object is Object,
    ensures
        Json::empty_object() is Object,
        Json::empty_object()->Object_0.len() == 0,
        Json::empty_object().member(asked) is None,
        object.with(key, value) is Object,
        object.with(key, value)->Object_0.len() == object->Object_0.len() + 1,
        object.with(key, value).member(asked) == match object.member(asked) {
            Some(found) => Some(found),
            None => if asked == key {
                Some(value)
            } else {
                None
            },
        },
{
    lemma_lookup_push(object->Object_0, key, value, asked);
}

/// What is found under a name was put there under it; where nothing is found, nothing
/// was.
pub proof fn found_members_are_the_first_of_their_name(
    members: Seq<(Seq<char>, Json)>,
    key: Seq<char>,
)
    ensures
        match Json::Object(members).member(key) {
            Some(value) => exists|i: int|
                0 <= i < members.len() && #[trigger] members[i] == (key, value) && forall|j: int|
                    0 <= j < i ==> (#[trigger] members[j]).0 != key,
            None => forall|i: int| 0 <= i < members.len() ==> (#[trigger] members[i]).0 != key,
        },
    decreases members.len(),
{
    if members.len() > 0 {
        let rest = members.drop_first();
        found_members_are_the_first_of_their_name(rest, key);
        if members[0].0 == key {
            assert(members[0] == (key, members[0].1));
        } else {
            match Json::Object(rest).member(key) {
                Some(value) => {
                    let i = choose|i: int|
                        0 <= i < rest.len() && #[trigger] rest[i] == (key, value) && forall|j: int|
                            0 <= j < i ==> (#[trigger] rest[j]).0 != key;
                    assert(members[i + 1] == (key, value));
                    assert forall|j: int| 0 <= j < i + 1 implies (#[trigger] members[j]).0
                        != key by {
                        if j > 0 {
                            assert(rest[j - 1] == members[j]);
                        }
                    }
                },
                None => {
                    assert forall|j: int| 0 <= j < members.len() implies (#[trigger] members[j]).0
                        != key by {
                        if j > 0 {
                            assert(rest[j - 1] == members[j]);
                        }
                    }
                },
            }
        }
    }
}

/// A text without quotation marks, backslashes and control characters stands as it is
/// between the quotation marks of its literal.
pub proof fn plain_texts_are_only_quoted(text: Seq<char>)
    requires
        forall|i: int|
            0 <= i < text.len() ==> #[trigger] text[i] >= ' ' && text[i] != '"' && text[i] != '\\',
    ensures
        quoted(text) == seq!['"'] + text + seq!['"'],
{
    lemma_plain_texts_are_not_escaped(text);
}

proof fn lemma_plain_characters_are_not_escaped(c: char)
    requires
        c >= ' ' && c != '"' && c != '\\',
    ensures
        escaped_char(c) == seq![c],
{
    assert(c as u32 >= 0x20);
}

proof fn lemma_plain_texts_are_not_escaped(text: Seq<char>)
    requires
        forall|i: int|
            0 <= i < text.len() ==> #[trigger] text[i] >= ' ' && text[i] != '"' && text[i] != '\\',
    ensures
        escaped(text) == text,
    decreases text.len(),
{
    if text.len() > 0 {
        let rest = text.drop_first();
        assert forall|i: int| 0 <= i < rest.len() implies #[trigger] rest[i] >= ' ' && rest[i]
            != '"' && rest[i] != '\\' by {
            assert(rest[i] == text[i + 1]);
        }
        lemma_plain_texts_are_not_escaped(rest);
        lemma_plain_characters_are_not_escaped(text[0]);
        assert(seq![text[0]] + rest =~= text);
    }
}

/// A member whose name no other has is found under it.
pub proof fn members_with_their_own_name_are_found(members: Seq<(Seq<char>, Json)>, i: int)
    requires
        0 <= i < members.len(),
        forall|j: int|
            0 <= j < members.len() && j != i ==> (#[trigger] members[j]).0 != members[i].0,
    ensures
        Json::Object(members).member(members[i].0) == Some(members[i].1),
{
    found_members_are_the_first_of_their_name(members, members[i].0);
}

/// An option is what stands under its name, and its default where nothing of its kind
/// stands there.
pub proof fn options_are_read_from_their_members(
    object: Json,
    key: Seq<char>,
    default: Seq<char>,
)
    ensures
        match object.member(key) {
            Some(Json::Text(text)) => text_option(object, key, default) == text,
            _ => text_option(object, key, default) == default,
        },
        flag_option(object, key) <==> object.member(key) == Some(Json::Bool(true)),
{
}

/// A number is taken as it is where it lies within its bounds, left at its default where
/// it is not given, and refused otherwise, with the reason.
pub proof fn numbers_are_held_to_their_bounds(
    value: Json,
    name: Seq<char>,
    lo: u32,
    hi: u32,
    default: u32,
)
    ensures
        bounded(None, name, lo, hi, default) == Ok::<u32, Seq<char>>(default),
        match value {
            Json::Number(Numeral::Unsigned(n)) => {
                &&& lo <= n <= hi ==> bounded(Some(value), name, lo, hi, default) is Ok && bounded(
                    Some(value),
                    name,
                    lo,
                    hi,
                    default,
                )->Ok_0 == n
                &&& n > 0xffff_ffff ==> bounded(Some(value), name, lo, hi, default) == Err::<
                    u32,
                    Seq<char>,
                >("cursor."@ + name + " is out of range"@)
                &&& n <= 0xffff_ffff && !(lo <= n <= hi) ==> bounded(
                    Some(value),
                    name,
                    lo,
                    hi,
                    default,
                ) == Err::<u32, Seq<char>>(
                    "cursor."@ + name + " must be between "@ + decimal(lo as nat) + " and "@
                        + decimal(hi as nat) + " (got "@ + decimal(n as nat) + ")"@,
                )
            },
            _ => bounded(Some(value), name, lo, hi, default) == Err::<u32, Seq<char>>(
                "cursor."@ + name + " must be a non-negative integer"@,
            ),
        },
{
}

/// A command says what it is told to say, to whom it is told to say it.
pub proof fn commands_carry_what_they_are_given(
    command: CdpCommand,
    method: Seq<char>,
    params: Json,
    session_id: Seq<char>,
)
    ensures
        command@.method == command.method@,
        command@.params == match command.params {
            Some(given) => Some(given@),
            None => None,
        },
        command@.session_id == match command.session_id {
            Some(given) => Some(given@),
            None => None,
        },
        session_command(method, params, session_id) == (Command {
            method,
            params: Some(params),
            session_id: Some(session_id),
        }),
        browser_command(method, params) == (Command {
            method,
            params: Some(params),
            session_id: None,
        }),
        bare_command(method, session_id) == (Command {
            method,
            params: None,
            session_id: Some(session_id),
        }),
{
}

proof fn lemma_command_names()
    ensures
        "expression"@ != "returnByValue"@,
        "expression"@ != "awaitPromise"@,
        "returnByValue"@ != "awaitPromise"@,
        "format"@ != "quality"@,
        "format"@ != "fromSurface"@,
        "quality"@ != "fromSurface"@,
{
    reveal_strlit("expression");
    reveal_strlit("returnByValue");
    reveal_strlit("awaitPromise");
    reveal_strlit("format");
    reveal_strlit("quality");
    reveal_strlit("fromSurface");
    assert("expression"@.len() == 10);
    assert("returnByValue"@.len() == 13);
    assert("awaitPromise"@.len() == 12);
    assert("format"@.len() == 6);
    assert("quality"@.len() == 7);
    assert("fromSurface"@.len() == 11);
}

/// A script is evaluated as it stands, in the session that it is meant for, with its value
/// handed back, and with or without waiting for a promise as told.
pub proof fn scripts_are_sent_as_they_stand(
    expression: Seq<char>,
    await_promise: bool,
    session_id: Seq<char>,
)
    ensures
        ({
            let plain = evaluate_by_value(expression, session_id);
            let waiting = evaluate_with_promise(expression, await_promise, session_id);
            &&& plain.method == "Runtime.evaluate"@
            &&& plain.session_id == Some(session_id)
            &&& plain.params is Some
            &&& plain.params->0->Object_0.len() == 2
            &&& plain.params->0.member("expression"@) == Some(Json::Text(expression))
            &&& plain.params->0.member("returnByValue"@) == Some(Json::Bool(true))
            &&& waiting.method == "Runtime.evaluate"@
            &&& waiting.session_id == Some(session_id)
            &&& waiting.params is Some
            &&& waiting.params->0->Object_0.len() == 3
            &&& waiting.params->0.member("expression"@) == Some(Json::Text(expression))
            &&& waiting.params->0.member("returnByValue"@) == Some(Json::Bool(true))
            &&& waiting.params->0.member("awaitPromise"@) == Some(Json::Bool(await_promise))
        }),
{
    lemma_command_names();
    let none = Json::empty_object();
    let one = none.with("expression"@, Json::Text(expression));
    let two = one.with("returnByValue"@, Json::Bool(true));
    let keys = seq!["expression"@, "returnByValue"@, "awaitPromise"@];
    assert forall|i: int| 0 <= i < 3 implies {
        &&& none.member(#[trigger] keys[i]) is None
        &&& one.member(keys[i]) == if keys[i] == "expression"@ {
            Some(Json::Text(expression))
        } else {
            None
        }
        &&& two.member(keys[i]) == if keys[i] == "expression"@ {
            Some(Json::Text(expression))
        } else if keys[i] == "returnByValue"@ {
            Some(Json::Bool(true))
        } else {
            None
        }
    } by {
        members_are_found_under_their_names(
            none,
            "expression"@,
            Json::Text(expression),
            keys[i],
        );
        members_are_found_under_their_names(one, "returnByValue"@, Json::Bool(true), keys[i]);
    }
    assert(keys[0] == "expression"@ && keys[1] == "returnByValue"@ && keys[2] == "awaitPromise"@);
    members_are_found_under_their_names(two, "awaitPromise"@, Json::Bool(await_promise), keys[0]);
    members_are_found_under_their_names(two, "awaitPromise"@, Json::Bool(await_promise), keys[1]);
    members_are_found_under_their_names(two, "awaitPromise"@, Json::Bool(await_promise), keys[2]);
}

/// A screenshot is a JPEG image of the asked quality, of the surface of the session.
pub proof fn screenshots_are_jpeg_images(quality: u64, session_id: Seq<char>)
    ensures
        ({
            let shot = jpeg_screenshot(quality, session_id);
            &&& shot.method == "Page.captureScreenshot"@
            &&& shot.session_id == Some(session_id)
            &&& shot.params is Some
            &&& shot.params->0->Object_0.len() == 3
            &&& shot.params->0.member("format"@) == Some(Json::Text("jpeg"@))
            &&& shot.params->0.member("quality"@) == Some(
                Json::Number(Numeral::Unsigned(quality)),
            )
            &&& shot.params->0.member("fromSurface"@) == Some(Json::Bool(true))
        }),
{
    lemma_command_names();
    let none = Json::empty_object();
    let format = Json::Text("jpeg"@);
    let number = Json::Number(Numeral::Unsigned(quality));
    let one = none.with("format"@, format);
    let two = one.with("quality"@, number);
    let keys = seq!["format"@, "quality"@, "fromSurface"@];
    assert forall|i: int| 0 <= i < 3 implies two.member(#[trigger] keys[i]) == if keys[i]
        == "format"@ {
        Some(format)
    } else if keys[i] == "quality"@ {
        Some(number)
    } else {
        None
    } by {
        members_are_found_under_their_names(none, "format"@, format, keys[i]);
        members_are_found_under_their_names(one, "quality"@, number, keys[i]);
    }
    assert(keys[0] == "format"@ && keys[1] == "quality"@ && keys[2] == "fromSurface"@);
    members_are_found_under_their_names(two, "fromSurface"@, Json::Bool(true), keys[0]);
    members_are_found_under_their_names(two, "fromSurface"@, Json::Bool(true), keys[1]);
    members_are_found_under_their_names(two, "fromSurface"@, Json::Bool(true), keys[2]);
}

/// An exception is told by its description, and by its short text where it has none.
pub proof fn exceptions_are_told_by_their_description(details: ExceptionDetails)
    ensures
        details.message() == match details.description {
            Some(description) => description@,
            None => details.text@,
        },
{
}

} // verus!
