//! Serialisation of the objects that callers store with `push_data`.
//!
//! An object is written as a JSON object with its fields in the order the
//! caller enumerated them. Fields of a type the writer does not handle leave
//! no entry, and no separator either, so the text is always JSON.
use std::string::FromUtf8Error;
use vstd::prelude::*;
use vstd::utf8::{decode_utf8, encode_utf8, valid_utf8};

verus! {

#[verifier::external_type_specification]
#[verifier::external_body]
pub struct ExJsonValue(serde_json::Value);

#[verifier::external_type_specification]
#[verifier::external_body]
pub struct ExJsonError(serde_json::Error);

#[verifier::external_type_specification]
#[verifier::external_body]
pub struct ExFromUtf8Error(FromUtf8Error);

/// The value read from one field of a script object. The reader tries the
/// types in the order of the variants and keeps the first that fits.
pub enum FieldValue {
    /// A string.
    Text(String),
    /// A number read as an unsigned 32-bit integer.
    Unsigned(u32),
    /// A number read as a signed 32-bit integer.
    Signed(i32),
    /// A binary buffer.
    Bytes(Vec<u8>),
    /// `null`.
    Null,
    /// `undefined`.
    Undefined,
    /// Any other kind of value (booleans, arrays, nested objects, ...).
    Other,
}

/// One field of a script object: its key and what was read from it.
pub struct ObjectField {
    pub key: String,
    pub value: FieldValue,
}

/// The object to convert.
pub enum ObjectConvert {
    /// A script object, given as its fields in enumeration order.
    Obj(Vec<ObjectField>),
    /// A value that already converted to JSON.
    Val(serde_json::Value),
}

/// Why a conversion failed.
#[derive(PartialEq, Eq, Structural, Debug, Clone, Copy)]
pub enum ConvertError {
    /// A buffer field could not be written as a JSON string.
    Serialize,
}

/// The lower-case hexadecimal digit of `d` (below 16).
pub open spec fn hex_digit(d: nat) -> char {
    if d < 10 {
        (48 + d) as char
    } else {
        (87 + d) as char
    }
}

/// How a JSON string writes one character: `"` and `\` behind a backslash,
/// the control characters with a short escape where JSON has one and as
/// `\u00XX` otherwise, every other character as it is.
pub open spec fn json_escaped_char(c: char) -> Seq<char> {
    if c == '"' {
        seq!['\\', '"']
    } else if c == '\\' {
        seq!['\\', '\\']
    } else if c == '\x08' {
        seq!['\\', 'b']
    } else if c == '\t' {
        seq!['\\', 't']
    } else if c == '\n' {
        seq!['\\', 'n']
    } else if c == '\x0c' {
        seq!['\\', 'f']
    } else if c == '\r' {
        seq!['\\', 'r']
    } else if (c as u32) < 32 {
        seq!['\\', 'u', '0', '0', hex_digit((c as u32 / 16) as nat), hex_digit((c as u32 % 16) as nat)]
    } else {
        seq![c]
    }
}

/// The characters of `text`, each written as in a JSON string.
pub open spec fn json_escaped(text: Seq<char>) -> Seq<char>
    decreases text.len(),
{
    if text.len() == 0 {
        Seq::empty()
    } else {
        json_escaped(text.drop_last()) + json_escaped_char(text.last())
    }
}

/// The JSON string literal of `text`.
pub open spec fn json_string_literal(text: Seq<char>) -> Seq<char> {
    seq!['"'] + json_escaped(text) + seq!['"']
}

/// The text `serde_json` writes for a JSON value (its `Display` form).
pub uninterp spec fn json_text(value: serde_json::Value) -> Seq<char>;

/// `serde_json::to_string` on a `String`: the string's JSON literal. It
/// writes into a vector, which cannot fail, so it always succeeds.
#[verifier::external_body]
fn quote_json_string(text: &String) -> (res: Result<String, serde_json::Error>)
    ensures
        res is Ok,
        res matches Ok(quoted) ==> quoted@ == json_string_literal(text@),
{
    serde_json::to_string(text)
}

/// `serde_json::Value::to_string`: the value's JSON text.
#[verifier::external_body]
fn json_value_text(value: &serde_json::Value) -> (res: String)
    ensures
        res@ == json_text(*value),
{
    value.to_string()
}

/// The value `serde_json::from_slice` parses from the bytes, or `Null` (the
/// value's default) when they do not parse.
pub uninterp spec fn json_read(bytes: Seq<u8>) -> serde_json::Value;

/// The JSON array of the given values, in order.
pub uninterp spec fn json_array(items: Seq<serde_json::Value>) -> serde_json::Value;

/// `serde_json::from_slice::<Value>`, with `Null` for bytes that do not parse.
#[verifier::external_body]
pub(crate) fn json_from_slice_or_null(bytes: &[u8]) -> (value: serde_json::Value)
    ensures
        value == json_read(bytes@),
{
    serde_json::from_slice::<serde_json::Value>(bytes).unwrap_or_default()
}

/// `serde_json::Value::Array`: the array of the given values.
#[verifier::external_body]
pub(crate) fn json_array_from(items: Vec<serde_json::Value>) -> (value: serde_json::Value)
    ensures
        value == json_array(items@),
{
    serde_json::Value::Array(items)
}

/// `String::from_utf8`: succeeds exactly on valid UTF-8 and then holds the
/// decoded characters.
#[verifier::external_body]
fn string_from_utf8(bytes: Vec<u8>) -> (res: Result<String, FromUtf8Error>)
    ensures
        res is Ok <==> valid_utf8(bytes@),
        res matches Ok(s) ==> s@ == decode_utf8(bytes@),
{
    String::from_utf8(bytes)
}

/// The ASCII decimal digits of `n`.
pub open spec fn decimal(n: nat) -> Seq<u8>
    decreases n,
{
    if n < 10 {
        seq![(48 + n) as u8]
    } else {
        decimal(n / 10) + seq![(48 + n % 10) as u8]
    }
}

/// The ASCII decimal text of `i`, with a leading `-` when negative.
pub open spec fn signed_decimal(i: int) -> Seq<u8> {
    if i < 0 {
        seq![45u8] + decimal((-i) as nat)
    } else {
        decimal(i as nat)
    }
}

/// `text` between double quotes.
pub open spec fn in_quotes(text: Seq<u8>) -> Seq<u8> {
    seq![34u8] + text + seq![34u8]
}

/// The characters of a buffer read as UTF-8, or nothing when it is not UTF-8.
pub open spec fn buffer_text(bytes: Seq<u8>) -> Seq<char> {
    if valid_utf8(bytes) {
        decode_utf8(bytes)
    } else {
        Seq::empty()
    }
}

/// The text written for one field, without its separator.
pub open spec fn field_entry(field: ObjectField) -> Seq<u8> {
    let prefix = in_quotes(encode_utf8(field.key@)) + seq![58u8];
    match field.value {
        FieldValue::Text(s) => prefix + in_quotes(encode_utf8(s@)),
        FieldValue::Unsigned(n) => prefix + in_quotes(decimal(n as nat)),
        FieldValue::Signed(n) => prefix + in_quotes(signed_decimal(n as int)),
        FieldValue::Bytes(b) => prefix + encode_utf8(
            json_string_literal(buffer_text(b@)),
        ),
        FieldValue::Null => prefix + seq![110u8, 117u8, 108u8, 108u8],
        FieldValue::Undefined => Seq::empty(),
        FieldValue::Other => Seq::empty(),
    }
}

/// Whether a field is written: `undefined` and unsupported values are left
/// out.
pub open spec fn field_emits(value: FieldValue) -> bool {
    !(value is Undefined) && !(value is Other)
}

/// The text of the first `n` fields: the entries of the fields that are
/// written, separated by commas.
pub open spec fn fields_text(fields: Seq<ObjectField>, n: int) -> Seq<u8>
    decreases n,
{
    if n <= 0 {
        Seq::empty()
    } else {
        let before = fields_text(fields, n - 1);
        if !field_emits(fields[n - 1].value) {
            before
        } else if before.len() == 0 {
            field_entry(fields[n - 1])
        } else {
            before + seq![44u8] + field_entry(fields[n - 1])
        }
    }
}

/// The text of a whole object: its fields between braces.
pub open spec fn object_text(fields: Seq<ObjectField>) -> Seq<u8> {
    seq![123u8] + fields_text(fields, fields.len() as int) + seq![125u8]
}

/// The bytes `object_to_u8` gives for a conversion that succeeds.
pub open spec fn converted_bytes(obj: ObjectConvert) -> Seq<u8> {
    match obj {
        ObjectConvert::Val(v) => encode_utf8(json_text(v)),
        ObjectConvert::Obj(fields) => object_text(fields@),
    }
}

/// Appends `bytes` to `out`.
fn append_bytes(out: &mut Vec<u8>, bytes: &[u8])
    ensures
        final(out)@ == old(out)@ + bytes@,
{
    let n = bytes.len();
    let mut i: usize = 0;
    while i < n
        invariant
            n == bytes@.len(),
            i <= n,
            out@ == old(out)@ + bytes@.subrange(0, i as int),
        decreases n - i,
    {
        out.push(bytes[i]);
        i = i + 1;
        assert(out@ =~= old(out)@ + bytes@.subrange(0, i as int));
    }
    assert(bytes@.subrange(0, n as int) =~= bytes@);
}

/// Appends the UTF-8 bytes of `s` to `out`.
fn append_str(out: &mut Vec<u8>, s: &str)
    ensures
        final(out)@ == old(out)@ + encode_utf8(s@),
{
    append_bytes(out, s.as_bytes());
}

/// Appends the decimal digits of `n` to `out`.
fn append_decimal(out: &mut Vec<u8>, n: u64)
    ensures
        final(out)@ == old(out)@ + decimal(n as nat),
    decreases n,
{
    if n >= 10 {
        append_decimal(out, n / 10);
    }
    out.push((48 + n % 10) as u8);
    proof {
        if n >= 10 {
            assert(decimal(n as nat) == decimal((n / 10) as nat) + seq![(48 + n % 10) as u8]);
        } else {
            assert(decimal(n as nat) == seq![(48 + n) as u8]);
        }
    }
    assert(out@ =~= old(out)@ + decimal(n as nat));
}

/// Appends the signed decimal text of `n` to `out`.
fn append_signed_decimal(out: &mut Vec<u8>, n: i32)
    ensures
        final(out)@ == old(out)@ + signed_decimal(n as int),
{
    if n < 0 {
        out.push(45u8);
        let magnitude: i64 = -(n as i64);
        append_decimal(out, magnitude as u64);
        assert(out@ =~= old(out)@ + signed_decimal(n as int));
    } else {
        append_decimal(out, n as u64);
    }
}

/// Appends `"key":` to `out`.
fn append_key(out: &mut Vec<u8>, key: &String)
    ensures
        final(out)@ == old(out)@ + in_quotes(encode_utf8(key@)) + seq![58u8],
{
    out.push(34u8);
    append_str(out, key.as_str());
    out.push(34u8);
    out.push(58u8);
    assert(out@ =~= old(out)@ + in_quotes(encode_utf8(key@)) + seq![58u8]);
}

/// Appends the entry of one field.
fn append_field(out: &mut Vec<u8>, field: &ObjectField) -> (res: Result<(), ConvertError>)
    ensures
        res is Ok,
        final(out)@ == old(out)@ + field_entry(*field),
{
    match &field.value {
        FieldValue::Text(s) => {
            append_key(out, &field.key);
            out.push(34u8);
            append_str(out, s.as_str());
            out.push(34u8);
            assert(out@ =~= old(out)@ + field_entry(*field));
            Ok(())
        },
        FieldValue::Unsigned(n) => {
            append_key(out, &field.key);
            out.push(34u8);
            append_decimal(out, *n as u64);
            out.push(34u8);
            assert(out@ =~= old(out)@ + field_entry(*field));
            Ok(())
        },
        FieldValue::Signed(n) => {
            append_key(out, &field.key);
            out.push(34u8);
            append_signed_decimal(out, *n);
            out.push(34u8);
            assert(out@ =~= old(out)@ + field_entry(*field));
            Ok(())
        },
        FieldValue::Bytes(b) => {
            let text = match string_from_utf8(b.clone()) {
                Ok(s) => s,
                Err(_) => String::new(),
            };
            assert(text@ == buffer_text(b@));
            match quote_json_string(&text) {
                Ok(quoted) => {
                    append_key(out, &field.key);
                    append_str(out, quoted.as_str());
                    assert(out@ =~= old(out)@ + field_entry(*field));
                    Ok(())
                },
                Err(_) => Err(ConvertError::Serialize),
            }
        },
        FieldValue::Null => {
            append_key(out, &field.key);
            out.push(110u8);
            out.push(117u8);
            out.push(108u8);
            out.push(108u8);
            assert(out@ =~= old(out)@ + field_entry(*field));
            Ok(())
        },
        FieldValue::Undefined => {
            assert(out@ =~= old(out)@ + field_entry(*field));
            Ok(())
        },
        FieldValue::Other => {
            assert(out@ =~= old(out)@ + field_entry(*field));
            Ok(())
        },
    }
}

/// Converts an object to the bytes that are stored for it: a JSON value is
/// written as its JSON text; a script object as `{"key":value,...}` where
/// strings and numbers are written quoted, buffers as JSON strings of their
/// UTF-8 text, `null` as `null`, and other values are left out.
pub fn object_to_u8(obj: ObjectConvert) -> (res: Result<Vec<u8>, ConvertError>)
    ensures
        res matches Ok(bytes) && bytes@ == converted_bytes(obj),
{
    match obj {
        ObjectConvert::Val(v) => {
            let text = json_value_text(&v);
            let mut ss: Vec<u8> = Vec::new();
            append_str(&mut ss, text.as_str());
            assert(ss@ =~= converted_bytes(ObjectConvert::Val(v)));
            Ok(ss)
        },
        ObjectConvert::Obj(fields) => {
            let mut ss: Vec<u8> = Vec::new();
            ss.push(123u8);
            let n = fields.len();
            let mut i: usize = 0;
            let mut wrote = false;
            while i < n
                invariant
                    n == fields@.len(),
                    i <= n,
                    obj == ObjectConvert::Obj(fields),
                    ss@ == seq![123u8] + fields_text(fields@, i as int),
                    wrote == (fields_text(fields@, i as int).len() > 0),
                decreases n - i,
            {
                let emits = match &fields[i].value {
                    FieldValue::Undefined => false,
                    FieldValue::Other => false,
                    _ => true,
                };
                if emits && wrote {
                    ss.push(44u8);
                }
                match append_field(&mut ss, &fields[i]) {
                    Ok(()) => {},
                    Err(e) => {
                        return Err(e);
                    },
                }
                if emits {
                    wrote = true;
                    assert(field_entry(fields@[i as int]).len() > 0);
                }
                assert(ss@ =~= seq![123u8] + fields_text(fields@, i + 1));
                i = i + 1;
            }
            ss.push(125u8);
            assert(ss@ =~= object_text(fields@));
            Ok(ss)
        },
    }
}

} // verus!
