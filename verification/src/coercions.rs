//! Content types and the codecs that go with them.
//!
//! A request names the format of its body and the format it wants back. The
//! five formats are handled by the `serde` codecs; this module selects among
//! them and turns their failures into coercion failures. The text formats are
//! read and written in UTF-8. The XML codec is offered for text alone: for
//! other types it may not return.

use crate::errors::FunctionError;
use crate::text::read_utf8;
use crate::text::utf8_text;
use vstd::prelude::*;

verus! {

/// The canonical name of the JSON format.
pub const JSON_TYPE: &'static str = "application/json";

/// The canonical name of the YAML format.
pub const YAML_TYPE: &'static str = "text/yaml";

/// Another name of the YAML format.
pub const YAML_TYPE_ALT: &'static str = "application/yaml";

/// The canonical name of the XML format.
pub const XML_TYPE: &'static str = "application/xml";

/// Another name of the XML format.
pub const XML_TYPE_ALT: &'static str = "text/xml";

/// The canonical name of plain text.
pub const PLAIN_TYPE: &'static str = "text/plain";

/// The canonical name of the form format.
pub const FORM_TYPE: &'static str = "application/x-www-form-urlencoded";

/// The formats that the kit can decode and encode.
#[derive(Clone, Copy, Debug, PartialEq, Eq, Structural)]
pub enum ContentType {
    JSON,
    YAML,
    XML,
    Plain,
    URLEncoded,
}

impl ContentType {
    /// The format that a content type names. A name that is not known means
    /// JSON.
    pub open spec fn named(s: Seq<char>) -> ContentType {
        if s == JSON_TYPE@ {
            ContentType::JSON
        } else if s == YAML_TYPE@ || s == YAML_TYPE_ALT@ {
            ContentType::YAML
        } else if s == XML_TYPE_ALT@ || s == XML_TYPE@ {
            ContentType::XML
        } else if s == PLAIN_TYPE@ {
            ContentType::Plain
        } else if s == FORM_TYPE@ {
            ContentType::URLEncoded
        } else {
            ContentType::JSON
        }
    }

    /// The canonical name of the format.
    pub open spec fn canonical_name(self) -> Seq<char> {
        match self {
            ContentType::JSON => JSON_TYPE@,
            ContentType::YAML => YAML_TYPE@,
            ContentType::XML => XML_TYPE@,
            ContentType::Plain => PLAIN_TYPE@,
            ContentType::URLEncoded => FORM_TYPE@,
        }
    }

    /// Reads a content type. YAML and XML have two names each; an unknown name
    /// means JSON.
    pub fn from_str(s: &str) -> (r: Self)
        ensures
            r == Self::named(s@),
    {
        if *s == *JSON_TYPE {
            ContentType::JSON
        } else if *s == *YAML_TYPE || *s == *YAML_TYPE_ALT {
            ContentType::YAML
        } else if *s == *XML_TYPE_ALT || *s == *XML_TYPE {
            ContentType::XML
        } else if *s == *PLAIN_TYPE {
            ContentType::Plain
        } else if *s == *FORM_TYPE {
            ContentType::URLEncoded
        } else {
            ContentType::JSON
        }
    }

    /// The canonical name of the format, as a header carries it.
    pub fn as_header_value(&self) -> (r: String)
        ensures
            r@ == self.canonical_name(),
    {
        match self {
            ContentType::JSON => JSON_TYPE.to_owned(),
            ContentType::YAML => YAML_TYPE.to_owned(),
            ContentType::XML => XML_TYPE.to_owned(),
            ContentType::Plain => PLAIN_TYPE.to_owned(),
            ContentType::URLEncoded => FORM_TYPE.to_owned(),
        }
    }
}

/// The canonical name of a format names that format.
pub proof fn lemma_canonical_name_read_back(t: ContentType)
    ensures
        ContentType::named(t.canonical_name()) == t,
{
    reveal_strlit("application/json");
    reveal_strlit("text/yaml");
    reveal_strlit("application/yaml");
    reveal_strlit("application/xml");
    reveal_strlit("text/xml");
    reveal_strlit("text/plain");
    reveal_strlit("application/x-www-form-urlencoded");
    assert(JSON_TYPE@.len() == 16);
    assert(YAML_TYPE@.len() == 9);
    assert(YAML_TYPE_ALT@.len() == 16);
    assert(XML_TYPE@.len() == 15);
    assert(XML_TYPE_ALT@.len() == 8);
    assert(PLAIN_TYPE@.len() == 10);
    assert(FORM_TYPE@.len() == 33);
    assert(JSON_TYPE@[12] == 'j');
    assert(YAML_TYPE_ALT@[12] == 'y');
}

/// A type whose values can be read from the body of a request, in each of the
/// five formats. A failure to decode is a coercion failure.
///
/// A type may say in `decodes_to` what its decoders make of a body, and in
/// `reads` on which bodies they are bound to succeed. A type that says
/// nothing, because it leaves the work to a codec it cannot speak for, lets
/// `decodes_to` hold of everything and `reads` of nothing.
pub trait InputCoercible: Sized {
    /// Whether the type is bound to decode `input` in `format`.
    open spec fn reads(format: ContentType, input: Seq<u8>) -> bool {
        false
    }

    /// Whether `value` is something that `input` may decode to in `format`.
    open spec fn decodes_to(format: ContentType, input: Seq<u8>, value: Self) -> bool {
        true
    }

    fn try_decode_plain(input: Vec<u8>) -> (r: Result<Self, FunctionError>)
        ensures
            r is Err ==> r->Err_0 is Coercion,
            r is Ok ==> Self::decodes_to(ContentType::Plain, input@, r->Ok_0),
            Self::reads(ContentType::Plain, input@) ==> r is Ok,
    ;

    fn try_decode_json(input: Vec<u8>) -> (r: Result<Self, FunctionError>)
        ensures
            r is Err ==> r->Err_0 is Coercion,
            r is Ok ==> Self::decodes_to(ContentType::JSON, input@, r->Ok_0),
            Self::reads(ContentType::JSON, input@) ==> r is Ok,
    ;

    fn try_decode_xml(input: Vec<u8>) -> (r: Result<Self, FunctionError>)
        ensures
            r is Err ==> r->Err_0 is Coercion,
            r is Ok ==> Self::decodes_to(ContentType::XML, input@, r->Ok_0),
            Self::reads(ContentType::XML, input@) ==> r is Ok,
    ;

    fn try_decode_yaml(input: Vec<u8>) -> (r: Result<Self, FunctionError>)
        ensures
            r is Err ==> r->Err_0 is Coercion,
            r is Ok ==> Self::decodes_to(ContentType::YAML, input@, r->Ok_0),
            Self::reads(ContentType::YAML, input@) ==> r is Ok,
    ;

    fn try_decode_urlencoded(input: Vec<u8>) -> (r: Result<Self, FunctionError>)
        ensures
            r is Err ==> r->Err_0 is Coercion,
            r is Ok ==> Self::decodes_to(ContentType::URLEncoded, input@, r->Ok_0),
            Self::reads(ContentType::URLEncoded, input@) ==> r is Ok,
    ;
}

/// A type whose values can be written as the body of a response, in each of
/// the five formats. A failure to encode is a coercion failure.
///
/// A type may say in `encodes_to` what its encoders write for a value, and in
/// `writes` for which values they are bound to succeed. A type that says
/// nothing, because it leaves the work to a codec it cannot speak for, lets
/// `encodes_to` hold of everything and `writes` of nothing.
pub trait OutputCoercible: Sized {
    /// Whether the type is bound to encode `self` in `format`.
    open spec fn writes(self, format: ContentType) -> bool {
        false
    }

    /// Whether `output` is something that `self` may encode to in `format`.
    open spec fn encodes_to(self, format: ContentType, output: Seq<u8>) -> bool {
        true
    }

    fn try_encode_json(self) -> (r: Result<Vec<u8>, FunctionError>)
        ensures
            r is Err ==> r->Err_0 is Coercion,
            r is Ok ==> self.encodes_to(ContentType::JSON, r->Ok_0@),
            self.writes(ContentType::JSON) ==> r is Ok,
    ;

    fn try_encode_xml(self) -> (r: Result<Vec<u8>, FunctionError>)
        ensures
            r is Err ==> r->Err_0 is Coercion,
            r is Ok ==> self.encodes_to(ContentType::XML, r->Ok_0@),
            self.writes(ContentType::XML) ==> r is Ok,
    ;

    fn try_encode_yaml(self) -> (r: Result<Vec<u8>, FunctionError>)
        ensures
            r is Err ==> r->Err_0 is Coercion,
            r is Ok ==> self.encodes_to(ContentType::YAML, r->Ok_0@),
            self.writes(ContentType::YAML) ==> r is Ok,
    ;

    fn try_encode_plain(self) -> (r: Result<Vec<u8>, FunctionError>)
        ensures
            r is Err ==> r->Err_0 is Coercion,
            r is Ok ==> self.encodes_to(ContentType::Plain, r->Ok_0@),
            self.writes(ContentType::Plain) ==> r is Ok,
    ;

    fn try_encode_urlencoded(self) -> (r: Result<Vec<u8>, FunctionError>)
        ensures
            r is Err ==> r->Err_0 is Coercion,
            r is Ok ==> self.encodes_to(ContentType::URLEncoded, r->Ok_0@),
            self.writes(ContentType::URLEncoded) ==> r is Ok,
    ;
}

/// `serde_json::Error`, opaque to the verifier.
#[verifier::external_type_specification]
#[verifier::external_body]
pub struct ExJsonError(serde_json::Error);

/// `serde_yaml::Error`, opaque to the verifier.
#[verifier::external_type_specification]
#[verifier::external_body]
pub struct ExYamlError(serde_yaml::Error);

/// `serde_xml_rs::Error`, opaque to the verifier.
#[verifier::external_type_specification]
#[verifier::external_body]
pub struct ExXmlError(serde_xml_rs::Error);

/// `serde_plain::Error`, opaque to the verifier.
#[verifier::external_type_specification]
#[verifier::external_body]
pub struct ExPlainError(serde_plain::Error);

/// `serde_urlencoded::de::Error`, opaque to the verifier.
#[verifier::external_type_specification]
#[verifier::external_body]
pub struct ExFormDecodeError(serde_urlencoded::de::Error);

/// `serde_urlencoded::ser::Error`, opaque to the verifier.
#[verifier::external_type_specification]
#[verifier::external_body]
pub struct ExFormEncodeError(serde_urlencoded::ser::Error);

/// `serde_json::from_slice`. What it makes of the bytes is the codec's affair.
#[verifier::external_body]
fn json_from_slice<T: serde::de::DeserializeOwned>(input: &[u8]) -> (r: Result<T, serde_json::Error>)
{
    serde_json::from_slice(input)
}

/// `serde_yaml::from_slice`. What it makes of the bytes is the codec's affair.
#[verifier::external_body]
fn yaml_from_slice<T: serde::de::DeserializeOwned>(input: &[u8]) -> (r: Result<T, serde_yaml::Error>)
{
    serde_yaml::from_slice(input)
}

/// `serde_xml_rs::from_str`, for text alone: the codec is sure to return for
/// text, but not for every type. What it makes of the input is its affair.
#[verifier::external_body]
fn xml_from_str(input: &str) -> (r: Result<String, serde_xml_rs::Error>)
{
    serde_xml_rs::from_str::<String>(input)
}

/// `serde_plain::from_str`. What it makes of the text is the codec's affair.
#[verifier::external_body]
fn plain_from_str<T: serde::de::DeserializeOwned>(input: &str) -> (r: Result<T, serde_plain::Error>)
{
    serde_plain::from_str(input)
}

/// `serde_urlencoded::from_str`. What it makes of the text is the codec's
/// affair.
#[verifier::external_body]
fn form_from_str<T: serde::de::DeserializeOwned>(input: &str) -> (r: Result<
    T,
    serde_urlencoded::de::Error,
>)
{
    serde_urlencoded::from_str(input)
}

/// `serde_json::to_vec`. What it writes is the codec's affair.
#[verifier::external_body]
fn json_to_vec<T: serde::Serialize>(value: &T) -> (r: Result<Vec<u8>, serde_json::Error>)
{
    serde_json::to_vec(value)
}

/// `serde_yaml::to_vec`. What it writes is the codec's affair.
#[verifier::external_body]
fn yaml_to_vec<T: serde::Serialize>(value: &T) -> (r: Result<Vec<u8>, serde_yaml::Error>)
{
    serde_yaml::to_vec(value)
}

/// `serde_xml_rs::to_string`, for text alone: the codec is sure to return for
/// text, but not for every type. What it writes is its affair.
#[verifier::external_body]
fn xml_to_string(value: &String) -> (r: Result<String, serde_xml_rs::Error>)
{
    serde_xml_rs::to_string(value)
}

/// `serde_plain::to_string`. What it writes is the codec's affair.
#[verifier::external_body]
fn plain_to_string<T: serde::Serialize>(value: &T) -> (r: Result<String, serde_plain::Error>)
{
    serde_plain::to_string(value)
}

/// `serde_urlencoded::to_string`. What it writes is the codec's affair.
#[verifier::external_body]
fn form_to_string<T: serde::Serialize>(value: &T) -> (r: Result<String, serde_urlencoded::ser::Error>)
{
    serde_urlencoded::to_string(value)
}

/// What a codec's outcome becomes: a value stays, and a failure becomes a
/// coercion failure that carries what the codec's error says of itself.
pub open spec fn coerces<T, E: core::fmt::Display>(
    outcome: Result<T, E>,
    r: Result<T, FunctionError>,
) -> bool {
    match outcome {
        Ok(value) => r == Ok::<T, FunctionError>(value),
        Err(e) => r matches Err(FunctionError::Coercion { inner })
            && vstd::string::to_string_from_display_ensures::<E>(&e, inner),
    }
}

/// What the outcome of a codec that writes text becomes: the text is written
/// in UTF-8, and a failure becomes a coercion failure that carries what the
/// codec's error says of itself.
pub open spec fn coerces_text<E: core::fmt::Display>(
    outcome: Result<String, E>,
    r: Result<Vec<u8>, FunctionError>,
) -> bool {
    match outcome {
        Ok(text) => r matches Ok(bytes) && bytes@ == vstd::utf8::encode_utf8(text@),
        Err(e) => r matches Err(FunctionError::Coercion { inner })
            && vstd::string::to_string_from_display_ensures::<E>(&e, inner),
    }
}

/// The outcome of a coercion, from the outcome of a codec: a value stays, a
/// failure becomes a coercion failure that carries the codec's message.
pub fn coerced<T>(outcome: Result<T, String>) -> (r: Result<T, FunctionError>)
    ensures
        outcome matches Ok(value) ==> r == Ok::<T, FunctionError>(value),
        outcome matches Err(message) ==> r == Err::<T, FunctionError>(
            FunctionError::Coercion { inner: message },
        ),
{
    match outcome {
        Ok(value) => Ok(value),
        Err(message) => Err(FunctionError::Coercion { inner: message }),
    }
}

/// The outcome of writing a text format, from the outcome of its codec: the
/// text is written in UTF-8.
pub fn coerced_text(outcome: Result<String, String>) -> (r: Result<Vec<u8>, FunctionError>)
    ensures
        outcome matches Ok(text) ==> r matches Ok(bytes) && bytes@ == vstd::utf8::encode_utf8(
            text@,
        ),
        outcome matches Err(message) ==> r == Err::<Vec<u8>, FunctionError>(
            FunctionError::Coercion { inner: message },
        ),
{
    match outcome {
        Ok(text) => Ok(text.as_str().as_bytes_vec()),
        Err(message) => Err(FunctionError::Coercion { inner: message }),
    }
}

/// Whether `outcome` is something that the JSON codec can make of the
/// bytes `input`.
pub closed spec fn json_reading<T: serde::de::DeserializeOwned>(
    input: Seq<u8>,
    outcome: Result<T, serde_json::Error>,
) -> bool {
    exists|bytes: &[u8]| bytes@ == input && #[trigger] call_ensures(json_from_slice::<T>, (bytes,), outcome)
}

/// Decodes a value from JSON: the codec is handed the bytes as they are, and
/// its outcome becomes the outcome of the coercion.
pub fn decode_json<T: serde::de::DeserializeOwned>(input: Vec<u8>) -> (r: Result<T, FunctionError>)
    ensures
        exists|outcome: Result<T, serde_json::Error>|
            #[trigger] json_reading::<T>(input@, outcome) && coerces(outcome, r),
        r is Err ==> r->Err_0 is Coercion,
{
    let bytes = input.as_slice();
    let outcome = json_from_slice::<T>(bytes);
    let ghost seen = outcome;
    assert(json_reading::<T>(input@, seen));
    coerced(
        match outcome {
            Ok(value) => Ok(value),
            Err(e) => Err(e.to_string()),
        },
    )
}

/// Whether `outcome` is something that the YAML codec can make of the
/// bytes `input`.
pub closed spec fn yaml_reading<T: serde::de::DeserializeOwned>(
    input: Seq<u8>,
    outcome: Result<T, serde_yaml::Error>,
) -> bool {
    exists|bytes: &[u8]| bytes@ == input && #[trigger] call_ensures(yaml_from_slice::<T>, (bytes,), outcome)
}

/// Decodes a value from YAML: the codec is handed the bytes as they are, and
/// its outcome becomes the outcome of the coercion.
pub fn decode_yaml<T: serde::de::DeserializeOwned>(input: Vec<u8>) -> (r: Result<T, FunctionError>)
    ensures
        exists|outcome: Result<T, serde_yaml::Error>|
            #[trigger] yaml_reading::<T>(input@, outcome) && coerces(outcome, r),
        r is Err ==> r->Err_0 is Coercion,
{
    let bytes = input.as_slice();
    let outcome = yaml_from_slice::<T>(bytes);
    let ghost seen = outcome;
    assert(yaml_reading::<T>(input@, seen));
    coerced(
        match outcome {
            Ok(value) => Ok(value),
            Err(e) => Err(e.to_string()),
        },
    )
}

/// Whether `outcome` is something that the codec of XML can make of the
/// text that the bytes `input` encode in UTF-8.
pub closed spec fn xml_reading(
    input: Seq<u8>,
    outcome: Result<String, serde_xml_rs::Error>,
) -> bool {
    exists|text: &str|
        vstd::utf8::encode_utf8(text@) == input && #[trigger] call_ensures(
            xml_from_str,
            (text,),
            outcome,
        )
}

/// Decodes a text from XML: the bytes are read as UTF-8, the codec is handed
/// the text, and its outcome becomes the outcome of the coercion. Bytes that
/// are no UTF-8 are a coercion failure.
pub fn decode_xml(input: Vec<u8>) -> (r: Result<String, FunctionError>)
    ensures
        utf8_text(input@).is_some() ==> exists|outcome: Result<String, serde_xml_rs::Error>|
            #[trigger] xml_reading(input@, outcome) && coerces(outcome, r),
        utf8_text(input@).is_none() ==> r is Err,
        r is Err ==> r->Err_0 is Coercion,
{
    match read_utf8(input.as_slice()) {
        Ok(text) => {
            let handed = text.as_str();
            let outcome = xml_from_str(handed);
            let ghost seen = outcome;
            assert(xml_reading(input@, seen));
            coerced(
                match outcome {
                    Ok(value) => Ok(value),
                    Err(e) => Err(e.to_string()),
                },
            )
        },
        Err(message) => coerced(Err(message)),
    }
}

/// Whether `outcome` is something that the codec of plain text can make of the
/// text that the bytes `input` encode in UTF-8.
pub closed spec fn plain_reading<T: serde::de::DeserializeOwned>(
    input: Seq<u8>,
    outcome: Result<T, serde_plain::Error>,
) -> bool {
    exists|text: &str|
        vstd::utf8::encode_utf8(text@) == input && #[trigger] call_ensures(
            plain_from_str::<T>,
            (text,),
            outcome,
        )
}

/// Decodes a value from plain text: the bytes are read as UTF-8, the codec is handed
/// the text, and its outcome becomes the outcome of the coercion. Bytes that
/// are no UTF-8 are a coercion failure.
pub fn decode_plain<T: serde::de::DeserializeOwned>(input: Vec<u8>) -> (r: Result<T, FunctionError>)
    ensures
        utf8_text(input@).is_some() ==> exists|outcome: Result<T, serde_plain::Error>|
            #[trigger] plain_reading::<T>(input@, outcome) && coerces(outcome, r),
        utf8_text(input@).is_none() ==> r is Err,
        r is Err ==> r->Err_0 is Coercion,
{
    match read_utf8(input.as_slice()) {
        Ok(text) => {
            let handed = text.as_str();
            let outcome = plain_from_str::<T>(handed);
            let ghost seen = outcome;
            assert(plain_reading::<T>(input@, seen));
            coerced(
                match outcome {
                    Ok(value) => Ok(value),
                    Err(e) => Err(e.to_string()),
                },
            )
        },
        Err(message) => coerced(Err(message)),
    }
}

/// Whether `outcome` is something that the codec of form data can make of the
/// text that the bytes `input` encode in UTF-8.
pub closed spec fn urlencoded_reading<T: serde::de::DeserializeOwned>(
    input: Seq<u8>,
    outcome: Result<T, serde_urlencoded::de::Error>,
) -> bool {
    exists|text: &str|
        vstd::utf8::encode_utf8(text@) == input && #[trigger] call_ensures(
            form_from_str::<T>,
            (text,),
            outcome,
        )
}

/// Decodes a value from form data: the bytes are read as UTF-8, the codec is handed
/// the text, and its outcome becomes the outcome of the coercion. Bytes that
/// are no UTF-8 are a coercion failure.
pub fn decode_urlencoded<T: serde::de::DeserializeOwned>(input: Vec<u8>) -> (r: Result<T, FunctionError>)
    ensures
        utf8_text(input@).is_some() ==> exists|outcome: Result<T, serde_urlencoded::de::Error>|
            #[trigger] urlencoded_reading::<T>(input@, outcome) && coerces(outcome, r),
        utf8_text(input@).is_none() ==> r is Err,
        r is Err ==> r->Err_0 is Coercion,
{
    match read_utf8(input.as_slice()) {
        Ok(text) => {
            let handed = text.as_str();
            let outcome = form_from_str::<T>(handed);
            let ghost seen = outcome;
            assert(urlencoded_reading::<T>(input@, seen));
            coerced(
                match outcome {
                    Ok(value) => Ok(value),
                    Err(e) => Err(e.to_string()),
                },
            )
        },
        Err(message) => coerced(Err(message)),
    }
}

/// Whether `outcome` is something that the codec of JSON can write for
/// `value`.
pub closed spec fn json_writing<T: serde::Serialize>(value: T, outcome: Result<Vec<u8>, serde_json::Error>) -> bool {
    call_ensures(json_to_vec::<T>, (&value,), outcome)
}

/// Encodes a value as JSON: what the codec writes is the encoding.
pub fn encode_json<T: serde::Serialize>(value: &T) -> (r: Result<Vec<u8>, FunctionError>)
    ensures
        exists|outcome: Result<Vec<u8>, serde_json::Error>|
            #[trigger] json_writing::<T>(*value, outcome) && coerces(outcome, r),
        r is Err ==> r->Err_0 is Coercion,
{
    let outcome = json_to_vec(value);
    let ghost seen = outcome;
    assert(json_writing::<T>(*value, seen));
    coerced(
        match outcome {
            Ok(bytes) => Ok(bytes),
            Err(e) => Err(e.to_string()),
        },
    )
}

/// Whether `outcome` is something that the codec of YAML can write for
/// `value`.
pub closed spec fn yaml_writing<T: serde::Serialize>(value: T, outcome: Result<Vec<u8>, serde_yaml::Error>) -> bool {
    call_ensures(yaml_to_vec::<T>, (&value,), outcome)
}

/// Encodes a value as YAML: what the codec writes is the encoding.
pub fn encode_yaml<T: serde::Serialize>(value: &T) -> (r: Result<Vec<u8>, FunctionError>)
    ensures
        exists|outcome: Result<Vec<u8>, serde_yaml::Error>|
            #[trigger] yaml_writing::<T>(*value, outcome) && coerces(outcome, r),
        r is Err ==> r->Err_0 is Coercion,
{
    let outcome = yaml_to_vec(value);
    let ghost seen = outcome;
    assert(yaml_writing::<T>(*value, seen));
    coerced(
        match outcome {
            Ok(bytes) => Ok(bytes),
            Err(e) => Err(e.to_string()),
        },
    )
}

/// Whether `outcome` is something that the codec of XML can write for
/// `value`.
pub closed spec fn xml_writing(value: String, outcome: Result<String, serde_xml_rs::Error>) -> bool {
    call_ensures(xml_to_string, (&value,), outcome)
}

/// Encodes a text as XML: the text that the codec writes is written in
/// UTF-8.
pub fn encode_xml(value: &String) -> (r: Result<Vec<u8>, FunctionError>)
    ensures
        exists|outcome: Result<String, serde_xml_rs::Error>|
            #[trigger] xml_writing(*value, outcome) && coerces_text(outcome, r),
        r is Err ==> r->Err_0 is Coercion,
{
    let outcome = xml_to_string(value);
    let ghost seen = outcome;
    assert(xml_writing(*value, seen));
    coerced_text(
        match outcome {
            Ok(text) => Ok(text),
            Err(e) => Err(e.to_string()),
        },
    )
}

/// Whether `outcome` is something that the codec of plain text can write for
/// `value`.
pub closed spec fn plain_writing<T: serde::Serialize>(value: T, outcome: Result<String, serde_plain::Error>) -> bool {
    call_ensures(plain_to_string::<T>, (&value,), outcome)
}

/// Encodes a value as plain text: the text that the codec writes is written in
/// UTF-8.
pub fn encode_plain<T: serde::Serialize>(value: &T) -> (r: Result<Vec<u8>, FunctionError>)
    ensures
        exists|outcome: Result<String, serde_plain::Error>|
            #[trigger] plain_writing::<T>(*value, outcome) && coerces_text(outcome, r),
        r is Err ==> r->Err_0 is Coercion,
{
    let outcome = plain_to_string(value);
    let ghost seen = outcome;
    assert(plain_writing::<T>(*value, seen));
    coerced_text(
        match outcome {
            Ok(text) => Ok(text),
            Err(e) => Err(e.to_string()),
        },
    )
}

/// Whether `outcome` is something that the codec of form data can write for
/// `value`.
pub closed spec fn urlencoded_writing<T: serde::Serialize>(value: T, outcome: Result<String, serde_urlencoded::ser::Error>) -> bool {
    call_ensures(form_to_string::<T>, (&value,), outcome)
}

/// Encodes a value as form data: the text that the codec writes is written in
/// UTF-8.
pub fn encode_urlencoded<T: serde::Serialize>(value: &T) -> (r: Result<Vec<u8>, FunctionError>)
    ensures
        exists|outcome: Result<String, serde_urlencoded::ser::Error>|
            #[trigger] urlencoded_writing::<T>(*value, outcome) && coerces_text(outcome, r),
        r is Err ==> r->Err_0 is Coercion,
{
    let outcome = form_to_string(value);
    let ghost seen = outcome;
    assert(urlencoded_writing::<T>(*value, seen));
    coerced_text(
        match outcome {
            Ok(text) => Ok(text),
            Err(e) => Err(e.to_string()),
        },
    )
}

/// Text is decoded by the codec of the format: a text is what a body decodes
/// to if the codec can make it of the body.
impl InputCoercible for String {
    open spec fn decodes_to(format: ContentType, input: Seq<u8>, value: Self) -> bool {
        match format {
            ContentType::JSON => json_reading::<String>(
                input,
                Ok::<String, serde_json::Error>(value),
            ),
            ContentType::YAML => yaml_reading::<String>(
                input,
                Ok::<String, serde_yaml::Error>(value),
            ),
            ContentType::XML => xml_reading(input, Ok::<String, serde_xml_rs::Error>(value)),
            ContentType::Plain => plain_reading::<String>(
                input,
                Ok::<String, serde_plain::Error>(value),
            ),
            ContentType::URLEncoded => urlencoded_reading::<String>(
                input,
                Ok::<String, serde_urlencoded::de::Error>(value),
            ),
        }
    }

    fn try_decode_plain(input: Vec<u8>) -> (r: Result<Self, FunctionError>)
        ensures
            utf8_text(input@).is_some() ==> exists|outcome: Result<String, serde_plain::Error>|
                #[trigger] plain_reading::<String>(input@, outcome) && coerces(outcome, r),
            utf8_text(input@).is_none() ==> r is Err,
    {
        decode_plain::<String>(input)
    }

    fn try_decode_json(input: Vec<u8>) -> (r: Result<Self, FunctionError>)
        ensures
            exists|outcome: Result<String, serde_json::Error>|
                #[trigger] json_reading::<String>(input@, outcome) && coerces(outcome, r),
    {
        decode_json::<String>(input)
    }

    fn try_decode_xml(input: Vec<u8>) -> (r: Result<Self, FunctionError>)
        ensures
            utf8_text(input@).is_some() ==> exists|outcome: Result<String, serde_xml_rs::Error>|
                #[trigger] xml_reading(input@, outcome) && coerces(outcome, r),
            utf8_text(input@).is_none() ==> r is Err,
    {
        decode_xml(input)
    }

    fn try_decode_yaml(input: Vec<u8>) -> (r: Result<Self, FunctionError>)
        ensures
            exists|outcome: Result<String, serde_yaml::Error>|
                #[trigger] yaml_reading::<String>(input@, outcome) && coerces(outcome, r),
    {
        decode_yaml::<String>(input)
    }

    fn try_decode_urlencoded(input: Vec<u8>) -> (r: Result<Self, FunctionError>)
        ensures
            utf8_text(input@).is_some() ==> exists|outcome: Result<String, serde_urlencoded::de::Error>|
                #[trigger] urlencoded_reading::<String>(input@, outcome) && coerces(outcome, r),
            utf8_text(input@).is_none() ==> r is Err,
    {
        decode_urlencoded::<String>(input)
    }
}

/// Text is encoded by the codec of the format: some bytes are what a text
/// encodes to if the codec can write them for the text.
impl OutputCoercible for String {
    open spec fn encodes_to(self, format: ContentType, output: Seq<u8>) -> bool {
        match format {
            ContentType::JSON => exists|bytes: Vec<u8>|
                bytes@ == output && #[trigger] json_writing::<String>(
                    self,
                    Ok::<Vec<u8>, serde_json::Error>(bytes),
                ),
            ContentType::YAML => exists|bytes: Vec<u8>|
                bytes@ == output && #[trigger] yaml_writing::<String>(
                    self,
                    Ok::<Vec<u8>, serde_yaml::Error>(bytes),
                ),
            ContentType::XML => exists|text: String|
                vstd::utf8::encode_utf8(text@) == output && #[trigger] xml_writing(
                    self,
                    Ok::<String, serde_xml_rs::Error>(text),
                ),
            ContentType::Plain => exists|text: String|
                vstd::utf8::encode_utf8(text@) == output && #[trigger] plain_writing::<String>(
                    self,
                    Ok::<String, serde_plain::Error>(text),
                ),
            ContentType::URLEncoded => exists|text: String|
                vstd::utf8::encode_utf8(text@) == output && #[trigger] urlencoded_writing::<
                    String,
                >(self, Ok::<String, serde_urlencoded::ser::Error>(text)),
        }
    }

    fn try_encode_json(self) -> (r: Result<Vec<u8>, FunctionError>)
        ensures
            exists|outcome: Result<Vec<u8>, serde_json::Error>|
                #[trigger] json_writing::<String>(self, outcome) && coerces(outcome, r),
    {
        let r = encode_json::<String>(&self);
        proof {
            let outcome = choose|outcome: Result<Vec<u8>, serde_json::Error>|
                #[trigger] json_writing::<String>(self, outcome) && coerces(outcome, r);
            if r is Ok {
                assert(outcome is Ok);
                assert(json_writing::<String>(self, Ok::<Vec<u8>, serde_json::Error>(outcome->Ok_0)));
            }
        }
        r
    }

    fn try_encode_xml(self) -> (r: Result<Vec<u8>, FunctionError>)
        ensures
            exists|outcome: Result<String, serde_xml_rs::Error>|
                #[trigger] xml_writing(self, outcome) && coerces_text(outcome, r),
    {
        let r = encode_xml(&self);
        proof {
            let outcome = choose|outcome: Result<String, serde_xml_rs::Error>|
                #[trigger] xml_writing(self, outcome) && coerces_text(outcome, r);
            if r is Ok {
                assert(outcome is Ok);
                assert(xml_writing(self, Ok::<String, serde_xml_rs::Error>(outcome->Ok_0)));
            }
        }
        r
    }

    fn try_encode_yaml(self) -> (r: Result<Vec<u8>, FunctionError>)
        ensures
            exists|outcome: Result<Vec<u8>, serde_yaml::Error>|
                #[trigger] yaml_writing::<String>(self, outcome) && coerces(outcome, r),
    {
        let r = encode_yaml::<String>(&self);
        proof {
            let outcome = choose|outcome: Result<Vec<u8>, serde_yaml::Error>|
                #[trigger] yaml_writing::<String>(self, outcome) && coerces(outcome, r);
            if r is Ok {
                assert(outcome is Ok);
                assert(yaml_writing::<String>(self, Ok::<Vec<u8>, serde_yaml::Error>(outcome->Ok_0)));
            }
        }
        r
    }

    fn try_encode_plain(self) -> (r: Result<Vec<u8>, FunctionError>)
        ensures
            exists|outcome: Result<String, serde_plain::Error>|
                #[trigger] plain_writing::<String>(self, outcome) && coerces_text(outcome, r),
    {
        let r = encode_plain::<String>(&self);
        proof {
            let outcome = choose|outcome: Result<String, serde_plain::Error>|
                #[trigger] plain_writing::<String>(self, outcome) && coerces_text(outcome, r);
            if r is Ok {
                assert(outcome is Ok);
                assert(plain_writing::<String>(self, Ok::<String, serde_plain::Error>(outcome->Ok_0)));
            }
        }
        r
    }

    fn try_encode_urlencoded(self) -> (r: Result<Vec<u8>, FunctionError>)
        ensures
            exists|outcome: Result<String, serde_urlencoded::ser::Error>|
                #[trigger] urlencoded_writing::<String>(self, outcome) && coerces_text(outcome, r),
    {
        let r = encode_urlencoded::<String>(&self);
        proof {
            let outcome = choose|outcome: Result<String, serde_urlencoded::ser::Error>|
                #[trigger] urlencoded_writing::<String>(self, outcome) && coerces_text(outcome, r);
            if r is Ok {
                assert(outcome is Ok);
                assert(urlencoded_writing::<String>(self, Ok::<String, serde_urlencoded::ser::Error>(outcome->Ok_0)));
            }
        }
        r
    }
}

/// Raw bytes are their own encoding in every format.
impl InputCoercible for Vec<u8> {
    open spec fn reads(format: ContentType, input: Seq<u8>) -> bool {
        true
    }

    open spec fn decodes_to(format: ContentType, input: Seq<u8>, value: Self) -> bool {
        value@ == input
    }

    fn try_decode_plain(input: Vec<u8>) -> (r: Result<Self, FunctionError>) {
        Ok(input)
    }

    fn try_decode_json(input: Vec<u8>) -> (r: Result<Self, FunctionError>) {
        Ok(input)
    }

    fn try_decode_xml(input: Vec<u8>) -> (r: Result<Self, FunctionError>) {
        Ok(input)
    }

    fn try_decode_yaml(input: Vec<u8>) -> (r: Result<Self, FunctionError>) {
        Ok(input)
    }

    fn try_decode_urlencoded(input: Vec<u8>) -> (r: Result<Self, FunctionError>) {
        Ok(input)
    }
}

/// Raw bytes are their own encoding in every format.
impl OutputCoercible for Vec<u8> {
    open spec fn writes(self, format: ContentType) -> bool {
        true
    }

    open spec fn encodes_to(self, format: ContentType, output: Seq<u8>) -> bool {
        output == self@
    }

    fn try_encode_json(self) -> (r: Result<Vec<u8>, FunctionError>) {
        Ok(self)
    }

    fn try_encode_xml(self) -> (r: Result<Vec<u8>, FunctionError>) {
        Ok(self)
    }

    fn try_encode_yaml(self) -> (r: Result<Vec<u8>, FunctionError>) {
        Ok(self)
    }

    fn try_encode_plain(self) -> (r: Result<Vec<u8>, FunctionError>) {
        Ok(self)
    }

    fn try_encode_urlencoded(self) -> (r: Result<Vec<u8>, FunctionError>) {
        Ok(self)
    }
}

/// Raw bytes come back as they went out, in every format: what decodes from
/// the encoding of some bytes is those bytes.
pub proof fn lemma_raw_bytes_round_trip(
    format: ContentType,
    value: Vec<u8>,
    encoded: Seq<u8>,
    decoded: Vec<u8>,
)
    requires
        value.encodes_to(format, encoded),
        <Vec<u8> as InputCoercible>::decodes_to(format, encoded, decoded),
    ensures
        decoded@ == value@,
        value.writes(format),
        <Vec<u8> as InputCoercible>::reads(format, encoded),
{
}

} // verus!
