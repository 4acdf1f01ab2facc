//! Content negotiation: the headers by which a client says what it sends and
//! what it wants back, and the shape of an answer under each preference.

use vstd::prelude::*;
use vstd::slice::slice_to_vec;
use vstd::string::StringExecFns;
use vstd::string::StringSliceAdditionalSpecFns;

use crate::error::{
    canonical_reason, spec_status_text, Actions, ActionsView, Error, ErrorBody, Report,
    BAD_REQUEST, INTERNAL_SERVER_ERROR,
};
use crate::octets::{bytes_are_text, bytes_eq, is_text};

verus! {

/// A header value that cannot be read as text.
#[derive(Clone, Copy, Debug, PartialEq, Eq, Structural)]
pub struct InvalidHeader;

/// Every value can be read as text.
pub open spec fn all_text(values: Seq<Vec<u8>>) -> bool {
    forall|i: int| 0 <= i < values.len() ==> is_text((#[trigger] values[i])@)
}

/// There is a value, and the last one is `word`.
pub open spec fn last_value_is(values: Seq<Vec<u8>>, word: Seq<u8>) -> bool {
    values.len() > 0 && values.last()@ == word
}

/// What a header that is decided by its last value comes to: unreadable where
/// any value is no text, else whether the last value is `word`.
pub open spec fn spec_last_word(values: Seq<Vec<u8>>, word: Seq<u8>) -> Result<
    bool,
    InvalidHeader,
> {
    if !all_text(values) {
        Err(InvalidHeader)
    } else {
        Ok(last_value_is(values, word))
    }
}

/// Reads a header that is decided by its last value.
pub fn last_word(values: &Vec<Vec<u8>>, word: &[u8]) -> (outcome: Result<bool, InvalidHeader>)
    ensures
        outcome == spec_last_word(values@, word@),
{
    let mut found = false;
    let mut i: usize = 0;
    while i < values.len()
        invariant
            0 <= i <= values@.len(),
            forall|j: int| 0 <= j < i ==> is_text((#[trigger] values@[j])@),
            found == (i > 0 && values@[i - 1]@ == word@),
        decreases values@.len() - i,
    {
        let value: &[u8] = values[i].as_slice();
        if !bytes_are_text(value) {
            proof {
                assert(!is_text(values@[i as int]@));
            }
            return Err(InvalidHeader);
        }
        found = bytes_eq(value, word);
        i += 1;
    }
    Ok(found)
}

/// The media type of a JSON document.
pub open spec fn json_media_type() -> Seq<u8> {
    "application/json".spec_bytes()
}

/// The media type of a page or a fragment of one.
pub open spec fn html_media_type() -> Seq<u8> {
    "text/html".spec_bytes()
}

/// The media type of a submitted form.
pub open spec fn form_media_type() -> Seq<u8> {
    "application/x-www-form-urlencoded".spec_bytes()
}

/// Whether `values` is `before` with one value more, `added`.
pub open spec fn appended(before: Seq<Vec<u8>>, values: Seq<Vec<u8>>, added: Seq<u8>) -> bool {
    &&& values.len() == before.len() + 1
    &&& values.subrange(0, before.len() as int) == before
    &&& values.last()@ == added
}

/// What the client wants back, as its `accept` header says.
#[derive(Clone, Copy, Debug, PartialEq, Eq, Structural)]
pub enum HtmlOrJsonHeader {
    Html,
    Json,
}

impl HtmlOrJsonHeader {
    /// JSON where the last value asks for exactly that, a page otherwise and
    /// by default.
    pub open spec fn spec_decode(values: Seq<Vec<u8>>) -> Result<HtmlOrJsonHeader, InvalidHeader> {
        match spec_last_word(values, json_media_type()) {
            Ok(true) => Ok(HtmlOrJsonHeader::Json),
            Ok(false) => Ok(HtmlOrJsonHeader::Html),
            Err(e) => Err(e),
        }
    }

    /// The media type that states a preference.
    pub open spec fn spec_media_type(self) -> Seq<u8> {
        match self {
            HtmlOrJsonHeader::Html => html_media_type(),
            HtmlOrJsonHeader::Json => json_media_type(),
        }
    }

    /// The header's name.
    pub fn name() -> (name: &'static str)
        ensures
            name@ == "accept"@,
    {
        "accept"
    }

    /// Reads the preference from the header's values, in the order they came.
    pub fn decode(values: &Vec<Vec<u8>>) -> (outcome: Result<HtmlOrJsonHeader, InvalidHeader>)
        ensures
            outcome == Self::spec_decode(values@),
    {
        match last_word(values, "application/json".as_bytes()) {
            Ok(true) => Ok(HtmlOrJsonHeader::Json),
            Ok(false) => Ok(HtmlOrJsonHeader::Html),
            Err(e) => Err(e),
        }
    }

    /// Appends the value that states this preference.
    pub fn encode(&self, values: &mut Vec<Vec<u8>>)
        ensures
            appended(old(values)@, final(values)@, self.spec_media_type()),
    {
        let value: Vec<u8> = match self {
            HtmlOrJsonHeader::Html => slice_to_vec("text/html".as_bytes()),
            HtmlOrJsonHeader::Json => slice_to_vec("application/json".as_bytes()),
        };
        values.push(value);
        proof {
            assert(final(values)@.subrange(0, old(values)@.len() as int) =~= old(values)@);
        }
    }
}

/// What the client sends, as its `content-type` header says.
#[derive(Clone, Copy, Debug, PartialEq, Eq, Structural)]
pub enum JsonOrFormHeader {
    Json,
    Form,
}

impl JsonOrFormHeader {
    /// JSON where the last value says exactly that, a form otherwise and by
    /// default.
    pub open spec fn spec_decode(values: Seq<Vec<u8>>) -> Result<JsonOrFormHeader, InvalidHeader> {
        match spec_last_word(values, json_media_type()) {
            Ok(true) => Ok(JsonOrFormHeader::Json),
            Ok(false) => Ok(JsonOrFormHeader::Form),
            Err(e) => Err(e),
        }
    }

    /// The media type that states a format.
    pub open spec fn spec_media_type(self) -> Seq<u8> {
        match self {
            JsonOrFormHeader::Form => form_media_type(),
            JsonOrFormHeader::Json => json_media_type(),
        }
    }

    /// The header's name.
    pub fn name() -> (name: &'static str)
        ensures
            name@ == "content-type"@,
    {
        "content-type"
    }

    /// Reads the format from the header's values, in the order they came.
    pub fn decode(values: &Vec<Vec<u8>>) -> (outcome: Result<JsonOrFormHeader, InvalidHeader>)
        ensures
            outcome == Self::spec_decode(values@),
    {
        match last_word(values, "application/json".as_bytes()) {
            Ok(true) => Ok(JsonOrFormHeader::Json),
            Ok(false) => Ok(JsonOrFormHeader::Form),
            Err(e) => Err(e),
        }
    }

    /// Appends the value that states this format.
    pub fn encode(&self, values: &mut Vec<Vec<u8>>)
        ensures
            appended(old(values)@, final(values)@, self.spec_media_type()),
    {
        let value: Vec<u8> = match self {
            JsonOrFormHeader::Form => slice_to_vec("application/x-www-form-urlencoded".as_bytes()),
            JsonOrFormHeader::Json => slice_to_vec("application/json".as_bytes()),
        };
        values.push(value);
        proof {
            assert(final(values)@.subrange(0, old(values)@.len() as int) =~= old(values)@);
        }
    }
}

/// Whether the page should reload, as the `hx-refresh` header says.
#[derive(Clone, Copy, Debug, PartialEq, Eq, Structural)]
pub struct HxRefresh(pub bool);

impl HxRefresh {
    /// The value that asks for a reload.
    pub open spec fn spec_true() -> Seq<u8> {
        "true".spec_bytes()
    }

    /// The header's name.
    pub fn name() -> (name: &'static str)
        ensures
            name@ == "hx-refresh"@,
    {
        "hx-refresh"
    }

    /// Reads the header: a reload exactly where the last value is `true`. No
    /// value is refused.
    pub fn decode(values: &Vec<Vec<u8>>) -> (outcome: Result<HxRefresh, InvalidHeader>)
        ensures
            outcome == Ok::<HxRefresh, InvalidHeader>(
                HxRefresh(last_value_is(values@, Self::spec_true())),
            ),
    {
        let n = values.len();
        if n == 0 {
            return Ok(HxRefresh(false));
        }
        Ok(HxRefresh(bytes_eq(values[n - 1].as_slice(), "true".as_bytes())))
    }

    /// Appends `true` where a reload is asked for, and nothing otherwise.
    pub fn encode(&self, values: &mut Vec<Vec<u8>>)
        ensures
            self.0 ==> appended(old(values)@, final(values)@, Self::spec_true()),
            !self.0 ==> final(values)@ == old(values)@,
    {
        if self.0 {
            values.push(slice_to_vec("true".as_bytes()));
            proof {
                assert(final(values)@.subrange(0, old(values)@.len() as int) =~= old(values)@);
            }
        }
    }
}

/// A request body that is read as JSON or as a form, as its content type says.
#[derive(Clone, Debug, PartialEq, Eq)]
pub struct JsonOrForm<T>(pub T);

/// The format in which a body is read: the one its content type states, and a
/// form where the header is absent or unreadable.
pub open spec fn spec_body_format(values: Seq<Vec<u8>>) -> JsonOrFormHeader {
    match JsonOrFormHeader::spec_decode(values) {
        Ok(format) => format,
        Err(_) => JsonOrFormHeader::Form,
    }
}

/// The description of a body that could not be read in a format.
pub open spec fn spec_unreadable_body(format: JsonOrFormHeader) -> Seq<char> {
    match format {
        JsonOrFormHeader::Json => "Failed to deserialize type to JSON"@,
        JsonOrFormHeader::Form => "Failed to deserialize type to Form"@,
    }
}

/// The format in which to read a body with these `content-type` values.
pub fn body_format(values: &Vec<Vec<u8>>) -> (format: JsonOrFormHeader)
    ensures
        format == spec_body_format(values@),
{
    match JsonOrFormHeader::decode(values) {
        Ok(format) => format,
        Err(_) => JsonOrFormHeader::Form,
    }
}

/// The error for a body that could not be read: status 400, the format's
/// description in front of the cause, acknowledgement as the only action.
pub fn unreadable_body(format: JsonOrFormHeader, cause: Report) -> (e: Error)
    ensures
        e.wraps(BAD_REQUEST, spec_unreadable_body(format), cause, ActionsView::plain()),
{
    let description: &'static str = match format {
        JsonOrFormHeader::Json => "Failed to deserialize type to JSON",
        JsonOrFormHeader::Form => "Failed to deserialize type to Form",
    };
    Error::wrapping(BAD_REQUEST, description, cause, Actions::default())
}

/// The fragment that clears an earlier failure from the page.
pub open spec fn spec_error_slot() -> Seq<char> {
    "<div id=\"error\" hx-swap-oob=\"true\"></div>"@
}

/// The page fragment of a success: the rendered template behind the fragment
/// that clears an earlier failure. A template that failed to render is an
/// error of status 500.
pub fn success_fragment(rendered: Result<String, Report>) -> (outcome: Result<String, Error>)
    ensures
        match rendered {
            Ok(page) => outcome is Ok && outcome->Ok_0@ == spec_error_slot() + page@,
            Err(cause) => outcome is Err && outcome->Err_0.wraps(
                INTERNAL_SERVER_ERROR,
                "Failed to render template"@,
                cause,
                ActionsView::plain(),
            ),
        },
{
    match rendered {
        Ok(page) => {
            let mut fragment: String = "<div id=\"error\" hx-swap-oob=\"true\"></div>".to_owned();
            fragment.append(page.as_str());
            Ok(fragment)
        },
        Err(cause) => Err(
            Error::wrapping(
                INTERNAL_SERVER_ERROR,
                "Failed to render template",
                cause,
                Actions::default(),
            ),
        ),
    }
}

/// What is sent for a failure.
#[derive(Clone, Debug, PartialEq, Eq)]
pub enum FailurePayload {
    /// The failure rendered as a fragment of a page.
    Fragment(String),
    /// The whole document, for a client that reads JSON.
    Document(ErrorBody),
}

/// The answer to a failed request.
#[derive(Clone, Debug, PartialEq, Eq)]
pub struct FailureResponse {
    pub status_code: u16,
    pub content_type: &'static str,
    pub payload: FailurePayload,
}

/// Shapes the answer to a failed request. The status is the error's under
/// either preference. A client that wants JSON receives the whole document; a
/// client that wants a page receives the rendered fragment alone.
pub fn negotiate_failure(preference: HtmlOrJsonHeader, error: Error, content: String) -> (response:
    FailureResponse)
    ensures
        response.status_code == error@.status_code,
        response.content_type.spec_bytes() == preference.spec_media_type(),
        match preference {
            HtmlOrJsonHeader::Html => response.payload is Fragment
                && response.payload->Fragment_0@ == content@,
            HtmlOrJsonHeader::Json => {
                &&& response.payload is Document
                &&& response.payload->Document_0.title@ == "Error"@
                &&& response.payload->Document_0.text@ == spec_status_text(
                    canonical_reason(error@.status_code),
                    error@.status_code,
                )
                &&& response.payload->Document_0.icon@ == "error"@
                &&& response.payload->Document_0.chain@ == error@.chain
                &&& response.payload->Document_0.spantrace@ == error@.spantrace
                &&& response.payload->Document_0.buttons@ == error@.actions
                &&& response.payload->Document_0.content@ == content@
            },
        },
{
    let status_code = error.status_code();
    let body = error.into_body(content);
    match preference {
        HtmlOrJsonHeader::Html => FailureResponse {
            status_code,
            content_type: "text/html",
            payload: FailurePayload::Fragment(body.content),
        },
        HtmlOrJsonHeader::Json => FailureResponse {
            status_code,
            content_type: "application/json",
            payload: FailurePayload::Document(body),
        },
    }
}

} // verus!
