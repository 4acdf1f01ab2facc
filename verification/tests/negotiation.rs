use request_identity::error::{Actions, Error, Failure, Report};
use request_identity::negotiate::{
    body_format, last_word, negotiate_failure, success_fragment, unreadable_body, FailurePayload,
    HtmlOrJsonHeader, HxRefresh, InvalidHeader, JsonOrForm, JsonOrFormHeader,
};
use request_identity::octets::{bytes_are_text, bytes_eq, prefix_eq_ignore_ascii_case, to_ascii_lower};

fn values(texts: &[&[u8]]) -> Vec<Vec<u8>> {
    texts.iter().map(|text| text.to_vec()).collect()
}

#[test]
fn page_is_preferred_by_default() {
    assert_eq!(HtmlOrJsonHeader::decode(&values(&[])), Ok(HtmlOrJsonHeader::Html));
}

#[test]
fn json_is_preferred_where_the_last_value_says_so() {
    assert_eq!(HtmlOrJsonHeader::decode(&values(&[b"application/json"])), Ok(HtmlOrJsonHeader::Json));
    assert_eq!(
        HtmlOrJsonHeader::decode(&values(&[b"text/html", b"application/json"])),
        Ok(HtmlOrJsonHeader::Json)
    );
    assert_eq!(
        HtmlOrJsonHeader::decode(&values(&[b"application/json", b"text/html"])),
        Ok(HtmlOrJsonHeader::Html)
    );
}

#[test]
fn json_is_asked_for_in_exactly_those_words() {
    for other in [
        &b"application/json; charset=utf-8"[..],
        b"Application/JSON",
        b"application/json ",
        b"*/*",
        b"",
        b"text/html",
    ] {
        assert_eq!(HtmlOrJsonHeader::decode(&values(&[other])), Ok(HtmlOrJsonHeader::Html));
    }
}

#[test]
fn accept_value_that_is_no_text_is_refused() {
    assert_eq!(HtmlOrJsonHeader::decode(&values(&[b"text/\xfahtml"])), Err(InvalidHeader));
    assert_eq!(
        HtmlOrJsonHeader::decode(&values(&[b"caf\xc3\xa9", b"application/json"])),
        Err(InvalidHeader)
    );
    assert_eq!(
        HtmlOrJsonHeader::decode(&values(&[b"application/json", b"\x7f"])),
        Err(InvalidHeader)
    );
    assert_eq!(HtmlOrJsonHeader::decode(&values(&[b"a\tb"])), Ok(HtmlOrJsonHeader::Html));
}

#[test]
fn preference_is_written_as_its_media_type() {
    let mut out = values(&[b"kept"]);
    HtmlOrJsonHeader::Html.encode(&mut out);
    HtmlOrJsonHeader::Json.encode(&mut out);
    assert_eq!(out, values(&[b"kept", b"text/html", b"application/json"]));
    assert_eq!(HtmlOrJsonHeader::name(), "accept");
}

#[test]
fn written_preference_is_read_back() {
    for preference in [HtmlOrJsonHeader::Html, HtmlOrJsonHeader::Json] {
        let mut out = Vec::new();
        preference.encode(&mut out);
        assert_eq!(HtmlOrJsonHeader::decode(&out), Ok(preference));
    }
}

#[test]
fn form_is_the_default_format() {
    assert_eq!(JsonOrFormHeader::decode(&values(&[])), Ok(JsonOrFormHeader::Form));
    assert_eq!(
        JsonOrFormHeader::decode(&values(&[b"application/x-www-form-urlencoded"])),
        Ok(JsonOrFormHeader::Form)
    );
    assert_eq!(JsonOrFormHeader::decode(&values(&[b"application/json"])), Ok(JsonOrFormHeader::Json));
    assert_eq!(
        JsonOrFormHeader::decode(&values(&[b"application/json", b"multipart/form-data"])),
        Ok(JsonOrFormHeader::Form)
    );
    assert_eq!(JsonOrFormHeader::decode(&values(&[b"\xff"])), Err(InvalidHeader));
    assert_eq!(JsonOrFormHeader::name(), "content-type");
}

#[test]
fn format_is_written_as_its_media_type() {
    let mut out = Vec::new();
    JsonOrFormHeader::Form.encode(&mut out);
    JsonOrFormHeader::Json.encode(&mut out);
    assert_eq!(out, values(&[b"application/x-www-form-urlencoded", b"application/json"]));
}

#[test]
fn body_is_read_as_a_form_where_the_header_is_unreadable() {
    assert_eq!(body_format(&values(&[b"\xff"])), JsonOrFormHeader::Form);
    assert_eq!(body_format(&values(&[])), JsonOrFormHeader::Form);
    assert_eq!(body_format(&values(&[b"application/json"])), JsonOrFormHeader::Json);
    assert_eq!(JsonOrForm(5).0, 5);
}

#[test]
fn unreadable_body_is_a_bad_request() {
    let error = unreadable_body(JsonOrFormHeader::Json, Report::msg("EOF".to_owned()));
    assert_eq!(error.status_code(), 400);
    assert_eq!(
        error.chain(),
        &vec!["Failed to deserialize type to JSON".to_owned(), "EOF".to_owned()]
    );
    assert_eq!(error.actions(), Actions::default());
    let error = unreadable_body(JsonOrFormHeader::Form, Report::msg("EOF".to_owned()));
    assert_eq!(error.chain()[0], "Failed to deserialize type to Form");
}

#[test]
fn reload_is_asked_for_by_the_last_value() {
    assert_eq!(HxRefresh::decode(&values(&[])), Ok(HxRefresh(false)));
    assert_eq!(HxRefresh::decode(&values(&[b"true"])), Ok(HxRefresh(true)));
    assert_eq!(HxRefresh::decode(&values(&[b"true", b"false"])), Ok(HxRefresh(false)));
    assert_eq!(HxRefresh::decode(&values(&[b"false", b"true"])), Ok(HxRefresh(true)));
    assert_eq!(HxRefresh::decode(&values(&[b"TRUE"])), Ok(HxRefresh(false)));
    assert_eq!(HxRefresh::decode(&values(&[b"\xff"])), Ok(HxRefresh(false)));
    assert_eq!(HxRefresh::name(), "hx-refresh");
}

#[test]
fn reload_is_written_only_where_asked_for() {
    let mut out = values(&[b"kept"]);
    HxRefresh(false).encode(&mut out);
    assert_eq!(out, values(&[b"kept"]));
    HxRefresh(true).encode(&mut out);
    assert_eq!(out, values(&[b"kept", b"true"]));
}

#[test]
fn last_word_reads_the_last_value_only() {
    assert_eq!(last_word(&values(&[b"x", b"y"]), b"y"), Ok(true));
    assert_eq!(last_word(&values(&[b"y", b"x"]), b"y"), Ok(false));
    assert_eq!(last_word(&values(&[]), b""), Ok(false));
    assert_eq!(last_word(&values(&[b""]), b""), Ok(true));
    assert_eq!(last_word(&values(&[b"\x00", b"y"]), b"y"), Err(InvalidHeader));
}

#[test]
fn failure_for_a_page_is_the_fragment_alone() {
    let error = Error::from_failure(Failure::Unauthorized, false, Report::msg("root".to_owned()));
    let response = negotiate_failure(HtmlOrJsonHeader::Html, error, "<p>no</p>".to_owned());
    assert_eq!(response.status_code, 401);
    assert_eq!(response.content_type, "text/html");
    assert_eq!(response.payload, FailurePayload::Fragment("<p>no</p>".to_owned()));
}

#[test]
fn failure_for_json_is_the_whole_document() {
    let error = Error::from_failure(Failure::Unauthorized, false, Report::msg("root".to_owned()));
    let response = negotiate_failure(HtmlOrJsonHeader::Json, error, "<p>no</p>".to_owned());
    assert_eq!(response.status_code, 401);
    assert_eq!(response.content_type, "application/json");
    match response.payload {
        FailurePayload::Document(body) => {
            assert_eq!(body.title, "Error");
            assert_eq!(body.text, "Unauthorized");
            assert_eq!(body.icon, "error");
            assert_eq!(body.chain, vec!["Passwords didn't match".to_owned(), "root".to_owned()]);
            assert!(body.spantrace.is_empty());
            assert_eq!(body.buttons.sign_out, Some("Sign out"));
            assert!(body.buttons.ok);
            assert_eq!(body.content, "<p>no</p>");
        }
        FailurePayload::Fragment(_) => panic!("a document was asked for"),
    }
}

#[test]
fn rendered_page_follows_the_slot_that_clears_the_last_failure() {
    let page = success_fragment(Ok("<ul></ul>".to_owned())).expect("rendered");
    assert_eq!(page, "<div id=\"error\" hx-swap-oob=\"true\"></div><ul></ul>");
    let empty = success_fragment(Ok(String::new())).expect("rendered");
    assert_eq!(empty, "<div id=\"error\" hx-swap-oob=\"true\"></div>");
}

#[test]
fn template_that_did_not_render_is_a_server_error() {
    let error = success_fragment(Err(Report::msg("missing field".to_owned()))).expect_err("failed");
    assert_eq!(error.status_code(), 500);
    assert_eq!(
        error.chain(),
        &vec!["Failed to render template".to_owned(), "missing field".to_owned()]
    );
    assert_eq!(error.actions(), Actions::default());
}

#[test]
fn text_is_printable_ascii_and_tab() {
    assert!(bytes_are_text(b""));
    assert!(bytes_are_text(b" ~\t"));
    assert!(!bytes_are_text(b"\x1f"));
    assert!(!bytes_are_text(b"\x7f"));
    assert!(!bytes_are_text(b"ok\x80"));
    assert!(!bytes_are_text(b"\n"));
}

#[test]
fn bytes_are_compared_exactly_or_without_case() {
    assert!(bytes_eq(b"abc", b"abc"));
    assert!(bytes_eq(b"", b""));
    assert!(!bytes_eq(b"abc", b"abd"));
    assert!(!bytes_eq(b"abc", b"ab"));
    assert!(!bytes_eq(b"abc", b"ABC"));
    assert!(prefix_eq_ignore_ascii_case(b"BASIC rest", b"basic"));
    assert!(prefix_eq_ignore_ascii_case(b"anything", b""));
    assert!(!prefix_eq_ignore_ascii_case(b"Bas", b"Basic"));
    assert!(!prefix_eq_ignore_ascii_case(b"Basix", b"Basic"));
    // '@' and '`' sit next to the letters and are not letters
    assert!(!prefix_eq_ignore_ascii_case(b"@", b"`"));
    assert!(!prefix_eq_ignore_ascii_case(b"[", b"{"));
    assert_eq!(to_ascii_lower(b'A'), b'a');
    assert_eq!(to_ascii_lower(b'Z'), b'z');
    assert_eq!(to_ascii_lower(b'a'), b'a');
    assert_eq!(to_ascii_lower(b'@'), b'@');
    assert_eq!(to_ascii_lower(b'['), b'[');
    assert_eq!(to_ascii_lower(0xc9), 0xc9);
}
