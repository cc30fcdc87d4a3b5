//! The fixed responses the redirect-capture server can give: the static
//! pages, a JSON body, a not-found page, and the internal-error page that
//! carries an error's message to the (localhost) browser.
use vstd::prelude::*;
use vstd::string::StringExecFns;

use crate::errors::{spec_chained_message, spec_message, AuthError};
use crate::ext::{json_str_of, json_string};

verus! {

/// The page served at `/`: its script fetches `/auth_detail.json` and
/// navigates the browser to the URL it returns.
pub const REDIRECT_WITH_AUTH_JSON: &'static str = r##"<!doctype html>
<html lang="en">
<head><meta charset="utf-8"></head>
<body>
    <script>
    function writemsg(m) {
        document.body.appendChild(document.createTextNode(m.toString()));
        document.body.appendChild(document.createElement('br'));
    }
    function go() {
        writemsg('Retrieving details of authenticator...');
        fetch('/auth_detail.json').then(function (response) {
            if (!response.ok) {
                throw 'Error during retrieval - ' + response.status + ': ' + response.statusText;
            }
            writemsg('Using details to redirect to authentication page...');
            return response.json()
        }).then(function (auth_url) {
            window.location.href = auth_url;
        }).catch(writemsg);
    }
    go();
    </script>
</body>
</html>
"##;

/// The media type of a response body.
#[derive(Debug, Clone, Copy, PartialEq, Eq, Structural)]
pub enum MediaType {
    Html,
    Json,
    Text,
}

/// A response of the redirect-capture server, as plain data: status code,
/// media type, body, and whether a near-expiry warning should be printed.
#[derive(Debug, Clone)]
pub struct HttpResponse {
    pub status: u16,
    pub media_type: MediaType,
    pub body: String,
    pub warn_near_expiry: bool,
}

/// A `200` HTML page.
pub fn html_response(body: &'static str) -> (r: HttpResponse)
    ensures
        r.status == 200,
        r.media_type is Html,
        r.body@ == body@,
        !r.warn_near_expiry,
{
    HttpResponse { status: 200, media_type: MediaType::Html, body: body.to_owned(), warn_near_expiry: false }
}

/// A `200` JSON body holding one string value. Serializing a string cannot
/// fail, so unlike a general serializer this constructor is total.
pub fn json_response(data: &str) -> (r: HttpResponse)
    ensures
        r.status == 200,
        r.media_type is Json,
        r.body@ == json_str_of(data@),
        !r.warn_near_expiry,
{
    HttpResponse {
        status: 200,
        media_type: MediaType::Json,
        body: json_string(data),
        warn_near_expiry: false,
    }
}

/// The empty `404` response for unknown routes.
pub fn not_found_response() -> (r: HttpResponse)
    ensures
        r.status == 404,
        r.media_type is Text,
        r.body@ == Seq::<char>::empty(),
        !r.warn_near_expiry,
{
    HttpResponse {
        status: 404,
        media_type: MediaType::Text,
        body: String::new(),
        warn_near_expiry: false,
    }
}

/// The `500` page whose body is the error's message; it only ever renders on
/// localhost, to the user who started the flow.
pub fn error_response(e: &AuthError) -> (r: HttpResponse)
    ensures
        r.status == 500,
        r.media_type is Text,
        r.body@ == spec_message(*e),
        !r.warn_near_expiry,
{
    HttpResponse {
        status: 500,
        media_type: MediaType::Text,
        body: e.message(),
        warn_near_expiry: false,
    }
}

/// The `500` page whose body is the error's cause trail: the handler's
/// context, then the error's own message.
pub fn chained_error_response(context: &str, e: &AuthError) -> (r: HttpResponse)
    ensures
        r.status == 500,
        r.media_type is Text,
        r.body@ == spec_chained_message(context@, *e),
        !r.warn_near_expiry,
{
    HttpResponse {
        status: 500,
        media_type: MediaType::Text,
        body: e.chained_message(context),
        warn_near_expiry: false,
    }
}

} // verus!
