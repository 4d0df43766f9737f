//! Responses as plain values: a status, headers, and a body.

use crate::headers::header_safe;
use crate::html::Markup;
use crate::text::{decimal, decimal_text, same_text};
use crate::text_laws::{law_numerals_are_read_back, numeral_value};
use vstd::prelude::*;

verus! {

pub const CONTENT_TYPE: &'static str = "content-type";

pub const LOCATION: &'static str = "location";

pub const RETRY_AFTER: &'static str = "retry-after";

pub const SET_COOKIE: &'static str = "set-cookie";

pub const HTML_TYPE: &'static str = "text/html; charset=utf-8";

pub const JSON_TYPE: &'static str = "application/json";

/// A response body, its text as `T`.
#[derive(Clone, Debug, PartialEq, Eq)]
pub enum Body<T> {
    Empty,
    Html(T),
    /// The JSON object `{"ok": false, "error": ..}` with this error.
    Denied(T),
}

impl View for Body<String> {
    type V = Body<Seq<char>>;

    open spec fn view(&self) -> Body<Seq<char>> {
        match self {
            Body::Empty => Body::Empty,
            Body::Html(text) => Body::Html(text@),
            Body::Denied(error) => Body::Denied(error@),
        }
    }
}

/// A response.
#[derive(Clone, Debug, PartialEq, Eq)]
pub struct Response {
    pub status: u16,
    /// Names in lower case and values, in the order in which they were added.
    pub headers: Vec<(String, String)>,
    pub body: Body<String>,
}

/// What a response holds.
#[verifier::ext_equal]
pub struct ResponseView {
    pub status: u16,
    pub headers: Seq<(Seq<char>, Seq<char>)>,
    pub body: Body<Seq<char>>,
}

/// The characters of each header.
pub open spec fn header_views(headers: Seq<(String, String)>) -> Seq<(Seq<char>, Seq<char>)> {
    headers.map_values(|header: (String, String)| (header.0@, header.1@))
}

impl View for Response {
    type V = ResponseView;

    open spec fn view(&self) -> ResponseView {
        ResponseView {
            status: self.status,
            headers: header_views(self.headers@),
            body: self.body@,
        }
    }
}

/// The headers without those of one name.
pub open spec fn without_header(
    headers: Seq<(Seq<char>, Seq<char>)>,
    name: Seq<char>,
) -> Seq<(Seq<char>, Seq<char>)>
    decreases headers.len(),
{
    if headers.len() == 0 {
        Seq::empty()
    } else if headers.last().0 == name {
        without_header(headers.drop_last(), name)
    } else {
        without_header(headers.drop_last(), name).push(headers.last())
    }
}

impl ResponseView {
    /// A page.
    pub open spec fn page(html: Seq<char>) -> ResponseView {
        ResponseView {
            status: 200,
            headers: seq![(CONTENT_TYPE@, HTML_TYPE@)],
            body: Body::Html(html),
        }
    }

    /// A redirect after a form was accepted.
    pub open spec fn see_other(location: Seq<char>) -> ResponseView {
        ResponseView { status: 303, headers: seq![(LOCATION@, location)], body: Body::Empty }
    }

    /// A refusal with an error code.
    pub open spec fn denied(status: u16, code: Seq<char>) -> ResponseView {
        ResponseView {
            status,
            headers: seq![(CONTENT_TYPE@, JSON_TYPE@)],
            body: Body::Denied(code),
        }
    }

    /// The response with one more cookie.
    pub open spec fn with_cookie(self, cookie: Seq<char>) -> ResponseView {
        ResponseView { headers: self.headers.push((SET_COOKIE@, cookie)), ..self }
    }

    /// The response with another status.
    pub open spec fn with_status(self, status: u16) -> ResponseView {
        ResponseView { status, ..self }
    }

    /// The page as the answer to an attempt over budget.
    pub open spec fn throttled(self, retry_after_secs: u64) -> ResponseView {
        ResponseView {
            status: 429,
            headers: without_header(self.headers, RETRY_AFTER@).push(
                (RETRY_AFTER@, decimal(retry_after_secs as nat)),
            ),
            body: self.body,
        }
    }

    /// The cookies that the response sets, in order.
    pub open spec fn cookies(self) -> Seq<Seq<char>> {
        cookies_of(self.headers)
    }
}

/// The values of the cookie headers among some headers, in order.
pub open spec fn cookies_of(headers: Seq<(Seq<char>, Seq<char>)>) -> Seq<Seq<char>>
    decreases headers.len(),
{
    if headers.len() == 0 {
        Seq::empty()
    } else if headers.last().0 == SET_COOKIE@ {
        cookies_of(headers.drop_last()).push(headers.last().1)
    } else {
        cookies_of(headers.drop_last())
    }
}

fn one_header(name: &str, value: &str) -> (r: Vec<(String, String)>)
    ensures
        header_views(r@) == seq![(name@, value@)],
{
    let mut headers: Vec<(String, String)> = Vec::new();
    headers.push((name.to_owned(), value.to_owned()));
    assert(header_views(headers@) =~= seq![(name@, value@)]);
    headers
}

/// The response that shows a page.
pub fn html_response(page: Markup) -> (r: Response)
    ensures
        r@ == ResponseView::page(page@),
{
    Response {
        status: 200,
        headers: one_header(CONTENT_TYPE, HTML_TYPE),
        body: Body::Html(page.into_string()),
    }
}

/// The response that sends the browser to another page with `GET`.
pub fn see_other(location: &str) -> (r: Response)
    ensures
        r@ == ResponseView::see_other(location@),
{
    Response { status: 303, headers: one_header(LOCATION, location), body: Body::Empty }
}

/// The response that refuses a request with an error code.
pub fn deny_json(status: u16, code: &str) -> (r: Response)
    ensures
        r@ == ResponseView::denied(status, code@),
{
    Response {
        status,
        headers: one_header(CONTENT_TYPE, JSON_TYPE),
        body: Body::Denied(code.to_owned()),
    }
}

/// Adds a cookie to a response. The cookies that it sets already stay.
pub fn append_set_cookie(response: &mut Response, cookie: &str)
    requires
        header_safe(cookie@),
    ensures
        final(response)@ == old(response)@.with_cookie(cookie@),
{
    response.headers.push((SET_COOKIE.to_owned(), cookie.to_owned()));
    assert(header_views(response.headers@) =~= header_views(old(response).headers@).push(
        (SET_COOKIE@, cookie@),
    ));
}

/// Refuses an over-budget attempt: status 429 and `Retry-After`, with the page so that the user
/// still gets a usable form.
pub fn throttled_response(page: Response, retry_after_secs: u64) -> (r: Response)
    ensures
        r@ == page@.throttled(retry_after_secs),
{
    let ghost before = page@;
    let mut response = page;
    let mut kept: Vec<(String, String)> = Vec::new();
    let mut i: usize = 0;
    assert(header_views(kept@) =~= without_header(before.headers.take(0), RETRY_AFTER@));
    while i < response.headers.len()
        invariant
            i <= response.headers.len(),
            header_views(response.headers@) == before.headers,
            response.body@ == before.body,
            header_views(kept@) == without_header(before.headers.take(i as int), RETRY_AFTER@),
        decreases response.headers.len() - i,
    {
        let ghost kept_before = header_views(kept@);
        let ghost next = before.headers.take(i + 1);
        assert(next.drop_last() =~= before.headers.take(i as int));
        assert(next.last() == (response.headers@[i as int].0@, response.headers@[i as int].1@));
        if !same_text(response.headers[i].0.as_str(), RETRY_AFTER) {
            let name = response.headers[i].0.clone();
            let value = response.headers[i].1.clone();
            kept.push((name, value));
            assert(header_views(kept@) =~= kept_before.push(next.last()));
        }
        i += 1;
    }
    assert(before.headers.take(i as int) =~= before.headers);
    let ghost kept_before = header_views(kept@);
    kept.push((RETRY_AFTER.to_owned(), decimal_text(retry_after_secs)));
    assert(header_views(kept@) =~= kept_before.push(
        (RETRY_AFTER@, decimal(retry_after_secs as nat)),
    ));
    response.headers = kept;
    response.status = 429;
    response
}

/// A cookie that is added comes after those that the response sets already.
pub proof fn law_cookies_are_kept(response: ResponseView, cookie: Seq<char>)
    ensures
        response.with_cookie(cookie).cookies() == response.cookies().push(cookie),
        response.with_cookie(cookie).status == response.status,
        response.with_cookie(cookie).body == response.body,
{
    let headers = response.with_cookie(cookie).headers;
    assert(headers.drop_last() =~= response.headers);
}

proof fn lemma_cookies_without_header(headers: Seq<(Seq<char>, Seq<char>)>, name: Seq<char>)
    requires
        name != SET_COOKIE@,
    ensures
        cookies_of(without_header(headers, name)) == cookies_of(headers),
    decreases headers.len(),
{
    if headers.len() > 0 {
        lemma_cookies_without_header(headers.drop_last(), name);
        if headers.last().0 != name {
            let shorter = without_header(headers.drop_last(), name);
            assert(shorter.push(headers.last()).drop_last() =~= shorter);
        }
    }
}

/// A throttled page keeps its body and the cookies that make its form usable.
pub proof fn law_throttled_page_stays_usable(page: ResponseView, retry_after_secs: u64)
    ensures
        page.throttled(retry_after_secs).status == 429,
        page.throttled(retry_after_secs).body == page.body,
        page.throttled(retry_after_secs).cookies() == page.cookies(),
{
    reveal_strlit("retry-after");
    reveal_strlit("set-cookie");
    assert(RETRY_AFTER@.len() != SET_COOKIE@.len());
    lemma_cookies_without_header(page.headers, RETRY_AFTER@);
    let headers = page.throttled(retry_after_secs).headers;
    assert(headers.drop_last() =~= without_header(page.headers, RETRY_AFTER@));
}

/// A page, a redirect and a refusal are what HTTP says they are: each has its status, its one header
/// and its body, whatever the page, the place or the code is.
pub proof fn law_responses_are_what_they_say(
    html: Seq<char>,
    location: Seq<char>,
    status: u16,
    code: Seq<char>,
)
    ensures
        ResponseView::page(html).status == 200,
        ResponseView::page(html).headers == seq![("content-type"@, "text/html; charset=utf-8"@)],
        ResponseView::page(html).body == Body::Html(html),
        ResponseView::see_other(location).status == 303,
        ResponseView::see_other(location).headers == seq![("location"@, location)],
        ResponseView::see_other(location).body is Empty,
        ResponseView::denied(status, code).status == status,
        ResponseView::denied(status, code).headers == seq![("content-type"@, "application/json"@)],
        ResponseView::denied(status, code).body == Body::Denied(code),
{
}

/// A cookie or a status is put on a response without a change to anything else.
pub proof fn law_additions_change_nothing_else(
    response: ResponseView,
    cookie: Seq<char>,
    status: u16,
)
    ensures
        response.with_cookie(cookie).headers == response.headers.push(("set-cookie"@, cookie)),
        response.with_cookie(cookie).status == response.status,
        response.with_cookie(cookie).body == response.body,
        response.with_status(status).status == status,
        response.with_status(status).headers == response.headers,
        response.with_status(status).body == response.body,
{
}

/// The headers of a name among some headers.
pub open spec fn headers_named(
    headers: Seq<(Seq<char>, Seq<char>)>,
    name: Seq<char>,
) -> Seq<(Seq<char>, Seq<char>)> {
    headers.filter(|header: (Seq<char>, Seq<char>)| header.0 == name)
}

proof fn lemma_filtered(headers: Seq<(Seq<char>, Seq<char>)>, name: Seq<char>, other: Seq<char>)
    ensures
        headers_named(without_header(headers, name), other) == (if name == other {
            Seq::empty()
        } else {
            headers_named(headers, other)
        }),
    decreases headers.len(),
{
    let named = |header: (Seq<char>, Seq<char>)| header.0 == other;
    reveal(Seq::filter);
    if headers.len() > 0 {
        lemma_filtered(headers.drop_last(), name, other);
        let shorter = without_header(headers.drop_last(), name);
        if headers.last().0 != name {
            assert(shorter.push(headers.last()).drop_last() =~= shorter);
        }
    }
}

/// The answer to an attempt over budget has status 429 and tells once, in seconds, when to try again,
/// whatever the page told before; the page and all its other headers stay.
pub proof fn law_throttled_answer_tells_when_to_retry(
    page: ResponseView,
    retry_after_secs: u64,
    other: Seq<char>,
)
    requires
        other != "retry-after"@,
    ensures
        page.throttled(retry_after_secs).status == 429,
        page.throttled(retry_after_secs).body == page.body,
        headers_named(page.throttled(retry_after_secs).headers, "retry-after"@).len() == 1,
        headers_named(page.throttled(retry_after_secs).headers, "retry-after"@)[0].0
            == "retry-after"@,
        numeral_value(
            headers_named(page.throttled(retry_after_secs).headers, "retry-after"@)[0].1,
        ) == retry_after_secs,
        headers_named(page.throttled(retry_after_secs).headers, other) == headers_named(
            page.headers,
            other,
        ),
{
    reveal(Seq::filter);
    law_numerals_are_read_back(retry_after_secs as nat);
    lemma_filtered(page.headers, "retry-after"@, "retry-after"@);
    lemma_filtered(page.headers, "retry-after"@, other);
    let kept = without_header(page.headers, "retry-after"@);
    let headers = page.throttled(retry_after_secs).headers;
    assert(headers.drop_last() =~= kept);
}

} // verus!
