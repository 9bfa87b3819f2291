//! Requests and responses as the application's HTTP layer carries them.

use crate::text;
use vstd::prelude::*;

verus! {

broadcast use crate::views::group_views;

#[derive(Debug, Clone, PartialEq, Eq)]
pub struct HttpRequest {
    pub method: String,
    pub url: String,
    pub headers: Vec<(String, String)>,
    pub body: Vec<u8>,
    /// In milliseconds.
    pub timeout: Option<u64>,
}

pub struct HttpRequestView {
    pub method: Seq<char>,
    pub url: Seq<char>,
    pub headers: Seq<(Seq<char>, Seq<char>)>,
    pub body: Seq<u8>,
    pub timeout: Option<u64>,
}

impl View for HttpRequest {
    type V = HttpRequestView;

    open spec fn view(&self) -> HttpRequestView {
        HttpRequestView {
            method: self.method@,
            url: self.url@,
            headers: self.headers.deep_view(),
            body: self.body@,
            timeout: self.timeout,
        }
    }
}

impl DeepView for HttpRequest {
    type V = HttpRequestView;

    open spec fn deep_view(&self) -> HttpRequestView {
        self@
    }
}

#[derive(Debug, Clone, PartialEq, Eq)]
pub struct HttpResponse {
    pub status: u16,
    pub headers: Vec<(String, String)>,
    pub body: Vec<u8>,
}

pub open spec fn is_success(status: u16) -> bool {
    200 <= status < 300
}

/// The headers without those of the name, in any case.
pub open spec fn without_header(
    headers: Seq<(Seq<char>, Seq<char>)>,
    name: Seq<char>,
) -> Seq<(Seq<char>, Seq<char>)>
    decreases headers.len(),
{
    if headers.len() == 0 {
        seq![]
    } else {
        let before = without_header(headers.drop_last(), name);
        if text::lower(headers.last().0) == text::lower(name) {
            before
        } else {
            before.push(headers.last())
        }
    }
}

/// Takes the headers of the name away, in any case.
pub fn drop_header(headers: &mut Vec<(String, String)>, name: &str)
    ensures
        final(headers).deep_view() == without_header(old(headers).deep_view(), name@),
{
    let ghost all = headers.deep_view();
    let mut kept: Vec<(String, String)> = Vec::new();
    let mut i: usize = 0;
    assert(all.take(0) =~= seq![]);
    while i < headers.len()
        invariant
            i <= headers.len(),
            all == headers.deep_view(),
            kept.deep_view() == without_header(all.take(i as int), name@),
        decreases headers.len() - i,
    {
        assert(all[i as int] == headers@[i as int].deep_view());
        if !text::same_ignoring_case(&headers[i].0, name) {
            kept.push((headers[i].0.clone(), headers[i].1.clone()));
        }
        i = i + 1;
        assert(all.take(i as int).drop_last() =~= all.take(i - 1));
    }
    assert(all.take(i as int) =~= all);
    *headers = kept;
}

/// The value of the first header of the name, in any case, from the `i`th on.
pub open spec fn header_in(headers: Seq<(Seq<char>, Seq<char>)>, name: Seq<char>, i: int) -> Option<
    Seq<char>,
>
    decreases headers.len() - i,
{
    if i < 0 || i >= headers.len() {
        None
    } else if text::lower(headers[i].0) == text::lower(name) {
        Some(headers[i].1)
    } else {
        header_in(headers, name, i + 1)
    }
}

pub fn find_header<'a>(headers: &'a Vec<(String, String)>, name: &str) -> (result: Option<&'a str>)
    ensures
        result.deep_view() == header_in(headers.deep_view(), name@, 0),
{
    let mut i: usize = 0;
    while i < headers.len()
        invariant
            i <= headers.len(),
            header_in(headers.deep_view(), name@, 0) == header_in(
                headers.deep_view(),
                name@,
                i as int,
            ),
        decreases headers.len() - i,
    {
        assert(headers.deep_view()[i as int] == headers@[i as int].deep_view());
        if text::same_ignoring_case(&headers[i].0, name) {
            return Some(headers[i].1.as_str());
        }
        i = i + 1;
    }
    None
}

impl HttpResponse {
    /// The value of the first header of the name, in any case.
    pub fn header(&self, name: &str) -> (result: Option<&str>)
        ensures
            result.deep_view() == header_in(self.headers.deep_view(), name@, 0),
    {
        find_header(&self.headers, name)
    }
}

/// A header is found by its name, whatever case it is written in, and the first of that
/// name is the one that counts.
pub proof fn a_header_is_found_by_its_name(
    headers: Seq<(Seq<char>, Seq<char>)>,
    name: Seq<char>,
    i: int,
)
    requires
        0 <= i <= headers.len(),
    ensures
        match header_in(headers, name, i) {
            Some(value) => exists|k: int|
                i <= k < headers.len() && text::lower((#[trigger] headers[k]).0) == text::lower(name)
                    && headers[k].1 == value && forall|j: int|
                    i <= j < k ==> text::lower((#[trigger] headers[j]).0) != text::lower(name),
            None => forall|k: int|
                i <= k < headers.len() ==> text::lower((#[trigger] headers[k]).0) != text::lower(
                    name,
                ),
        },
    decreases headers.len() - i,
{
    if i < headers.len() {
        if text::lower(headers[i].0) == text::lower(name) {
            assert(headers[i].1 == headers[i].1);
        } else {
            a_header_is_found_by_its_name(headers, name, i + 1);
            if let Some(value) = header_in(headers, name, i + 1) {
                let k = choose|k: int|
                    i + 1 <= k < headers.len() && text::lower((#[trigger] headers[k]).0)
                        == text::lower(name) && headers[k].1 == value && forall|j: int|
                        i + 1 <= j < k ==> text::lower((#[trigger] headers[j]).0) != text::lower(
                            name,
                        );
                assert(headers[k].1 == value);
            }
        }
    }
}

/// A reply succeeds where its status is in the two hundreds.
pub proof fn success_is_in_the_two_hundreds(status: u16)
    ensures
        is_success(status) <==> 200 <= status < 300,
{
}

} // verus!
