//! A request as a plain value: what the client asks its transport to send.

use std::time::Duration;

use vstd::prelude::*;

verus! {

/// The two request methods that the service is called with.
#[derive(Clone, Copy, Debug, PartialEq, Eq, Structural)]
pub enum Method {
    Get,
    Post,
}

/// One header line.
#[derive(Debug, PartialEq, Eq)]
pub struct Header {
    pub name: String,
    pub value: String,
}

impl View for Header {
    type V = (Seq<char>, Seq<char>);

    open spec fn view(&self) -> (Seq<char>, Seq<char>) {
        (self.name@, self.value@)
    }
}

/// A request that is ready to be sent.
#[derive(Debug, PartialEq, Eq)]
pub struct Request {
    pub method: Method,
    pub url: String,
    pub headers: Vec<Header>,
    /// How long the transport may take over the request.
    pub timeout: Duration,
    pub body: Option<String>,
}

/// A request as mathematics: text as sequences of characters, each header a
/// pair of name and value.
pub struct RequestView {
    pub method: Method,
    pub url: Seq<char>,
    pub headers: Seq<(Seq<char>, Seq<char>)>,
    pub timeout: Duration,
    pub body: Option<Seq<char>>,
}

impl View for Request {
    type V = RequestView;

    open spec fn view(&self) -> RequestView {
        RequestView {
            method: self.method,
            url: self.url@,
            headers: self.headers@.map_values(|h: Header| h@),
            timeout: self.timeout,
            body: match self.body {
                Some(b) => Some(b@),
                None => None,
            },
        }
    }
}

/// The value of the first header at or after `from` that is named `name`,
/// letter for letter.
pub open spec fn header_from(
    headers: Seq<(Seq<char>, Seq<char>)>,
    name: Seq<char>,
    from: int,
) -> Option<Seq<char>>
    decreases headers.len() - from,
{
    if from < 0 || from >= headers.len() {
        None
    } else if headers[from].0 == name {
        Some(headers[from].1)
    } else {
        header_from(headers, name, from + 1)
    }
}

/// The value of the first header named `name`, letter for letter.
pub open spec fn header_value(headers: Seq<(Seq<char>, Seq<char>)>, name: Seq<char>) -> Option<
    Seq<char>,
> {
    header_from(headers, name, 0)
}

impl Request {
    /// The value of the first header named `name`, if there is one. Names are
    /// compared letter for letter, as this crate writes them.
    pub fn header(&self, name: &str) -> (value: Option<&str>)
        ensures
            match value {
                Some(v) => header_value(self@.headers, name@) == Some(v@),
                None => header_value(self@.headers, name@).is_none(),
            },
    {
        let wanted = name.to_owned();
        let mut i: usize = 0;
        while i < self.headers.len()
            invariant
                i <= self.headers.len(),
                wanted@ == name@,
                header_value(self@.headers, name@) == header_from(self@.headers, name@, i as int),
            decreases self.headers.len() - i,
        {
            let h = &self.headers[i];
            if h.name == wanted {
                return Some(h.value.as_str());
            }
            i += 1;
        }
        None
    }
}

} // verus!
