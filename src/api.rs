//! Requests to the Reddit API: what to ask for, and how.

use vstd::prelude::*;
use curl::easy::List;
use crate::cli::Args;
use crate::curl_list::{empty_list, list_lines};
use crate::headers::{header_lines, no_nul, split_headers};
use crate::uri::subreddit_uri;

verus! {

/// The kind of data that a request carries.
#[derive(Debug)]
pub enum Rdata {
    String,
    Empty,
}

/// A request for `req` under subreddit `sub`, with its configuration.
#[derive(Debug)]
pub struct Rreq {
    pub sub: String,
    pub req: String,
    pub args: Args,
    pub data: Option<String>,
}

/// Ways to build a request.
pub trait Initializer: Sized {
    /// A request for the subreddit itself, with the default configuration.
    fn stub(sub: &str) -> Self;

    /// A request for `req` under `sub`, with the default configuration.
    fn new(sub: &str, req: &str) -> Self;

    /// A request for the subreddit itself, with the given configuration.
    fn args(sub: &str, args: Args) -> Self;

    /// A request for `req` under `sub`, with the given configuration.
    fn full(sub: &str, req: &str, args: Args) -> Self;
}

impl Initializer for Rreq {
    fn stub(sub: &str) -> (r: Self)
        ensures
            r.sub@ == sub@,
            r.req@ == Seq::<char>::empty(),
            r.args.is_default(),
            r.data is None,
    {
        Rreq { sub: String::from_str(sub), req: String::new(), args: Args::default(), data: None }
    }

    fn new(sub: &str, req: &str) -> (r: Self)
        ensures
            r.sub@ == sub@,
            r.req@ == req@,
            r.args.is_default(),
            r.data is None,
    {
        Rreq {
            sub: String::from_str(sub),
            req: String::from_str(req),
            args: Args::default(),
            data: None,
        }
    }

    fn args(sub: &str, args: Args) -> (r: Self)
        ensures
            r.sub@ == sub@,
            r.req@ == Seq::<char>::empty(),
            r.args == args,
            r.data is None,
    {
        Rreq { sub: String::from_str(sub), req: String::new(), args, data: None }
    }

    fn full(sub: &str, req: &str, args: Args) -> (r: Self)
        ensures
            r.sub@ == sub@,
            r.req@ == req@,
            r.args == args,
            r.data is None,
    {
        Rreq { sub: String::from_str(sub), req: String::from_str(req), args, data: None }
    }
}

/// What a request sends: its URI and its header lines.
pub trait Request {
    /// Whether the request's header lines can be handed to curl.
    spec fn headers_allowed(&self) -> bool;

    /// The full URI of the request.
    fn uri(&self) -> String;

    /// The request's header lines as a curl list.
    fn headers(&self) -> List
        requires
            self.headers_allowed(),
    ;
}

impl Request for Rreq {
    open spec fn headers_allowed(&self) -> bool {
        no_nul(self.args.headers@)
    }

    fn uri(&self) -> (r: String)
        ensures
            r@ == subreddit_uri(self.sub@, self.req@),
    {
        let mut uri = String::from_str("https://www.reddit.com/r/");
        uri.append(self.sub.as_str());
        uri.append("/");
        uri.append(self.req.as_str());
        uri
    }

    fn headers(&self) -> (r: List)
        ensures
            list_lines(r) == header_lines(self.args.headers@),
    {
        let lines = split_headers(self.args.headers.as_str());
        let mut list = empty_list();
        let mut i: usize = 0;
        while i < lines.len()
            invariant
                i <= lines@.len(),
                forall|k: int| 0 <= k < lines@.len() ==> no_nul(#[trigger] lines@[k]@),
                list_lines(list) == lines@.take(i as int).map_values(|l: String| l@),
            decreases lines@.len() - i,
        {
            let appended = list.append(lines[i].as_str());
            assert(appended is Ok);
            assert(lines@.take(i + 1).map_values(|l: String| l@) =~= lines@.take(
                i as int,
            ).map_values(|l: String| l@).push(lines@[i as int]@));
            i = i + 1;
        }
        assert(lines@.take(i as int) =~= lines@);
        list
    }
}

} // verus!
