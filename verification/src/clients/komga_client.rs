//! The book / series backend: where its resources are and how a call to it
//! is authenticated.

use vstd::prelude::*;
use crate::models::errors::HttpError;
use crate::models::http::Header;
use crate::text::{decimal, decimal_string};

verus! {

/// Whether a status counts as success: 200 to 299.
pub open spec fn is_success(status: u16) -> bool {
    200 <= status < 300
}

/// Turns the status of a backend answer into success or an error that
/// names the status and the address.
pub fn check_status(status: u16, url: &str) -> (r: Result<(), HttpError>)
    ensures
        r is Ok == is_success(status),
        r is Err ==> r->Err_0.message@ == decimal(status as nat) + ", "@ + url@,
{
    if 200 <= status && status < 300 {
        Ok(())
    } else {
        let mut message = decimal_string(status as usize);
        message.append(", ");
        message.append(url);
        Err(HttpError { message })
    }
}

/// The book / series backend.
pub struct KomgaClient {
    pub base_uri: String,
}

impl KomgaClient {
    pub fn new(base_uri: String) -> (r: Self)
        ensures
            r.base_uri == base_uri,
    {
        Self { base_uri }
    }

    /// The address of a book.
    pub fn book_url(&self, book_id: &str) -> (r: String)
        ensures
            r@ == self.base_uri@ + "/api/v1/books/"@ + book_id@,
    {
        let mut url = self.base_uri.clone();
        url.append("/api/v1/books/");
        url.append(book_id);
        url
    }

    /// The address of a series.
    pub fn series_url(&self, series_id: &str) -> (r: String)
        ensures
            r@ == self.base_uri@ + "/api/v1/series/"@ + series_id@,
    {
        let mut url = self.base_uri.clone();
        url.append("/api/v1/series/");
        url.append(series_id);
        url
    }

    /// The credential header for a backend call: the authorization
    /// credential where the request had one, else its cookie. With neither
    /// the call cannot be made.
    pub fn auth_header(&self, cookie: Option<String>, auth: Option<String>) -> (r: Result<
        Header,
        HttpError,
    >)
        ensures
            match auth {
                Some(a) => r is Ok && r->Ok_0@ == ("authorization"@, a@),
                None => match cookie {
                    Some(c) => r is Ok && r->Ok_0@ == ("cookie"@, c@),
                    None => r is Err && r->Err_0.message@ == "No auth header"@,
                },
            },
    {
        match auth {
            Some(auth) => Ok(Header { name: String::from_str("authorization"), value: auth }),
            None => match cookie {
                Some(cookie) => Ok(Header { name: String::from_str("cookie"), value: cookie }),
                None => Err(HttpError { message: String::from_str("No auth header") }),
            },
        }
    }
}

} // verus!
