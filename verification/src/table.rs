//! Backend endpoints, the closed set of table names, and the request URLs
//! built from them.

use vstd::prelude::*;

use crate::numeral::dec_rep;
use crate::numeral::u32_to_string;

verus! {

/// The view of an optional query string.
pub open spec fn opt_str_view(param: Option<&str>) -> Option<Seq<char>> {
    match param {
        Option::None => Option::None,
        Option::Some(p) => Option::Some(p@),
    }
}

/// A backend endpoint: host (including the scheme, e.g. `http://127.0.0.1`)
/// and port. Immutable once constructed and freely shareable.
pub struct Collection {
    pub host: String,
    pub port: u16,
}

/// The closed set of collection names the backend serves. Each variant maps
/// to one URL path segment.
pub enum Table {
    Transaction,
    Product,
    History,
    Cart,
    Background,
    Header,
}

impl Table {
    /// The URL path segment for this table.
    pub open spec fn name_spec(self) -> Seq<char> {
        match self {
            Table::Transaction => "transaction"@,
            Table::Product => "product"@,
            Table::History => "history"@,
            Table::Cart => "cart"@,
            Table::Background => "background"@,
            Table::Header => "header"@,
        }
    }

    pub fn get_string(&self) -> (name: String)
        ensures
            name@ == self.name_spec(),
    {
        match self {
            Table::Transaction => "transaction".to_owned(),
            Table::Product => "product".to_owned(),
            Table::History => "history".to_owned(),
            Table::Cart => "cart".to_owned(),
            Table::Background => "background".to_owned(),
            Table::Header => "header".to_owned(),
        }
    }

    /// The records URL for this table on `con`:
    /// `<host>:<port>/api/collections/<name>/records`.
    pub open spec fn url_spec(self, con: Collection) -> Seq<char> {
        con.host@ + ":"@ + dec_rep(con.port as nat) + "/api/collections/"@ + self.name_spec()
            + "/records"@
    }

    /// Builds the records URL for this table on `con`.
    pub fn url_struct(&self, con: &Collection) -> (url: String)
        ensures
            url@ == self.url_spec(*con),
    {
        let mut url = con.host.clone();
        url.append(":");
        let port = u32_to_string(con.port as u32);
        url.append(port.as_str());
        url.append("/api/collections/");
        let name = self.get_string();
        url.append(name.as_str());
        url.append("/records");
        proof {
            assert(url@ =~= self.url_spec(*con));
        }
        url
    }

    /// The URL the list primitive requests: the records URL, with `?` and
    /// the query appended when one is given.
    pub open spec fn list_url_spec(self, con: Collection, param: Option<Seq<char>>) -> Seq<char> {
        match param {
            Option::None => self.url_spec(con),
            Option::Some(p) => self.url_spec(con) + "?"@ + p,
        }
    }

    /// Builds the list primitive's URL.
    pub fn list_url(&self, con: &Collection, param: Option<&str>) -> (url: String)
        ensures
            url@ == self.list_url_spec(*con, opt_str_view(param)),
    {
        let mut url = self.url_struct(con);
        match param {
            Option::None => {},
            Option::Some(p) => {
                url.append("?");
                url.append(p);
            },
        }
        proof {
            assert(url@ =~= self.list_url_spec(*con, opt_str_view(param)));
        }
        url
    }

    /// The URL the single-record primitives (select, update, delete)
    /// request: the records URL with `/` and the record id appended.
    pub open spec fn record_url_spec(self, con: Collection, id: Seq<char>) -> Seq<char> {
        self.url_spec(con) + "/"@ + id
    }

    /// Builds a single record's URL.
    pub fn record_url(&self, con: &Collection, id: &str) -> (url: String)
        ensures
            url@ == self.record_url_spec(*con, id@),
    {
        let mut url = self.url_struct(con);
        url.append("/");
        url.append(id);
        proof {
            assert(url@ =~= self.record_url_spec(*con, id@));
        }
        url
    }
}

} // verus!
