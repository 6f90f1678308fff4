//! Mapping of repository outcomes to HTTP status codes and response bodies,
//! one function per route.

use vstd::prelude::*;
use vstd::string::StringExecFns;
use crate::entry::Entry;
use crate::errors::RepoError;

verus! {

/// What a response carries: a plain message, the identity a creation
/// assigned, one entry, or all of them.
pub enum Body {
    Message(String),
    Created(u32),
    One(Entry),
    Many(Vec<Entry>),
}

/// A response: a status code and a body.
pub struct Reply {
    pub status: u16,
    pub body: Body,
}

/// The body is the plain message `m`.
pub open spec fn body_message(b: Body, m: Seq<char>) -> bool {
    b matches Body::Message(s) && s@ == m
}

/// The response to listing every entry: the rows on success, 500 otherwise.
pub fn respond_list(r: Result<Vec<Entry>, RepoError>) -> (rep: Reply)
    ensures
        match r {
            Ok(rows) => rep.status == 200
                && (rep.body matches Body::Many(v) && v@ == rows@),
            Err(RepoError::Connection) => rep.status == 500
                && body_message(rep.body, "cannot connect to the store"@),
            Err(_) => rep.status == 500 && body_message(rep.body, "cannot read entries"@),
        },
{
    match r {
        Ok(rows) => Reply { status: 200, body: Body::Many(rows) },
        Err(RepoError::Connection) => Reply {
            status: 500,
            body: Body::Message(String::from_str("cannot connect to the store")),
        },
        Err(_) => Reply {
            status: 500,
            body: Body::Message(String::from_str("cannot read entries")),
        },
    }
}

/// The response to reading one entry: the row, 404 when no row carries the
/// id, 500 otherwise.
pub fn respond_get(r: Result<Option<Entry>, RepoError>) -> (rep: Reply)
    ensures
        match r {
            Ok(Some(e)) => rep.status == 200
                && (rep.body matches Body::One(b) && b@ == e@),
            Ok(None) => rep.status == 404 && body_message(rep.body, "entry not found"@),
            Err(RepoError::NotFound) => rep.status == 404
                && body_message(rep.body, "entry not found"@),
            Err(RepoError::Connection) => rep.status == 500
                && body_message(rep.body, "cannot connect to the store"@),
            Err(_) => rep.status == 500 && body_message(rep.body, "cannot read entry"@),
        },
{
    match r {
        Ok(Some(e)) => Reply { status: 200, body: Body::One(e) },
        Ok(None) => Reply {
            status: 404,
            body: Body::Message(String::from_str("entry not found")),
        },
        Err(RepoError::NotFound) => Reply {
            status: 404,
            body: Body::Message(String::from_str("entry not found")),
        },
        Err(RepoError::Connection) => Reply {
            status: 500,
            body: Body::Message(String::from_str("cannot connect to the store")),
        },
        Err(_) => Reply {
            status: 500,
            body: Body::Message(String::from_str("cannot read entry")),
        },
    }
}

/// The response to a creation: 201 with the assigned identity on success —
/// the client learns the id it must use to read the entry back — 409 on a
/// duplicate customer id, 500 otherwise.
pub fn respond_create(r: Result<u32, RepoError>) -> (rep: Reply)
    ensures
        match r {
            Ok(id) => rep.status == 201 && rep.body == Body::Created(id),
            Err(RepoError::Conflict) => rep.status == 409
                && body_message(rep.body, "customer id already exists for another entry"@),
            Err(RepoError::Connection) => rep.status == 500
                && body_message(rep.body, "cannot connect to the store"@),
            Err(_) => rep.status == 500 && body_message(rep.body, "cannot create entry"@),
        },
{
    match r {
        Ok(id) => Reply { status: 201, body: Body::Created(id) },
        Err(RepoError::Conflict) => Reply {
            status: 409,
            body: Body::Message(String::from_str("customer id already exists for another entry")),
        },
        Err(RepoError::Connection) => Reply {
            status: 500,
            body: Body::Message(String::from_str("cannot connect to the store")),
        },
        Err(_) => Reply {
            status: 500,
            body: Body::Message(String::from_str("cannot create entry")),
        },
    }
}

/// The response to a partial update: 200 when a row changed, 404 when none
/// did, 400 when no field was supplied, 409 on a duplicate customer id, 500
/// otherwise.
pub fn respond_update(r: Result<u64, RepoError>) -> (rep: Reply)
    ensures
        match r {
            Ok(n) => if n > 0 {
                rep.status == 200 && body_message(rep.body, "entry updated"@)
            } else {
                rep.status == 404 && body_message(rep.body, "entry not found or unchanged"@)
            },
            Err(RepoError::InvalidRequest) => rep.status == 400
                && body_message(rep.body, "no fields supplied to update"@),
            Err(RepoError::Conflict) => rep.status == 409
                && body_message(rep.body, "customer id already exists for another entry"@),
            Err(RepoError::NotFound) => rep.status == 404
                && body_message(rep.body, "entry not found or unchanged"@),
            Err(RepoError::Connection) => rep.status == 500
                && body_message(rep.body, "cannot connect to the store"@),
            Err(_) => rep.status == 500 && body_message(rep.body, "cannot update entry"@),
        },
{
    match r {
        Ok(n) => {
            if n > 0 {
                Reply { status: 200, body: Body::Message(String::from_str("entry updated")) }
            } else {
                Reply {
                    status: 404,
                    body: Body::Message(String::from_str("entry not found or unchanged")),
                }
            }
        },
        Err(RepoError::InvalidRequest) => Reply {
            status: 400,
            body: Body::Message(String::from_str("no fields supplied to update")),
        },
        Err(RepoError::Conflict) => Reply {
            status: 409,
            body: Body::Message(String::from_str("customer id already exists for another entry")),
        },
        Err(RepoError::NotFound) => Reply {
            status: 404,
            body: Body::Message(String::from_str("entry not found or unchanged")),
        },
        Err(RepoError::Connection) => Reply {
            status: 500,
            body: Body::Message(String::from_str("cannot connect to the store")),
        },
        Err(_) => Reply {
            status: 500,
            body: Body::Message(String::from_str("cannot update entry")),
        },
    }
}

/// The response to a deletion: 200 when a row went away, 404 when none
/// existed — so a second delete of the same id answers 404, never 500.
pub fn respond_delete(r: Result<u64, RepoError>) -> (rep: Reply)
    ensures
        match r {
            Ok(n) => if n > 0 {
                rep.status == 200 && body_message(rep.body, "entry deleted"@)
            } else {
                rep.status == 404 && body_message(rep.body, "entry not found"@)
            },
            Err(RepoError::NotFound) => rep.status == 404
                && body_message(rep.body, "entry not found"@),
            Err(RepoError::Connection) => rep.status == 500
                && body_message(rep.body, "cannot connect to the store"@),
            Err(_) => rep.status == 500 && body_message(rep.body, "cannot delete entry"@),
        },
{
    match r {
        Ok(n) => {
            if n > 0 {
                Reply { status: 200, body: Body::Message(String::from_str("entry deleted")) }
            } else {
                Reply { status: 404, body: Body::Message(String::from_str("entry not found")) }
            }
        },
        Err(RepoError::NotFound) => Reply {
            status: 404,
            body: Body::Message(String::from_str("entry not found")),
        },
        Err(RepoError::Connection) => Reply {
            status: 500,
            body: Body::Message(String::from_str("cannot connect to the store")),
        },
        Err(_) => Reply {
            status: 500,
            body: Body::Message(String::from_str("cannot delete entry")),
        },
    }
}

} // verus!
