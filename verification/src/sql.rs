//! The statements the service issues, and their parameter lists. The partial
//! update builds its SET clause from statically known column/placeholder
//! pairs only: nothing client-supplied ever enters the statement text.

use vstd::prelude::*;
use vstd::string::StringExecFns;
use crate::entry::{CreateEntry, CreateView, UpdateEntry, UpdateView};
use crate::errors::RepoError;

verus! {

/// A value bound to a placeholder of a statement.
pub enum SqlValue {
    Uint(u32),
    Text(String),
}

/// The mathematical value of a [`SqlValue`].
pub enum SqlValueView {
    Uint(u32),
    Text(Seq<char>),
}

impl View for SqlValue {
    type V = SqlValueView;

    open spec fn view(&self) -> SqlValueView {
        match self {
            SqlValue::Uint(n) => SqlValueView::Uint(*n),
            SqlValue::Text(s) => SqlValueView::Text(s@),
        }
    }
}

/// One named binding of a statement.
pub struct SqlParam {
    pub name: &'static str,
    pub value: SqlValue,
}

/// The mathematical value of a [`SqlParam`].
pub struct SqlParamView {
    pub name: Seq<char>,
    pub value: SqlValueView,
}

impl View for SqlParam {
    type V = SqlParamView;

    open spec fn view(&self) -> SqlParamView {
        SqlParamView { name: self.name@, value: self.value@ }
    }
}

/// The views of a parameter list.
pub open spec fn params_views(ps: Seq<SqlParam>) -> Seq<SqlParamView> {
    Seq::new(ps.len(), |i: int| ps[i]@)
}

/// The statement that reads every row.
pub fn select_all_statement() -> (s: &'static str)
    ensures
        s@ == "SELECT id, customer_id, customer_name, show_name, ticket_count, showtime FROM entries"@,
{
    "SELECT id, customer_id, customer_name, show_name, ticket_count, showtime FROM entries"
}

/// The statement that reads the row with a given identity.
pub fn select_by_id_statement() -> (s: &'static str)
    ensures
        s@ == "SELECT id, customer_id, customer_name, show_name, ticket_count, showtime FROM entries WHERE id = :id"@,
{
    "SELECT id, customer_id, customer_name, show_name, ticket_count, showtime FROM entries WHERE id = :id"
}

/// The statement that inserts one full row.
pub fn insert_statement() -> (s: &'static str)
    ensures
        s@ == "INSERT INTO entries (customer_id, customer_name, show_name, ticket_count, showtime) VALUES (:customer_id, :customer_name, :show_name, :ticket_count, :showtime)"@,
{
    "INSERT INTO entries (customer_id, customer_name, show_name, ticket_count, showtime) VALUES (:customer_id, :customer_name, :show_name, :ticket_count, :showtime)"
}

/// The statement that removes the row with a given identity.
pub fn delete_statement() -> (s: &'static str)
    ensures
        s@ == "DELETE FROM entries WHERE id = :id"@,
{
    "DELETE FROM entries WHERE id = :id"
}

/// The parameter list of a creation: all five fields, in column order.
pub open spec fn insert_params_view(c: CreateView) -> Seq<SqlParamView> {
    seq![
        SqlParamView { name: "customer_id"@, value: SqlValueView::Text(c.customer_id) },
        SqlParamView { name: "customer_name"@, value: SqlValueView::Text(c.customer_name) },
        SqlParamView { name: "show_name"@, value: SqlValueView::Text(c.show_name) },
        SqlParamView { name: "ticket_count"@, value: SqlValueView::Uint(c.ticket_count) },
        SqlParamView { name: "showtime"@, value: SqlValueView::Text(c.showtime) },
    ]
}

/// Binds all five fields of a creation payload, in column order.
pub fn insert_params(c: &CreateEntry) -> (ps: Vec<SqlParam>)
    ensures
        params_views(ps@) == insert_params_view(c@),
{
    let mut ps: Vec<SqlParam> = Vec::new();
    ps.push(SqlParam { name: "customer_id", value: SqlValue::Text(c.customer_id.clone()) });
    ps.push(SqlParam { name: "customer_name", value: SqlValue::Text(c.customer_name.clone()) });
    ps.push(SqlParam { name: "show_name", value: SqlValue::Text(c.show_name.clone()) });
    ps.push(SqlParam { name: "ticket_count", value: SqlValue::Uint(c.ticket_count) });
    ps.push(SqlParam { name: "showtime", value: SqlValue::Text(c.showtime.clone()) });
    proof {
        assert(params_views(ps@) =~= insert_params_view(c@));
    }
    ps
}

/// The single binding of the by-id statements.
pub fn id_params(id: u32) -> (ps: Vec<SqlParam>)
    ensures
        params_views(ps@) == seq![
            SqlParamView { name: "id"@, value: SqlValueView::Uint(id) },
        ],
{
    let mut ps: Vec<SqlParam> = Vec::new();
    ps.push(SqlParam { name: "id", value: SqlValue::Uint(id) });
    proof {
        assert(params_views(ps@) =~= seq![
            SqlParamView { name: "id"@, value: SqlValueView::Uint(id) },
        ]);
    }
    ps
}

/// Prefixes a comma separator when the clause already holds a pair.
pub open spec fn sep(c: Seq<char>) -> Seq<char> {
    if c.len() == 0 {
        c
    } else {
        c + ", "@
    }
}

/// The SET clause of a partial update: one `column = :placeholder` pair per
/// supplied field, in column order, comma-separated.
pub open spec fn set_clause(u: UpdateView) -> Seq<char> {
    let c0 = Seq::<char>::empty();
    let c1 = if u.customer_id is Some {
        sep(c0) + "customer_id = :customer_id"@
    } else {
        c0
    };
    let c2 = if u.customer_name is Some {
        sep(c1) + "customer_name = :customer_name"@
    } else {
        c1
    };
    let c3 = if u.show_name is Some {
        sep(c2) + "show_name = :show_name"@
    } else {
        c2
    };
    let c4 = if u.ticket_count is Some {
        sep(c3) + "ticket_count = :ticket_count"@
    } else {
        c3
    };
    if u.showtime is Some {
        sep(c4) + "showtime = :showtime"@
    } else {
        c4
    }
}

/// The whole partial-update statement, keyed by id in the WHERE clause.
pub open spec fn update_statement_view(u: UpdateView) -> Seq<char> {
    "UPDATE entries SET "@ + set_clause(u) + " WHERE id = :id"@
}

/// The parameter list of a partial update: the identity first, then the
/// supplied fields in column order.
pub open spec fn update_params_view(id: u32, u: UpdateView) -> Seq<SqlParamView> {
    let p0 = seq![SqlParamView { name: "id"@, value: SqlValueView::Uint(id) }];
    let p1 = match u.customer_id {
        Some(s) => p0.push(SqlParamView { name: "customer_id"@, value: SqlValueView::Text(s) }),
        None => p0,
    };
    let p2 = match u.customer_name {
        Some(s) => p1.push(SqlParamView { name: "customer_name"@, value: SqlValueView::Text(s) }),
        None => p1,
    };
    let p3 = match u.show_name {
        Some(s) => p2.push(SqlParamView { name: "show_name"@, value: SqlValueView::Text(s) }),
        None => p2,
    };
    let p4 = match u.ticket_count {
        Some(n) => p3.push(SqlParamView { name: "ticket_count"@, value: SqlValueView::Uint(n) }),
        None => p3,
    };
    match u.showtime {
        Some(s) => p4.push(SqlParamView { name: "showtime"@, value: SqlValueView::Text(s) }),
        None => p4,
    }
}

/// Builds the partial-update statement and its bindings from the supplied
/// fields alone. A payload with no field is rejected before any statement
/// exists.
pub fn build_update(id: u32, u: &UpdateEntry) -> (r: Result<(String, Vec<SqlParam>), RepoError>)
    ensures
        match r {
            Ok(qp) => {
                &&& !u@.is_empty()
                &&& qp.0@ == update_statement_view(u@)
                &&& params_views(qp.1@) == update_params_view(id, u@)
            },
            Err(e) => e == RepoError::InvalidRequest && u@.is_empty(),
        },
{
    if u.is_empty() {
        return Err(RepoError::InvalidRequest);
    }
    proof {
        reveal_strlit(", ");
        reveal_strlit("customer_id = :customer_id");
        reveal_strlit("customer_name = :customer_name");
        reveal_strlit("show_name = :show_name");
        reveal_strlit("ticket_count = :ticket_count");
        reveal_strlit("showtime = :showtime");
    }
    let mut clause = String::new();
    let mut first = true;
    let mut params: Vec<SqlParam> = Vec::new();
    params.push(SqlParam { name: "id", value: SqlValue::Uint(id) });
    match u.customer_id {
        Some(ref s) => {
            if !first {
                clause.append(", ");
            }
            clause.append("customer_id = :customer_id");
            params.push(SqlParam { name: "customer_id", value: SqlValue::Text(s.clone()) });
            first = false;
        },
        None => {},
    }
    match u.customer_name {
        Some(ref s) => {
            if !first {
                clause.append(", ");
            }
            clause.append("customer_name = :customer_name");
            params.push(SqlParam { name: "customer_name", value: SqlValue::Text(s.clone()) });
            first = false;
        },
        None => {},
    }
    match u.show_name {
        Some(ref s) => {
            if !first {
                clause.append(", ");
            }
            clause.append("show_name = :show_name");
            params.push(SqlParam { name: "show_name", value: SqlValue::Text(s.clone()) });
            first = false;
        },
        None => {},
    }
    match u.ticket_count {
        Some(n) => {
            if !first {
                clause.append(", ");
            }
            clause.append("ticket_count = :ticket_count");
            params.push(SqlParam { name: "ticket_count", value: SqlValue::Uint(n) });
            first = false;
        },
        None => {},
    }
    match u.showtime {
        Some(ref s) => {
            if !first {
                clause.append(", ");
            }
            clause.append("showtime = :showtime");
            params.push(SqlParam { name: "showtime", value: SqlValue::Text(s.clone()) });
            first = false;
        },
        None => {},
    }
    let mut q = String::from_str("UPDATE entries SET ");
    q.append(clause.as_str());
    q.append(" WHERE id = :id");
    proof {
        assert(clause@ =~= set_clause(u@));
        assert(q@ =~= update_statement_view(u@));
        assert(params_views(params@) =~= update_params_view(id, u@));
    }
    Ok((q, params))
}

} // verus!
