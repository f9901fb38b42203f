//! Query construction: database-name expansion, operation tokens, clause
//! validation, and the one SQL statement each invocation sends.

use vstd::prelude::*;

use crate::config::Config;
use crate::error::Error;
use crate::text::ci_eq;
use crate::text::str_eq_ignore_case;

verus! {

/// An ASCII letter.
pub open spec fn is_ascii_letter(c: char) -> bool {
    ('a' <= c && c <= 'z') || ('A' <= c && c <= 'Z')
}

/// An ASCII decimal digit.
pub open spec fn is_ascii_digit_char(c: char) -> bool {
    '0' <= c && c <= '9'
}

/// A database code: exactly 5 characters, 3 ASCII letters then 2 ASCII
/// digits.
pub open spec fn is_code(s: Seq<char>) -> bool {
    s.len() == 5 && is_ascii_letter(s[0]) && is_ascii_letter(s[1]) && is_ascii_letter(s[2])
        && is_ascii_digit_char(s[3]) && is_ascii_digit_char(s[4])
}

fn is_letter(c: char) -> (r: bool)
    ensures
        r == is_ascii_letter(c),
{
    ('a' <= c && c <= 'z') || ('A' <= c && c <= 'Z')
}

fn is_digit(c: char) -> (r: bool)
    ensures
        r == is_ascii_digit_char(c),
{
    '0' <= c && c <= '9'
}

/// Check if a database name is a database code (3 ASCII letters and 2 ASCII
/// digits).
pub fn is_db_code(db_name: &str) -> (r: bool)
    ensures
        r == is_code(db_name@),
{
    let len = db_name.unicode_len();
    if len != 5 {
        return false;
    }
    is_letter(db_name.get_char(0)) && is_letter(db_name.get_char(1)) && is_letter(
        db_name.get_char(2),
    ) && is_digit(db_name.get_char(3)) && is_digit(db_name.get_char(4))
}

/// What a database name resolves to: a code is expanded behind the fixed
/// prefix, any other name passes through unchanged.
pub open spec fn spec_parse_db_name(s: Seq<char>) -> Seq<char> {
    if is_code(s) {
        "acgapplication_"@ + s
    } else {
        s
    }
}

/// Parse a database name, expanding the name if it is only a database code.
pub fn parse_db_name(db_name: &str) -> (r: String)
    ensures
        r@ == spec_parse_db_name(db_name@),
{
    if is_db_code(db_name) {
        let mut s = String::new();
        s.append("acgapplication_");
        s.append(db_name);
        proof {
            assert(s@ =~= spec_parse_db_name(db_name@));
        }
        s
    } else {
        db_name.to_owned()
    }
}

/// Law: among 5-character inputs, exactly the database codes come back with
/// the fixed prefix, and every other input comes back unchanged.
pub proof fn lemma_code_prefix_iff(s: Seq<char>)
    requires
        s.len() == 5,
    ensures
        is_code(s) ==> spec_parse_db_name(s) == "acgapplication_"@ + s,
        !is_code(s) ==> spec_parse_db_name(s) == s,
        is_code(s) <==> (spec_parse_db_name(s).len() >= 15 && spec_parse_db_name(s).subrange(
            0,
            15,
        ) == "acgapplication_"@),
{
    reveal_strlit("acgapplication_");
    if is_code(s) {
        assert(("acgapplication_"@ + s).subrange(0, 15) =~= "acgapplication_"@);
    }
}

/// The closed set of operations an invocation can request.
#[derive(Clone, Copy, Debug, PartialEq, Eq, Structural)]
pub enum Operation {
    Select,
    Insert,
    Update,
}

/// The operation a command-line token selects, matched case-insensitively
/// against the fixed short and long spellings.
pub open spec fn op_of_token(t: Seq<char>) -> Option<Operation> {
    if ci_eq(t, "s"@) || ci_eq(t, "select"@) {
        Some(Operation::Select)
    } else if ci_eq(t, "i"@) || ci_eq(t, "insert"@) {
        Some(Operation::Insert)
    } else if ci_eq(t, "u"@) || ci_eq(t, "update"@) {
        Some(Operation::Update)
    } else {
        None
    }
}

/// Match an operation token against the fixed spellings, ignoring ASCII
/// case; any other token selects nothing.
pub fn parse_operation(token: &str) -> (r: Option<Operation>)
    ensures
        r == op_of_token(token@),
{
    if str_eq_ignore_case(token, "s") || str_eq_ignore_case(token, "select") {
        Some(Operation::Select)
    } else if str_eq_ignore_case(token, "i") || str_eq_ignore_case(token, "insert") {
        Some(Operation::Insert)
    } else if str_eq_ignore_case(token, "u") || str_eq_ignore_case(token, "update") {
        Some(Operation::Update)
    } else {
        None
    }
}

/// The optional clause fragments supplied by the invoker. `set_clause` and
/// `values_clause` are reserved for write operations and must be absent for
/// a read.
pub struct ClauseSet {
    pub where_clause: Option<String>,
    pub group_by: Option<String>,
    pub order_by: Option<String>,
    pub set_clause: Option<String>,
    pub values_clause: Option<String>,
}

/// The text of an optional clause fragment.
pub open spec fn opt_text(o: Option<String>) -> Option<Seq<char>> {
    match o {
        Some(s) => Some(s@),
        None => None,
    }
}

/// One appended clause: the keyword, the fragment, and a trailing space; or
/// nothing when the fragment is absent.
pub open spec fn clause_text(keyword: Seq<char>, v: Option<Seq<char>>) -> Seq<char> {
    match v {
        Some(s) => keyword + s + " "@,
        None => Seq::empty(),
    }
}

/// The one select statement built per invocation: a fixed top-100 read with
/// the optional clauses in fixed order, each followed by a trailing space.
pub open spec fn select_statement(
    table: Seq<char>,
    where_c: Option<Seq<char>>,
    group_by: Option<Seq<char>>,
    order_by: Option<Seq<char>>,
) -> Seq<char> {
    "SELECT TOP 100 * FROM "@ + table + " WITH (NOLOCK) "@ + clause_text("WHERE "@, where_c)
        + clause_text("GROUP BY "@, group_by) + clause_text("ORDER BY "@, order_by)
}

/// Build the statement for one operation, or reject the clause combination.
/// A read rejects `set` and `values`; the write operations have no statement
/// builder and say so rather than reporting silent success.
pub fn build_statement(operation: Operation, table: &str, clauses: &ClauseSet) -> (r: Result<
    String,
    Error,
>)
    ensures
        match r {
            Ok(q) => operation == Operation::Select && clauses.set_clause is None
                && clauses.values_clause is None && q@ == select_statement(
                table@,
                opt_text(clauses.where_clause),
                opt_text(clauses.group_by),
                opt_text(clauses.order_by),
            ),
            Err(e) => if operation == Operation::Select {
                (clauses.set_clause is Some || clauses.values_clause is Some) && e
                    == Error::InvalidArgument
            } else {
                e == Error::Unimplemented
            },
        },
{
    match operation {
        Operation::Select => {
            if clauses.set_clause.is_some() || clauses.values_clause.is_some() {
                return Err(Error::InvalidArgument);
            }
            let mut q = String::new();
            q.append("SELECT TOP 100 * FROM ");
            q.append(table);
            q.append(" WITH (NOLOCK) ");
            if let Some(w) = &clauses.where_clause {
                q.append("WHERE ");
                q.append(w.as_str());
                q.append(" ");
            }
            if let Some(g) = &clauses.group_by {
                q.append("GROUP BY ");
                q.append(g.as_str());
                q.append(" ");
            }
            if let Some(o) = &clauses.order_by {
                q.append("ORDER BY ");
                q.append(o.as_str());
                q.append(" ");
            }
            proof {
                assert(q@ =~= select_statement(
                    table@,
                    opt_text(clauses.where_clause),
                    opt_text(clauses.group_by),
                    opt_text(clauses.order_by),
                ));
            }
            Ok(q)
        },
        Operation::Insert => Err(Error::Unimplemented),
        Operation::Update => Err(Error::Unimplemented),
    }
}

/// Everything the execution capability needs for one invocation: the
/// resolved endpoint, the expanded database name, and the statement.
pub struct Request {
    pub host: String,
    pub port: u16,
    pub database: String,
    pub statement: String,
}

/// Resolve the server, expand the database name, and build the statement,
/// failing fast on the first error. The caller hands the result to the
/// execution capability.
pub fn prepare(
    cfg: &Config,
    server_name: &str,
    db_arg: &str,
    operation: Operation,
    table: &str,
    clauses: &ClauseSet,
) -> (r: Result<Request, Error>)
    ensures
        match r {
            Ok(req) => {
                &&& crate::config::spec_find_server(cfg.servers@, server_name@) matches Some(info)
                    && req.host@ == info.spec_url() && req.port == info.spec_port()
                &&& req.database@ == spec_parse_db_name(db_arg@)
                &&& operation == Operation::Select
                &&& clauses.set_clause is None
                &&& clauses.values_clause is None
                &&& req.statement@ == select_statement(
                    table@,
                    opt_text(clauses.where_clause),
                    opt_text(clauses.group_by),
                    opt_text(clauses.order_by),
                )
            },
            Err(e) => if crate::config::spec_find_server(cfg.servers@, server_name@) is None {
                e == Error::NotFound
            } else if operation != Operation::Select {
                e == Error::Unimplemented
            } else {
                (clauses.set_clause is Some || clauses.values_clause is Some) && e
                    == Error::InvalidArgument
            },
        },
{
    let info = match cfg.resolve(server_name) {
        Ok(info) => info,
        Err(e) => {
            return Err(e);
        },
    };
    let database = parse_db_name(db_arg);
    let statement = match build_statement(operation, table, clauses) {
        Ok(q) => q,
        Err(e) => {
            return Err(e);
        },
    };
    Ok(Request { host: info.url().to_owned(), port: info.port(), database, statement })
}

} // verus!
