//! Builder for Apicalypse queries.

use vstd::prelude::*;
use vstd::string::*;
use crate::text::{decimal, decimal_string, lemma_decimal_of_zero_only};

verus! {

/// The clauses of a query as plain values.
pub struct QueryClauses {
    pub filter: Seq<char>,
    pub limit: nat,
    pub offset: nat,
    pub fields: Seq<char>,
    pub exclude: Seq<char>,
    pub sort: Seq<char>,
}

/// Builder for Apicalypse queries.
#[derive(Clone)]
pub struct ApicalypseBuilder {
    filter: String,
    limit: usize,
    offset: usize,
    fields: String,
    exclude: String,
    sort: String,
}

impl View for ApicalypseBuilder {
    type V = QueryClauses;

    closed spec fn view(&self) -> QueryClauses {
        QueryClauses {
            filter: self.filter@,
            limit: self.limit as nat,
            offset: self.offset as nat,
            fields: self.fields@,
            exclude: self.exclude@,
            sort: self.sort@,
        }
    }
}

/// The builder in which no clause is set.
pub open spec fn no_clauses() -> QueryClauses {
    QueryClauses {
        filter: Seq::empty(),
        limit: 0,
        offset: 0,
        fields: Seq::empty(),
        exclude: Seq::empty(),
        sort: Seq::empty(),
    }
}

/// A rendered statement: the prefix, a space, the value and a semicolon.
pub open spec fn statement(prefix: Seq<char>, value: Seq<char>) -> Seq<char> {
    prefix + seq![' '] + value + seq![';']
}

/// A text clause of a query: nothing for the empty text, else its statement.
pub open spec fn text_clause(prefix: Seq<char>, value: Seq<char>) -> Seq<char> {
    if value.len() == 0 {
        Seq::empty()
    } else {
        statement(prefix, value)
    }
}

/// A numeric clause of a query: nothing for zero, else the statement of the
/// number in decimal.
pub open spec fn number_clause(prefix: Seq<char>, n: nat) -> Seq<char> {
    if n == 0 {
        Seq::empty()
    } else {
        statement(prefix, decimal(n))
    }
}

/// The query text of the given clauses: fields, exclusions, filter, limit,
/// offset and sort, in this order and with nothing between them.
pub open spec fn query_text(c: QueryClauses) -> Seq<char> {
    text_clause(seq!['f'], c.fields) + text_clause(seq!['x'], c.exclude) + text_clause(
        seq!['w'],
        c.filter,
    ) + number_clause(seq!['l'], c.limit) + number_clause(seq!['o'], c.offset) + text_clause(
        seq!['s'],
        c.sort,
    )
}

impl Default for ApicalypseBuilder {
    fn default() -> (r: Self)
        ensures
            r@ == no_clauses(),
    {
        ApicalypseBuilder {
            filter: String::new(),
            limit: 0,
            offset: 0,
            fields: String::new(),
            exclude: String::new(),
            sort: String::new(),
        }
    }
}

impl ApicalypseBuilder {
    /// Add a filter to the query.
    pub fn filter(self, filter: &str) -> (r: Self)
        ensures
            r@ == (QueryClauses { filter: filter@, ..self@ }),
    {
        ApicalypseBuilder {
            filter: filter.to_owned(),
            limit: self.limit,
            offset: self.offset,
            fields: self.fields,
            exclude: self.exclude,
            sort: self.sort,
        }
    }

    /// Add a limit of entries to the query.
    pub fn limit(self, limit: usize) -> (r: Self)
        ensures
            r@ == (QueryClauses { limit: limit as nat, ..self@ }),
    {
        ApicalypseBuilder {
            filter: self.filter,
            limit,
            offset: self.offset,
            fields: self.fields,
            exclude: self.exclude,
            sort: self.sort,
        }
    }

    /// Add an offset from where the entries should start in the results.
    pub fn offset(self, offset: usize) -> (r: Self)
        ensures
            r@ == (QueryClauses { offset: offset as nat, ..self@ }),
    {
        ApicalypseBuilder {
            filter: self.filter,
            limit: self.limit,
            offset,
            fields: self.fields,
            exclude: self.exclude,
            sort: self.sort,
        }
    }

    /// Specify fields to be returned by the query.
    pub fn fields(self, fields: &str) -> (r: Self)
        ensures
            r@ == (QueryClauses { fields: fields@, ..self@ }),
    {
        ApicalypseBuilder {
            filter: self.filter,
            limit: self.limit,
            offset: self.offset,
            fields: fields.to_owned(),
            exclude: self.exclude,
            sort: self.sort,
        }
    }

    /// Exclude fields from the query.
    pub fn exclude(self, exclude: &str) -> (r: Self)
        ensures
            r@ == (QueryClauses { exclude: exclude@, ..self@ }),
    {
        ApicalypseBuilder {
            filter: self.filter,
            limit: self.limit,
            offset: self.offset,
            fields: self.fields,
            exclude: exclude.to_owned(),
            sort: self.sort,
        }
    }

    /// Order on some specific fields.
    pub fn sort(self, sort: &str) -> (r: Self)
        ensures
            r@ == (QueryClauses { sort: sort@, ..self@ }),
    {
        ApicalypseBuilder {
            filter: self.filter,
            limit: self.limit,
            offset: self.offset,
            fields: self.fields,
            exclude: self.exclude,
            sort: sort.to_owned(),
        }
    }

    /// Build the query string.
    pub fn to_query(&self) -> (r: String)
        ensures
            r@ == query_text(self@),
    {
        proof {
            reveal_strlit("f");
            reveal_strlit("x");
            reveal_strlit("w");
            reveal_strlit("l");
            reveal_strlit("o");
            reveal_strlit("s");
            assert("f"@ =~= seq!['f']);
            assert("x"@ =~= seq!['x']);
            assert("w"@ =~= seq!['w']);
            assert("l"@ =~= seq!['l']);
            assert("o"@ =~= seq!['o']);
            assert("s"@ =~= seq!['s']);
        }
        let mut query = wrap_statement("f", self.fields.as_str());
        query.append(wrap_statement("x", self.exclude.as_str()).as_str());
        query.append(wrap_statement("w", self.filter.as_str()).as_str());
        query.append(wrap_number("l", self.limit).as_str());
        query.append(wrap_number("o", self.offset).as_str());
        query.append(wrap_statement("s", self.sort.as_str()).as_str());
        query
    }
}

/// Renders one text clause: the empty string for an empty statement, else
/// `"<prefix> <statement>;"`.
pub fn wrap_statement(prefix: &str, statement: &str) -> (r: String)
    ensures
        r@ == text_clause(prefix@, statement@),
{
    if statement.unicode_len() == 0 {
        String::new()
    } else {
        proof {
            reveal_strlit(" ");
            reveal_strlit(";");
            assert(" "@ =~= seq![' ']);
            assert(";"@ =~= seq![';']);
        }
        let mut r = String::from_str(prefix);
        r.append(" ");
        r.append(statement);
        r.append(";");
        r
    }
}

/// Renders one numeric clause: the empty string for zero, else
/// `"<prefix> <number>;"` with the number in decimal.
pub fn wrap_number(prefix: &str, number: usize) -> (r: String)
    ensures
        r@ == number_clause(prefix@, number as nat),
{
    if number == 0 {
        String::new()
    } else {
        let digits = decimal_string(number);
        proof {
            lemma_decimal_of_zero_only(number as nat);
        }
        wrap_statement(prefix, digits.as_str())
    }
}

/// An unset clause leaves no trace in the query: a text clause set to the
/// empty text and a numeric clause set to zero both render as nothing.
pub proof fn lemma_unset_clause_is_silent(prefix: Seq<char>)
    ensures
        text_clause(prefix, Seq::empty()) == Seq::<char>::empty(),
        number_clause(prefix, 0) == Seq::<char>::empty(),
{
}

/// A numeric clause set to a number other than zero is rendered as the prefix,
/// a space, the number in decimal and a semicolon, and so is never empty.
pub proof fn lemma_number_clause_is_emitted(prefix: Seq<char>, n: nat)
    requires
        n != 0,
    ensures
        number_clause(prefix, n) == prefix + seq![' '] + decimal(n) + seq![';'],
        number_clause(prefix, n).len() == prefix.len() + decimal(n).len() + 2,
{
}

/// A text clause set to a text that is not empty is rendered as the prefix,
/// a space, the text and a semicolon, and so is never empty.
pub proof fn lemma_text_clause_is_emitted(prefix: Seq<char>, value: Seq<char>)
    requires
        value.len() > 0,
    ensures
        text_clause(prefix, value) == prefix + seq![' '] + value + seq![';'],
        text_clause(prefix, value).len() == prefix.len() + value.len() + 2,
{
}

/// The text `0` is a text like any other: a text clause set to it is emitted.
pub proof fn lemma_zero_text_is_emitted(prefix: Seq<char>)
    ensures
        text_clause(prefix, seq!['0']) == prefix + seq![' ', '0', ';'],
{
    assert(seq!['0'].len() == 1);
    assert(prefix + seq![' '] + seq!['0'] + seq![';'] =~= prefix + seq![' ', '0', ';']);
}

/// With no clause set the query is empty.
pub proof fn lemma_empty_query()
    ensures
        query_text(no_clauses()) == Seq::<char>::empty(),
{
    assert(query_text(no_clauses()) =~= Seq::<char>::empty());
}

/// With every clause set the query holds the six statements in the order
/// fields, exclusions, filter, limit, offset, sort.
pub proof fn lemma_query_of_all_clauses(c: QueryClauses)
    requires
        c.fields.len() > 0,
        c.exclude.len() > 0,
        c.filter.len() > 0,
        c.limit != 0,
        c.offset != 0,
        c.sort.len() > 0,
    ensures
        query_text(c) == statement(seq!['f'], c.fields) + statement(seq!['x'], c.exclude)
            + statement(seq!['w'], c.filter) + statement(seq!['l'], decimal(c.limit))
            + statement(seq!['o'], decimal(c.offset)) + statement(seq!['s'], c.sort),
{
}

/// The query is that of the set clauses alone: dropping the unset clauses
/// from the fixed order changes nothing, whichever of the six are set. A text
/// clause is set where its text is not empty, a numeric clause where its
/// number is not zero.
pub proof fn lemma_query_of_set_clauses(c: QueryClauses)
    ensures
        query_text(c) == (if c.fields.len() == 0 {
            Seq::<char>::empty()
        } else {
            statement(seq!['f'], c.fields)
        }) + (if c.exclude.len() == 0 {
            Seq::<char>::empty()
        } else {
            statement(seq!['x'], c.exclude)
        }) + (if c.filter.len() == 0 {
            Seq::<char>::empty()
        } else {
            statement(seq!['w'], c.filter)
        }) + (if c.limit == 0 {
            Seq::<char>::empty()
        } else {
            statement(seq!['l'], decimal(c.limit))
        }) + (if c.offset == 0 {
            Seq::<char>::empty()
        } else {
            statement(seq!['o'], decimal(c.offset))
        }) + (if c.sort.len() == 0 {
            Seq::<char>::empty()
        } else {
            statement(seq!['s'], c.sort)
        }),
{
}

/// Only the filter set, to any text that is not empty: the query is the one
/// statement `w <text>;`.
pub proof fn lemma_query_of_filter_alone(filter: Seq<char>)
    requires
        filter.len() > 0,
    ensures
        query_text(QueryClauses { filter, ..no_clauses() }) == statement(seq!['w'], filter),
{
    assert(query_text(QueryClauses { filter, ..no_clauses() }) =~= statement(seq!['w'], filter));
}

} // verus!
