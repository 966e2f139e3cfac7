use vstd::prelude::*;
use crate::json::{field_of, value_field};

verus! {

/// The rows of `rows` that hold a member named `key`, each replaced by that
/// member, in the order of the rows.
pub open spec fn keyed_values(rows: Seq<serde_json::Value>, key: Seq<char>) -> Seq<serde_json::Value>
    decreases rows.len(),
{
    if rows.len() == 0 {
        Seq::empty()
    } else {
        let rest = keyed_values(rows.drop_last(), key);
        match field_of(rows.last(), key) {
            Some(v) => rest.push(v),
            None => rest,
        }
    }
}

/// The values that a sequence of references points to.
pub open spec fn targets(refs: Seq<&serde_json::Value>) -> Seq<serde_json::Value> {
    refs.map_values(|v: &serde_json::Value| *v)
}

/// The reply of the server for a single statement of a query.
#[derive(Debug)]
pub struct SurrealQueryResult {
    pub time: String,
    pub status: String,
    pub result: Vec<serde_json::Value>,
}

impl SurrealQueryResult {
    pub fn new(time: String, status: String, result: Vec<serde_json::Value>) -> (r: Self)
        ensures
            r.time@ == time@,
            r.status@ == status@,
            r.rows() == result@,
    {
        SurrealQueryResult { time, status, result }
    }

    /// The rows that the statement returned.
    pub open spec fn rows(&self) -> Seq<serde_json::Value> {
        self.result@
    }

    pub fn results(&self) -> (r: &Vec<serde_json::Value>)
        ensures
            r@ == self.rows(),
    {
        &self.result
    }

    /// The value under `key` of each row, leaving out the rows without it.
    pub fn results_key<'a>(&'a self, key: &str) -> (r: Vec<&'a serde_json::Value>)
        ensures
            targets(r@) == keyed_values(self.rows(), key@),
    {
        let mut out: Vec<&'a serde_json::Value> = Vec::new();
        let mut i: usize = 0;
        while i < self.result.len()
            invariant
                i <= self.result@.len(),
                targets(out@) == keyed_values(self.result@.take(i as int), key@),
            decreases self.result@.len() - i,
        {
            assert(self.result@.take(i as int + 1).drop_last() == self.result@.take(i as int));
            let ghost old_out = out@;
            match value_field(&self.result[i], key) {
                Some(v) => {
                    out.push(v);
                    assert(targets(out@) =~= targets(old_out).push(*v));
                },
                None => {},
            }
            i = i + 1;
        }
        assert(self.result@.take(i as int) == self.result@);
        out
    }
}

} // verus!

verus! {

/// The body of a reply: a bare string, one result per statement of a query,
/// or nothing at all.
#[derive(Debug)]
pub enum SurrealResponseResult {
    String(String),
    Data(Vec<SurrealQueryResult>),
    Null,
}

/// A decoded inbound frame: the correlation id of the call that it answers and
/// the body of the reply.
#[derive(Debug)]
pub struct SurrealResponseData {
    pub id: String,
    pub result: SurrealResponseResult,
}

impl SurrealResponseData {
    /// The result of statement `n`, when the body holds statement results and
    /// has one at that position.
    pub open spec fn nth_statement(&self, n: int) -> Option<SurrealQueryResult> {
        match self.result {
            SurrealResponseResult::Data(v) => if 0 <= n < v@.len() {
                Some(v@[n])
            } else {
                None
            },
            _ => None,
        }
    }

    /// The rows of statement `n`; none when there is no such statement.
    pub open spec fn statement_rows(&self, n: int) -> Seq<serde_json::Value> {
        match self.nth_statement(n) {
            Some(q) => q.rows(),
            None => Seq::empty(),
        }
    }

    /// The result of statement `n`, or `None` when the body holds no data or
    /// fewer statements.
    pub fn get_nth_query_result(&self, n: usize) -> (r: Option<&SurrealQueryResult>)
        ensures
            match r {
                Some(q) => self.nth_statement(n as int) == Some(*q),
                None => self.nth_statement(n as int) is None,
            },
    {
        match &self.result {
            SurrealResponseResult::Data(results) => if n < results.len() {
                Some(&results[n])
            } else {
                None
            },
            _ => None,
        }
    }

    /// The first row of statement `n`, if there is one.
    pub fn first_result(&self, n: usize) -> (r: Option<&serde_json::Value>)
        ensures
            match r {
                Some(v) => self.statement_rows(n as int).len() > 0
                    && *v == self.statement_rows(n as int)[0],
                None => self.statement_rows(n as int).len() == 0,
            },
    {
        match self.get_nth_query_result(n) {
            Some(q) => if q.result.len() > 0 {
                Some(&q.result[0])
            } else {
                None
            },
            None => None,
        }
    }

    /// Every row of statement `n`; empty when there is no such statement.
    pub fn statement_results(&self, n: usize) -> (r: Vec<&serde_json::Value>)
        ensures
            targets(r@) == self.statement_rows(n as int),
    {
        let mut out: Vec<&serde_json::Value> = Vec::new();
        match self.get_nth_query_result(n) {
            Some(q) => {
                let mut i: usize = 0;
                while i < q.result.len()
                    invariant
                        i <= q.result@.len(),
                        targets(out@) == q.result@.take(i as int),
                    decreases q.result@.len() - i,
                {
                    let ghost old_out = out@;
                    out.push(&q.result[i]);
                    assert(targets(out@) =~= targets(old_out).push(q.result@[i as int]));
                    assert(q.result@.take(i as int + 1) =~= q.result@.take(i as int).push(q.result@[i as int]));
                    i = i + 1;
                }
                assert(q.result@.take(i as int) =~= q.result@);
            },
            None => {
                assert(targets(out@) =~= Seq::empty());
            },
        }
        out
    }

    /// The value under `key` of each row of statement `n` that holds it.
    pub fn statement_results_key(&self, n: usize, key: &str) -> (r: Vec<&serde_json::Value>)
        ensures
            targets(r@) == keyed_values(self.statement_rows(n as int), key@),
    {
        match self.get_nth_query_result(n) {
            Some(q) => q.results_key(key),
            None => {
                let out: Vec<&serde_json::Value> = Vec::new();
                assert(targets(out@) =~= Seq::empty());
                out
            },
        }
    }

    /// The value under `key` of the first row of statement `n` that holds it.
    pub fn first_result_key(&self, n: usize, key: &str) -> (r: Option<&serde_json::Value>)
        ensures
            match r {
                Some(v) => keyed_values(self.statement_rows(n as int), key@).len() > 0
                    && *v == keyed_values(self.statement_rows(n as int), key@)[0],
                None => keyed_values(self.statement_rows(n as int), key@).len() == 0,
            },
    {
        let all = self.statement_results_key(n, key);
        if all.len() > 0 {
            Some(all[0])
        } else {
            None
        }
    }
}

} // verus!
