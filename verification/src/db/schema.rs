//! Applying the database schema: one statement per `;`-separated piece.

use vstd::prelude::*;
use crate::db::row::{BotDb, DbError, DbQuery, DbRows, QueryView};
use crate::text::{chars_of, string_of, trim_chars, trim_spec};
use crate::topic::{split_chars, split_spec};

verus! {

/// The statements of a schema: its `;`-separated pieces, trimmed, without the empty ones.
pub open spec fn schema_pieces(schema: Seq<char>) -> Seq<Seq<char>> {
    split_spec(schema, ';').map_values(|p: Seq<char>| trim_spec(p)).filter(|p: Seq<char>| p.len() > 0)
}

/// A schema statement: no parameters.
pub open spec fn schema_statement(sql: Seq<char>) -> QueryView {
    QueryView { sql, params: seq![], context: "schema statement failed"@ }
}

impl BotDb {
    /// The statements that apply `schema`, in order, each run without parameters.
    pub fn schema_statements(schema: &str) -> (r: Vec<DbQuery>)
        ensures
            r@.len() == schema_pieces(schema@).len(),
            forall|i: int| 0 <= i < r@.len() ==> #[trigger] r@[i]@ == schema_statement(schema_pieces(schema@)[i]),
    {
        let v = chars_of(schema);
        let pieces = split_chars(v.as_slice(), ';');
        let ghost sp = split_spec(schema@, ';');
        let ghost trimmed = sp.map_values(|p: Seq<char>| trim_spec(p));
        let ghost pred = |p: Seq<char>| p.len() > 0;
        let mut out: Vec<DbQuery> = Vec::new();
        let mut i: usize = 0;
        while i < pieces.len()
            invariant
                i <= pieces@.len(),
                pieces@.len() == sp.len(),
                forall|k: int| 0 <= k < pieces@.len() ==> #[trigger] pieces@[k]@ == sp[k],
                trimmed == sp.map_values(|p: Seq<char>| trim_spec(p)),
                forall|p: Seq<char>| #[trigger] pred(p) == (p.len() > 0),
                out@.len() == trimmed.take(i as int).filter(pred).len(),
                forall|k: int| 0 <= k < out@.len() ==> #[trigger] out@[k]@ == schema_statement(trimmed.take(i as int).filter(pred)[k]),
            decreases pieces@.len() - i,
        {
            let t = trim_chars(pieces[i].as_slice());
            proof {
                assert(trimmed.take(i + 1) =~= trimmed.take(i as int).push(trimmed[i as int]));
                trimmed.take(i as int).lemma_filter_push(trimmed[i as int], pred);
                assert(t@ == trimmed[i as int]);
            }
            if t.len() > 0 {
                let sql = string_of(t.as_slice());
                out.push(DbQuery::new(sql.as_str(), Vec::new(), "schema statement failed"));
                assert(out@.last()@.params =~= Seq::<crate::db::row::SqlView>::empty());
            }
            i = i + 1;
        }
        assert(trimmed.take(i as int) =~= trimmed);
        out
    }
}

/// What applying a schema does next.
pub enum SchemaStep {
    /// Run this statement and report its outcome.
    Run(DbQuery),
    /// Applying has ended: `Ok` once every statement has run, or the first failure.
    Done(Result<(), DbError>),
}

/// The position of the first failed outcome, if any.
pub open spec fn first_failure(outcomes: Seq<Result<DbRows, DbError>>) -> Option<int>
    decreases outcomes.len(),
{
    if outcomes.len() == 0 {
        None
    } else if outcomes[0] is Err {
        Some(0)
    } else {
        match first_failure(outcomes.drop_first()) {
            Some(i) => Some(i + 1),
            None => None,
        }
    }
}

/// Where `first_failure` points, and that every outcome before it succeeded.
pub proof fn lemma_first_failure(outcomes: Seq<Result<DbRows, DbError>>)
    ensures
        first_failure(outcomes) matches Some(i) ==> 0 <= i < outcomes.len() && outcomes[i] is Err
            && forall|k: int| 0 <= k < i ==> #[trigger] outcomes[k] is Ok,
        first_failure(outcomes) is None ==> forall|k: int| 0 <= k < outcomes.len() ==> #[trigger] outcomes[k] is Ok,
    decreases outcomes.len(),
{
    if outcomes.len() > 0 {
        lemma_first_failure(outcomes.drop_first());
        assert forall|k: int| 1 <= k < outcomes.len() implies #[trigger] outcomes[k] == outcomes.drop_first()[k - 1] by {}
    }
}

impl BotDb {
    /// The next step of applying `schema`, given the outcomes of the statements run so
    /// far, in order: the statements run one after another, each once; the first failure
    /// ends the application with that failure; once every statement has succeeded it ends
    /// with `Ok`.
    pub fn apply_schema_step(schema: &str, outcomes: &Vec<Result<DbRows, DbError>>) -> (r: SchemaStep)
        ensures
            match first_failure(outcomes@) {
                Some(j) => r matches SchemaStep::Done(Err(e)) && outcomes@[j] matches Err(f) && e.message@
                    == f.message@,
                None => if outcomes@.len() < schema_pieces(schema@).len() {
                    r matches SchemaStep::Run(q) && q@ == schema_statement(schema_pieces(schema@)[outcomes@.len() as int])
                } else {
                    r matches SchemaStep::Done(Ok(()))
                },
            },
    {
        proof {
            lemma_first_failure(outcomes@);
        }
        let mut i: usize = 0;
        while i < outcomes.len()
            invariant
                i <= outcomes@.len(),
                forall|k: int| 0 <= k < i ==> #[trigger] outcomes@[k] is Ok,
            decreases outcomes@.len() - i,
        {
            match &outcomes[i] {
                Err(e) => {
                    proof {
                        lemma_first_failure(outcomes@);
                        match first_failure(outcomes@) {
                            Some(j) => {
                                if j < i { assert(outcomes@[j] is Ok); }
                                if j > i { assert(outcomes@[i as int] is Ok); }
                            },
                            None => { assert(outcomes@[i as int] is Ok); },
                        }
                    }
                    return SchemaStep::Done(Err(DbError { message: e.message.clone() }));
                },
                Ok(_) => {},
            }
            i = i + 1;
        }
        proof {
            lemma_first_failure(outcomes@);
            if let Some(j) = first_failure(outcomes@) {
                assert(outcomes@[j] is Ok);
            }
        }
        let stmts = Self::schema_statements(schema);
        if outcomes.len() < stmts.len() {
            let n = outcomes.len();
            let q = DbQuery::new(stmts[n].sql.as_str(), Vec::new(), "schema statement failed");
            assert(q@.params =~= Seq::<crate::db::row::SqlView>::empty());
            assert(stmts@[n as int]@ == schema_statement(schema_pieces(schema@)[n as int]));
            SchemaStep::Run(q)
        } else {
            SchemaStep::Done(Ok(()))
        }
    }
}

} // verus!
