//! Room collection records.

use vstd::prelude::*;
use crate::db::row::{DbError, DbRow, FromRow, RowView, int_col, opt_str_col, str_col, opt_view};

verus! {

/// One room collection row.
pub struct Model {
    pub id: i64,
    pub name: String,
    pub description: Option<String>,
    pub created_at: String,
}

/// The value a record stands for.
pub struct ModelView {
    pub id: i64,
    pub name: Seq<char>,
    pub description: Option<Seq<char>>,
    pub created_at: Seq<char>,
}

impl View for Model {
    type V = ModelView;

    open spec fn view(&self) -> ModelView {
        ModelView {
            id: self.id,
            name: self.name@,
            description: opt_view(self.description),
            created_at: self.created_at@,
        }
    }
}

/// How a row reads as a record: the columns in field order; the first one that is
/// missing or has the wrong type gives the error.
pub open spec fn from_row_spec(row: RowView) -> Result<ModelView, Seq<char>> {
    match int_col(row, "id"@) {
        Err(e) => Err(e),
        Ok(id) => match str_col(row, "name"@) {
            Err(e) => Err(e),
            Ok(name) => match opt_str_col(row, "description"@) {
                Err(e) => Err(e),
                Ok(description) => match str_col(row, "created_at"@) {
                    Err(e) => Err(e),
                    Ok(created_at) => Ok(ModelView { id, name, description, created_at }),
                },
            },
        },
    }
}

impl Model {
    /// Build from a database row.
    pub fn from_row(row: &DbRow) -> (r: Result<Self, DbError>)
        ensures
            match r {
                Ok(m) => from_row_spec(row@) == Ok::<ModelView, Seq<char>>(m@),
                Err(e) => from_row_spec(row@) == Err::<ModelView, Seq<char>>(e.message@),
            },
    {
        let id = row.get_i64("id")?;
        let name = row.get_string("name")?;
        let description = row.get_opt_string("description")?;
        let created_at = row.get_string("created_at")?;
        Ok(Model { id, name, description, created_at })
    }
}

impl FromRow for Model {
    open spec fn row_spec(row: RowView) -> Result<ModelView, Seq<char>> {
        from_row_spec(row)
    }

    fn decode_row(row: &DbRow) -> (r: Result<Self, DbError>) {
        Model::from_row(row)
    }
}

} // verus!
