//! The images of the site, which the database holds as blobs.

use vstd::prelude::*;
use vstd::string::*;
use crate::query::{SqlValue, SqlValueView, Statement, StatementView};

verus! {

/// The lookup of images.
pub struct ImageService;

/// The statement that fetches the bytes of the image stored as `filename`.
pub open spec fn spec_image_statement(filename: Seq<char>) -> StatementView {
    StatementView {
        sql: "SELECT data FROM images WHERE filename = ?"@,
        params: seq![SqlValueView::Text(filename)],
    }
}

impl ImageService {
    /// The statement that fetches the bytes of the image stored as
    /// `filename`. It brings one row, or none where there is no such image.
    pub fn image_statement(filename: &str) -> (statement: Statement)
        ensures
            statement@ == spec_image_statement(filename@),
    {
        let mut params: Vec<SqlValue> = Vec::new();
        params.push(SqlValue::Text(filename.to_owned()));
        assert(params.deep_view() =~= seq![SqlValueView::Text(filename@)]);
        Statement { sql: String::from_str("SELECT data FROM images WHERE filename = ?"), params }
    }
}

} // verus!
