//! What the machine knows of the document store: the shape of its answers,
//! the addresses of its documents, and the count of runs of a procedure.
//! The requests themselves are made by the driver.

use vstd::prelude::*;
use vstd::string::StringExecFns;
use crate::structs_and_consts::{Procedure, COUCHDB_URL};

verus! {

/// One row of a view that was asked for with its documents.
#[derive(Debug)]
pub struct SingleViewResultWithIncludeDocs<T> {
    pub id: String,
    pub key: String,
    pub doc: T,
}

/// The answer of a view.
#[derive(Debug)]
pub struct ViewResult<T> {
    pub total_rows: i64,
    pub offset: i64,
    pub rows: Vec<SingleViewResultWithIncludeDocs<T>>,
}

/// The path of the view that lists the procedures, below the store's address.
pub const PROCEDURES_VIEW: &'static str = "/_design/procedures/_view/procedures?include_docs=true";

/// The count of runs after one more run: one more than it was, counted from
/// zero where there was none, and the largest count where it was reached.
pub open spec fn runs_after(runs: Option<i32>) -> i32 {
    match runs {
        None => 1,
        Some(runs) => if runs < i32::MAX {
            (runs + 1) as i32
        } else {
            i32::MAX
        },
    }
}

impl<T> ViewResult<T> {
    /// The documents of the rows, in the order of the rows.
    pub fn into_docs(self) -> (docs: Vec<T>)
        ensures
            docs@.len() == self.rows@.len(),
            forall|i: int| 0 <= i < self.rows@.len() ==> #[trigger] docs@[i] == self.rows@[i].doc,
    {
        let mut docs: Vec<T> = Vec::new();
        let rows = self.rows;
        for row in it: rows
            invariant
                docs@.len() == it.index(),
                forall|j: int| 0 <= j < it.index() ==> #[trigger] docs@[j] == it.seq()[j].doc,
        {
            docs.push(row.doc);
        }
        docs
    }
}

/// The address of a document: the store's address, a slash and the id.
pub fn doc_url(id: &str) -> (url: String)
    ensures
        url@ == COUCHDB_URL@ + seq!['/'] + id@,
{
    proof {
        reveal_strlit("/");
    }
    let url = String::from_str(COUCHDB_URL).concat("/").concat(id);
    assert("/"@ =~= seq!['/']);
    url
}

/// The address of one revision of a document, as a request to delete it
/// names it: the address of the document, `?rev=` and the revision.
pub fn revision_url(id: &str, rev: &str) -> (url: String)
    ensures
        url@ == COUCHDB_URL@ + seq!['/'] + id@ + seq!['?', 'r', 'e', 'v', '='] + rev@,
{
    proof {
        reveal_strlit("?rev=");
    }
    let url = doc_url(id).concat("?rev=").concat(rev);
    assert("?rev="@ =~= seq!['?', 'r', 'e', 'v', '=']);
    url
}

/// The address of the view that lists the procedures.
pub fn procedures_url() -> (url: String)
    ensures
        url@ == COUCHDB_URL@ + PROCEDURES_VIEW@,
{
    String::from_str(COUCHDB_URL).concat(PROCEDURES_VIEW)
}

/// Counts one more run of a procedure. Nothing else of it changes.
pub fn increment_run_count(procedure: &mut Procedure)
    ensures
        *final(procedure) == (Procedure {
            runs: Some(runs_after(old(procedure).runs)),
            ..*old(procedure)
        }),
{
    let runs: i32 = match procedure.runs {
        None => 0,
        Some(runs) => runs,
    };
    if runs < i32::MAX {
        procedure.runs = Some(runs + 1);
    } else {
        procedure.runs = Some(i32::MAX);
    }
}

} // verus!
