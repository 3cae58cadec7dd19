//! Reading the conference history of the account behind a token file.
use vstd::prelude::*;

verus! {

/// What to read: the token file, how many pages and how large.
#[derive(Debug, Clone)]
pub struct FetchConferenceHistoryInput {
    pub auth_file: String,
    pub max_pages: usize,
    pub page_size: usize,
}

impl Default for FetchConferenceHistoryInput {
    /// `ktalk_auth.txt`, ten pages of twenty-five conferences.
    fn default() -> (r: Self)
        ensures
            r.auth_file@ == "ktalk_auth.txt"@,
            r.max_pages == 10,
            r.page_size == 25,
    {
        FetchConferenceHistoryInput { auth_file: "ktalk_auth.txt".to_owned(), max_pages: 10, page_size: 25 }
    }
}

} // verus!
