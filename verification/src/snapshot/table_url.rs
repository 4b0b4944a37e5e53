//! URLs below the root of a table.

use vstd::prelude::*;

use crate::error::Error;
use crate::error::ErrorView;

verus! {

/// What `url::Url::join` makes of a base URL and a relative reference: the text of the URL that
/// the reference denotes, or the text of the error for a base or a reference that is no URL.
pub uninterp spec fn joined_url(base: Seq<char>, relative: Seq<char>) -> Result<
    Seq<char>,
    Seq<char>,
>;

/// Calls `url::Url::join` with the parsed base. The contract says that the text of the result, or
/// of the error, is a function of the two texts; it does not say which.
#[verifier::external_body]
fn url_join(base: &String, relative: &str) -> (res: Result<String, String>)
    ensures
        match res {
            Ok(joined) => joined_url(base@, relative@) == Ok::<Seq<char>, Seq<char>>(joined@),
            Err(message) => joined_url(base@, relative@) == Err::<Seq<char>, Seq<char>>(message@),
        },
{
    match url::Url::parse(base.as_str()) {
        Ok(url) => match url.join(relative) {
            Ok(joined) => Ok(joined.to_string()),
            Err(error) => Err(error.to_string()),
        },
        Err(error) => Err(error.to_string()),
    }
}

/// The URL of the log directory of the table at `table_root`.
///
/// # Errors
///
/// Where the table root is no URL that a relative one can be resolved against.
pub fn log_root(table_root: &String) -> (res: Result<String, Error>)
    ensures
        match res {
            Ok(root) => joined_url(table_root@, "_delta_log/"@) == Ok::<Seq<char>, Seq<char>>(
                root@,
            ),
            Err(e) => joined_url(table_root@, "_delta_log/"@) is Err && e.deep_view()
                == ErrorView::InvalidUrl(joined_url(table_root@, "_delta_log/"@)->Err_0),
        },
{
    resolved(url_join(table_root, "_delta_log/"))
}

/// What a resolved URL, or the text of the error, is reported as.
pub fn resolved(outcome: Result<String, String>) -> (res: Result<String, Error>)
    ensures
        match outcome {
            Ok(url) => res == Ok::<String, Error>(url),
            Err(message) => res matches Err(e) && e.deep_view() == ErrorView::InvalidUrl(message@),
        },
{
    match outcome {
        Ok(url) => Ok(url),
        Err(message) => Err(Error::InvalidUrl(message)),
    }
}

} // verus!
