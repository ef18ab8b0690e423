//! The dashboard's default data directory.
use vstd::prelude::*;
use vstd::string::StringExecFns;

use crate::maker_manager::opt_view;
use crate::text::{joined_path, path_join};

verus! {

/// Calls `dirs::home_dir`.  Its answer depends on the environment and the
/// user database, so nothing is claimed about it.  The path is held as text:
/// a home directory whose path is not UTF-8 comes back with replacement
/// characters in place of the bytes that are not, so the data directory
/// built on it is not that path.
#[verifier::external_body]
fn home_dir() -> Option<String> {
    dirs::home_dir().map(|p| p.to_string_lossy().into_owned())
}

/// `<home>/.openswap`, with the current directory standing in for an
/// unknown home.
pub open spec fn data_dir_under(home: Option<Seq<char>>) -> Seq<char> {
    joined_path(
        match home {
            Some(h) => h,
            None => "."@,
        },
        ".openswap"@,
    )
}

/// The data directory for a given home directory.
pub fn data_dir_for_home(home: Option<String>) -> (r: String)
    ensures
        r@ == data_dir_under(opt_view(home)),
{
    let base = match home {
        Some(h) => h,
        None => String::from_str("."),
    };
    path_join(base.as_str(), ".openswap")
}

/// The default data directory for the application: `~/.openswap`, which
/// holds the dashboard's own files and one data directory per maker.
pub fn default_data_dir() -> (r: String)
    ensures
        exists|home: Option<Seq<char>>| r@ == data_dir_under(home),
{
    let home = home_dir();
    let r = data_dir_for_home(home);
    assert(r@ == data_dir_under(opt_view(home)));
    r
}

} // verus!
