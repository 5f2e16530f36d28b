//! Where the service keeps its files.

use vstd::prelude::*;

verus! {

/// The text of the path that `std::path::Path::join` builds from a base path
/// and one further component.
pub uninterp spec fn path_join(base: Seq<char>, component: Seq<char>) -> Seq<char>;

/// `Path::new(base).join(component)`, as text. Both arguments are valid
/// UTF-8, so the joined path is too and converts to a string unchanged; the
/// result depends on nothing but the two arguments.
#[verifier::external_body]
pub(crate) fn join_path(base: &str, component: &str) -> (joined: String)
    ensures
        joined@ == path_join(base@, component@),
{
    std::path::Path::new(base).join(component).to_string_lossy().into_owned()
}

/// `dirs::home_dir`: the home directory of the current user as text, or
/// `None` when the platform knows none. The answer depends on the
/// environment, so nothing is claimed about it.
#[verifier::external_body]
pub(crate) fn home_dir() -> (home: Option<String>) {
    dirs::home_dir().map(|p| p.to_string_lossy().into_owned())
}

/// `dirs::data_dir`: the per-user data directory as text, or `None` when the
/// platform knows none. The answer depends on the environment, so nothing
/// is claimed about it.
#[verifier::external_body]
pub(crate) fn data_dir() -> (dir: Option<String>) {
    dirs::data_dir().map(|p| p.to_string_lossy().into_owned())
}

/// The directory that holds downloaded media, below the home directory `home`.
pub open spec fn downloads_dir_under(home: Seq<char>) -> Seq<char> {
    path_join(path_join(home, "Movies"@), "WatchTV"@)
}

/// The message reported when no home directory is known.
pub open spec fn no_home_message() -> Seq<char> {
    "Could not find home directory"@
}

/// The downloads directory for a home directory that was looked up already:
/// `Movies/WatchTV` below it, or an error when there is none.
pub fn downloads_path_from(home: Option<String>) -> (result: Result<String, String>)
    ensures
        match home {
            Some(h) => result matches Ok(p) && p@ == downloads_dir_under(h@),
            None => result matches Err(e) && e@ == no_home_message(),
        },
{
    match home {
        Some(h) => {
            let movies = join_path(h.as_str(), "Movies");
            Ok(join_path(movies.as_str(), "WatchTV"))
        },
        None => Err("Could not find home directory".to_owned()),
    }
}

/// The downloads directory of the current user. It is `Movies/WatchTV` below
/// whatever home directory the platform reports, and an error when it
/// reports none.
pub fn get_downloads_path() -> (result: Result<String, String>)
    ensures
        match result {
            Ok(p) => exists|home: Seq<char>| p@ == downloads_dir_under(home),
            Err(e) => e@ == no_home_message(),
        },
{
    let home = home_dir();
    let ghost known = crate::types::opt_text(home);
    let result = downloads_path_from(home);
    proof {
        if let Some(h) = known {
            assert(result->Ok_0@ == downloads_dir_under(h));
        }
    }
    result
}

/// The database file below the data directory `data`.
pub open spec fn db_file_under(data: Seq<char>) -> Seq<char> {
    path_join(db_dir_under(data), "watchtv.db"@)
}

/// The directory of the database file below the data directory `data`.
pub open spec fn db_dir_under(data: Seq<char>) -> Seq<char> {
    path_join(data, "com.watchtv.app"@)
}

/// The message reported when no data directory is known.
pub open spec fn no_data_dir_message() -> Seq<char> {
    "Could not find data directory"@
}

/// Where the cache database lives.
#[derive(Debug, Clone, PartialEq, Eq)]
pub struct DbLocation {
    /// The directory to create before the database is opened.
    pub dir: String,
    /// The database file inside it.
    pub file: String,
}

/// The database location for a data directory that was looked up already,
/// or an error when there is none.
pub fn db_location_from(data: Option<String>) -> (result: Result<DbLocation, String>)
    ensures
        match data {
            Some(d) => result matches Ok(loc) && loc.dir@ == db_dir_under(d@) && loc.file@
                == db_file_under(d@),
            None => result matches Err(e) && e@ == no_data_dir_message(),
        },
{
    match data {
        Some(d) => {
            let dir = join_path(d.as_str(), "com.watchtv.app");
            let file = join_path(dir.as_str(), "watchtv.db");
            Ok(DbLocation { dir, file })
        },
        None => Err("Could not find data directory".to_owned()),
    }
}

/// The database location of the current user, below whatever data directory
/// the platform reports, and an error when it reports none.
pub fn get_db_path() -> (result: Result<DbLocation, String>)
    ensures
        match result {
            Ok(loc) => exists|data: Seq<char>|
                loc.dir@ == db_dir_under(data) && loc.file@ == db_file_under(data),
            Err(e) => e@ == no_data_dir_message(),
        },
{
    let data = data_dir();
    let ghost known = crate::types::opt_text(data);
    let result = db_location_from(data);
    proof {
        if let Some(d) = known {
            assert(result->Ok_0.dir@ == db_dir_under(d) && result->Ok_0.file@ == db_file_under(d));
        }
    }
    result
}

} // verus!
