//! The paths under which the files of the client are served, and the media
//! type with which each is answered.

use vstd::prelude::*;
use vstd::string::*;

verus! {

/// The path of a file below the client's root: its directory, where it has
/// one, a slash, and its name.
pub open spec fn file_path(directory: Seq<char>, name: Seq<char>) -> Seq<char> {
    if directory.len() == 0 {
        name
    } else {
        directory + "/"@ + name
    }
}

/// The directory's own path, without and with a trailing slash; the root has
/// the second form only.
pub open spec fn directory_routes(directory: Seq<char>) -> Seq<Seq<char>> {
    if directory.len() == 0 {
        seq!["/"@]
    } else {
        seq!["/"@ + directory, "/"@ + directory + "/"@]
    }
}

/// The routes under which a file is served: its own path and, where the
/// file's name is the alias, the routes of its directory.
pub open spec fn routes_of(directory: Seq<char>, name: Seq<char>, alias: Option<Seq<char>>) -> Seq<
    Seq<char>,
> {
    let own = seq!["/"@ + file_path(directory, name)];
    if alias == Some(name) {
        own + directory_routes(directory)
    } else {
        own
    }
}

/// The texts of a list of strings.
pub open spec fn route_texts(routes: Seq<String>) -> Seq<Seq<char>> {
    routes.map_values(|route: String| route@)
}

/// Computes the routes under which a file is served. `directory` is the path
/// of the file's directory below the client's root, empty for the root
/// itself; `name` is the file's name.
pub fn file_routes(directory: &str, name: &str, alias: Option<&str>) -> (routes: Vec<String>)
    ensures
        route_texts(routes@) == routes_of(
            directory@,
            name@,
            match alias {
                Some(a) => Some(a@),
                None => None,
            },
        ),
{
    let mut routes: Vec<String> = Vec::new();
    let mut own = String::from_str("/");
    if !directory.is_empty() {
        own.append(directory);
        own.append("/");
    }
    own.append(name);
    assert(own@ =~= "/"@ + file_path(directory@, name@));
    routes.push(own);
    let aliased = match alias {
        Some(a) => String::from_str(a) == String::from_str(name),
        None => false,
    };
    if aliased {
        if directory.is_empty() {
            routes.push(String::from_str("/"));
        } else {
            let mut bare = String::from_str("/");
            bare.append(directory);
            let mut slashed = bare.clone();
            slashed.append("/");
            routes.push(bare);
            routes.push(slashed);
        }
    }
    assert(route_texts(routes@) =~= routes_of(
        directory@,
        name@,
        match alias {
            Some(a) => Some(a@),
            None => None,
        },
    ));
    routes
}

/// The media type that `infer` reads from the first bytes of a file, if it
/// knows them.
pub uninterp spec fn sniffed_type(contents: Seq<u8>) -> Option<Seq<char>>;

/// The media type that `mime_guess` has for the extension of a path, or plain
/// text where it has none.
pub uninterp spec fn guessed_type(path: Seq<char>) -> Seq<char>;

/// Calls `infer::get` and takes the media type of the kind it found. The
/// result depends on the bytes alone. The crate is built without its parser
/// of compound files, so every kind is told from leading bytes, each read
/// behind a test of the length.
#[verifier::external_body]
fn sniff_type(contents: &[u8]) -> (r: Option<String>)
    ensures
        (match r {
            Some(t) => Some(t@),
            None => None,
        }) == sniffed_type(contents@),
{
    match infer::get(contents) {
        Some(kind) => Some(kind.mime_type().to_owned()),
        None => None,
    }
}

/// Calls `mime_guess::from_path` and takes the first guess, or plain text
/// where there is none. The result depends on the path alone.
#[verifier::external_body]
fn guess_type(path: &str) -> (r: String)
    ensures
        r@ == guessed_type(path@),
{
    mime_guess::from_path(path).first_or_text_plain().to_string()
}

/// The media type to answer with: the one read from the contents, or else
/// the one guessed from the name.
pub fn pick_type(sniffed: Option<String>, guessed: String) -> (r: String)
    ensures
        r@ == (match sniffed {
            Some(t) => t@,
            None => guessed@,
        }),
{
    match sniffed {
        Some(t) => t,
        None => guessed,
    }
}

/// The media type of a file: what its contents show, or else what its path
/// suggests.
pub fn media_type(contents: &[u8], path: &str) -> (r: String)
    ensures
        r@ == (match sniffed_type(contents@) {
            Some(t) => t,
            None => guessed_type(path@),
        }),
{
    pick_type(sniff_type(contents), guess_type(path))
}

} // verus!
