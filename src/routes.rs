//! The text that the HTTP surface serves without touching the archive.
use vstd::prelude::*;

verus! {

/// The welcome page: a greeting and the list of routes.
pub const WELCOME: &'static str = "Welcome to a better twitter archiver! \n\nAvailable routes:\n\n#[get(\"/tweet/<id>\")]\n\n#[get(\"/conversation/<id>\")]\n\n#[get(\"/conversation/<id>/<tweet_id>\")]\n\n#[get(\"/user/<twitter_handle>\")]\n\n#[get(\"/user/<twitter_handle>/info\")]\n\n#[get(\"/user/<twitter_handle>/tweets\")]\n\n#[get(\"/user/<twitter_handle>/conversations\")]\n\n#[get(\"/search?<query>\")]\n\n";

/// The welcome text, listing the routes.
pub fn index() -> (r: &'static str)
    ensures
        r@ == WELCOME@,
{
    WELCOME
}

/// The answer of the search route: a description of the search it stands for.
pub fn search(query: &str) -> (r: String)
    ensures
        r@ == "This route will run a search of \""@ + query@ + "\" through all the tweets locally stored"@,
{
    let mut text = String::from_str("This route will run a search of \"");
    text.append(query);
    text.append("\" through all the tweets locally stored");
    text
}

} // verus!
