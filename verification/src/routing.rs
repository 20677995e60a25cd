//! Addresses that no handler has of its own: users' pages and files.
use crate::account::{is_word, valid_user, word_only};
use crate::text::{starts_with, strip_prefix};
use vstd::prelude::*;
use vstd::string::*;

verus! {

/// What an address leads to.
#[derive(Debug)]
pub enum Route {
    /// The page of the account of this name.
    Account(String),
    /// A file.
    File,
}

pub enum RouteView {
    Account(Seq<char>),
    File,
}

impl DeepView for Route {
    type V = RouteView;

    open spec fn deep_view(&self) -> RouteView {
        match self {
            Route::Account(name) => RouteView::Account(name@),
            Route::File => RouteView::File,
        }
    }
}

/// What the path of an address leads to: `/@` and a name lead to the page of an account.
pub open spec fn route_of(path: Seq<char>) -> RouteView {
    if starts_with(path, "/@"@) && path.skip(2).len() > 0 && is_word(path.skip(2)) {
        RouteView::Account(path.skip(2))
    } else {
        RouteView::File
    }
}

/// What the path of an address leads to.
pub fn fallback(path: &str) -> (r: Route)
    ensures
        r.deep_view() == route_of(path@),
{
    proof {
        reveal_strlit("/@");
    }
    match strip_prefix(path, "/@") {
        Some(rest) => if !rest.as_str().is_empty() && word_only(rest.as_str()) {
            Route::Account(rest)
        } else {
            Route::File
        },
        None => Route::File,
    }
}

/// Every account that may be registered has a page.
pub proof fn law_registered_account_has_page(account_name: Seq<char>, password: Seq<char>)
    requires
        valid_user(account_name, password),
    ensures
        route_of("/@"@ + account_name) == RouteView::Account(account_name),
{
    reveal_strlit("/@");
    let path = "/@"@ + account_name;
    assert(path.take(2) =~= "/@"@);
    assert(path.skip(2) =~= account_name);
}

/// A path leads to the page of an account exactly where it is `/@` and a word that is not empty; the
/// page is that of the whole word.
pub proof fn law_account_paths(path: Seq<char>, name: Seq<char>)
    ensures
        route_of(path) == RouteView::Account(name) <==> path == "/@"@ + name && name.len() > 0
            && is_word(name),
        route_of(path) is File <==> !(path.len() > 2 && path.take(2) == "/@"@ && is_word(
            path.skip(2),
        )),
{
    reveal_strlit("/@");
    if path == "/@"@ + name {
        assert(path.take(2) =~= "/@"@);
        assert(path.skip(2) =~= name);
    }
    if path.len() >= 2 && path.take(2) == "/@"@ {
        assert(path =~= path.take(2) + path.skip(2));
    }
}

/// A route is known by its kind, and the name in it is known whole.
pub proof fn law_route_view(name: String)
    ensures
        Route::Account(name).deep_view() == RouteView::Account(name@),
        Route::File.deep_view() == RouteView::File,
{
}

} // verus!
