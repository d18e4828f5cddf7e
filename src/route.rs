use vstd::prelude::*;
use vstd::string::*;

verus! {

/// The pages that a location can select.
#[derive(Debug, Clone, PartialEq, Eq)]
pub enum AppRoute {
    /// The receipt of the item whose id the location carries.
    FetchServiceExample { id: String },
}

impl AppRoute {
    /// The parameter that the route carries.
    pub open spec fn param(&self) -> Seq<char> {
        match self {
            AppRoute::FetchServiceExample { id } => id@,
        }
    }
}

/// The fixed part of an item location, before its id.
pub open spec fn item_prefix() -> Seq<char> {
    seq!['/', 'i', 't', 'e', 'm', '/']
}

/// The marker that a location inside the page's fragment starts with.
pub open spec fn fragment_marker() -> Seq<char> {
    seq!['/', '#']
}

/// `path` without its fragment marker, if it has one.
pub open spec fn strip_marker(path: Seq<char>) -> Seq<char> {
    if path.len() >= 2 && path.subrange(0, 2) == fragment_marker() {
        path.subrange(2, path.len() as int)
    } else {
        path
    }
}

/// The id that `path` selects: `path` is `/item/{id}`, possibly after the
/// fragment marker `/#`, with an id that is not empty and holds no `/`.
pub open spec fn item_param(path: Seq<char>) -> Option<Seq<char>> {
    let rest = strip_marker(path);
    if rest.len() > item_prefix().len() && rest.subrange(0, item_prefix().len() as int)
        == item_prefix() && forall|i: int|
        item_prefix().len() <= i < rest.len() ==> rest[i] != '/' {
        Some(rest.subrange(item_prefix().len() as int, rest.len() as int))
    } else {
        None
    }
}

/// The location of the page of `id`.
pub open spec fn item_path(id: Seq<char>) -> Seq<char> {
    fragment_marker() + item_prefix() + id
}

/// Selects the page for `path`: the item page with its id, or none for a
/// location that no route matches.
pub fn match_route(path: &str) -> (r: Option<AppRoute>)
    ensures
        r is Some <==> item_param(path@) is Some,
        r is Some ==> item_param(path@) == Some(r->Some_0.param()),
{
    let n = path.unicode_len();
    let start: usize = if n >= 2 && path.get_char(0) == '/' && path.get_char(1) == '#' {
        2
    } else {
        0
    };
    proof {
        if n >= 2 {
            if path@.subrange(0, 2) == fragment_marker() {
                assert(path@[0] == path@.subrange(0, 2)[0]);
                assert(path@[1] == path@.subrange(0, 2)[1]);
            }
            if start == 2 {
                assert(path@.subrange(0, 2) =~= fragment_marker());
            }
        }
    }
    let ghost rest = strip_marker(path@);
    assert(rest =~= path@.subrange(start as int, n as int));
    if n - start <= 6 {
        return None;
    }
    let prefix = "/item/";
    proof {
        reveal_strlit("/item/");
        assert(prefix@ =~= item_prefix());
    }
    let mut i: usize = 0;
    while i < 6
        invariant
            0 <= i <= 6,
            start + 6 < n,
            n == path@.len(),
            prefix@ == item_prefix(),
            rest == path@.subrange(start as int, n as int),
            rest == strip_marker(path@),
            forall|k: int| 0 <= k < i ==> rest[k] == item_prefix()[k],
        decreases 6 - i,
    {
        if path.get_char(start + i) != prefix.get_char(i) {
            proof {
                assert(rest[i as int] == path@[start + i]);
                assert(rest.subrange(0, 6)[i as int] != item_prefix()[i as int]);
                assert(rest.subrange(0, 6) != item_prefix());
                assert(item_param(path@) is None);
            }
            return None;
        }
        i = i + 1;
    }
    assert(rest.subrange(0, 6) =~= item_prefix());
    let mut j: usize = start + 6;
    while j < n
        invariant
            start + 6 <= j <= n,
            n == path@.len(),
            rest == path@.subrange(start as int, n as int),
            rest == strip_marker(path@),
            forall|k: int| start + 6 <= k < j ==> path@[k] != '/',
        decreases n - j,
    {
        if path.get_char(j) == '/' {
            proof {
                let k = j - start;
                assert(rest[k] == '/');
                assert(item_prefix().len() <= k < rest.len());
                assert(item_param(path@) is None);
            }
            return None;
        }
        j = j + 1;
    }
    assert forall|k: int| item_prefix().len() <= k < rest.len() implies rest[k] != '/' by {
        assert(rest[k] == path@[k + start]);
    }
    let id = path.substring_char(start + 6, n);
    let r = AppRoute::FetchServiceExample { id: String::from_str(id) };
    assert(rest.subrange(6, rest.len() as int) =~= id@);
    Some(r)
}

/// The location that selects `route`.
pub fn route_path(route: &AppRoute) -> (r: String)
    ensures
        r@ == item_path(route.param()),
{
    proof {
        reveal_strlit("/#/item/");
    }
    let mut s = String::from_str("/#/item/");
    match route {
        AppRoute::FetchServiceExample { id } => {
            s.append(id.as_str());
        },
    }
    assert(s@ =~= item_path(route.param()));
    s
}

/// The location of a route selects that route again, for every id that a
/// location can carry.
pub proof fn lemma_route_round_trip(id: Seq<char>)
    requires
        id.len() > 0,
        forall|i: int| 0 <= i < id.len() ==> id[i] != '/',
    ensures
        item_param(item_path(id)) == Some(id),
{
    let path = item_path(id);
    assert(path.subrange(0, 2) =~= fragment_marker());
    let rest = strip_marker(path);
    assert(rest =~= item_prefix() + id);
    assert(rest.subrange(0, 6) =~= item_prefix());
    assert(rest.subrange(6, rest.len() as int) =~= id);
    assert forall|i: int| item_prefix().len() <= i < rest.len() implies rest[i] != '/' by {
        assert(rest[i] == id[i - 6]);
    }
}

} // verus!
