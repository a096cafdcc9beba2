//! Reading the HTTP surface: query strings, history queries and routes.
use vstd::prelude::*;
use crate::errors::AppError;
use crate::ids::{Uid, uuid_parse_of};
use crate::store::clamp_page;
use crate::text::{decimal_of, has_prefix, join2, parse_i32, same_text};

verus! {

/// The pieces of `s` between separators; there is always at least one.
pub open spec fn split_on(s: Seq<char>, sep: char) -> Seq<Seq<char>>
    decreases s.len(),
{
    if s.len() == 0 {
        seq![Seq::<char>::empty()]
    } else {
        let init = split_on(s.drop_last(), sep);
        if s.last() == sep {
            init.push(Seq::<char>::empty())
        } else {
            init.update(init.len() - 1, init.last().push(s.last()))
        }
    }
}

/// Position of the first `=` in `s`, or -1.
pub open spec fn eq_pos(s: Seq<char>) -> int
    decreases s.len(),
{
    if s.len() == 0 {
        -1
    } else if s[0] == '=' {
        0
    } else {
        let k = eq_pos(s.drop_first());
        if k < 0 {
            -1
        } else {
            k + 1
        }
    }
}

/// A `key=value` piece split at its first `=`; a piece without one has no pair.
pub open spec fn pair_of(piece: Seq<char>) -> Option<(Seq<char>, Seq<char>)> {
    let k = eq_pos(piece);
    if k < 0 {
        None
    } else {
        Some((piece.subrange(0, k), piece.subrange(k + 1, piece.len() as int)))
    }
}

pub open spec fn pairs_of(pieces: Seq<Seq<char>>) -> Seq<(Seq<char>, Seq<char>)>
    decreases pieces.len(),
{
    if pieces.len() == 0 {
        Seq::empty()
    } else {
        let rest = pairs_of(pieces.drop_last());
        match pair_of(pieces.last()) {
            Some(kv) => rest.push(kv),
            None => rest,
        }
    }
}

/// The `key=value` pairs of a query string, in order.
pub open spec fn query_pairs(query: Seq<char>) -> Seq<(Seq<char>, Seq<char>)> {
    pairs_of(split_on(query, '&'))
}

/// The value of the last pair with this key: a later pair overrides.
pub open spec fn last_value(pairs: Seq<(Seq<char>, Seq<char>)>, key: Seq<char>) -> Option<
    Seq<char>,
>
    decreases pairs.len(),
{
    if pairs.len() == 0 {
        None
    } else if pairs.last().0 == key {
        Some(pairs.last().1)
    } else {
        last_value(pairs.drop_last(), key)
    }
}

pub open spec fn pairs_view(v: Seq<(String, String)>) -> Seq<(Seq<char>, Seq<char>)> {
    v.map_values(|kv: (String, String)| (kv.0@, kv.1@))
}

fn split_pieces(query: &str, sep: char) -> (r: Vec<String>)
    ensures
        r@.map_values(|p: String| p@) == split_on(query@, sep),
{
    let n = query.unicode_len();
    let mut pieces: Vec<String> = Vec::new();
    pieces.push(String::new());
    let mut i: usize = 0;
    while i < n
        invariant
            n == query@.len(),
            0 <= i <= n,
            pieces@.len() >= 1,
            pieces@.map_values(|p: String| p@) == split_on(query@.subrange(0, i as int), sep),
        decreases n - i,
    {
        let ghost prev = pieces@.map_values(|p: String| p@);
        proof {
            assert(query@.subrange(0, i + 1).drop_last() =~= query@.subrange(0, i as int));
        }
        let c = query.get_char(i);
        if c == sep {
            pieces.push(String::new());
            assert(pieces@.map_values(|p: String| p@) =~= prev.push(Seq::<char>::empty()));
        } else {
            let last = pieces.len() - 1;
            let mut cur = pieces[last].clone();
            let ch = query.substring_char(i, i + 1);
            assert(ch@ =~= seq![c]);
            cur.append(ch);
            assert(cur@ =~= prev.last().push(c));
            pieces.set(last, cur);
            assert(pieces@.map_values(|p: String| p@) =~= prev.update(
                prev.len() - 1,
                prev.last().push(c),
            ));
        }
        i += 1;
    }
    assert(query@.subrange(0, n as int) =~= query@);
    pieces
}

fn find_eq(s: &str) -> (r: Option<usize>)
    ensures
        r matches Some(k) ==> eq_pos(s@) == k && k < s@.len(),
        r is None ==> eq_pos(s@) == -1,
{
    let n = s.unicode_len();
    let mut i: usize = 0;
    while i < n
        invariant
            n == s@.len(),
            0 <= i <= n,
            forall|j: int| 0 <= j < i ==> s@[j] != '=',
        decreases n - i,
    {
        if s.get_char(i) == '=' {
            proof {
                lemma_eq_pos_first(s@, i as int);
            }
            return Some(i);
        }
        i += 1;
    }
    proof {
        lemma_eq_pos_none(s@);
    }
    None
}

proof fn lemma_eq_pos_first(s: Seq<char>, k: int)
    requires
        0 <= k < s.len(),
        s[k] == '=',
        forall|j: int| 0 <= j < k ==> s[j] != '=',
    ensures
        eq_pos(s) == k,
    decreases k,
{
    if k > 0 {
        let t = s.drop_first();
        assert forall|j: int| 0 <= j < k - 1 implies t[j] != '=' by {
            assert(t[j] == s[j + 1]);
        }
        lemma_eq_pos_first(t, k - 1);
    }
}

proof fn lemma_eq_pos_none(s: Seq<char>)
    requires
        forall|j: int| 0 <= j < s.len() ==> s[j] != '=',
    ensures
        eq_pos(s) == -1,
    decreases s.len(),
{
    if s.len() > 0 {
        let t = s.drop_first();
        assert forall|j: int| 0 <= j < t.len() implies t[j] != '=' by {
            assert(t[j] == s[j + 1]);
        }
        lemma_eq_pos_none(t);
    }
}

/// Splits a query string into its `key=value` pairs, in order. Pieces
/// without `=` are skipped; a value may itself hold `=`.
pub fn parse_query_params(query: &str) -> (r: Vec<(String, String)>)
    ensures
        pairs_view(r@) == query_pairs(query@),
{
    let pieces = split_pieces(query, '&');
    let ghost pv = pieces@.map_values(|p: String| p@);
    let mut out: Vec<(String, String)> = Vec::new();
    let mut i: usize = 0;
    while i < pieces.len()
        invariant
            pv == pieces@.map_values(|p: String| p@),
            pv == split_on(query@, '&'),
            0 <= i <= pieces@.len(),
            pairs_view(out@) == pairs_of(pv.subrange(0, i as int)),
        decreases pieces@.len() - i,
    {
        let ghost before = pairs_view(out@);
        proof {
            assert(pv.subrange(0, i + 1).drop_last() =~= pv.subrange(0, i as int));
            assert(pv.subrange(0, i + 1).last() == pieces@[i as int]@);
        }
        let piece = pieces[i].as_str();
        match find_eq(piece) {
            Some(k) => {
                let n = piece.unicode_len();
                let key = String::from_str(piece.substring_char(0, k));
                let value = String::from_str(piece.substring_char(k + 1, n));
                out.push((key, value));
                assert(pairs_view(out@) =~= before.push((piece@.subrange(0, k as int), piece@.subrange(k + 1, n as int))));
            },
            None => {},
        }
        i += 1;
    }
    assert(pv.subrange(0, pieces@.len() as int) =~= pv);
    out
}

/// The value of the last pair with `key`, as a map built from the pairs in
/// order would hold it.
pub fn query_value(params: &Vec<(String, String)>, key: &str) -> (r: Option<String>)
    ensures
        match last_value(pairs_view(params@), key@) {
            Some(v) => r matches Some(s) && s@ == v,
            None => r is None,
        },
{
    let mut i: usize = params.len();
    assert(params@.subrange(0, i as int) =~= params@);
    while i > 0
        invariant
            0 <= i <= params@.len(),
            last_value(pairs_view(params@), key@) == last_value(
                pairs_view(params@.subrange(0, i as int)),
                key@,
            ),
        decreases i,
    {
        proof {
            assert(pairs_view(params@.subrange(0, i as int)).drop_last() =~= pairs_view(
                params@.subrange(0, i - 1),
            ));
        }
        let (k, v) = &params[i - 1];
        if same_text(k.as_str(), key) {
            return Some(v.clone());
        }
        i -= 1;
    }
    None
}

/// A history query: whose history, page size and cursor.
#[derive(Clone, Copy, Debug, PartialEq, Eq, Structural)]
pub struct ListQuery {
    pub player_id: Uid,
    pub limit: i32,
    pub cursor: Option<Uid>,
}

/// The page size a query asks for: `limit` when it is a 32-bit integer,
/// else 100, kept within `[1, 1000]`.
pub open spec fn limit_of(pairs: Seq<(Seq<char>, Seq<char>)>) -> int {
    let asked = match last_value(pairs, "limit"@) {
        Some(t) => match decimal_of(t) {
            Some(v) if i32::MIN <= v <= i32::MAX => v,
            _ => 100,
        },
        None => 100,
    };
    clamp_page(asked)
}

/// The cursor a query names; one that is not a UUID is ignored.
pub open spec fn cursor_of(pairs: Seq<(Seq<char>, Seq<char>)>) -> Option<Uid> {
    match last_value(pairs, "cursor"@) {
        Some(t) => match uuid_parse_of(t) {
            Some(v) => Some(Uid(v)),
            None => None,
        },
        None => None,
    }
}

/// Reads the player of a history request from its path and the page from
/// its query string.
pub fn parse_list_query(player_id_str: &str, query: &str) -> (r: Result<ListQuery, AppError>)
    ensures
        uuid_parse_of(player_id_str@) is None ==> (r matches Err(AppError::Validation(m)) && m@
            == "Invalid player ID: "@ + player_id_str@),
        uuid_parse_of(player_id_str@) matches Some(v) ==> r == Ok::<ListQuery, AppError>(
            ListQuery {
                player_id: Uid(v),
                limit: limit_of(query_pairs(query@)) as i32,
                cursor: cursor_of(query_pairs(query@)),
            },
        ),
{
    let player_id = match Uid::parse(player_id_str) {
        Some(p) => p,
        None => {
            return Err(AppError::Validation(join2("Invalid player ID: ", player_id_str)));
        },
    };
    let params = parse_query_params(query);
    let asked: i32 = match query_value(&params, "limit") {
        Some(t) => match parse_i32(t.as_str()) {
            Some(v) => v,
            None => 100,
        },
        None => 100,
    };
    let limit = if asked < 1 {
        1
    } else if asked > 1000 {
        1000
    } else {
        asked
    };
    let cursor = match query_value(&params, "cursor") {
        Some(t) => Uid::parse(t.as_str()),
        None => None,
    };
    Ok(ListQuery { player_id, limit, cursor })
}

/// The request methods that the service tells apart.
#[derive(Clone, Copy, Debug, PartialEq, Eq, Structural)]
pub enum HttpMethod {
    Get,
    Post,
    Options,
    Other,
}

/// Where a request goes.
#[derive(Debug, PartialEq, Eq)]
pub enum Route {
    Purchase,
    /// A player's history; holds the path segment naming the player.
    Transactions(String),
    Health,
    Preflight,
    NotFound,
}

/// `s` without its trailing `/` characters.
pub open spec fn trim_slashes(s: Seq<char>) -> Seq<char>
    decreases s.len(),
{
    if s.len() > 0 && s.last() == '/' {
        trim_slashes(s.drop_last())
    } else {
        s
    }
}

fn trim_end_slashes(s: &str) -> (r: String)
    ensures
        r@ == trim_slashes(s@),
{
    let mut end = s.unicode_len();
    assert(s@.subrange(0, end as int) =~= s@);
    while end > 0 && s.get_char(end - 1) == '/'
        invariant
            end <= s@.len(),
            trim_slashes(s@) == trim_slashes(s@.subrange(0, end as int)),
        decreases end,
    {
        proof {
            assert(s@.subrange(0, end as int).drop_last() =~= s@.subrange(0, end - 1));
        }
        end -= 1;
    }
    String::from_str(s.substring_char(0, end))
}

/// Routing by method and path: purchases, a player's history under
/// `/transactions/`, health, and CORS preflight for any path.
pub fn route_for(method: HttpMethod, path: &str) -> (r: Route)
    ensures
        method is Post && path@ == "/purchase"@ ==> r is Purchase,
        method is Get && has_prefix_spec(path@, "/transactions/"@) ==> (r matches Route::Transactions(p)
            && p@ == trim_slashes(path@.subrange(14, path@.len() as int))),
        method is Get && !has_prefix_spec(path@, "/transactions/"@) && path@ == "/health"@ ==> r is Health,
        method is Options ==> r is Preflight,
        !(method is Post && path@ == "/purchase"@) && !(method is Get && has_prefix_spec(
            path@,
            "/transactions/"@,
        )) && !(method is Get && path@ == "/health"@) && !(method is Options) ==> r is NotFound,
{
    proof {
        reveal_strlit("/transactions/");
    }
    match method {
        HttpMethod::Post => {
            if same_text(path, "/purchase") {
                Route::Purchase
            } else {
                Route::NotFound
            }
        },
        HttpMethod::Get => {
            if has_prefix(path, "/transactions/") {
                let rest = path.substring_char(14, path.unicode_len());
                Route::Transactions(trim_end_slashes(rest))
            } else if same_text(path, "/health") {
                Route::Health
            } else {
                Route::NotFound
            }
        },
        HttpMethod::Options => Route::Preflight,
        HttpMethod::Other => Route::NotFound,
    }
}

pub open spec fn has_prefix_spec(s: Seq<char>, prefix: Seq<char>) -> bool {
    prefix.len() <= s.len() && s.subrange(0, prefix.len() as int) == prefix
}

} // verus!
