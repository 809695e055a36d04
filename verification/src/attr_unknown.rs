//! Attribute patterns with one `__unknown__` marker: where the marker stands in the
//! tokens of a pattern, and what stands in its place in a matching attribute.
//! Positions inside a text are counted in chars.
use vstd::prelude::*;
use vstd::string::*;

use crate::text::{ends_with, find_text, first_at, occurs_at, starts_with};
use crate::token_tree::{string_literal_value, TokenTree};

verus! {

/// The marker that stands for the unknown part of a pattern.
pub open spec fn marker() -> Seq<char> {
    seq!['_', '_', 'u', 'n', 'k', 'n', 'o', 'w', 'n', '_', '_']
}

/// Where the marker first occurs in `s`, if at all.
pub open spec fn marker_pos(s: Seq<char>) -> Option<int> {
    if exists|i: int| first_at(s, marker(), i) {
        Some(choose|i: int| first_at(s, marker(), i))
    } else {
        None
    }
}

/// The text of a token that the marker is looked for in: an identifier's name, a
/// string literal's value, or another literal as printed. The positions found are
/// those that a matching token is later cut at.
pub open spec fn searched_text(t: TokenTree) -> Option<Seq<char>> {
    match t {
        TokenTree::Ident(s) => Some(s@),
        TokenTree::Literal { text: _, str_value: Some(v) } => Some(v@),
        TokenTree::Literal { text, str_value: None } => Some(text@),
        _ => None,
    }
}

/// The first marker in `ts` from position `i` on, searching groups depth first: the
/// indices that lead to the token holding it (groups, then the token), the number of
/// chars before the marker and after it in that token, and the tokens after that token
/// in its group.
pub open spec fn search_stream(ts: Seq<TokenTree>, i: int) -> Option<(Seq<int>, int, int, Seq<TokenTree>)>
    decreases ts, ts.len() - i,
{
    if i < 0 || i >= ts.len() {
        None
    } else {
        match ts[i] {
            TokenTree::Group(_, inner) => {
                proof {
                    assert(decreases_to!(ts => ts[i]));
                }
                match search_stream(inner@, 0) {
                    Some((path, a, b, after)) => Some((seq![i] + path, a, b, after)),
                    None => search_stream(ts, i + 1),
                }
            },
            _ => match searched_text(ts[i]) {
                Some(s) => match marker_pos(s) {
                    Some(p) => Some((seq![i], p, s.len() - (p + marker().len()), ts.subrange(i + 1, ts.len() as int))),
                    None => search_stream(ts, i + 1),
                },
                None => search_stream(ts, i + 1),
            },
        }
    }
}

/// The same place as `first_at`, for the marker.
proof fn lemma_marker_pos(s: Seq<char>, i: int)
    requires
        first_at(s, marker(), i),
    ensures
        marker_pos(s) == Some(i),
{
    let j = choose|j: int| first_at(s, marker(), j);
    assert(first_at(s, marker(), j));
    if j < i {
        assert(!occurs_at(s, marker(), j));
    } else if i < j {
        assert(!occurs_at(s, marker(), i));
    }
}

/// The first marker in `s`, as a char position.
fn find_marker(s: &str) -> (r: Option<usize>)
    ensures
        match marker_pos(s@) {
            None => r is None,
            Some(p) => r == Some(p as usize) && p + marker().len() <= s@.len(),
        },
{
    let needle = "__unknown__";
    proof {
        reveal_strlit("__unknown__");
        assert(needle@ =~= marker());
    }
    match find_text(s, needle) {
        Some(p) => {
            proof {
                lemma_marker_pos(s@, p as int);
            }
            Some(p)
        },
        None => {
            assert(!exists|i: int| first_at(s@, marker(), i));
            None
        },
    }
}

/// The integers of a list of positions.
pub open spec fn ints(v: Seq<usize>) -> Seq<int> {
    v.map_values(|x: usize| x as int)
}

/// Searches `ts` (consumed) for the first marker, as `search_stream` from 0 says.
fn search(tokens: Vec<TokenTree>, Ghost(orig): Ghost<Seq<TokenTree>>) -> (r: Option<(Vec<usize>, usize, usize, Vec<TokenTree>)>)
    requires
        orig == tokens@,
    ensures
        match search_stream(tokens@, 0) {
            None => r is None,
            Some((path, a, b, after)) => r matches Some((rp, ra, rb, rafter)) && ints(rp@) == path
                && ra == a && rb == b && rafter@ == after,
        },
        r matches Some((rp, _, _, _)) ==> rp@.len() >= 1,
    decreases orig,
{
    let mut ts = tokens;
    let n = ts.len();
    let mut i: usize = 0;
    assert(orig.skip(0) =~= orig);
    while i < n
        invariant
            n == orig.len(),
            orig == tokens@,
            i <= n,
            ts@ == orig.skip(i as int),
            search_stream(orig, 0) == search_stream(orig, i as int),
        decreases n - i,
    {
        let t = ts.remove(0);
        assert(t == orig[i as int]);
        assert(ts@ =~= orig.skip(i + 1));
        match t {
            TokenTree::Group(_, inner) => {
                let ghost inner_s = inner@;
                assert(decreases_to!(orig => orig[i as int]));
                assert(decreases_to!(orig[i as int] => inner));
                assert(decreases_to!(orig => inner@));
                match search(inner, Ghost(inner_s)) {
                    Some((path, a, b, after)) => {
                        assert(search_stream(orig, i as int) == Some(
                            (seq![i as int] + ints(path@), a as int, b as int, after@),
                        ));
                        let mut full: Vec<usize> = Vec::new();
                        full.push(i);
                        let ghost fp = full@;
                        let ghost pp = path@;
                        let mut path = path;
                        full.append(&mut path);
                        assert(ints(full@) =~= seq![i as int] + ints(pp));
                        return Some((full, a, b, after));
                    },
                    None => {},
                }
            },
            TokenTree::Ident(s) => {
                match find_marker(s.as_str()) {
                    Some(p) => {
                        let len = s.as_str().unicode_len();
                        let mut full: Vec<usize> = Vec::new();
                        full.push(i);
                        assert(ints(full@) =~= seq![i as int]);
                        assert(ts@ =~= orig.subrange(i + 1, orig.len() as int));
                        return Some((full, p, len - (p + 11), ts));
                    },
                    None => {},
                }
            },
            TokenTree::Literal { text, str_value } => {
                let searched = match str_value {
                    Some(v) => v,
                    None => text,
                };
                match find_marker(searched.as_str()) {
                    Some(p) => {
                        let len = searched.as_str().unicode_len();
                        let mut full: Vec<usize> = Vec::new();
                        full.push(i);
                        assert(ints(full@) =~= seq![i as int]);
                        assert(ts@ =~= orig.subrange(i + 1, orig.len() as int));
                        return Some((full, p, len - (p + 11), ts));
                    },
                    None => {},
                }
            },
            TokenTree::Punct { .. } => {},
        }
        i = i + 1;
    }
    None
}


/// `proc_macro2::Literal::string`: the string literal token holding `value`, taken by
/// its printed text. How the text escapes `value` depends on which printer proc_macro2
/// picks at run time; whichever prints it, the text is a string literal that denotes
/// `value`.
#[verifier::external_body]
fn string_literal(value: &str) -> (r: String)
    ensures
        string_literal_value(r@) == Some(value@),
{
    proc_macro2::Literal::string(value).to_string()
}

/// Where the marker stood in a pattern, and what surrounded it.
pub struct PartialUnknownPos {
    skip_start: usize,
    skip_end: usize,
}

/// An attribute pattern with one marker.
pub struct AttrWithUnknown {
    unknown_coordinate: usize,
    unknown_group_coordinates: Vec<usize>,
    partial_unknown_cords: PartialUnknownPos,
    tokens_after_unknown: Vec<TokenTree>,
    before_unknown: String,
    after_unknown: String,
}

/// The stream inside the groups that `path` leads to, one index per level.
pub open spec fn descend(ts: Seq<TokenTree>, path: Seq<int>) -> Option<Seq<TokenTree>>
    decreases path.len(),
{
    if path.len() == 0 {
        Some(ts)
    } else if 0 <= path[0] < ts.len() {
        match ts[path[0]] {
            TokenTree::Group(_, inner) => descend(inner@, path.drop_first()),
            _ => None,
        }
    } else {
        None
    }
}

/// The tokens from `coord` on, without the last `after_len`; `None` when fewer remain.
pub open spec fn window(ts: Seq<TokenTree>, coord: int, after_len: int) -> Option<Seq<TokenTree>> {
    let rest = if coord <= ts.len() {
        ts.skip(coord)
    } else {
        Seq::empty()
    };
    if after_len == 0 {
        Some(rest)
    } else if after_len <= rest.len() {
        Some(rest.take(rest.len() - after_len))
    } else {
        None
    }
}

/// One token of what stands in place of the marker: a token kept as it is, or an
/// identifier or string literal cut down to the given text.
pub enum Piece {
    Keep(TokenTree),
    IdentText(Seq<char>),
    LitText(Seq<char>),
}

/// The text a token is cut in: an identifier's name, a string literal's value.
pub open spec fn token_cut_text(t: TokenTree) -> Option<Seq<char>> {
    match t {
        TokenTree::Ident(s) => Some(s@),
        TokenTree::Literal { text: _, str_value: Some(v) } => Some(v@),
        _ => None,
    }
}

/// The text a piece is cut in.
pub open spec fn piece_text(p: Piece) -> Option<Seq<char>> {
    match p {
        Piece::Keep(t) => token_cut_text(t),
        Piece::IdentText(s) => Some(s),
        Piece::LitText(s) => Some(s),
    }
}

/// Whether a piece is an identifier.
pub open spec fn is_ident_piece(p: Piece) -> bool {
    match p {
        Piece::Keep(t) => t is Ident,
        Piece::IdentText(_) => true,
        Piece::LitText(_) => false,
    }
}

/// The piece cut down to `rest`.
pub open spec fn renew(p: Piece, rest: Seq<char>) -> Piece {
    if is_ident_piece(p) {
        Piece::IdentText(rest)
    } else {
        Piece::LitText(rest)
    }
}

/// The token `t` stands for the piece `p`.
pub open spec fn piece_match(t: TokenTree, p: Piece) -> bool {
    match p {
        Piece::Keep(k) => t == k,
        Piece::IdentText(s) => t matches TokenTree::Ident(n) && n@ == s,
        Piece::LitText(s) => t matches TokenTree::Literal { text, str_value: Some(v) } && v@ == s
            && string_literal_value(text@) == Some(s),
    }
}

/// The tokens stand for the pieces, one for one.
pub open spec fn pieces_match(ts: Seq<TokenTree>, ps: Seq<Piece>) -> bool {
    ts.len() == ps.len() && forall|i: int| 0 <= i < ts.len() ==> piece_match(#[trigger] ts[i], ps[i])
}

/// The pieces with `k` chars cut from the front of the first (`front`) or from the
/// back of the last; the piece goes when nothing is left of it. `Err` when there is
/// no piece, it is neither identifier nor string literal, or it is shorter than `k`.
pub open spec fn cut_pieces(ps: Seq<Piece>, k: int, front: bool) -> Result<Seq<Piece>, ()> {
    if k == 0 {
        Ok(ps)
    } else if ps.len() == 0 {
        Err(())
    } else {
        let at = if front {
            0
        } else {
            ps.len() - 1
        };
        match piece_text(ps[at]) {
            None => Err(()),
            Some(s) => if k > s.len() {
                Err(())
            } else {
                let rest = if front {
                    s.skip(k)
                } else {
                    s.take(s.len() - k)
                };
                if rest.len() == 0 {
                    Ok(ps.remove(at))
                } else {
                    Ok(ps.update(at, renew(ps[at], rest)))
                }
            },
        }
    }
}

/// What stands in place of the marker in the attribute `ts`, printed as `text`:
/// `Ok(None)` when the text does not begin with `before` and end with `after`; `Err`
/// when the tokens do not have the pattern's shape.
pub open spec fn pieces_for(
    path: Seq<int>,
    coord: int,
    after_len: int,
    skip_start: int,
    skip_end: int,
    before: Seq<char>,
    after: Seq<char>,
    ts: Seq<TokenTree>,
    text: Seq<char>,
) -> Result<Option<Seq<Piece>>, ()> {
    if !(before.is_prefix_of(text) && after.is_suffix_of(text)) {
        Ok(None)
    } else {
        match descend(ts, path) {
            None => Err(()),
            Some(inner) => match window(inner, coord, after_len) {
                None => Err(()),
                Some(mid) => match cut_pieces(mid.map_values(|t: TokenTree| Piece::Keep(t)), skip_start, true) {
                    Err(_) => Err(()),
                    Ok(ps) => match cut_pieces(ps, skip_end, false) {
                        Err(_) => Err(()),
                        Ok(qs) => Ok(Some(qs)),
                    },
                },
            },
        }
    }
}

impl AttrWithUnknown {
    /// The indices of the groups that lead to the marker.
    pub closed spec fn group_path(&self) -> Seq<int> {
        ints(self.unknown_group_coordinates@)
    }

    /// The index of the marker's token in its group.
    pub closed spec fn coordinate(&self) -> int {
        self.unknown_coordinate as int
    }

    /// The chars before the marker in its token.
    pub closed spec fn skip_start(&self) -> int {
        self.partial_unknown_cords.skip_start as int
    }

    /// The chars after the marker in its token.
    pub closed spec fn skip_end(&self) -> int {
        self.partial_unknown_cords.skip_end as int
    }

    /// The tokens after the marker's token in its group, last first.
    pub closed spec fn tokens_after(&self) -> Seq<TokenTree> {
        self.tokens_after_unknown@
    }

    /// The printed pattern before the marker.
    pub closed spec fn before(&self) -> Seq<char> {
        self.before_unknown@
    }

    /// The printed pattern after the marker.
    pub closed spec fn after(&self) -> Seq<char> {
        self.after_unknown@
    }
}


/// Reverses a vector of tokens.
fn reversed(v: Vec<TokenTree>) -> (r: Vec<TokenTree>)
    ensures
        r@ == v@.reverse(),
{
    let ghost orig = v@;
    let mut v = v;
    let mut out: Vec<TokenTree> = Vec::new();
    while v.len() > 0
        invariant
            v@.len() <= orig.len(),
            v@ == orig.take(v@.len() as int),
            out@.len() == orig.len() - v@.len(),
            forall|i: int| 0 <= i < out@.len() ==> out@[i] == orig[orig.len() - 1 - i],
        decreases v@.len(),
    {
        let ghost k = v@.len();
        let t = v.pop().unwrap();
        out.push(t);
        assert(v@ =~= orig.take(v@.len() as int));
    }
    assert(out@ =~= orig.reverse());
    out
}

impl AttrWithUnknown {
    /// The pattern in the attribute `tokens` that prints as `text`: `Ok(None)` when
    /// the text holds no marker, `Err` when the marker is in the text but no
    /// identifier or literal of the tokens holds it.
    pub fn new(tokens: Vec<TokenTree>, text: &str) -> (r: Result<Option<AttrWithUnknown>, ()>)
        ensures
            match marker_pos(text@) {
                None => r matches Ok(None),
                Some(p) => match search_stream(tokens@, 0) {
                    None => r is Err,
                    Some((path, a, b, after)) => r matches Ok(Some(w))
                        && w.before() == text@.take(p)
                        && w.after() == text@.skip(p + marker().len())
                        && w.group_path() == path.drop_last()
                        && w.coordinate() == path.last()
                        && w.skip_start() == a
                        && w.skip_end() == b
                        && w.tokens_after() == after.reverse(),
                },
            },
    {
        let pos = match find_marker(text) {
            None => {
                return Ok(None);
            },
            Some(p) => p,
        };
        let len = text.unicode_len();
        let before_unknown = String::from_str(text.substring_char(0, pos));
        let after_unknown = String::from_str(text.substring_char(pos + 11, len));
        let ghost ts = tokens@;
        match search(tokens, Ghost(ts)) {
            None => Err(()),
            Some((path, a, b, after)) => {
                let ghost full = path@;
                let mut path = path;
                let coord = path.pop().unwrap();
                assert(ints(path@) =~= ints(full).drop_last());
                let tokens_after_unknown = reversed(after);
                Ok(
                    Some(
                        AttrWithUnknown {
                            unknown_coordinate: coord,
                            unknown_group_coordinates: path,
                            partial_unknown_cords: PartialUnknownPos { skip_start: a, skip_end: b },
                            tokens_after_unknown,
                            before_unknown,
                            after_unknown,
                        },
                    ),
                )
            },
        }
    }
}


/// Cuts `k` chars from the front (`front`) or the back of the token that stands for
/// the piece `p`: `Ok(None)` when nothing is left.
fn cut_token(t: TokenTree, k: usize, front: bool, Ghost(p): Ghost<Piece>) -> (r: Result<Option<TokenTree>, ()>)
    requires
        piece_match(t, p),
    ensures
        match piece_text(p) {
            None => r is Err,
            Some(s) => if k > s.len() {
                r is Err
            } else {
                let rest = if front {
                    s.skip(k as int)
                } else {
                    s.take(s.len() - k)
                };
                if rest.len() == 0 {
                    r matches Ok(None)
                } else {
                    r matches Ok(Some(u)) && piece_match(u, renew(p, rest))
                }
            },
        },
{
    match t {
        TokenTree::Ident(s) => {
            let len = s.as_str().unicode_len();
            if k > len {
                return Err(());
            }
            let rest = if front {
                s.as_str().substring_char(k, len)
            } else {
                s.as_str().substring_char(0, len - k)
            };
            assert(front ==> rest@ =~= s@.skip(k as int));
            assert(!front ==> rest@ =~= s@.take(s@.len() - k));
            if rest.unicode_len() == 0 {
                Ok(None)
            } else {
                Ok(Some(TokenTree::Ident(String::from_str(rest))))
            }
        },
        TokenTree::Literal { text: _, str_value } => match str_value {
            None => Err(()),
            Some(v) => {
                let len = v.as_str().unicode_len();
                if k > len {
                    return Err(());
                }
                let rest = if front {
                    v.as_str().substring_char(k, len)
                } else {
                    v.as_str().substring_char(0, len - k)
                };
                assert(front ==> rest@ =~= v@.skip(k as int));
                assert(!front ==> rest@ =~= v@.take(v@.len() - k));
                if rest.unicode_len() == 0 {
                    Ok(None)
                } else {
                    Ok(Some(TokenTree::Literal { text: string_literal(rest), str_value: Some(String::from_str(rest)) }))
                }
            },
        },
        _ => Err(()),
    }
}

/// Cuts `k` chars from the first token (`front`) or the last one, as `cut_pieces` says.
fn cut_end(v: &mut Vec<TokenTree>, k: usize, front: bool, Ghost(ps): Ghost<Seq<Piece>>) -> (r: Result<(), ()>)
    requires
        pieces_match(old(v)@, ps),
    ensures
        match cut_pieces(ps, k as int, front) {
            Err(_) => r is Err,
            Ok(qs) => r is Ok && pieces_match(final(v)@, qs),
        },
{
    if k == 0 {
        return Ok(());
    }
    if v.len() == 0 {
        return Err(());
    }
    let at: usize = if front {
        0
    } else {
        v.len() - 1
    };
    let ghost before = v@;
    let t = v.remove(at);
    assert(piece_match(before[at as int], ps[at as int]));
    match cut_token(t, k, front, Ghost(ps[at as int])) {
        Err(()) => Err(()),
        Ok(None) => {
            assert(pieces_match(v@, ps.remove(at as int))) by {
                assert forall|i: int| 0 <= i < v@.len() implies piece_match(#[trigger] v@[i], ps.remove(at as int)[i]) by {
                    if i < at {
                        assert(v@[i] == before[i]);
                    } else {
                        assert(v@[i] == before[i + 1]);
                    }
                }
            }
            Ok(())
        },
        Ok(Some(u)) => {
            v.insert(at, u);
            proof {
                let rest = if front {
                    piece_text(ps[at as int])->0.skip(k as int)
                } else {
                    piece_text(ps[at as int])->0.take(piece_text(ps[at as int])->0.len() - k)
                };
                let qs = ps.update(at as int, renew(ps[at as int], rest));
                assert forall|i: int| 0 <= i < v@.len() implies piece_match(#[trigger] v@[i], qs[i]) by {
                    if i != at {
                        assert(v@[i] == before[i]);
                    }
                }
            }
            Ok(())
        },
    }
}

impl AttrWithUnknown {
    /// What stands in place of the marker in the attribute `tokens` that prints as
    /// `text`, as `pieces_for` says.
    pub fn get_unknown(&self, tokens: Vec<TokenTree>, text: &str) -> (r: Result<Option<Vec<TokenTree>>, ()>)
        ensures
            match pieces_for(
                self.group_path(),
                self.coordinate(),
                self.tokens_after().len() as int,
                self.skip_start(),
                self.skip_end(),
                self.before(),
                self.after(),
                tokens@,
                text@,
            ) {
                Err(_) => r is Err,
                Ok(None) => r matches Ok(None),
                Ok(Some(ps)) => r matches Ok(Some(v)) && pieces_match(v@, ps),
            },
    {
        let ok_start = starts_with(text, self.before_unknown.as_str());
        let ok_end = ends_with(text, self.after_unknown.as_str());
        proof {
            if ok_start {
                assert(self.before().is_prefix_of(text@));
            }
            if self.before().is_prefix_of(text@) {
                assert(text@.take(self.before().len() as int) =~= text@.subrange(0, self.before().len() as int));
            }
            if ok_end {
                assert(self.after().is_suffix_of(text@));
            }
            if self.after().is_suffix_of(text@) {
                assert(text@.skip(text@.len() - self.after().len()) =~= text@.subrange(
                    text@.len() - self.after().len(),
                    text@.len() as int,
                ));
            }
        }
        if !(ok_start && ok_end) {
            return Ok(None);
        }
        let ghost path = self.group_path();
        let ghost orig = tokens@;
        let mut current = tokens;
        let n = self.unknown_group_coordinates.len();
        let mut j: usize = 0;
        assert(path.skip(0) =~= path);
        while j < n
            invariant
                n == self.unknown_group_coordinates@.len(),
                path == self.group_path(),
                orig == tokens@,
                self.before().is_prefix_of(text@) && self.after().is_suffix_of(text@),
                j <= n,
                descend(orig, path) == descend(current@, path.skip(j as int)),
            decreases n - j,
        {
            let gi = self.unknown_group_coordinates[j];
            assert(path.skip(j as int)[0] == gi);
            if gi >= current.len() {
                return Err(());
            }
            let t = current.remove(gi);
            match t {
                TokenTree::Group(_, inner) => {
                    assert(path.skip(j as int).drop_first() =~= path.skip(j + 1));
                    current = inner;
                },
                _ => {
                    return Err(());
                },
            }
            j = j + 1;
        }
        assert(path.skip(n as int) =~= Seq::<int>::empty());
        let coord = self.unknown_coordinate;
        let mut rest: Vec<TokenTree> = if coord <= current.len() {
            current.split_off(coord)
        } else {
            Vec::new()
        };
        let al = self.tokens_after_unknown.len();
        if al != 0 {
            if al > rest.len() {
                return Err(());
            }
            let keep = rest.len() - al;
            rest.truncate(keep);
        }
        let ghost mid = rest@;
        let ghost ps0 = mid.map_values(|t: TokenTree| Piece::Keep(t));
        assert(pieces_match(rest@, ps0));
        match cut_end(&mut rest, self.partial_unknown_cords.skip_start, true, Ghost(ps0)) {
            Err(()) => {
                return Err(());
            },
            Ok(()) => {},
        }
        let ghost ps1 = cut_pieces(ps0, self.skip_start(), true)->Ok_0;
        match cut_end(&mut rest, self.partial_unknown_cords.skip_end, false, Ghost(ps1)) {
            Err(()) => {
                return Err(());
            },
            Ok(()) => {},
        }
        Ok(Some(rest))
    }
}


/// Where the search of `search_stream` ends: the group that the path leads to, and in
/// it the token that holds the marker, with the tokens after it.
proof fn lemma_search_found(ts: Seq<TokenTree>, i: int)
    requires
        search_stream(ts, i) is Some,
    ensures
        ({
            let (path, a, b, after) = search_stream(ts, i)->0;
            &&& path.len() >= 1
            &&& descend(ts, path.drop_last()) is Some
            &&& {
                let g = descend(ts, path.drop_last())->0;
                &&& 0 <= path.last() < g.len()
                &&& searched_text(g[path.last()]) is Some
                &&& marker_pos(searched_text(g[path.last()])->0) == Some(a)
                &&& b == searched_text(g[path.last()])->0.len() - (a + marker().len())
                &&& after == g.skip(path.last() + 1)
            }
        }),
    decreases ts, ts.len() - i,
{
    match ts[i] {
        TokenTree::Group(_, inner) => {
            assert(decreases_to!(ts => ts[i]));
            if search_stream(inner@, 0) is Some {
                lemma_search_found(inner@, 0);
                let (p, a, b, after) = search_stream(inner@, 0)->0;
                let path = seq![i] + p;
                assert(path.drop_last() =~= seq![i] + p.drop_last());
                assert((seq![i] + p.drop_last()).drop_first() =~= p.drop_last());
                assert(path.last() == p.last());
            } else {
                lemma_search_found(ts, i + 1);
            }
        },
        _ => {
            let s = searched_text(ts[i]);
            if s is Some && marker_pos(s->0) is Some {
                assert(seq![i].drop_last() =~= Seq::<int>::empty());
                assert(ts.subrange(i + 1, ts.len() as int) =~= ts.skip(i + 1));
            } else {
                lemma_search_found(ts, i + 1);
            }
        },
    }
}

/// A pattern read back from the very attribute it was made from gives the marker
/// itself, where the marker stands in an identifier or in the value of a string
/// literal: the pattern's parts around the marker are cut off again, nothing else is
/// left, and the piece is of the kind of the token it came from.
pub proof fn law_pattern_reads_back_marker(ts: Seq<TokenTree>, text: Seq<char>)
    requires
        marker_pos(text) is Some,
        search_stream(ts, 0) is Some,
        ({
            let (path, _, _, _) = search_stream(ts, 0)->0;
            descend(ts, path.drop_last()) matches Some(g) && 0 <= path.last() < g.len() && (
            g[path.last()] is Ident || g[path.last()] matches TokenTree::Literal { text: _, str_value: Some(_) })
        }),
    ensures
        ({
            let p = marker_pos(text)->0;
            let (path, a, b, after) = search_stream(ts, 0)->0;
            pieces_for(
                path.drop_last(),
                path.last(),
                after.reverse().len() as int,
                a,
                b,
                text.take(p),
                text.skip(p + marker().len()),
                ts,
                text,
            ) matches Ok(Some(ps)) && ps.len() == 1 && piece_text(ps[0]) == Some(marker())
                && is_ident_piece(ps[0]) == (descend(ts, path.drop_last())->0[path.last()] is Ident)
        }),
{
    lemma_search_found(ts, 0);
    let p = marker_pos(text)->0;
    let (path, a, b, after) = search_stream(ts, 0)->0;
    let g = descend(ts, path.drop_last())->0;
    let c = path.last();
    let tok = g[c];
    let s = searched_text(tok)->0;
    assert(first_at(s, marker(), a)) by {
        assert(exists|i: int| first_at(s, marker(), i));
    }
    assert(first_at(text, marker(), p)) by {
        assert(exists|i: int| first_at(text, marker(), i));
    }
    assert(text.take(p).is_prefix_of(text)) by {
        assert(text.take(p) =~= text.subrange(0, p));
    }
    assert(text.skip(p + marker().len()).is_suffix_of(text)) by {
        assert(text.skip(p + marker().len()) =~= text.subrange(
            text.len() - text.skip(p + marker().len()).len(),
            text.len() as int,
        ));
    }
    let after_len = after.reverse().len() as int;
    assert(after_len == g.len() - c - 1);
    let w = window(g, c, after_len);
    assert(w == Some(seq![tok])) by {
        if after_len == 0 {
            assert(g.skip(c) =~= seq![tok]);
        } else {
            assert(g.skip(c).take(g.skip(c).len() - after_len) =~= seq![tok]);
        }
    }
    let ps0 = seq![tok].map_values(|t: TokenTree| Piece::Keep(t));
    assert(ps0 =~= seq![Piece::Keep(tok)]);
    assert(s.subrange(a, a + marker().len()) == marker());
    let s1 = if a == 0 {
        s
    } else {
        s.skip(a)
    };
    assert(token_cut_text(tok) == Some(s));
    let ps1 = if a == 0 {
        seq![Piece::Keep(tok)]
    } else {
        seq![renew(Piece::Keep(tok), s.skip(a))]
    };
    assert(cut_pieces(ps0, a, true) == Ok::<Seq<Piece>, ()>(ps1)) by {
        if a != 0 {
            assert(s.skip(a).len() > 0);
            assert(seq![Piece::Keep(tok)].update(0, renew(Piece::Keep(tok), s.skip(a))) =~= ps1);
        }
    }
    assert(piece_text(ps1[0]) == Some(s1));
    assert(s1.len() == marker().len() + b);
    assert(s1.take(s1.len() - b) =~= marker()) by {
        assert(s1.take(s1.len() - b) =~= s.subrange(a, a + marker().len()));
    }
    if b != 0 {
        assert(ps1.update(0, renew(ps1[0], marker())) =~= seq![renew(Piece::Keep(tok), marker())]);
    } else {
        assert(s1 =~= marker());
    }
}

/// Whether an identifier or literal of `ts`, from position `i` on and inside groups,
/// holds the marker in its searched text.
pub open spec fn holds_marker_from(ts: Seq<TokenTree>, i: int) -> bool
    decreases ts, ts.len() - i,
{
    if i < 0 || i >= ts.len() {
        false
    } else {
        let here = match ts[i] {
            TokenTree::Group(_, inner) => {
                proof {
                    assert(decreases_to!(ts => ts[i]));
                }
                holds_marker_from(inner@, 0)
            },
            _ => searched_text(ts[i]) matches Some(s) && marker_pos(s) is Some,
        };
        here || holds_marker_from(ts, i + 1)
    }
}

proof fn lemma_holds_marker_found(ts: Seq<TokenTree>, i: int)
    requires
        holds_marker_from(ts, i),
    ensures
        search_stream(ts, i) is Some,
    decreases ts, ts.len() - i,
{
    match ts[i] {
        TokenTree::Group(_, inner) => {
            assert(decreases_to!(ts => ts[i]));
            if holds_marker_from(inner@, 0) {
                lemma_holds_marker_found(inner@, 0);
            } else {
                lemma_holds_marker_found(ts, i + 1);
            }
        },
        _ => {
            let s = searched_text(ts[i]);
            if !(s is Some && marker_pos(s->0) is Some) {
                lemma_holds_marker_found(ts, i + 1);
            }
        },
    }
}

/// The pattern of an attribute whose printed text holds the marker exactly when one of
/// its identifiers or literals does (printing keeps identifiers and literals whole, and
/// puts nothing between tokens that could form the marker) is always made: `new` gives
/// a pattern when the text holds the marker, and `None` when it does not, never an
/// error.
pub proof fn law_pattern_of_printed_attribute(ts: Seq<TokenTree>, text: Seq<char>)
    requires
        (marker_pos(text) is Some) == holds_marker_from(ts, 0),
    ensures
        marker_pos(text) is Some ==> search_stream(ts, 0) is Some,
{
    if marker_pos(text) is Some {
        lemma_holds_marker_found(ts, 0);
    }
}

} // verus!
