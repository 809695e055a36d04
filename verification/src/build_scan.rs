//! The build step that adds `#[always_context]` to a source file: which items get
//! the attribute, and in which order the lines are edited.
use vstd::prelude::*;

use crate::always_context::{anyhow_result_check, is_anyhow_result};
use crate::text::text_eq;

verus! {

/// A function signature as the build step reads it: the segments of its return type
/// (`None` without a return type, `Some(None)` when the type is no path), its
/// attributes (the path of each attribute that is a bare path, without white space;
/// `None` for any other attribute), and the line it starts on.
pub struct FnModel {
    pub returns: Option<Option<Vec<String>>>,
    pub attrs: Vec<Option<String>>,
    pub line: usize,
}

/// An item of a source file as the build step reads it.
pub enum ItemModel {
    Fn(FnModel),
    ForeignMod(Vec<FnModel>),
    Trait { attrs: Vec<Option<String>>, line: usize },
    Impl { attrs: Vec<Option<String>>, line: usize },
    /// A module, with its items when they are inline.
    Mod(Option<Vec<ItemModel>>),
    Other,
}

/// Whether an attribute path is `always_context`.
pub open spec fn is_always_context_path(a: Option<String>) -> bool {
    a matches Some(p) && (p@ == "always_context"@ || p@ == "always_context::always_context"@)
}

/// Whether the attributes hold `#[always_context]`.
pub open spec fn has_always_context_spec(attrs: Seq<Option<String>>) -> bool {
    exists|i: int| 0 <= i < attrs.len() && is_always_context_path(#[trigger] attrs[i])
}

/// Whether the attributes hold `#[always_context]`.
pub fn has_always_context(attrs: &Vec<Option<String>>) -> (r: bool)
    ensures
        r == has_always_context_spec(attrs@),
{
    let n = attrs.len();
    let mut i: usize = 0;
    while i < n
        invariant
            n == attrs@.len(),
            i <= n,
            forall|j: int| 0 <= j < i ==> !is_always_context_path(#[trigger] attrs@[j]),
        decreases n - i,
    {
        match &attrs[i] {
            Some(p) => {
                if text_eq(p.as_str(), "always_context") || text_eq(p.as_str(), "always_context::always_context") {
                    assert(is_always_context_path(attrs@[i as int]));
                    return true;
                }
            },
            None => {},
        }
        i = i + 1;
    }
    false
}

/// The segments of a return type, as values.
pub open spec fn returns_view(r: Option<Option<Vec<String>>>) -> Option<Option<Seq<Seq<char>>>> {
    match r {
        None => None,
        Some(None) => Some(None),
        Some(Some(v)) => Some(Some(v@.map_values(|s: String| s@))),
    }
}

/// A function gets the attribute: it returns `anyhow::Result` and has none yet.
pub open spec fn fn_needs(f: FnModel) -> bool {
    match returns_view(f.returns) {
        None => false,
        Some(segs) => is_anyhow_result(segs) && !has_always_context_spec(f.attrs@),
    }
}

/// Whether a function gets the attribute.
pub fn handle_fn(f: &FnModel) -> (r: bool)
    ensures
        r == fn_needs(*f),
{
    match &f.returns {
        None => false,
        Some(segs) => {
            let segs_ref: Option<&Vec<String>> = match segs {
                Some(v) => Some(v),
                None => None,
            };
            anyhow_result_check(segs_ref) && !has_always_context(&f.attrs)
        },
    }
}

/// The lines of the functions (among the first `k`) that get the attribute.
pub open spec fn fns_updates(fs: Seq<FnModel>, k: int) -> Seq<usize>
    decreases k,
{
    if k <= 0 {
        Seq::empty()
    } else if fn_needs(fs[k - 1]) {
        fns_updates(fs, k - 1).push(fs[k - 1].line)
    } else {
        fns_updates(fs, k - 1)
    }
}

/// The lines of the items that get the attribute, in the order in which they are met:
/// functions returning `anyhow::Result`, traits and impls without the attribute, and
/// so on inside foreign blocks and inline modules.
pub open spec fn item_updates(item: ItemModel) -> Seq<usize>
    decreases item,
{
    match item {
        ItemModel::Fn(f) => if fn_needs(f) {
            seq![f.line]
        } else {
            Seq::empty()
        },
        ItemModel::ForeignMod(fs) => fns_updates(fs@, fs@.len() as int),
        ItemModel::Trait { attrs, line } => if !has_always_context_spec(attrs@) {
            seq![line]
        } else {
            Seq::empty()
        },
        ItemModel::Impl { attrs, line } => if !has_always_context_spec(attrs@) {
            seq![line]
        } else {
            Seq::empty()
        },
        ItemModel::Mod(Some(items)) => items_updates(items@, items@.len() as int),
        _ => Seq::empty(),
    }
}

/// The lines of the first `k` items that get the attribute.
pub open spec fn items_updates(items: Seq<ItemModel>, k: int) -> Seq<usize>
    decreases items, k,
{
    if k <= 0 || k > items.len() {
        Seq::empty()
    } else {
        items_updates(items, k - 1) + item_updates(items[k - 1])
    }
}

/// Appends the lines of the item that get the attribute.
pub fn handle_item(item: &ItemModel, updates: &mut Vec<usize>)
    ensures
        final(updates)@ == old(updates)@ + item_updates(*item),
    decreases *item,
{
    match item {
        ItemModel::Fn(f) => {
            if handle_fn(f) {
                updates.push(f.line);
            } else {
                assert(old(updates)@ + Seq::<usize>::empty() =~= old(updates)@);
            }
        },
        ItemModel::ForeignMod(fs) => {
            let n = fs.len();
            let mut i: usize = 0;
            assert(old(updates)@ + fns_updates(fs@, 0) =~= old(updates)@);
            while i < n
                invariant
                    n == fs@.len(),
                    i <= n,
                    updates@ == old(updates)@ + fns_updates(fs@, i as int),
                decreases n - i,
            {
                let ghost before = updates@;
                if handle_fn(&fs[i]) {
                    updates.push(fs[i].line);
                    assert(updates@ =~= old(updates)@ + fns_updates(fs@, i + 1));
                }
                i = i + 1;
            }
        },
        ItemModel::Trait { attrs, line } => {
            if !has_always_context(attrs) {
                updates.push(*line);
            } else {
                assert(old(updates)@ + Seq::<usize>::empty() =~= old(updates)@);
            }
        },
        ItemModel::Impl { attrs, line } => {
            if !has_always_context(attrs) {
                updates.push(*line);
            } else {
                assert(old(updates)@ + Seq::<usize>::empty() =~= old(updates)@);
            }
        },
        ItemModel::Mod(Some(items)) => {
            let n = items.len();
            let mut i: usize = 0;
            assert(old(updates)@ + items_updates(items@, 0) =~= old(updates)@);
            while i < n
                invariant
                    n == items@.len(),
                    *item == ItemModel::Mod(Some(*items)),
                    i <= n,
                    updates@ == old(updates)@ + items_updates(items@, i as int),
                decreases n - i,
            {
                assert(decreases_to!(*item => (*item)->Mod_0));
                assert(decreases_to!((*item)->Mod_0 => (*item)->Mod_0->0));
                assert(decreases_to!(*items => items@));
                assert(decreases_to!(items@ => items@[i as int]));
                handle_item(&items[i], updates);
                assert(updates@ =~= old(updates)@ + items_updates(items@, i + 1));
                i = i + 1;
            }
        },
        _ => {
            assert(old(updates)@ + Seq::<usize>::empty() =~= old(updates)@);
        },
    }
}

/// The lines of the items of a file that get the attribute.
pub fn file_updates(items: &Vec<ItemModel>) -> (r: Vec<usize>)
    ensures
        r@ == items_updates(items@, items@.len() as int),
{
    let mut updates: Vec<usize> = Vec::new();
    let n = items.len();
    let mut i: usize = 0;
    assert(updates@ =~= items_updates(items@, 0));
    while i < n
        invariant
            n == items@.len(),
            i <= n,
            updates@ == items_updates(items@, i as int),
        decreases n - i,
    {
        handle_item(&items[i], &mut updates);
        i = i + 1;
    }
    updates
}

/// The lines in the order they are edited: from the last line up, so that an edit
/// does not move the lines still to edit.
pub fn edit_order(lines: Vec<usize>) -> (r: Vec<usize>)
    ensures
        r@.to_multiset() == lines@.to_multiset(),
        forall|i: int, j: int| 0 <= i < j < r@.len() ==> r@[i] >= r@[j],
{
    let ghost orig = lines@;
    let mut rest = lines;
    let mut out: Vec<usize> = Vec::new();
    proof {
        broadcast use vstd::multiset::group_multiset_axioms;

        vstd::seq_lib::to_multiset_len(out@);
        assert(out@.to_multiset() =~= vstd::multiset::Multiset::<usize>::empty());
        assert(out@.to_multiset().add(rest@.to_multiset()) =~= orig.to_multiset());
    }
    while rest.len() > 0
        invariant
            out@.to_multiset().add(rest@.to_multiset()) == orig.to_multiset(),
            forall|i: int, j: int| 0 <= i < j < out@.len() ==> out@[i] >= out@[j],
            forall|i: int, j: int| 0 <= i < out@.len() && 0 <= j < rest@.len() ==> out@[i] >= rest@[j],
        decreases rest@.len(),
    {
        let n = rest.len();
        let mut best: usize = 0;
        let mut k: usize = 1;
        while k < n
            invariant
                n == rest@.len(),
                best < n,
                1 <= k <= n,
                forall|j: int| 0 <= j < k ==> rest@[best as int] >= rest@[j],
            decreases n - k,
        {
            if rest[k] > rest[best] {
                best = k;
            }
            k = k + 1;
        }
        let ghost before = rest@;
        let ghost out_before = out@;
        let m = rest.remove(best);
        out.push(m);
        proof {
            broadcast use vstd::multiset::group_multiset_axioms;

            vstd::seq_lib::to_multiset_remove(before, best as int);
            vstd::seq_lib::to_multiset_build(out_before, m);
            vstd::seq_lib::to_multiset_contains(before, m);
            assert(before.contains(m)) by {
                assert(before[best as int] == m);
            }
            assert(out@.to_multiset().add(rest@.to_multiset()) =~= orig.to_multiset());
        }
    }
    proof {
        broadcast use vstd::multiset::group_multiset_axioms;

        vstd::seq_lib::to_multiset_len(rest@);
        assert(rest@.to_multiset() =~= vstd::multiset::Multiset::<usize>::empty());
        assert(out@.to_multiset() =~= out@.to_multiset().add(rest@.to_multiset()));
    }
    out
}


/// One line of the pattern that finds where a number of lines end.
pub open spec fn line_unit() -> Seq<char> {
    ".*((\\r\\n)|\\r|\\n)"@
}

/// The pattern that matches the first `n` lines of a text, line ends included.
pub open spec fn lines_pattern(n: nat) -> Seq<char>
    decreases n,
{
    if n == 0 {
        "^"@
    } else {
        lines_pattern((n - 1) as nat) + line_unit()
    }
}

/// What the `regex` crate finds for `pattern` in `haystack` from its start: `None` when
/// the pattern does not compile, else the byte offset where the first match ends, if any.
pub uninterp spec fn regex_find_end(pattern: Seq<char>, haystack: Seq<char>) -> Option<Option<int>>;

/// `regex::Regex::new(pattern)` then `find_at(haystack, 0)`, taken by the end of the
/// match. What it finds is named, not stated: it depends on the pattern and the text
/// alone.
#[verifier::external_body]
fn find_end(pattern: &str, haystack: &str) -> (r: Option<Option<usize>>)
    ensures
        regex_find_end(pattern@, haystack@) == match r {
            None => None,
            Some(None) => Some(None),
            Some(Some(e)) => Some(Some(e as int)),
        },
{
    match regex::Regex::new(pattern) {
        Err(_) => None,
        Ok(re) => Some(re.find_at(haystack, 0).map(|m| m.end())),
    }
}

/// The byte offset where the first `line` lines of `haystack` end; `Err` when it has
/// fewer lines.
pub fn line_pos(haystack: &str, line: usize) -> (r: Result<usize, ()>)
    ensures
        match regex_find_end(lines_pattern(line as nat), haystack@) {
            Some(Some(e)) => r == Ok::<usize, ()>(e as usize),
            _ => r is Err,
        },
{
    let mut pattern = String::from_str("^");
    let mut i: usize = 0;
    while i < line
        invariant
            i <= line,
            pattern@ == lines_pattern(i as nat),
        decreases line - i,
    {
        pattern.append(".*((\\r\\n)|\\r|\\n)");
        i = i + 1;
    }
    match find_end(pattern.as_str(), haystack) {
        Some(Some(e)) => Ok(e),
        _ => Err(()),
    }
}

} // verus!
