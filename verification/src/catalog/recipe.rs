//! Finding recipes: the catalog order, search by id or model, and the
//! results that the Spark Arena search reports.
use crate::catalog::types::{Recipe, RecipeSource};
use crate::text::{contains, contains_sub, to_lowercase, unicode_lowercase};
use vstd::prelude::*;

verus! {

// ---------------------------------------------------------------------------
// Search
// ---------------------------------------------------------------------------

/// A recipe matches a lower-cased query when its id or its model's id,
/// lower-cased, contains it.
pub open spec fn recipe_matches(r: Recipe, query: Seq<char>) -> bool {
    contains_sub(unicode_lowercase(r.id@), query) || contains_sub(unicode_lowercase(r.model.id@), query)
}

/// The recipes that match, in order.
pub open spec fn matching_recipes(rs: Seq<Recipe>, query: Seq<char>) -> Seq<Recipe>
    decreases rs.len(),
{
    if rs.len() == 0 {
        Seq::empty()
    } else {
        let rest = matching_recipes(rs.drop_last(), query);
        if recipe_matches(rs.last(), query) {
            rest.push(rs.last())
        } else {
            rest
        }
    }
}

/// Every recipe that matches the query is kept, in order, and no other; the
/// matches of two runs of recipes put together are those of the first
/// followed by those of the second.
pub proof fn law_matching_recipes_keep_every_match(items: Seq<Recipe>, more: Seq<Recipe>, query: Seq<char>)
    ensures
        matching_recipes(items, query) == items.filter_map(|v: Recipe| if recipe_matches(v, query) { Some(v) } else { None }),
        matching_recipes(items + more, query) == matching_recipes(items, query) + matching_recipes(more, query),
        matching_recipes(items, query).len() <= items.len(),
    decreases items.len() + more.len(),
{
    if items.len() > 0 {
        law_matching_recipes_keep_every_match(items.drop_last(), Seq::empty(), query);
        let v = items.last();
        match if recipe_matches(v, query) { Some(v) } else { None } {
            Some(x) => {
                assert(matching_recipes(items.drop_last(), query).push(x) =~= matching_recipes(items.drop_last(), query) + seq![x]);
            },
            None => {},
        }
    }
    if more.len() > 0 {
        law_matching_recipes_keep_every_match(items, more.drop_last(), query);
        assert((items + more).drop_last() =~= items + more.drop_last());
        assert((items + more).last() == more.last());
        let v = more.last();
        match if recipe_matches(v, query) { Some(v) } else { None } {
            Some(x) => {
                assert((matching_recipes(items, query) + matching_recipes(more.drop_last(), query)).push(x) =~= matching_recipes(items, query)
                    + matching_recipes(more.drop_last(), query).push(x));
            },
            None => {},
        }
    } else {
        assert(items + more =~= items);
        assert(matching_recipes(items, query) + matching_recipes(more, query) =~= matching_recipes(items, query));
    }
}

pub open spec fn derefs(s: Seq<&Recipe>) -> Seq<Recipe> {
    s.map_values(|r: &Recipe| *r)
}

/// The recipes that match a query, case-insensitively; all of them when
/// there is no query.
pub fn search_recipes<'a>(recipes: &'a Vec<Recipe>, query: Option<&str>) -> (r: Vec<&'a Recipe>)
    ensures
        derefs(r@) == match query {
            Some(q) => matching_recipes(recipes@, unicode_lowercase(q@)),
            None => recipes@,
        },
{
    let mut out: Vec<&'a Recipe> = Vec::new();
    let lowered = match query {
        Some(q) => Some(to_lowercase(q)),
        None => None,
    };
    let mut i: usize = 0;
    assert(recipes@.subrange(0, 0) =~= Seq::<Recipe>::empty());
    assert(derefs(out@) =~= Seq::<Recipe>::empty());
    while i < recipes.len()
        invariant
            i <= recipes@.len(),
            match query {
                Some(q) => lowered matches Some(l) && l@ == unicode_lowercase(q@),
                None => lowered is None,
            },
            derefs(out@) == match query {
                Some(q) => matching_recipes(recipes@.subrange(0, i as int), unicode_lowercase(q@)),
                None => recipes@.subrange(0, i as int),
            },
        decreases recipes@.len() - i,
    {
        let ghost prev = out@;
        proof {
            let next = recipes@.subrange(0, i + 1);
            assert(next.drop_last() =~= recipes@.subrange(0, i as int));
            assert(next.last() == recipes@[i as int]);
        }
        let r = &recipes[i];
        let keep = match &lowered {
            Some(l) => {
                let id = to_lowercase(r.id.as_str());
                let model = to_lowercase(r.model.id.as_str());
                contains(id.as_str(), l.as_str()) || contains(model.as_str(), l.as_str())
            },
            None => true,
        };
        if keep {
            out.push(r);
            assert(derefs(out@) =~= derefs(prev).push(*r));
        }
        i = i + 1;
    }
    assert(recipes@.subrange(0, recipes@.len() as int) =~= recipes@);
    out
}

/// What the Spark Arena search reports of a recipe.
#[derive(Clone, Debug, PartialEq, Eq)]
pub struct SparkArenaSearchResult {
    pub id: String,
    pub model_id: String,
    pub quantization: Option<String>,
    pub estimated_vram_gb: Option<u32>,
    pub required_args: Vec<String>,
    pub source: String,
}

pub struct ArenaResultView {
    pub id: Seq<char>,
    pub model_id: Seq<char>,
    pub quantization: Option<Seq<char>>,
    pub estimated_vram_gb: Option<u32>,
    pub required_args: Seq<Seq<char>>,
    pub source: Seq<char>,
}

impl View for SparkArenaSearchResult {
    type V = ArenaResultView;

    open spec fn view(&self) -> ArenaResultView {
        ArenaResultView {
            id: self.id@,
            model_id: self.model_id@,
            quantization: self.quantization.deep_view(),
            estimated_vram_gb: self.estimated_vram_gb,
            required_args: self.required_args.deep_view(),
            source: self.source@,
        }
    }
}

impl DeepView for SparkArenaSearchResult {
    type V = ArenaResultView;

    open spec fn deep_view(&self) -> ArenaResultView {
        self@
    }
}

/// The report of one recipe: its ids, quantization, VRAM estimate, the
/// runtime arguments it requires, and where it came from.
pub open spec fn arena_result_of(r: Recipe) -> ArenaResultView {
    ArenaResultView {
        id: r.id@,
        model_id: r.model.id@,
        quantization: r.model.quantization.deep_view(),
        estimated_vram_gb: r.hardware.estimated_vram_gb,
        required_args: r.runtime.args.deep_view(),
        source: r.provenance.source@,
    }
}

fn copy_strings(v: &Vec<String>) -> (r: Vec<String>)
    ensures
        r.deep_view() == v.deep_view(),
{
    let mut out: Vec<String> = Vec::new();
    let mut i: usize = 0;
    while i < v.len()
        invariant
            i <= v@.len(),
            out@.len() == i,
            forall|k: int| 0 <= k < i ==> #[trigger] out@[k]@ == v@[k]@,
        decreases v@.len() - i,
    {
        out.push(v[i].clone());
        i = i + 1;
    }
    assert(out.deep_view() =~= v.deep_view());
    out
}

/// Searches the Spark Arena recipes and reports each match.
pub fn search_spark_arena_recipes(recipes: &Vec<Recipe>, query: Option<&str>) -> (r: Vec<SparkArenaSearchResult>)
    ensures
        r.deep_view() == (match query {
            Some(q) => matching_recipes(recipes@, unicode_lowercase(q@)),
            None => recipes@,
        }).map_values(|x: Recipe| arena_result_of(x)),
{
    let found = search_recipes(recipes, query);
    let ghost hits = derefs(found@);
    let mut out: Vec<SparkArenaSearchResult> = Vec::new();
    let mut i: usize = 0;
    while i < found.len()
        invariant
            i <= found@.len(),
            hits == derefs(found@),
            out@.len() == i,
            forall|k: int| 0 <= k < i ==> #[trigger] out@[k]@ == arena_result_of(hits[k]),
        decreases found@.len() - i,
    {
        let r = found[i];
        assert(hits[i as int] == *r);
        let quantization = match &r.model.quantization {
            Some(q) => Some(q.clone()),
            None => None,
        };
        out.push(
            SparkArenaSearchResult {
                id: r.id.clone(),
                model_id: r.model.id.clone(),
                quantization,
                estimated_vram_gb: r.hardware.estimated_vram_gb,
                required_args: copy_strings(&r.runtime.args),
                source: r.provenance.source.clone(),
            },
        );
        i = i + 1;
    }
    assert(out.deep_view() =~= hits.map_values(|x: Recipe| arena_result_of(x)));
    out
}

/// A recipe with another source.
pub open spec fn with_source(r: Recipe, source: RecipeSource) -> Recipe {
    Recipe { source, ..r }
}

/// Marks recipes as coming from Spark Arena.
pub fn mark_spark_arena(recipes: Vec<Recipe>) -> (r: Vec<Recipe>)
    ensures
        r@ == recipes@.map_values(|x: Recipe| with_source(x, RecipeSource::SparkArena)),
{
    let ghost all = recipes@;
    let mut rest = recipes;
    let mut out: Vec<Recipe> = Vec::new();
    while rest.len() > 0
        invariant
            out@.len() + rest@.len() == all.len(),
            rest@ == all.subrange(out@.len() as int, all.len() as int),
            forall|k: int| 0 <= k < out@.len() ==> #[trigger] out@[k] == with_source(all[k], RecipeSource::SparkArena),
        decreases rest@.len(),
    {
        let ghost before = rest@;
        let mut r = rest.remove(0);
        assert(r == all[out@.len() as int]);
        r.source = RecipeSource::SparkArena;
        out.push(r);
        assert(rest@ =~= all.subrange(out@.len() as int, all.len() as int));
    }
    assert(out@ =~= all.map_values(|x: Recipe| with_source(x, RecipeSource::SparkArena)));
    out
}

// ---------------------------------------------------------------------------
// The catalog order
// ---------------------------------------------------------------------------

/// Lexicographic order on texts by code point, which is the order of their
/// UTF-8 bytes and so the order in which `String` compares.
pub open spec fn text_lt(a: Seq<char>, b: Seq<char>) -> bool
    decreases a.len(),
{
    if b.len() == 0 {
        false
    } else if a.len() == 0 {
        true
    } else if a[0] != b[0] {
        (a[0] as u32) < (b[0] as u32)
    } else {
        text_lt(a.drop_first(), b.drop_first())
    }
}

proof fn lemma_text_lt_irreflexive(a: Seq<char>)
    ensures
        !text_lt(a, a),
    decreases a.len(),
{
    if a.len() > 0 {
        lemma_text_lt_irreflexive(a.drop_first());
    }
}

proof fn lemma_text_lt_transitive(a: Seq<char>, b: Seq<char>, c: Seq<char>)
    requires
        text_lt(a, b),
        text_lt(b, c),
    ensures
        text_lt(a, c),
    decreases a.len(),
{
    if a.len() > 0 && b.len() > 0 && c.len() > 0 && a[0] == b[0] && b[0] == c[0] {
        lemma_text_lt_transitive(a.drop_first(), b.drop_first(), c.drop_first());
    }
}

/// Compares two texts in the catalog order.
pub fn text_lt_exec(a: &str, b: &str) -> (r: bool)
    ensures
        r == text_lt(a@, b@),
{
    let n = a.unicode_len();
    let m = b.unicode_len();
    let mut i: usize = 0;
    assert(a@.subrange(0, n as int) =~= a@);
    assert(b@.subrange(0, m as int) =~= b@);
    while i < n && i < m && a.get_char(i) == b.get_char(i)
        invariant
            n == a@.len(),
            m == b@.len(),
            i <= n,
            i <= m,
            text_lt(a@, b@) == text_lt(a@.subrange(i as int, n as int), b@.subrange(i as int, m as int)),
        decreases n - i,
    {
        proof {
            let x = a@.subrange(i as int, n as int);
            let y = b@.subrange(i as int, m as int);
            assert(x.drop_first() =~= a@.subrange(i + 1, n as int));
            assert(y.drop_first() =~= b@.subrange(i + 1, m as int));
            assert(x[0] == a@[i as int] && y[0] == b@[i as int]);
        }
        i = i + 1;
    }
    proof {
        let x = a@.subrange(i as int, n as int);
        let y = b@.subrange(i as int, m as int);
        if i < n && i < m {
            assert(x[0] == a@[i as int] && y[0] == b@[i as int]);
        }
    }
    if i == m {
        false
    } else if i == n {
        true
    } else {
        (a.get_char(i) as u32) < (b.get_char(i) as u32)
    }
}

/// The order is nondecreasing by id.
pub open spec fn sorted_by_id(out: Seq<Recipe>) -> bool {
    forall|a: int, b: int| 0 <= a < b < out.len() ==> !text_lt((#[trigger] out[b]).id@, (#[trigger] out[a]).id@)
}

/// `src` is a permutation of the first `n` indices.
pub open spec fn is_permutation(src: Seq<int>, n: int) -> bool {
    &&& src.len() == n
    &&& forall|k: int| 0 <= k < n ==> 0 <= #[trigger] src[k] < n
    &&& forall|a: int, b: int| 0 <= a < b < n ==> #[trigger] src[a] != #[trigger] src[b]
}

/// `out` is `input` reordered by `src`, sorted by id, with recipes of equal
/// ids in their input order.
pub open spec fn stable_order(input: Seq<Recipe>, out: Seq<Recipe>, src: Seq<int>) -> bool {
    &&& out.len() == input.len()
    &&& is_permutation(src, input.len() as int)
    &&& forall|k: int| 0 <= k < out.len() ==> #[trigger] out[k] == input[src[k]]
    &&& sorted_by_id(out)
    &&& forall|a: int, b: int|
        0 <= a < b < out.len() && (#[trigger] out[a]).id@ == (#[trigger] out[b]).id@ ==> src[a] < src[b]
}

#[verifier::spinoff_prover]
#[verifier::rlimit(40)]
proof fn lemma_insert_keeps_order(input: Seq<Recipe>, out: Seq<Recipe>, src: Seq<int>, i: int, p: int)
    requires
        0 <= i < input.len(),
        out.len() == i,
        src.len() == i,
        0 <= p <= i,
        forall|k: int| 0 <= k < i ==> 0 <= #[trigger] src[k] < i,
        forall|a: int, b: int| 0 <= a < b < i ==> #[trigger] src[a] != #[trigger] src[b],
        forall|k: int| 0 <= k < i ==> #[trigger] out[k] == input[src[k]],
        sorted_by_id(out),
        forall|a: int, b: int| 0 <= a < b < i && (#[trigger] out[a]).id@ == (#[trigger] out[b]).id@ ==> src[a] < src[b],
        forall|q: int| 0 <= q < p ==> !text_lt(input[i].id@, (#[trigger] out[q]).id@),
        p < i ==> text_lt(input[i].id@, out[p].id@),
    ensures
        ({
            let o2 = out.insert(p, input[i]);
            let s2 = src.insert(p, i);
            &&& o2.len() == i + 1
            &&& s2.len() == i + 1
            &&& forall|k: int| 0 <= k < i + 1 ==> 0 <= #[trigger] s2[k] < i + 1
            &&& forall|a: int, b: int| 0 <= a < b < i + 1 ==> #[trigger] s2[a] != #[trigger] s2[b]
            &&& forall|k: int| 0 <= k < i + 1 ==> #[trigger] o2[k] == input[s2[k]]
            &&& sorted_by_id(o2)
            &&& forall|a: int, b: int|
                0 <= a < b < i + 1 && (#[trigger] o2[a]).id@ == (#[trigger] o2[b]).id@ ==> s2[a] < s2[b]
        }),
{
    let x = input[i];
    let o2 = out.insert(p, x);
    let s2 = src.insert(p, i);
    out.insert_ensures(p, x);
    src.insert_ensures(p, i);
    assert forall|k: int| 0 <= k < i + 1 implies 0 <= #[trigger] s2[k] < i + 1 by {
        if k > p {
            assert(s2[k] == src[k - 1]);
        }
    }
    assert forall|a: int, b: int| 0 <= a < b < i + 1 implies #[trigger] s2[a] != #[trigger] s2[b] by {
        if a < p && b > p {
            assert(s2[b] == src[b - 1]);
        } else if a > p {
            assert(s2[a] == src[a - 1] && s2[b] == src[b - 1]);
        } else if a == p {
            assert(s2[b] == src[b - 1]);
        }
    }
    assert forall|k: int| 0 <= k < i + 1 implies #[trigger] o2[k] == input[s2[k]] by {
        if k > p {
            assert(o2[k] == out[k - 1] && s2[k] == src[k - 1]);
        }
    }
    assert forall|a: int, b: int| 0 <= a < b < o2.len() implies !text_lt((#[trigger] o2[b]).id@, (#[trigger] o2[a]).id@) by {
        if b < p {
        } else if b == p {
            assert(o2[b] == x);
        } else {
            assert(o2[b] == out[b - 1]);
            if a == p {
                assert(o2[a] == x);
                if text_lt(out[b - 1].id@, x.id@) {
                    if b - 1 > p {
                        lemma_text_lt_transitive(out[b - 1].id@, x.id@, out[p].id@);
                    } else {
                        lemma_text_lt_transitive(out[p].id@, x.id@, out[p].id@);
                        lemma_text_lt_irreflexive(out[p].id@);
                    }
                }
            } else if a > p {
                assert(o2[a] == out[a - 1]);
            }
        }
    }
    assert forall|a: int, b: int|
        0 <= a < b < i + 1 && (#[trigger] o2[a]).id@ == (#[trigger] o2[b]).id@ implies s2[a] < s2[b] by {
        if b < p {
        } else if b == p {
            assert(s2[b] == i);
        } else {
            assert(o2[b] == out[b - 1] && s2[b] == src[b - 1]);
            if a == p {
                assert(o2[a] == x);
                if b - 1 == p {
                    lemma_text_lt_irreflexive(out[p].id@);
                } else {
                    assert(!text_lt(out[b - 1].id@, out[p].id@));
                }
            } else if a > p {
                assert(o2[a] == out[a - 1] && s2[a] == src[a - 1]);
            }
        }
    }
}

/// Orders recipes by id; recipes with equal ids keep their order.
pub fn sort_by_id(recipes: Vec<Recipe>) -> (r: Vec<Recipe>)
    ensures
        exists|src: Seq<int>| stable_order(recipes@, r@, src),
{
    let ghost input = recipes@;
    let ghost mut src: Seq<int> = Seq::empty();
    let mut rest = recipes;
    let mut out: Vec<Recipe> = Vec::new();
    while rest.len() > 0
        invariant
            out@.len() + rest@.len() == input.len(),
            rest@ == input.subrange(out@.len() as int, input.len() as int),
            src.len() == out@.len(),
            forall|k: int| 0 <= k < out@.len() ==> 0 <= #[trigger] src[k] < out@.len(),
            forall|a: int, b: int| 0 <= a < b < out@.len() ==> #[trigger] src[a] != #[trigger] src[b],
            forall|k: int| 0 <= k < out@.len() ==> #[trigger] out@[k] == input[src[k]],
            sorted_by_id(out@),
            forall|a: int, b: int|
                0 <= a < b < out@.len() && (#[trigger] out@[a]).id@ == (#[trigger] out@[b]).id@ ==> src[a] < src[b],
        decreases rest@.len(),
    {
        let ghost i = out@.len() as int;
        let x = rest.remove(0);
        assert(x == input[i]);
        assert(rest@ =~= input.subrange(i + 1, input.len() as int));
        let mut p: usize = 0;
        while p < out.len() && !text_lt_exec(x.id.as_str(), out[p].id.as_str())
            invariant
                p <= out@.len(),
                forall|q: int| 0 <= q < p ==> !text_lt(x.id@, (#[trigger] out@[q]).id@),
            decreases out@.len() - p,
        {
            p = p + 1;
        }
        proof {
            lemma_insert_keeps_order(input, out@, src, i, p as int);
            src = src.insert(p as int, i);
        }
        out.insert(p, x);
    }
    assert(exists|s: Seq<int>| stable_order(input, out@, s)) by {
        assert(stable_order(input, out@, src));
    }
    out
}

} // verus!
