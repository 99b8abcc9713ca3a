//! Label values of at most 63 characters that Kubernetes accepts, derived
//! from arbitrary identifiers.
use crate::text::{
    all_ascii, ascii_lowercase, char_is_ascii_alnum, hex_digits, hex_padded, is_ascii_alnum,
    is_ascii_char, is_ascii_upper, lemma_hex_digits_len, no_ascii_upper, push_char, to_lowercase,
    u64_to_hex_min8, unicode_lowercase,
};
use vstd::prelude::*;

verus! {

pub const LABEL_MAX_LEN: usize = 63;

pub const FNV_OFFSET: u64 = 0xcbf29ce484222325;

pub const FNV_PRIME: u64 = 0x100000001b3;

pub open spec fn is_label_safe(c: char) -> bool {
    is_ascii_alnum(c) || c == '-' || c == '_' || c == '.'
}

pub open spec fn label_char(c: char) -> char {
    if is_label_safe(c) {
        c
    } else {
        '-'
    }
}

/// Lower-cased text with every character outside `[a-z0-9._-]` replaced by `-`.
pub open spec fn label_chars(lowered: Seq<char>) -> Seq<char> {
    lowered.map_values(|c: char| label_char(c))
}

/// 64-bit FNV-1a over the bytes of an ASCII text.
pub open spec fn fnv1a(s: Seq<char>) -> u64
    decreases s.len(),
{
    if s.len() == 0 {
        FNV_OFFSET
    } else {
        (fnv1a(s.drop_last()) ^ (s.last() as u64)).wrapping_mul(FNV_PRIME)
    }
}

pub open spec fn leading_non_alnum(s: Seq<char>) -> nat
    decreases s.len(),
{
    if s.len() > 0 && !is_ascii_alnum(s[0]) {
        1 + leading_non_alnum(s.drop_first())
    } else {
        0
    }
}

pub open spec fn trailing_non_alnum(s: Seq<char>) -> nat
    decreases s.len(),
{
    if s.len() > 0 && !is_ascii_alnum(s.last()) {
        1 + trailing_non_alnum(s.drop_last())
    } else {
        0
    }
}

/// `s` without leading and trailing characters that are not ASCII letters or digits.
pub open spec fn trim_non_alnum(s: Seq<char>) -> Seq<char> {
    let h = s.subrange(leading_non_alnum(s) as int, s.len() as int);
    h.subrange(0, h.len() - trailing_non_alnum(h))
}

/// The bounded label value of text that is already lower-cased.
pub open spec fn bounded_from_lowered(lowered: Seq<char>) -> Seq<char> {
    let z = label_chars(lowered);
    let hash = hex_padded(fnv1a(z) as nat, 8);
    let t = trim_non_alnum(z);
    if t.len() == 0 {
        hash
    } else if t.len() <= 63 {
        t
    } else {
        let p = trim_non_alnum(t.subrange(0, 62 - hash.len()));
        if p.len() == 0 {
            hash
        } else {
            p + "-"@ + hash
        }
    }
}

/// The bounded label value of an identifier.
pub open spec fn bounded_label(s: Seq<char>) -> Seq<char> {
    bounded_from_lowered(unicode_lowercase(s))
}

// ---------------------------------------------------------------------------
// Lemmas
// ---------------------------------------------------------------------------

pub proof fn lemma_leading_non_alnum(s: Seq<char>)
    ensures
        leading_non_alnum(s) <= s.len(),
        forall|i: int| 0 <= i < leading_non_alnum(s) ==> !is_ascii_alnum(#[trigger] s[i]),
        leading_non_alnum(s) < s.len() ==> is_ascii_alnum(s[leading_non_alnum(s) as int]),
    decreases s.len(),
{
    if s.len() > 0 && !is_ascii_alnum(s[0]) {
        lemma_leading_non_alnum(s.drop_first());
        assert forall|i: int| 0 <= i < leading_non_alnum(s) implies !is_ascii_alnum(#[trigger] s[i]) by {
            if i > 0 {
                assert(s[i] == s.drop_first()[i - 1]);
            }
        }
    }
}

pub proof fn lemma_trailing_non_alnum(s: Seq<char>)
    ensures
        trailing_non_alnum(s) <= s.len(),
        forall|i: int| s.len() - trailing_non_alnum(s) <= i < s.len() ==> !is_ascii_alnum(#[trigger] s[i]),
        trailing_non_alnum(s) < s.len() ==> is_ascii_alnum(s[s.len() - trailing_non_alnum(s) - 1]),
    decreases s.len(),
{
    if s.len() > 0 && !is_ascii_alnum(s.last()) {
        lemma_trailing_non_alnum(s.drop_last());
        assert forall|i: int| s.len() - trailing_non_alnum(s) <= i < s.len() implies !is_ascii_alnum(
            #[trigger] s[i],
        ) by {
            if i < s.len() - 1 {
                assert(s[i] == s.drop_last()[i]);
            }
        }
    }
}

proof fn lemma_leading_is(s: Seq<char>, k: int)
    requires
        0 <= k <= s.len(),
        forall|i: int| 0 <= i < k ==> !is_ascii_alnum(#[trigger] s[i]),
        k < s.len() ==> is_ascii_alnum(s[k]),
    ensures
        leading_non_alnum(s) == k,
    decreases s.len(),
{
    if k > 0 {
        let t = s.drop_first();
        assert forall|i: int| 0 <= i < k - 1 implies !is_ascii_alnum(#[trigger] t[i]) by {
            assert(t[i] == s[i + 1]);
        }
        if k - 1 < t.len() {
            assert(t[k - 1] == s[k]);
        }
        lemma_leading_is(t, k - 1);
    }
}

proof fn lemma_trailing_is(s: Seq<char>, k: int)
    requires
        0 <= k <= s.len(),
        forall|i: int| s.len() - k <= i < s.len() ==> !is_ascii_alnum(#[trigger] s[i]),
        k < s.len() ==> is_ascii_alnum(s[s.len() - k - 1]),
    ensures
        trailing_non_alnum(s) == k,
    decreases s.len(),
{
    if k > 0 {
        let t = s.drop_last();
        assert forall|i: int| t.len() - (k - 1) <= i < t.len() implies !is_ascii_alnum(#[trigger] t[i]) by {
            assert(t[i] == s[i]);
        }
        if k - 1 < t.len() {
            assert(t[t.len() - (k - 1) - 1] == s[s.len() - k - 1]);
        }
        lemma_trailing_is(t, k - 1);
    }
}

/// Trimming yields a contiguous piece of the text that is empty or begins
/// and ends with a letter or digit.
pub proof fn lemma_trim_non_alnum(s: Seq<char>)
    ensures
        trim_non_alnum(s).len() <= s.len(),
        trim_non_alnum(s).len() > 0 ==> is_ascii_alnum(trim_non_alnum(s)[0]) && is_ascii_alnum(
            trim_non_alnum(s).last(),
        ),
        forall|i: int|
            0 <= i < trim_non_alnum(s).len() ==> #[trigger] trim_non_alnum(s)[i] == s[leading_non_alnum(s)
                + i],
        s.len() > 0 && is_ascii_alnum(s[0]) && is_ascii_alnum(s.last()) ==> trim_non_alnum(s) == s,
{
    lemma_leading_non_alnum(s);
    let a = leading_non_alnum(s) as int;
    let h = s.subrange(a, s.len() as int);
    lemma_trailing_non_alnum(h);
    let t = trim_non_alnum(s);
    if t.len() > 0 {
        assert(t[0] == s[a]);
        assert(t.last() == h[h.len() - trailing_non_alnum(h) - 1]);
    }
    if s.len() > 0 && is_ascii_alnum(s[0]) && is_ascii_alnum(s.last()) {
        assert(a == 0);
        assert(h =~= s);
        assert(trailing_non_alnum(h) == 0);
        assert(t =~= s);
    }
}

pub proof fn lemma_hex_padded(n: nat)
    requires
        n < 0x1_0000_0000_0000_0000,
    ensures
        8 <= hex_padded(n, 8).len() <= 16,
        forall|i: int|
            0 <= i < hex_padded(n, 8).len() ==> is_ascii_alnum(#[trigger] hex_padded(n, 8)[i])
                && !is_ascii_upper(hex_padded(n, 8)[i]),
{
    lemma_hex_digits_len(n);
    let d = hex_digits(n);
    let h = hex_padded(n, 8);
    if d.len() < 8 {
        assert forall|i: int| 0 <= i < h.len() implies is_ascii_alnum(#[trigger] h[i])
            && !is_ascii_upper(h[i]) by {
            let pad = (8 - d.len()) as int;
            if i >= pad {
                assert(h[i] == d[i - pad]);
            }
        }
    }
}

// ---------------------------------------------------------------------------
// Executable parts
// ---------------------------------------------------------------------------

fn label_chars_exec(lowered: &str) -> (r: String)
    ensures
        r@ == label_chars(lowered@),
{
    let mut out = String::new();
    let n = lowered.unicode_len();
    let mut i: usize = 0;
    while i < n
        invariant
            n == lowered@.len(),
            i <= n,
            out@ == label_chars(lowered@.subrange(0, i as int)),
        decreases n - i,
    {
        let c = lowered.get_char(i);
        let mapped = if char_is_ascii_alnum(c) || c == '-' || c == '_' || c == '.' {
            c
        } else {
            '-'
        };
        push_char(&mut out, mapped);
        assert(lowered@.subrange(0, i + 1) == lowered@.subrange(0, i as int).push(c));
        i += 1;
    }
    assert(lowered@.subrange(0, n as int) == lowered@);
    out
}

fn fnv1a_exec(s: &str) -> (r: u64)
    ensures
        r == fnv1a(s@),
{
    let n = s.unicode_len();
    let mut h: u64 = FNV_OFFSET;
    let mut i: usize = 0;
    assert(s@.subrange(0, 0) =~= Seq::<char>::empty());
    while i < n
        invariant
            n == s@.len(),
            i <= n,
            h == fnv1a(s@.subrange(0, i as int)),
        decreases n - i,
    {
        let c = s.get_char(i);
        let b: u64 = (c as u32) as u64;
        assert(s@.subrange(0, i + 1).drop_last() =~= s@.subrange(0, i as int));
        h = (h ^ b).wrapping_mul(FNV_PRIME);
        i += 1;
    }
    assert(s@.subrange(0, n as int) =~= s@);
    h
}

/// Removes leading and trailing characters that are not ASCII letters or digits.
fn trim_non_alnum_exec(s: &str) -> (r: String)
    ensures
        r@ == trim_non_alnum(s@),
{
    let n = s.unicode_len();
    let mut start: usize = 0;
    while start < n && !char_is_ascii_alnum(s.get_char(start))
        invariant
            n == s@.len(),
            start <= n,
            forall|i: int| 0 <= i < start ==> !is_ascii_alnum(#[trigger] s@[i]),
        decreases n - start,
    {
        start += 1;
    }
    proof {
        lemma_leading_is(s@, start as int);
    }
    let mut end: usize = n;
    while end > start && !char_is_ascii_alnum(s.get_char(end - 1))
        invariant
            n == s@.len(),
            start <= end <= n,
            forall|i: int| end <= i < n ==> !is_ascii_alnum(#[trigger] s@[i]),
        decreases end,
    {
        end -= 1;
    }
    let ghost head = s@.subrange(start as int, n as int);
    proof {
        assert forall|i: int| head.len() - (n - end) <= i < head.len() implies !is_ascii_alnum(
            #[trigger] head[i],
        ) by {
            assert(head[i] == s@[start + i]);
        }
        if n - end < head.len() {
            assert(head[head.len() - (n - end) - 1] == s@[end - 1]);
        }
        lemma_trailing_is(head, (n - end) as int);
    }
    let piece = s.substring_char(start, end);
    assert(piece@ =~= trim_non_alnum(s@));
    piece.to_owned()
}

/// The bounded label value of text that is already lower-cased.
pub fn bounded_from_lowered_exec(lowered: &str) -> (r: String)
    ensures
        r@ == bounded_from_lowered(lowered@),
{
    let sanitized = label_chars_exec(lowered);
    let h = fnv1a_exec(sanitized.as_str());
    let hash = u64_to_hex_min8(h);
    let trimmed = trim_non_alnum_exec(sanitized.as_str());
    let len = trimmed.unicode_len();
    if len == 0 {
        return hash;
    }
    if len <= LABEL_MAX_LEN {
        return trimmed;
    }
    let max_prefix_len = LABEL_MAX_LEN - 1 - hash.unicode_len();
    let head = trimmed.as_str().substring_char(0, max_prefix_len);
    let prefix = trim_non_alnum_exec(head);
    if prefix.unicode_len() == 0 {
        hash
    } else {
        let mut out = prefix;
        out.append("-");
        out.append(hash.as_str());
        out
    }
}

/// Produces a Kubernetes label value of at most 63 characters: the text is
/// lower-cased, characters outside `[a-z0-9._-]` become `-`, non-alphanumeric
/// ends are trimmed; a long value keeps a prefix and gains a hash of the whole
/// sanitized text, and a value that trims to nothing is the hash alone. The
/// result is a valid label value made of `[a-z0-9._-]` only, and bounding it
/// again gives it back.
pub fn bounded_label_value(s: &str) -> (r: String)
    ensures
        r@ == bounded_label(s@),
        all_ascii(s@) ==> r@ == bounded_from_lowered(ascii_lowercase(s@)),
        1 <= r@.len() <= 63,
        forall|i: int| 0 <= i < r@.len() ==> is_label_safe(#[trigger] r@[i]) && !is_ascii_upper(r@[i]),
        is_ascii_alnum(r@[0]),
        is_ascii_alnum(r@.last()),
        all_ascii(r@),
        bounded_from_lowered(ascii_lowercase(r@)) == r@,
{
    let lowered = to_lowercase(s);
    proof {
        law_bounded_label_is_valid(lowered@);
        law_bounded_label_idempotent(lowered@);
    }
    bounded_from_lowered_exec(lowered.as_str())
}

// ---------------------------------------------------------------------------
// Laws
// ---------------------------------------------------------------------------

/// Every bounded label value is a valid label value: between 1 and 63
/// characters from `[a-zA-Z0-9._-]`, beginning and ending with a letter or
/// digit; and when the text it is made from holds no ASCII capital, as
/// lower-cased text never does, neither does the value, so that its
/// characters are all from `[a-z0-9._-]`.
pub proof fn law_bounded_label_is_valid(lowered: Seq<char>)
    ensures
        1 <= bounded_from_lowered(lowered).len() <= 63,
        forall|i: int|
            0 <= i < bounded_from_lowered(lowered).len() ==> is_label_safe(
                #[trigger] bounded_from_lowered(lowered)[i],
            ),
        is_ascii_alnum(bounded_from_lowered(lowered)[0]),
        is_ascii_alnum(bounded_from_lowered(lowered).last()),
        no_ascii_upper(lowered) ==> no_ascii_upper(bounded_from_lowered(lowered)),
{
    let z = label_chars(lowered);
    let hash = hex_padded(fnv1a(z) as nat, 8);
    lemma_hex_padded(fnv1a(z) as nat);
    let t = trim_non_alnum(z);
    lemma_trim_non_alnum(z);
    lemma_leading_non_alnum(z);
    let lower = no_ascii_upper(lowered);
    assert forall|i: int| 0 <= i < t.len() implies is_label_safe(#[trigger] t[i]) && (lower
        ==> !is_ascii_upper(t[i])) by {
        let j = leading_non_alnum(z) + i;
        assert(trim_non_alnum(z)[i] == z[j]);
        assert(0 <= j < z.len()) by {
            let h = z.subrange(leading_non_alnum(z) as int, z.len() as int);
            lemma_trailing_non_alnum(h);
        }
        assert(z[j] == label_char(lowered[j]));
    }
    let r = bounded_from_lowered(lowered);
    if t.len() == 0 {
    } else if t.len() <= 63 {
    } else {
        let head = t.subrange(0, 62 - hash.len());
        let p = trim_non_alnum(head);
        lemma_trim_non_alnum(head);
        lemma_leading_non_alnum(head);
        if p.len() > 0 {
            reveal_strlit("-");
            assert forall|i: int| 0 <= i < r.len() implies is_label_safe(#[trigger] r[i]) && (lower
                ==> !is_ascii_upper(r[i])) by {
                if i < p.len() {
                    assert(r[i] == p[i]);
                    assert(trim_non_alnum(head)[i] == head[leading_non_alnum(head) + i]);
                    assert(0 <= leading_non_alnum(head) + i < head.len()) by {
                        let hh = head.subrange(leading_non_alnum(head) as int, head.len() as int);
                        lemma_trailing_non_alnum(hh);
                    }
                    assert(head[leading_non_alnum(head) + i] == t[leading_non_alnum(head) + i]);
                } else if i == p.len() {
                    assert(r[i] == '-');
                } else {
                    assert(r[i] == hash[i - p.len() - 1]);
                }
            }
            assert(r[0] == p[0]);
            assert(r.last() == hash.last());
        }
    }
}

/// Bounding a bounded label value again gives it back: the value is ASCII,
/// so lower-casing it is the ASCII mapping, which keeps it, and a short valid
/// label value passes through unchanged.
pub proof fn law_bounded_label_idempotent(lowered: Seq<char>)
    requires
        no_ascii_upper(lowered),
    ensures
        all_ascii(bounded_from_lowered(lowered)),
        bounded_from_lowered(ascii_lowercase(bounded_from_lowered(lowered))) == bounded_from_lowered(
            lowered,
        ),
{
    law_bounded_label_is_valid(lowered);
    let r = bounded_from_lowered(lowered);
    assert forall|i: int| 0 <= i < r.len() implies is_ascii_char(#[trigger] r[i]) by {
        assert(is_label_safe(r[i]));
    }
    law_short_valid_label_unchanged(r);
}

/// A value that is already a short, lower-case, valid label value is kept as it is.
pub proof fn law_short_valid_label_unchanged(s: Seq<char>)
    requires
        1 <= s.len() <= 63,
        forall|i: int| 0 <= i < s.len() ==> is_label_safe(#[trigger] s[i]) && !is_ascii_upper(s[i]),
        is_ascii_alnum(s[0]),
        is_ascii_alnum(s.last()),
    ensures
        bounded_from_lowered(ascii_lowercase(s)) == s,
{
    assert(ascii_lowercase(s) =~= s);
    assert(label_chars(s) =~= s);
    lemma_trim_non_alnum(s);
}


// ---------------------------------------------------------------------------
// The labels of stored resources
// ---------------------------------------------------------------------------

pub open spec fn label_views(v: Seq<(String, String)>) -> Seq<(Seq<char>, Seq<char>)> {
    v.map_values(|p: (String, String)| (p.0@, p.1@))
}

fn label(key: &str, value: &str) -> (r: (String, String))
    ensures
        r.0@ == key@,
        r.1@ == value@,
{
    (key.to_owned(), value.to_owned())
}

/// The labels of a stored recipe: its owner, its kind, and its id as a label
/// value.
pub fn recipe_labels(recipe_id: &str) -> (r: Vec<(String, String)>)
    ensures
        label_views(r@) == seq![
            ("app.kubernetes.io/part-of"@, "model-catalog-mcp"@),
            ("models.saavylab.dev/kind"@, "recipe"@),
            ("models.saavylab.dev/recipe-id"@, bounded_label(recipe_id@)),
        ],
{
    let mut v: Vec<(String, String)> = Vec::new();
    v.push(label("app.kubernetes.io/part-of", "model-catalog-mcp"));
    v.push(label("models.saavylab.dev/kind", "recipe"));
    let id = bounded_label_value(recipe_id);
    v.push(label("models.saavylab.dev/recipe-id", id.as_str()));
    assert(label_views(v@) =~= seq![
        ("app.kubernetes.io/part-of"@, "model-catalog-mcp"@),
        ("models.saavylab.dev/kind"@, "recipe"@),
        ("models.saavylab.dev/recipe-id"@, bounded_label(recipe_id@)),
    ]);
    v
}

/// The labels of a stored deployment: its owner, its kind, and its name and
/// target as label values.
pub fn deployment_labels(name: &str, target: &str) -> (r: Vec<(String, String)>)
    ensures
        label_views(r@) == seq![
            ("app.kubernetes.io/part-of"@, "model-catalog-mcp"@),
            ("models.saavylab.dev/kind"@, "deployment"@),
            ("models.saavylab.dev/deployment-name"@, bounded_label(name@)),
            ("models.saavylab.dev/target"@, bounded_label(target@)),
        ],
{
    let mut v: Vec<(String, String)> = Vec::new();
    v.push(label("app.kubernetes.io/part-of", "model-catalog-mcp"));
    v.push(label("models.saavylab.dev/kind", "deployment"));
    let n = bounded_label_value(name);
    v.push(label("models.saavylab.dev/deployment-name", n.as_str()));
    let t = bounded_label_value(target);
    v.push(label("models.saavylab.dev/target", t.as_str()));
    assert(label_views(v@) =~= seq![
        ("app.kubernetes.io/part-of"@, "model-catalog-mcp"@),
        ("models.saavylab.dev/kind"@, "deployment"@),
        ("models.saavylab.dev/deployment-name"@, bounded_label(name@)),
        ("models.saavylab.dev/target"@, bounded_label(target@)),
    ]);
    v
}

} // verus!
