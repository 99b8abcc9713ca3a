//! Tool results, validation issues, digests and Kubernetes name sanitizers.
use crate::text::{
    all_ascii, ascii_lowercase, is_ascii_char, is_ascii_digit, is_ascii_upper, replace_any,
    replace_chars, string_of, to_lowercase, unicode_lowercase,
};
use sha2::Digest;
use vstd::prelude::*;

verus! {

#[derive(Clone, Copy, Debug, PartialEq, Eq, Structural)]
pub enum RiskLevel {
    Read,
    Pure,
    ClusterWrite,
}

#[derive(Clone, Debug, PartialEq, Eq)]
pub struct Provenance {
    pub source: String,
    pub path: Option<String>,
    pub commit: Option<String>,
}

pub struct ProvenanceView {
    pub source: Seq<char>,
    pub path: Option<Seq<char>>,
    pub commit: Option<Seq<char>>,
}

impl View for Provenance {
    type V = ProvenanceView;

    open spec fn view(&self) -> ProvenanceView {
        ProvenanceView {
            source: self.source@,
            path: self.path.deep_view(),
            commit: self.commit.deep_view(),
        }
    }
}

impl Provenance {
    pub fn duplicate(&self) -> (r: Self)
        ensures
            r@ == self@,
    {
        Provenance { source: self.source.clone(), path: self.path.clone(), commit: self.commit.clone() }
    }
}

#[derive(Clone, Debug, PartialEq, Eq)]
pub struct ValidationIssue {
    pub field: String,
    pub message: String,
    pub allowed: Option<String>,
}

pub struct IssueView {
    pub field: Seq<char>,
    pub message: Seq<char>,
    pub allowed: Option<Seq<char>>,
}

impl View for ValidationIssue {
    type V = IssueView;

    open spec fn view(&self) -> IssueView {
        IssueView { field: self.field@, message: self.message@, allowed: self.allowed.deep_view() }
    }
}

impl DeepView for ValidationIssue {
    type V = IssueView;

    open spec fn deep_view(&self) -> IssueView {
        self@
    }
}

pub open spec fn issue_view(field: Seq<char>, message: Seq<char>, allowed: Option<Seq<char>>) -> IssueView {
    IssueView { field, message, allowed }
}

#[derive(Clone, Debug, PartialEq, Eq)]
pub struct Summary {
    pub text: String,
}

/// The result of one tool invocation: a summary, its risk class, the data and
/// the validation issues found on the way.
#[derive(Clone, Debug, PartialEq)]
pub struct ToolResult<T> {
    pub summary: Summary,
    pub risk: RiskLevel,
    pub data: T,
    pub issues: Vec<ValidationIssue>,
}

impl<T> ToolResult<T> {
    pub fn read(summary: &str, data: T) -> (r: Self)
        ensures
            r.summary.text@ == summary@,
            r.risk == RiskLevel::Read,
            r.data == data,
            r.issues@.len() == 0,
    {
        ToolResult { summary: Summary { text: string_of(summary) }, risk: RiskLevel::Read, data, issues: Vec::new() }
    }

    pub fn pure(summary: &str, data: T) -> (r: Self)
        ensures
            r.summary.text@ == summary@,
            r.risk == RiskLevel::Pure,
            r.data == data,
            r.issues@.len() == 0,
    {
        ToolResult { summary: Summary { text: string_of(summary) }, risk: RiskLevel::Pure, data, issues: Vec::new() }
    }

    pub fn cluster_write(summary: &str, data: T) -> (r: Self)
        ensures
            r.summary.text@ == summary@,
            r.risk == RiskLevel::ClusterWrite,
            r.data == data,
            r.issues@.len() == 0,
    {
        ToolResult {
            summary: Summary { text: string_of(summary) },
            risk: RiskLevel::ClusterWrite,
            data,
            issues: Vec::new(),
        }
    }

    /// Replaces the issues and keeps everything else.
    pub fn with_issues(self, issues: Vec<ValidationIssue>) -> (r: Self)
        ensures
            r.summary == self.summary,
            r.risk == self.risk,
            r.data == self.data,
            r.issues@ == issues@,
    {
        let mut s = self;
        s.issues = issues;
        s
    }
}

/// Errors of the catalog and cluster tooling. `Io` carries the message of the
/// I/O error that caused it.
#[derive(Debug, PartialEq, Eq)]
pub enum HomelabMcpError {
    Validation(String),
    NotFound(String),
    Io(String),
    Serialization(String),
    DigestMismatch { expected: String, actual: String },
    SentinelMissing(String),
    Credential(String),
}

// ---------------------------------------------------------------------------
// Digests
// ---------------------------------------------------------------------------

/// The lower-case hexadecimal SHA-256 digest of the UTF-8 bytes of a string.
pub uninterp spec fn sha256_hex(input: Seq<char>) -> Seq<char>;

pub open spec fn is_lower_hex(c: char) -> bool {
    is_ascii_digit(c) || ('a' <= c && c <= 'f')
}

/// Hashes with `sha2::Sha256` and formats the 32-byte output with `{:x}`, which
/// writes two lower-case hexadecimal digits per byte.
#[verifier::external_body]
fn sha256_lower_hex(input: &str) -> (r: String)
    ensures
        r@ == sha256_hex(input@),
        r@.len() == 64,
        forall|i: int| 0 <= i < r@.len() ==> is_lower_hex(#[trigger] r@[i]),
{
    let mut hasher = sha2::Sha256::new();
    hasher.update(input.as_bytes());
    format!("{:x}", hasher.finalize())
}

/// SHA-256 of canonical JSON text, as 64 lower-case hexadecimal characters.
pub fn compute_digest(canonical_json: &str) -> (r: String)
    ensures
        r@ == sha256_hex(canonical_json@),
        r@.len() == 64,
        forall|i: int| 0 <= i < r@.len() ==> is_lower_hex(#[trigger] r@[i]),
{
    sha256_lower_hex(canonical_json)
}

// ---------------------------------------------------------------------------
// Name sanitizers
// ---------------------------------------------------------------------------

pub open spec fn label_value_spec(s: Seq<char>) -> Seq<char> {
    unicode_lowercase(replace_any(s, seq!['/', ':'], '-'))
}

pub open spec fn dns_name_spec(s: Seq<char>) -> Seq<char> {
    unicode_lowercase(replace_any(s, seq!['.', '/', '_'], '-'))
}

/// Sanitize a string for use as a Kubernetes label value: `/` and `:` become
/// `-`, then the text is lower-cased.
pub fn sanitize_label_value(s: &str) -> (r: String)
    ensures
        r@ == label_value_spec(s@),
        all_ascii(s@) ==> r@ == ascii_lowercase(replace_any(s@, seq!['/', ':'], '-')),
{
    let replaced = replace_chars(s, "/:", '-');
    proof {
        reveal_strlit("/:");
        assert("/:"@ =~= seq!['/', ':']);
        lemma_replace_keeps_ascii(s@, seq!['/', ':'], '-');
    }
    to_lowercase(replaced.as_str())
}

/// Sanitize a string for use as a Kubernetes resource name: `.`, `/` and `_`
/// become `-`, then the text is lower-cased.
pub fn sanitize_dns_name(s: &str) -> (r: String)
    ensures
        r@ == dns_name_spec(s@),
        all_ascii(s@) ==> r@ == dns_name_ascii(s@),
{
    let replaced = replace_chars(s, "./_", '-');
    proof {
        reveal_strlit("./_");
        assert("./_"@ =~= seq!['.', '/', '_']);
        lemma_replace_keeps_ascii(s@, seq!['.', '/', '_'], '-');
    }
    to_lowercase(replaced.as_str())
}

pub proof fn lemma_replace_keeps_ascii(s: Seq<char>, targets: Seq<char>, with: char)
    requires
        is_ascii_char(with),
    ensures
        all_ascii(s) ==> all_ascii(replace_any(s, targets, with)),
{
}

/// What the DNS-name sanitizer computes on ASCII input (its second clause).
pub open spec fn dns_name_ascii(s: Seq<char>) -> Seq<char> {
    ascii_lowercase(replace_any(s, seq!['.', '/', '_'], '-'))
}

/// For ASCII input, the DNS-name sanitizer leaves no `.`, `/`, `_` or
/// upper-case letter behind, keeps the length, and sanitizing twice changes
/// nothing.
pub proof fn law_dns_name_is_clean_and_idempotent(s: Seq<char>)
    requires
        all_ascii(s),
    ensures
        all_ascii(dns_name_ascii(s)),
        dns_name_ascii(s).len() == s.len(),
        forall|i: int|
            0 <= i < dns_name_ascii(s).len() ==> {
                let c = #[trigger] dns_name_ascii(s)[i];
                c != '.' && c != '/' && c != '_' && !is_ascii_upper(c)
            },
        dns_name_ascii(dns_name_ascii(s)) == dns_name_ascii(s),
{
    let l = dns_name_ascii(s);
    assert forall|i: int| 0 <= i < l.len() implies is_ascii_char(#[trigger] l[i]) by {
        assert(is_ascii_char(s[i]));
    }
    assert forall|i: int| 0 <= i < l.len() implies {
        let c = #[trigger] l[i];
        c != '.' && c != '/' && c != '_' && !is_ascii_upper(c)
    } by {
        let c = s[i];
        if seq!['.', '/', '_'].contains(c) {
            assert(l[i] == '-');
        } else {
            assert(c != '.' && c != '/' && c != '_') by {
                if c == '.' { assert(seq!['.', '/', '_'][0] == c); }
                if c == '/' { assert(seq!['.', '/', '_'][1] == c); }
                if c == '_' { assert(seq!['.', '/', '_'][2] == c); }
            }
        }
    }
    let r2 = replace_any(l, seq!['.', '/', '_'], '-');
    assert forall|i: int| 0 <= i < l.len() implies r2[i] == l[i] by {
        if seq!['.', '/', '_'].contains(l[i]) {
            let k = choose|k: int| 0 <= k < 3 && seq!['.', '/', '_'][k] == l[i];
            assert(false);
        }
    }
    assert(r2 =~= l);
    assert(ascii_lowercase(l) =~= l);
}

} // verus!
