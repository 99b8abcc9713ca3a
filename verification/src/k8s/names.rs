//! Kubernetes names: node names of targets, download Job names and the names
//! of the stored recipe and deployment resources.
use crate::mcp_core::{dns_name_spec, lemma_replace_keeps_ascii, sanitize_dns_name};
use crate::text::{
    all_ascii, ascii_lowercase, replace_any, replace_chars, str_eq, to_lowercase, unicode_lowercase,
};
use vstd::prelude::*;
use vstd::string::StringSliceAdditionalSpecFns;
use vstd::utf8::{decode_utf8, encode_utf8, is_char_boundary};

verus! {

/// Map a target name to the Kubernetes node name: `spark` is the GB10 node,
/// every other target is already a node name.
pub fn target_to_node_name<'a>(target: &'a str) -> (r: &'a str)
    ensures
        r@ == if target@ == "spark"@ { "gx10-98a5"@ } else { target@ },
{
    if str_eq(target, "spark") {
        "gx10-98a5"
    } else {
        target
    }
}

#[derive(Clone, Debug, PartialEq, Eq)]
pub struct DownloadJobSpec {
    pub model_id: String,
    pub revision: String,
    pub nas_path: String,
    pub download_node_selector: String,
    pub hf_secret_name: String,
    pub hf_secret_namespace: String,
}

/// The characters of the first `n` bytes of the UTF-8 encoding of `s`.
pub open spec fn byte_prefix(s: Seq<char>, n: int) -> Seq<char> {
    decode_utf8(encode_utf8(s).subrange(0, n))
}

/// The revision as it appears in a Job name: at most its first eight bytes.
pub open spec fn short_revision(revision: Seq<char>) -> Seq<char> {
    if encode_utf8(revision).len() > 8 {
        byte_prefix(revision, 8)
    } else {
        revision
    }
}

pub open spec fn download_job_name_spec(model_id: Seq<char>, revision: Seq<char>) -> Seq<char> {
    "download-"@ + unicode_lowercase(replace_any(model_id, seq!['/'], '-')) + "-"@ + short_revision(revision)
}

/// What the Job name is when the model id is ASCII: its capitals become
/// small letters and every other character is kept.
pub open spec fn download_job_name_ascii(model_id: Seq<char>, revision: Seq<char>) -> Seq<char> {
    "download-"@ + ascii_lowercase(replace_any(model_id, seq!['/'], '-')) + "-"@ + short_revision(revision)
}

/// The name of the Job that downloads a model revision to the NAS.
pub fn download_job_name(model_id: &str, revision: &str) -> (r: String)
    requires
        encode_utf8(revision@).len() <= usize::MAX,
        encode_utf8(revision@).len() > 8 ==> is_char_boundary(encode_utf8(revision@), 8),
    ensures
        r@ == download_job_name_spec(model_id@, revision@),
        all_ascii(model_id@) ==> r@ == download_job_name_ascii(model_id@, revision@),
{
    proof {
        reveal_strlit("/");
        assert("/"@ =~= seq!['/']);
        lemma_replace_keeps_ascii(model_id@, seq!['/'], '-');
    }
    let replaced = replace_chars(model_id, "/", '-');
    let sanitized = to_lowercase(replaced.as_str());
    let mut name = "download-".to_owned();
    name.append(sanitized.as_str());
    name.append("-");
    if revision.len() > 8 {
        let (head, _) = revision.split_at(8);
        proof {
            vstd::utf8::encode_utf8_decode_utf8(head@);
            assert(head.spec_bytes() =~= encode_utf8(revision@).subrange(0, 8));
            assert(head@ == byte_prefix(revision@, 8));
        }
        name.append(head);
    } else {
        name.append(revision);
    }
    name
}

pub open spec fn runtime_name_spec(prefix: Seq<char>, id: Seq<char>) -> Seq<char> {
    prefix + "-"@ + dns_name_spec(id)
}

fn runtime_name(prefix: &str, id: &str) -> (r: String)
    ensures
        r@ == runtime_name_spec(prefix@, id@),
{
    let mut s = prefix.to_owned();
    s.append("-");
    s.append(sanitize_dns_name(id).as_str());
    s
}

/// The name of the `ModelRecipe` resource that stores a recipe.
pub fn recipe_resource_name(recipe_id: &str) -> (r: String)
    ensures
        r@ == runtime_name_spec("model-recipe"@, recipe_id@),
{
    runtime_name("model-recipe", recipe_id)
}

/// The name of the `ModelDeployment` resource that stores a deployment.
pub fn deployment_resource_name(name: &str) -> (r: String)
    ensures
        r@ == runtime_name_spec("model-deployment"@, name@),
{
    runtime_name("model-deployment", name)
}

} // verus!
