//! The Job that downloads a model's weights to the NAS, as plain values.
use crate::k8s::names::{
    download_job_name, download_job_name_ascii, download_job_name_spec, DownloadJobSpec,
};
use crate::json::{
    array_of, json_view, object_of, string_list, string_list_view, string_pairs_object,
    string_pairs_view, text_member, JsonValue, JsonView,
};
use crate::text::{all_ascii, concat, string_of};
use vstd::prelude::*;
use vstd::utf8::{encode_utf8, is_char_boundary};

verus! {

/// A download Job: its identity and labels, where it runs, what it runs, the
/// secret it reads the token from, and the NAS directory it writes to.
pub struct DownloadJob {
    pub name: String,
    pub namespace: String,
    pub labels: Vec<(String, String)>,
    pub backoff_limit: i32,
    pub ttl_seconds_after_finished: i32,
    pub node_hostname: String,
    pub container_name: String,
    pub image: String,
    pub command: Vec<String>,
    pub args: Vec<String>,
    pub token_env: String,
    pub token_secret_name: String,
    pub token_secret_key: String,
    pub volume_name: String,
    pub mount_path: String,
    pub host_path: String,
    pub host_path_type: String,
    pub restart_policy: String,
}

/// The directory the weights land in.
pub open spec fn local_dir(spec: DownloadJobSpec) -> Seq<char> {
    spec.nas_path@ + "/"@ + spec.model_id@
}

/// The file that marks a finished download.
pub open spec fn sentinel_path(spec: DownloadJobSpec) -> Seq<char> {
    local_dir(spec) + "/.homelab-mcp-download.json"@
}

/// The shell command: install the downloader, fetch the revision with the
/// token, then write the sentinel.
pub open spec fn download_command(spec: DownloadJobSpec) -> Seq<char> {
    "pip install -q hf && hf download "@ + spec.model_id@ + " --local-dir "@ + local_dir(spec)
        + " --revision "@ + spec.revision@ + " --token $HF_TOKEN && echo '{\"model_id\":\""@
        + spec.model_id@ + "\",\"revision\":\""@ + spec.revision@
        + "\",\"downloaded_at\":\"'$(date -uIs)'\",\"source\":\"huggingface\",\"complete\":true}' > "@
        + sentinel_path(spec)
}

/// The labels of a download Job.
pub open spec fn download_labels(spec: DownloadJobSpec) -> Seq<(Seq<char>, Seq<char>)> {
    seq![
        ("app.kubernetes.io/managed-by"@, "homelab-mcp"@),
        ("homelab.saavylab.dev/model-id"@, spec.model_id@),
        ("homelab.saavylab.dev/revision"@, spec.revision@),
        ("homelab.saavylab.dev/purpose"@, "weight-download"@),
    ]
}

pub open spec fn pair_views(v: Seq<(String, String)>) -> Seq<(Seq<char>, Seq<char>)> {
    v.map_values(|p: (String, String)| (p.0@, p.1@))
}

fn pair(a: &str, b: &str) -> (r: (String, String))
    ensures
        r.0@ == a@,
        r.1@ == b@,
{
    (string_of(a), string_of(b))
}

/// Builds the Job that downloads `spec`'s model revision.
pub fn build_download_job(spec: &DownloadJobSpec) -> (r: DownloadJob)
    requires
        encode_utf8(spec.revision@).len() <= usize::MAX,
        encode_utf8(spec.revision@).len() > 8 ==> is_char_boundary(encode_utf8(spec.revision@), 8),
    ensures
        r.name@ == download_job_name_spec(spec.model_id@, spec.revision@),
        all_ascii(spec.model_id@) ==> r.name@ == download_job_name_ascii(spec.model_id@, spec.revision@),
        r.namespace@ == spec.hf_secret_namespace@,
        pair_views(r.labels@) == download_labels(*spec),
        r.backoff_limit == 2,
        r.ttl_seconds_after_finished == 3600,
        r.node_hostname@ == spec.download_node_selector@,
        r.container_name@ == "download"@,
        r.image@ == "python:3.12-slim"@,
        r.command.deep_view() == seq!["sh"@, "-c"@],
        r.args.deep_view() == seq![download_command(*spec)],
        r.token_env@ == "HF_TOKEN"@,
        r.token_secret_name@ == spec.hf_secret_name@,
        r.token_secret_key@ == "token"@,
        r.volume_name@ == "model-storage"@,
        r.mount_path@ == spec.nas_path@,
        r.host_path@ == spec.nas_path@,
        r.host_path_type@ == "Directory"@,
        r.restart_policy@ == "Never"@,
{
    let name = download_job_name(spec.model_id.as_str(), spec.revision.as_str());
    let dir = {
        let a = concat(spec.nas_path.as_str(), "/");
        concat(a.as_str(), spec.model_id.as_str())
    };
    let sentinel = concat(dir.as_str(), "/.homelab-mcp-download.json");
    let mut cmd = string_of("pip install -q hf && hf download ");
    cmd.append(spec.model_id.as_str());
    cmd.append(" --local-dir ");
    cmd.append(dir.as_str());
    cmd.append(" --revision ");
    cmd.append(spec.revision.as_str());
    cmd.append(" --token $HF_TOKEN && echo '{\"model_id\":\"");
    cmd.append(spec.model_id.as_str());
    cmd.append("\",\"revision\":\"");
    cmd.append(spec.revision.as_str());
    cmd.append("\",\"downloaded_at\":\"'$(date -uIs)'\",\"source\":\"huggingface\",\"complete\":true}' > ");
    cmd.append(sentinel.as_str());
    assert(cmd@ =~= download_command(*spec));
    let mut labels: Vec<(String, String)> = Vec::new();
    labels.push(pair("app.kubernetes.io/managed-by", "homelab-mcp"));
    labels.push(pair("homelab.saavylab.dev/model-id", spec.model_id.as_str()));
    labels.push(pair("homelab.saavylab.dev/revision", spec.revision.as_str()));
    labels.push(pair("homelab.saavylab.dev/purpose", "weight-download"));
    assert(pair_views(labels@) =~= download_labels(*spec));
    let mut command: Vec<String> = Vec::new();
    command.push(string_of("sh"));
    command.push(string_of("-c"));
    assert(command.deep_view() =~= seq!["sh"@, "-c"@]);
    let mut args: Vec<String> = Vec::new();
    args.push(cmd);
    assert(args.deep_view() =~= seq![download_command(*spec)]);
    DownloadJob {
        name,
        namespace: spec.hf_secret_namespace.clone(),
        labels,
        backoff_limit: 2,
        ttl_seconds_after_finished: 3600,
        node_hostname: spec.download_node_selector.clone(),
        container_name: string_of("download"),
        image: string_of("python:3.12-slim"),
        command,
        args,
        token_env: string_of("HF_TOKEN"),
        token_secret_name: spec.hf_secret_name.clone(),
        token_secret_key: string_of("token"),
        volume_name: string_of("model-storage"),
        mount_path: spec.nas_path.clone(),
        host_path: spec.nas_path.clone(),
        host_path_type: string_of("Directory"),
        restart_policy: string_of("Never"),
    }
}


// ---------------------------------------------------------------------------
// The Job as a Kubernetes document
// ---------------------------------------------------------------------------

pub open spec fn jtext(s: Seq<char>) -> JsonView {
    JsonView::Str(s)
}

pub open spec fn job_container_doc(j: DownloadJob) -> JsonView {
    JsonView::Object(
        seq![
            ("name"@, jtext(j.container_name@)),
            ("image"@, jtext(j.image@)),
            ("command"@, string_list_view(j.command.deep_view())),
            ("args"@, string_list_view(j.args.deep_view())),
            (
                "env"@,
                JsonView::Array(
                    seq![
                        JsonView::Object(
                            seq![
                                ("name"@, jtext(j.token_env@)),
                                (
                                    "valueFrom"@,
                                    JsonView::Object(
                                        seq![
                                            (
                                                "secretKeyRef"@,
                                                JsonView::Object(
                                                    seq![
                                                        ("name"@, jtext(j.token_secret_name@)),
                                                        ("key"@, jtext(j.token_secret_key@)),
                                                    ],
                                                ),
                                            ),
                                        ],
                                    ),
                                ),
                            ],
                        ),
                    ],
                ),
            ),
            (
                "volumeMounts"@,
                JsonView::Array(
                    seq![
                        JsonView::Object(
                            seq![("name"@, jtext(j.volume_name@)), ("mountPath"@, jtext(j.mount_path@))],
                        ),
                    ],
                ),
            ),
        ],
    )
}

pub open spec fn job_pod_doc(j: DownloadJob) -> JsonView {
    JsonView::Object(
        seq![
            (
                "nodeSelector"@,
                JsonView::Object(seq![("kubernetes.io/hostname"@, jtext(j.node_hostname@))]),
            ),
            ("containers"@, JsonView::Array(seq![job_container_doc(j)])),
            (
                "volumes"@,
                JsonView::Array(
                    seq![
                        JsonView::Object(
                            seq![
                                ("name"@, jtext(j.volume_name@)),
                                (
                                    "hostPath"@,
                                    JsonView::Object(
                                        seq![("path"@, jtext(j.host_path@)), ("type"@, jtext(j.host_path_type@))],
                                    ),
                                ),
                            ],
                        ),
                    ],
                ),
            ),
            ("restartPolicy"@, jtext(j.restart_policy@)),
        ],
    )
}

/// The Kubernetes `batch/v1` Job document of a download Job, field for field.
pub open spec fn job_doc(j: DownloadJob) -> JsonView {
    JsonView::Object(
        seq![
            ("apiVersion"@, jtext("batch/v1"@)),
            ("kind"@, jtext("Job"@)),
            (
                "metadata"@,
                JsonView::Object(
                    seq![
                        ("name"@, jtext(j.name@)),
                        ("namespace"@, jtext(j.namespace@)),
                        ("labels"@, string_pairs_view(pair_views(j.labels@))),
                    ],
                ),
            ),
            (
                "spec"@,
                JsonView::Object(
                    seq![
                        ("backoffLimit"@, JsonView::Int(j.backoff_limit as i64)),
                        ("ttlSecondsAfterFinished"@, JsonView::Int(j.ttl_seconds_after_finished as i64)),
                        ("template"@, JsonView::Object(seq![("spec"@, job_pod_doc(j))])),
                    ],
                ),
            ),
        ],
    )
}

fn job_container_value(j: &DownloadJob) -> (r: JsonValue)
    ensures
        r@ == job_container_doc(*j),
{
    let key_ref_members = vec![
        text_member("name", j.token_secret_name.as_str()),
        text_member("key", j.token_secret_key.as_str()),
    ];
    assert(key_ref_members@.map_values(|m: (String, JsonValue)| (m.0@, json_view(m.1))) =~= seq![
        ("name"@, jtext(j.token_secret_name@)),
        ("key"@, jtext(j.token_secret_key@)),
    ]);
    let key_ref = object_of(key_ref_members);
    let value_from_members = vec![(string_of("secretKeyRef"), key_ref)];
    let ghost key_ref_view = JsonView::Object(seq![
        ("name"@, jtext(j.token_secret_name@)),
        ("key"@, jtext(j.token_secret_key@)),
    ]);
    assert(value_from_members@.map_values(|m: (String, JsonValue)| (m.0@, json_view(m.1))) =~= seq![
        ("secretKeyRef"@, key_ref_view),
    ]);
    let value_from = object_of(value_from_members);
    let ghost value_from_view = JsonView::Object(seq![("secretKeyRef"@, key_ref_view)]);
    let env_members = vec![text_member("name", j.token_env.as_str()), (string_of("valueFrom"), value_from)];
    assert(env_members@.map_values(|m: (String, JsonValue)| (m.0@, json_view(m.1))) =~= seq![
        ("name"@, jtext(j.token_env@)),
        ("valueFrom"@, value_from_view),
    ]);
    let env_entry = object_of(env_members);
    let ghost env_view = JsonView::Object(seq![("name"@, jtext(j.token_env@)), ("valueFrom"@, value_from_view)]);
    let env_items = vec![env_entry];
    assert(env_items@.map_values(|v: JsonValue| json_view(v)) =~= seq![env_view]);
    let env = array_of(env_items);
    let mount_members = vec![
        text_member("name", j.volume_name.as_str()),
        text_member("mountPath", j.mount_path.as_str()),
    ];
    assert(mount_members@.map_values(|m: (String, JsonValue)| (m.0@, json_view(m.1))) =~= seq![
        ("name"@, jtext(j.volume_name@)),
        ("mountPath"@, jtext(j.mount_path@)),
    ]);
    let mount = object_of(mount_members);
    let ghost mount_view = JsonView::Object(seq![
        ("name"@, jtext(j.volume_name@)),
        ("mountPath"@, jtext(j.mount_path@)),
    ]);
    let mount_items = vec![mount];
    assert(mount_items@.map_values(|v: JsonValue| json_view(v)) =~= seq![mount_view]);
    let mounts = array_of(mount_items);
    let members = vec![
        text_member("name", j.container_name.as_str()),
        text_member("image", j.image.as_str()),
        (string_of("command"), string_list(&j.command)),
        (string_of("args"), string_list(&j.args)),
        (string_of("env"), env),
        (string_of("volumeMounts"), mounts),
    ];
    assert(members@.map_values(|m: (String, JsonValue)| (m.0@, json_view(m.1))) =~= job_container_doc(*j)->Object_0);
    object_of(members)
}

fn job_pod_value(j: &DownloadJob) -> (r: JsonValue)
    ensures
        r@ == job_pod_doc(*j),
{
    let selector_members = vec![text_member("kubernetes.io/hostname", j.node_hostname.as_str())];
    assert(selector_members@.map_values(|m: (String, JsonValue)| (m.0@, json_view(m.1))) =~= seq![
        ("kubernetes.io/hostname"@, jtext(j.node_hostname@)),
    ]);
    let selector = object_of(selector_members);
    let container_items = vec![job_container_value(j)];
    assert(container_items@.map_values(|v: JsonValue| json_view(v)) =~= seq![job_container_doc(*j)]);
    let containers = array_of(container_items);
    let host_members = vec![
        text_member("path", j.host_path.as_str()),
        text_member("type", j.host_path_type.as_str()),
    ];
    assert(host_members@.map_values(|m: (String, JsonValue)| (m.0@, json_view(m.1))) =~= seq![
        ("path"@, jtext(j.host_path@)),
        ("type"@, jtext(j.host_path_type@)),
    ]);
    let host = object_of(host_members);
    let ghost host_view = JsonView::Object(seq![("path"@, jtext(j.host_path@)), ("type"@, jtext(j.host_path_type@))]);
    let volume_members = vec![text_member("name", j.volume_name.as_str()), (string_of("hostPath"), host)];
    assert(volume_members@.map_values(|m: (String, JsonValue)| (m.0@, json_view(m.1))) =~= seq![
        ("name"@, jtext(j.volume_name@)),
        ("hostPath"@, host_view),
    ]);
    let volume = object_of(volume_members);
    let ghost volume_view = JsonView::Object(seq![("name"@, jtext(j.volume_name@)), ("hostPath"@, host_view)]);
    let volume_items = vec![volume];
    assert(volume_items@.map_values(|v: JsonValue| json_view(v)) =~= seq![volume_view]);
    let volumes = array_of(volume_items);
    let members = vec![
        (string_of("nodeSelector"), selector),
        (string_of("containers"), containers),
        (string_of("volumes"), volumes),
        text_member("restartPolicy", j.restart_policy.as_str()),
    ];
    assert(members@.map_values(|m: (String, JsonValue)| (m.0@, json_view(m.1))) =~= job_pod_doc(*j)->Object_0);
    object_of(members)
}

/// The Kubernetes `batch/v1` Job document of a download Job.
pub fn job_value(j: &DownloadJob) -> (r: JsonValue)
    ensures
        r@ == job_doc(*j),
{
    let meta_members = vec![
        text_member("name", j.name.as_str()),
        text_member("namespace", j.namespace.as_str()),
        (string_of("labels"), string_pairs_object(&j.labels)),
    ];
    assert(pair_views(j.labels@) == j.labels@.map_values(|p: (String, String)| (p.0@, p.1@)));
    assert(meta_members@.map_values(|m: (String, JsonValue)| (m.0@, json_view(m.1))) =~= seq![
        ("name"@, jtext(j.name@)),
        ("namespace"@, jtext(j.namespace@)),
        ("labels"@, string_pairs_view(pair_views(j.labels@))),
    ]);
    let metadata = object_of(meta_members);
    let template_members = vec![(string_of("spec"), job_pod_value(j))];
    assert(template_members@.map_values(|m: (String, JsonValue)| (m.0@, json_view(m.1))) =~= seq![
        ("spec"@, job_pod_doc(*j)),
    ]);
    let template = object_of(template_members);
    let spec_members = vec![
        (string_of("backoffLimit"), JsonValue::Int(j.backoff_limit as i64)),
        (string_of("ttlSecondsAfterFinished"), JsonValue::Int(j.ttl_seconds_after_finished as i64)),
        (string_of("template"), template),
    ];
    assert(spec_members@.map_values(|m: (String, JsonValue)| (m.0@, json_view(m.1))) =~= seq![
        ("backoffLimit"@, JsonView::Int(j.backoff_limit as i64)),
        ("ttlSecondsAfterFinished"@, JsonView::Int(j.ttl_seconds_after_finished as i64)),
        ("template"@, JsonView::Object(seq![("spec"@, job_pod_doc(*j))])),
    ]);
    let spec = object_of(spec_members);
    let members = vec![
        text_member("apiVersion", "batch/v1"),
        text_member("kind", "Job"),
        (string_of("metadata"), metadata),
        (string_of("spec"), spec),
    ];
    assert(members@.map_values(|m: (String, JsonValue)| (m.0@, json_view(m.1))) =~= job_doc(*j)->Object_0);
    object_of(members)
}

} // verus!
