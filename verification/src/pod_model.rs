//! Pod templates for the executor pods: every pod the operator creates
//! carries an init container that records the unmasked public IP, a VPN
//! sidecar, a shared volume, and the caller's worker container. Child job
//! resources are stamped with a controller owner reference to their parent
//! `Download`.

use vstd::prelude::*;
use crate::download::Download;
use crate::executor::Executor;
use crate::executor::ExecutorSpec;
use crate::k8s_model::ObjectMetaModel;
use crate::k8s_model::OwnerReference;
use crate::text::contains_char;
use crate::text::dup_opt_string;

verus! {

/// The IP service queried for the public IP address.
pub const IP_SERVICE: &'static str = "https://api.ipify.org";

/// Name of the volume shared between the containers of a pod.
pub const SHARED_VOLUME_NAME: &'static str = "shared";

/// Mount path of the shared volume.
pub const SHARED_PATH: &'static str = "/shared";

/// File in the shared volume holding the unmasked public IP, written by
/// the init container before the VPN can connect.
pub const IP_FILE_PATH: &'static str = "/shared/ip";

/// Image of the VPN sidecar.
pub const DEFAULT_VPN_IMAGE: &'static str = "qmcgaw/gluetun:v3.32.0";

/// Image of the init container.
pub const INIT_IMAGE: &'static str = "curlimages/curl:7.88.1";

/// Which parts a download pod is asked to fetch. Both downloads must run
/// behind the VPN, so one pod handles whichever parts are still missing.
#[derive(Debug, PartialEq, Eq, Clone, Copy, Structural)]
pub struct DownloadPodOptions {
    /// Download the video to the storage backend.
    pub download_video: bool,
    /// Download the thumbnail to the storage backend.
    pub download_thumbnail: bool,
}

/// An environment variable of a container: a literal value, or a
/// reference to a key of a Secret.
#[derive(Debug, Clone, PartialEq)]
pub struct EnvVarModel {
    /// Variable name.
    pub name: String,
    /// Literal value.
    pub value: Option<String>,
    /// Secret reference, as (secret name, key).
    pub value_from_secret: Option<(String, String)>,
}

/// A volume mount of a container.
#[derive(Debug, Clone, PartialEq)]
pub struct VolumeMountModel {
    /// Name of the mounted volume.
    pub name: String,
    /// Path the volume is mounted at.
    pub mount_path: String,
}

/// A container of a pod, as far as the operator writes it.
#[derive(Debug, Clone, PartialEq)]
pub struct ContainerModel {
    /// Container name.
    pub name: String,
    /// Image reference.
    pub image: Option<String>,
    /// Image pull policy.
    pub image_pull_policy: Option<String>,
    /// Entry point override.
    pub command: Option<Vec<String>>,
    /// Arguments to the entry point.
    pub args: Option<Vec<String>>,
    /// Environment variables.
    pub env: Vec<EnvVarModel>,
    /// Volume mounts.
    pub volume_mounts: Vec<VolumeMountModel>,
    /// Linux capabilities added to the container.
    pub capabilities_add: Vec<String>,
}

/// A pod as the operator writes it. Volumes are empty-dir volumes, held
/// by name.
#[derive(Debug, Clone, PartialEq)]
pub struct PodModel {
    /// Object metadata.
    pub metadata: ObjectMetaModel,
    /// Restart policy; the operator owns the pod lifecycle, so always
    /// `Never`.
    pub restart_policy: String,
    /// Service account the pod runs under.
    pub service_account_name: String,
    /// Init containers; exactly the IP-recording one.
    pub init_containers: Vec<ContainerModel>,
    /// Main containers: the VPN sidecar and the worker.
    pub containers: Vec<ContainerModel>,
    /// Names of the pod's empty-dir volumes.
    pub volumes: Vec<String>,
}

/// The container is the VPN sidecar: the stock VPN image with the
/// `NET_ADMIN` capability, wired to the IP service and to the VPN
/// provider's credentials Secret.
pub open spec fn spec_is_vpn_sidecar(c: ContainerModel) -> bool {
    &&& c.name@ == "vpn"@
    &&& c.image matches Some(i) && i@ == "qmcgaw/gluetun:v3.32.0"@
    &&& c.capabilities_add@.len() == 1 && c.capabilities_add@[0]@ == "NET_ADMIN"@
    &&& c.env@.len() == 4
    &&& c.env@[0].name@ == "VPN_SERVICE_PROVIDER"@
    &&& c.env@[0].value matches Some(v) && v@ == "private internet access"@
    &&& c.env@[1].name@ == "IP_SERVICE"@
    &&& c.env@[1].value matches Some(v) && v@ == "https://api.ipify.org"@
    &&& c.env@[2].name@ == "OPENVPN_USER"@
    &&& c.env@[2].value_from_secret matches Some(s)
        && (s.0@ == "pia-creds"@ && s.1@ == "username"@)
    &&& c.env@[3].name@ == "OPENVPN_PASSWORD"@
    &&& c.env@[3].value_from_secret matches Some(s)
        && (s.0@ == "pia-creds"@ && s.1@ == "password"@)
}

/// Builds the VPN sidecar container.
pub fn get_vpn_sidecar() -> (r: ContainerModel)
    ensures
        spec_is_vpn_sidecar(r),
{
    let mut env: Vec<EnvVarModel> = Vec::new();
    env.push(EnvVarModel {
        name: String::from_str("VPN_SERVICE_PROVIDER"),
        value: Some(String::from_str("private internet access")),
        value_from_secret: None,
    });
    env.push(EnvVarModel {
        name: String::from_str("IP_SERVICE"),
        value: Some(String::from_str(IP_SERVICE)),
        value_from_secret: None,
    });
    env.push(EnvVarModel {
        name: String::from_str("OPENVPN_USER"),
        value: None,
        value_from_secret: Some((String::from_str("pia-creds"), String::from_str("username"))),
    });
    env.push(EnvVarModel {
        name: String::from_str("OPENVPN_PASSWORD"),
        value: None,
        value_from_secret: Some((String::from_str("pia-creds"), String::from_str("password"))),
    });
    let mut caps: Vec<String> = Vec::new();
    caps.push(String::from_str("NET_ADMIN"));
    ContainerModel {
        name: String::from_str("vpn"),
        image: Some(String::from_str(DEFAULT_VPN_IMAGE)),
        image_pull_policy: Some(String::from_str("IfNotPresent")),
        command: None,
        args: None,
        env,
        volume_mounts: Vec::new(),
        capabilities_add: caps,
    }
}

/// The container mounts the shared volume at its usual path.
pub open spec fn spec_mounts_shared(c: ContainerModel) -> bool {
    &&& c.volume_mounts@.len() == 1
    &&& c.volume_mounts@[0].name@ == "shared"@
    &&& c.volume_mounts@[0].mount_path@ == "/shared"@
}

/// The container is the init container: it curls the IP service into the
/// shared volume, so the unmasked public IP is on record before any VPN
/// connection can race with it.
pub open spec fn spec_is_init_container(c: ContainerModel) -> bool {
    &&& c.name@ == "init"@
    &&& c.image matches Some(i) && i@ == "curlimages/curl:7.88.1"@
    &&& c.command matches Some(cmd) && {
        &&& cmd@.len() == 5
        &&& cmd@[0]@ == "curl"@
        &&& cmd@[1]@ == "-o"@
        &&& cmd@[2]@ == "/shared/ip"@
        &&& cmd@[3]@ == "-s"@
        &&& cmd@[4]@ == "https://api.ipify.org"@
    }
    &&& spec_mounts_shared(c)
}

/// Builds the shared volume mount.
fn shared_mount() -> (r: Vec<VolumeMountModel>)
    ensures
        r@.len() == 1,
        r@[0].name@ == "shared"@,
        r@[0].mount_path@ == "/shared"@,
{
    let mut mounts: Vec<VolumeMountModel> = Vec::new();
    mounts.push(VolumeMountModel {
        name: String::from_str(SHARED_VOLUME_NAME),
        mount_path: String::from_str(SHARED_PATH),
    });
    mounts
}

/// Builds the init container that records the unmasked public IP.
pub fn get_init_container() -> (r: ContainerModel)
    ensures
        spec_is_init_container(r),
{
    let mut cmd: Vec<String> = Vec::new();
    cmd.push(String::from_str("curl"));
    cmd.push(String::from_str("-o"));
    cmd.push(String::from_str(IP_FILE_PATH));
    cmd.push(String::from_str("-s"));
    cmd.push(String::from_str(IP_SERVICE));
    ContainerModel {
        name: String::from_str("init"),
        image: Some(String::from_str(INIT_IMAGE)),
        image_pull_policy: Some(String::from_str("IfNotPresent")),
        command: Some(cmd),
        args: None,
        env: Vec::new(),
        volume_mounts: shared_mount(),
        capabilities_add: Vec::new(),
    }
}

/// The pod follows the masked-pod template around the given worker
/// container: never restarted, labelled `app=ytdl`, with the init
/// container, the VPN sidecar, the worker, and the shared volume.
pub open spec fn spec_is_masked_pod(
    p: PodModel,
    name: Seq<char>,
    namespace: Seq<char>,
    owner_references: Seq<OwnerReference>,
    service_account_name: Seq<char>,
    worker: ContainerModel,
) -> bool {
    &&& p.metadata.name@ == name
    &&& p.metadata.namespace@ == namespace
    &&& p.metadata.owner_references@ == owner_references
    &&& p.metadata.deletion_timestamp is None
    &&& p.metadata.labels@.len() == 1
        && p.metadata.labels@[0].0@ == "app"@ && p.metadata.labels@[0].1@ == "ytdl"@
    &&& p.restart_policy@ == "Never"@
    &&& p.service_account_name@ == service_account_name
    &&& p.init_containers@.len() == 1 && spec_is_init_container(p.init_containers@[0])
    &&& p.containers@.len() == 2
    &&& spec_is_vpn_sidecar(p.containers@[0])
    &&& p.containers@[1] == worker
    &&& p.volumes@.len() == 1 && p.volumes@[0]@ == "shared"@
}

/// Builds a pod around the worker container, with the init container
/// writing the unmasked IP and the VPN sidecar masking all egress.
pub fn masked_pod(
    name: String,
    namespace: String,
    owner_references: Vec<OwnerReference>,
    service_account_name: String,
    container: ContainerModel,
) -> (r: PodModel)
    ensures
        spec_is_masked_pod(
            r,
            name@,
            namespace@,
            owner_references@,
            service_account_name@,
            container,
        ),
{
    let mut labels: Vec<(String, String)> = Vec::new();
    labels.push((String::from_str("app"), String::from_str("ytdl")));
    let mut init_containers: Vec<ContainerModel> = Vec::new();
    init_containers.push(get_init_container());
    let mut containers: Vec<ContainerModel> = Vec::new();
    containers.push(get_vpn_sidecar());
    containers.push(container);
    let mut volumes: Vec<String> = Vec::new();
    volumes.push(String::from_str(SHARED_VOLUME_NAME));
    PodModel {
        metadata: ObjectMetaModel {
            name,
            namespace,
            uid: String::new(),
            deletion_timestamp: None,
            finalizers: Vec::new(),
            owner_references,
            labels,
        },
        restart_policy: String::from_str("Never"),
        service_account_name,
        init_containers,
        containers,
        volumes,
    }
}

/// Resolves the executor image: the override from the spec, or the stock
/// image.
pub fn get_executor_image(executor: &Option<String>) -> (r: String)
    ensures
        match executor {
            Some(image) => r@ == image@,
            None => r@ == "thavlik/ytdl-executor:latest"@,
        },
{
    match executor {
        Some(image) => image.clone(),
        None => String::from_str(crate::DEFAULT_EXECUTOR_IMAGE),
    }
}

/// The arguments handed to a download pod's worker container.
pub open spec fn spec_executor_args(options: DownloadPodOptions) -> Seq<Seq<char>> {
    let base = seq!["download"@];
    let with_video = if options.download_video {
        base.push("--download-video"@)
    } else {
        base
    };
    if options.download_thumbnail {
        with_video.push("--download-thumbnail"@)
    } else {
        with_video
    }
}

/// Builds the worker arguments for a download pod: the subcommand and a
/// flag for each part that is still missing.
pub fn get_executor_args(options: &DownloadPodOptions) -> (r: Vec<String>)
    ensures
        r.deep_view() == spec_executor_args(*options),
{
    let mut args: Vec<String> = Vec::new();
    args.push(String::from_str("download"));
    if options.download_video {
        args.push(String::from_str("--download-video"));
    }
    if options.download_thumbnail {
        args.push(String::from_str("--download-thumbnail"));
    }
    assert(args.deep_view() =~= spec_executor_args(*options));
    args
}

/// The worker container of a query pod: the executor image running the
/// `query` subcommand, handed the serialized resource, with the shared
/// volume mounted so it can watch for the VPN.
pub open spec fn spec_is_query_worker(
    c: ContainerModel,
    executor_override: Option<String>,
    resource_json: Seq<char>,
) -> bool {
    &&& c.name@ == "executor"@
    &&& (match executor_override {
        Some(image) => c.image matches Some(i) && i@ == image@,
        None => c.image matches Some(i) && i@ == "thavlik/ytdl-executor:latest"@,
    })
    &&& c.image_pull_policy matches Some(p) && p@ == "Always"@
    &&& c.args matches Some(a) && a@.len() == 1 && a@[0]@ == "query"@
    &&& c.env@.len() == 1
    &&& c.env@[0].name@ == "RESOURCE"@
    &&& c.env@[0].value matches Some(v) && v@ == resource_json
    &&& spec_mounts_shared(c)
}

/// Builds the query pod of a `Download`: the masked-pod template around a
/// worker that runs the query, named after the parent and owned by it.
/// `resource_json` is the serialized resource injected for the worker.
pub fn build_query_pod(
    instance: &Download,
    service_account_name: String,
    resource_json: String,
) -> (r: PodModel)
    ensures
        spec_is_masked_pod(
            r,
            instance.metadata.name@,
            instance.metadata.namespace@,
            r.metadata.owner_references@,
            service_account_name@,
            r.containers@[1],
        ),
        r.metadata.owner_references@.len() == 1,
        spec_is_controller_ref(
            r.metadata.owner_references@[0],
            "Download"@,
            instance.metadata.name@,
        ),
        spec_is_query_worker(r.containers@[1], instance.spec.executor, resource_json@),
{
    let image = get_executor_image(&instance.spec.executor);
    let mut args: Vec<String> = Vec::new();
    args.push(String::from_str("query"));
    let mut env: Vec<EnvVarModel> = Vec::new();
    env.push(EnvVarModel {
        name: String::from_str("RESOURCE"),
        value: Some(resource_json),
        value_from_secret: None,
    });
    let container = ContainerModel {
        name: String::from_str("executor"),
        image: Some(image),
        image_pull_policy: Some(String::from_str("Always")),
        command: None,
        args: Some(args),
        env,
        volume_mounts: shared_mount(),
        capabilities_add: Vec::new(),
    };
    let mut owner_references: Vec<OwnerReference> = Vec::new();
    owner_references.push(download_owner_ref(instance));
    masked_pod(
        instance.metadata.name.clone(),
        instance.metadata.namespace.clone(),
        owner_references,
        service_account_name,
        container,
    )
}

/// The worker container of a download pod: the executor image running
/// the `download` subcommand with a flag per missing part.
pub open spec fn spec_is_download_worker(
    c: ContainerModel,
    executor_override: Option<String>,
    resource_json: Seq<char>,
    options: DownloadPodOptions,
) -> bool {
    &&& c.name@ == "executor"@
    &&& (match executor_override {
        Some(image) => c.image matches Some(i) && i@ == image@,
        None => c.image matches Some(i) && i@ == "thavlik/ytdl-executor:latest"@,
    })
    &&& c.image_pull_policy matches Some(p) && p@ == "Always"@
    &&& c.args matches Some(a) && a.deep_view() == spec_executor_args(options)
    &&& c.env@.len() == 1
    &&& c.env@[0].name@ == "RESOURCE"@
    &&& c.env@[0].value matches Some(v) && v@ == resource_json
    &&& spec_mounts_shared(c)
}

/// Builds the controller owner reference of a parent job resource.
pub fn executor_owner_ref(instance: &Executor) -> (r: OwnerReference)
    ensures
        spec_is_controller_ref(r, "Executor"@, instance.metadata.name@),
        r.uid@ == instance.metadata.uid@,
{
    OwnerReference {
        api_version: String::from_str("ytdl.beebs.dev/v1"),
        kind: String::from_str("Executor"),
        name: instance.metadata.name.clone(),
        uid: instance.metadata.uid.clone(),
        controller: true,
    }
}

/// Builds the download pod of a job resource: the masked-pod template
/// around a worker that downloads the parts still missing, named after
/// the job and owned by it.
pub fn build_download_pod(
    instance: &Executor,
    service_account_name: String,
    resource_json: String,
    options: &DownloadPodOptions,
) -> (r: PodModel)
    ensures
        spec_is_masked_pod(
            r,
            instance.metadata.name@,
            instance.metadata.namespace@,
            r.metadata.owner_references@,
            service_account_name@,
            r.containers@[1],
        ),
        r.metadata.owner_references@.len() == 1,
        spec_is_controller_ref(
            r.metadata.owner_references@[0],
            "Executor"@,
            instance.metadata.name@,
        ),
        spec_is_download_worker(
            r.containers@[1],
            instance.spec.executor,
            resource_json@,
            *options,
        ),
{
    let image = get_executor_image(&instance.spec.executor);
    let args = get_executor_args(options);
    let mut env: Vec<EnvVarModel> = Vec::new();
    env.push(EnvVarModel {
        name: String::from_str("RESOURCE"),
        value: Some(resource_json),
        value_from_secret: None,
    });
    let container = ContainerModel {
        name: String::from_str("executor"),
        image: Some(image),
        image_pull_policy: Some(String::from_str("Always")),
        command: None,
        args: Some(args),
        env,
        volume_mounts: shared_mount(),
        capabilities_add: Vec::new(),
    };
    let mut owner_references: Vec<OwnerReference> = Vec::new();
    owner_references.push(executor_owner_ref(instance));
    masked_pod(
        instance.metadata.name.clone(),
        instance.metadata.namespace.clone(),
        owner_references,
        service_account_name,
        container,
    )
}

/// Builds the name of a child job: `{parent}-{id}`.
pub fn job_name(parent: &String, id: &String) -> (r: String)
    ensures
        r@ == parent@ + "-"@ + id@,
{
    let mut name = parent.clone();
    name.append("-");
    name.append(id.as_str());
    name
}

/// The owner reference stamped onto everything a resource owns: a
/// controller reference carrying the parent's kind, name and uid.
pub open spec fn spec_is_controller_ref(
    oref: OwnerReference,
    kind: Seq<char>,
    name: Seq<char>,
) -> bool {
    &&& oref.kind@ == kind
    &&& oref.name@ == name
    &&& oref.controller
    &&& oref.api_version@ == "ytdl.beebs.dev/v1"@
}

/// Builds the controller owner reference of a parent `Download`.
pub fn download_owner_ref(instance: &Download) -> (r: OwnerReference)
    ensures
        spec_is_controller_ref(r, "Download"@, instance.metadata.name@),
        r.uid@ == instance.metadata.uid@,
{
    OwnerReference {
        api_version: String::from_str("ytdl.beebs.dev/v1"),
        kind: String::from_str("Download"),
        name: instance.metadata.name.clone(),
        uid: instance.metadata.uid.clone(),
        controller: true,
    }
}

/// Builds the child job resource for one resolved video: named
/// `{parent}-{id}`, owned by the parent through a single controller
/// reference, carrying the metadata line verbatim and inheriting the
/// parent's executor image, extra arguments and output specification.
pub fn get_entity_executor(instance: &Download, id: &String, metadata: String) -> (r: Executor)
    ensures
        r.metadata.name@ == instance.metadata.name@ + "-"@ + id@,
        r.metadata.namespace@ == instance.metadata.namespace@,
        r.metadata.owner_references@.len() == 1,
        spec_is_controller_ref(
            r.metadata.owner_references@[0],
            "Download"@,
            instance.metadata.name@,
        ),
        r.spec.metadata == metadata,
        r.spec.executor == instance.spec.executor,
        r.spec.extra == instance.spec.extra,
        r.spec.output == instance.spec.output,
        r.status is None,
{
    let oref = download_owner_ref(instance);
    let mut owner_references: Vec<OwnerReference> = Vec::new();
    owner_references.push(oref);
    Executor {
        metadata: ObjectMetaModel {
            name: job_name(&instance.metadata.name, id),
            namespace: instance.metadata.namespace.clone(),
            uid: String::new(),
            deletion_timestamp: None,
            finalizers: Vec::new(),
            owner_references,
            labels: Vec::new(),
        },
        spec: ExecutorSpec {
            metadata,
            executor: dup_opt_string(&instance.spec.executor),
            extra: dup_opt_string(&instance.spec.extra),
            output: instance.spec.output.duplicate(),
        },
        status: None,
    }
}

/// In a child job's name `{parent}-{id}` with an id free of dashes, the
/// last dash is the one the builder wrote, so the leading prefix up to
/// the last dash is exactly the parent's name.
pub proof fn lemma_job_name_prefix(parent: Seq<char>, id: Seq<char>)
    requires
        !contains_char(id, '-'),
    ensures
        ({
            let name = parent + "-"@ + id;
            &&& name.len() == parent.len() + 1 + id.len()
            &&& name[parent.len() as int] == '-'
            &&& forall|j: int| parent.len() < j < name.len() ==> name[j] != '-'
            &&& name.take(parent.len() as int) == parent
        }),
{
    let name = parent + "-"@ + id;
    reveal_strlit("-");
    assert("-"@.len() == 1);
    assert(name[parent.len() as int] == '-');
    assert forall|j: int| parent.len() < j < name.len() implies name[j] != '-' by {
        assert(name[j] == id[j - parent.len() - 1]);
        assert(!(0 <= j - parent.len() - 1 < id.len() && id[j - parent.len() - 1] == '-'));
    }
    assert(name.take(parent.len() as int) =~= parent);
}

} // verus!
