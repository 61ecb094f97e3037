use vstd::prelude::*;

verus! {

/// One port of a container. A port with `host_port` set is reachable on the
/// node itself.
#[derive(Clone, Copy, Debug, PartialEq, Eq)]
pub struct Port {
    pub host_port: Option<i32>,
    pub container_port: Option<i32>,
}

impl View for Port {
    type V = Port;

    open spec fn view(&self) -> Port {
        *self
    }
}

impl DeepView for Port {
    type V = Port;

    open spec fn deep_view(&self) -> Port {
        *self
    }
}

/// The security settings of a pod or of a container.
#[derive(Clone, Copy, Debug, PartialEq, Eq)]
pub struct SecurityContext {
    pub fs_group: Option<i32>,
    pub run_as_group: Option<i32>,
    pub run_as_non_root: Option<bool>,
    pub run_as_user: Option<i32>,
    pub allow_privilege_escalation: Option<bool>,
    pub priviliged: Option<bool>,
    pub read_only_root_filesystem: Option<bool>,
}

impl View for SecurityContext {
    type V = SecurityContext;

    open spec fn view(&self) -> SecurityContext {
        *self
    }
}

/// What the endpoint rule knows of one invoked service: whether a Service
/// fronts it, and whether it can be reached past any Service.
#[derive(Clone, Copy, Debug, PartialEq, Eq)]
pub struct Microservice {
    pub has_service: bool,
    pub has_direct_access: bool,
}

/// The model of a [`Limit`]: texts as character sequences, lists as sequences.
pub struct LimitView {
    pub cpu: Seq<char>,
    pub memory: Seq<char>,
}

/// An amount of CPU and of memory, as the descriptor writes them.
#[derive(Debug, PartialEq, Eq)]
pub struct Limit {
    pub cpu: String,
    pub memory: String,
}

impl View for Limit {
    type V = LimitView;

    open spec fn view(&self) -> LimitView {
        LimitView {
            cpu: self.cpu@,
            memory: self.memory@,
        }
    }
}

impl DeepView for Limit {
    type V = LimitView;

    open spec fn deep_view(&self) -> LimitView {
        self@
    }
}

impl Clone for Limit {
    fn clone(&self) -> (r: Self)
        ensures
            r@ == self@,
    {
        Limit {
            cpu: self.cpu.clone(),
            memory: self.memory.clone(),
        }
    }
}

/// The model of a [`Resources`]: texts as character sequences, lists as sequences.
pub struct ResourcesView {
    pub limits: Option<LimitView>,
    pub requests: Option<LimitView>,
}

/// The resource limits and requests of a container.
#[derive(Debug, PartialEq, Eq)]
pub struct Resources {
    pub limits: Option<Limit>,
    pub requests: Option<Limit>,
}

impl View for Resources {
    type V = ResourcesView;

    open spec fn view(&self) -> ResourcesView {
        ResourcesView {
            limits: self.limits.deep_view(),
            requests: self.requests.deep_view(),
        }
    }
}

impl DeepView for Resources {
    type V = ResourcesView;

    open spec fn deep_view(&self) -> ResourcesView {
        self@
    }
}

impl Clone for Resources {
    fn clone(&self) -> (r: Self)
        ensures
            r@ == self@,
    {
        Resources {
            limits: self.limits.clone(),
            requests: self.requests.clone(),
        }
    }
}

/// The model of a [`Env`]: texts as character sequences, lists as sequences.
pub struct EnvView {
    pub name: Seq<char>,
    pub value: Option<Seq<char>>,
}

/// One environment variable of a container.
#[derive(Debug, PartialEq, Eq)]
pub struct Env {
    pub name: String,
    pub value: Option<String>,
}

impl View for Env {
    type V = EnvView;

    open spec fn view(&self) -> EnvView {
        EnvView {
            name: self.name@,
            value: self.value.deep_view(),
        }
    }
}

impl DeepView for Env {
    type V = EnvView;

    open spec fn deep_view(&self) -> EnvView {
        self@
    }
}

impl Clone for Env {
    fn clone(&self) -> (r: Self)
        ensures
            r@ == self@,
    {
        Env {
            name: self.name.clone(),
            value: self.value.clone(),
        }
    }
}

/// The model of a [`Command`]: texts as character sequences, lists as sequences.
pub struct CommandView {
    pub command: Option<Seq<Seq<char>>>,
}

/// The command line of a probe.
#[derive(Debug, PartialEq, Eq)]
pub struct Command {
    pub command: Option<Vec<String>>,
}

impl View for Command {
    type V = CommandView;

    open spec fn view(&self) -> CommandView {
        CommandView {
            command: self.command.deep_view(),
        }
    }
}

impl DeepView for Command {
    type V = CommandView;

    open spec fn deep_view(&self) -> CommandView {
        self@
    }
}

impl Clone for Command {
    fn clone(&self) -> (r: Self)
        ensures
            r@ == self@,
    {
        Command {
            command: self.command.clone(),
        }
    }
}

/// The model of a [`Exec`]: texts as character sequences, lists as sequences.
pub struct ExecView {
    pub exec_action: Option<CommandView>,
}

/// A probe that runs a command inside the container.
#[derive(Debug, PartialEq, Eq)]
pub struct Exec {
    pub exec_action: Option<Command>,
}

impl View for Exec {
    type V = ExecView;

    open spec fn view(&self) -> ExecView {
        ExecView {
            exec_action: self.exec_action.deep_view(),
        }
    }
}

impl DeepView for Exec {
    type V = ExecView;

    open spec fn deep_view(&self) -> ExecView {
        self@
    }
}

impl Clone for Exec {
    fn clone(&self) -> (r: Self)
        ensures
            r@ == self@,
    {
        Exec {
            exec_action: self.exec_action.clone(),
        }
    }
}

/// The model of a [`Container`]: texts as character sequences, lists as sequences.
pub struct ContainerView {
    pub name: Seq<char>,
    pub security_context: Option<SecurityContext>,
    pub image: Seq<char>,
    pub ports: Option<Seq<Port>>,
    pub readiness_probe: Option<ExecView>,
    pub liveness_probe: Option<ExecView>,
    pub resources: Option<ResourcesView>,
    pub image_pull_policy: Option<Seq<char>>,
    pub env: Option<Seq<EnvView>>,
}

/// One container of a workload. Its image is what the rules classify it by;
/// its ports say whether it is reachable on the node itself.
#[derive(Debug, PartialEq, Eq)]
pub struct Container {
    pub name: String,
    pub security_context: Option<SecurityContext>,
    pub image: String,
    pub ports: Option<Vec<Port>>,
    pub readiness_probe: Option<Exec>,
    pub liveness_probe: Option<Exec>,
    pub resources: Option<Resources>,
    pub image_pull_policy: Option<String>,
    pub env: Option<Vec<Env>>,
}

impl View for Container {
    type V = ContainerView;

    open spec fn view(&self) -> ContainerView {
        ContainerView {
            name: self.name@,
            security_context: self.security_context,
            image: self.image@,
            ports: self.ports.deep_view(),
            readiness_probe: self.readiness_probe.deep_view(),
            liveness_probe: self.liveness_probe.deep_view(),
            resources: self.resources.deep_view(),
            image_pull_policy: self.image_pull_policy.deep_view(),
            env: self.env.deep_view(),
        }
    }
}

impl DeepView for Container {
    type V = ContainerView;

    open spec fn deep_view(&self) -> ContainerView {
        self@
    }
}

impl Clone for Container {
    fn clone(&self) -> (r: Self)
        ensures
            r@ == self@,
    {
        Container {
            name: self.name.clone(),
            security_context: self.security_context,
            image: self.image.clone(),
            ports: self.ports.clone(),
            readiness_probe: self.readiness_probe.clone(),
            liveness_probe: self.liveness_probe.clone(),
            resources: self.resources.clone(),
            image_pull_policy: self.image_pull_policy.clone(),
            env: self.env.clone(),
        }
    }
}

/// The model of a [`Volume`]: texts as character sequences, lists as sequences.
pub struct VolumeView {
    pub name: Seq<char>,
}

/// A volume that a workload declares.
#[derive(Debug, PartialEq, Eq)]
pub struct Volume {
    pub name: String,
}

impl View for Volume {
    type V = VolumeView;

    open spec fn view(&self) -> VolumeView {
        VolumeView {
            name: self.name@,
        }
    }
}

impl DeepView for Volume {
    type V = VolumeView;

    open spec fn deep_view(&self) -> VolumeView {
        self@
    }
}

impl Clone for Volume {
    fn clone(&self) -> (r: Self)
        ensures
            r@ == self@,
    {
        Volume {
            name: self.name.clone(),
        }
    }
}

/// The model of a [`Labels`]: texts as character sequences, lists as sequences.
pub struct LabelsView {
    pub app: Option<Seq<char>>,
    pub service: Option<Seq<char>>,
    pub name: Option<Seq<char>>,
}

/// The labels that the rules know of.
#[derive(Debug, PartialEq, Eq)]
pub struct Labels {
    pub app: Option<String>,
    pub service: Option<String>,
    pub name: Option<String>,
}

impl View for Labels {
    type V = LabelsView;

    open spec fn view(&self) -> LabelsView {
        LabelsView {
            app: self.app.deep_view(),
            service: self.service.deep_view(),
            name: self.name.deep_view(),
        }
    }
}

impl DeepView for Labels {
    type V = LabelsView;

    open spec fn deep_view(&self) -> LabelsView {
        self@
    }
}

impl Clone for Labels {
    fn clone(&self) -> (r: Self)
        ensures
            r@ == self@,
    {
        Labels {
            app: self.app.clone(),
            service: self.service.clone(),
            name: self.name.clone(),
        }
    }
}

/// The model of a [`MetadataTemplate`]: texts as character sequences, lists as sequences.
pub struct MetadataTemplateView {
    pub labels: LabelsView,
}

/// The metadata of a pod template.
#[derive(Debug, PartialEq, Eq)]
pub struct MetadataTemplate {
    pub labels: Labels,
}

impl View for MetadataTemplate {
    type V = MetadataTemplateView;

    open spec fn view(&self) -> MetadataTemplateView {
        MetadataTemplateView {
            labels: self.labels.deep_view(),
        }
    }
}

impl DeepView for MetadataTemplate {
    type V = MetadataTemplateView;

    open spec fn deep_view(&self) -> MetadataTemplateView {
        self@
    }
}

impl Clone for MetadataTemplate {
    fn clone(&self) -> (r: Self)
        ensures
            r@ == self@,
    {
        MetadataTemplate {
            labels: self.labels.clone(),
        }
    }
}

/// The model of a [`TemplateSpec`]: texts as character sequences, lists as sequences.
pub struct TemplateSpecView {
    pub init_containers: Option<Seq<ContainerView>>,
    pub containers: Option<Seq<ContainerView>>,
    pub volumes: Option<Seq<VolumeView>>,
}

/// What a pod template holds: the containers of a Deployment stand here.
#[derive(Debug, PartialEq, Eq)]
pub struct TemplateSpec {
    pub init_containers: Option<Vec<Container>>,
    pub containers: Option<Vec<Container>>,
    pub volumes: Option<Vec<Volume>>,
}

impl View for TemplateSpec {
    type V = TemplateSpecView;

    open spec fn view(&self) -> TemplateSpecView {
        TemplateSpecView {
            init_containers: self.init_containers.deep_view(),
            containers: self.containers.deep_view(),
            volumes: self.volumes.deep_view(),
        }
    }
}

impl DeepView for TemplateSpec {
    type V = TemplateSpecView;

    open spec fn deep_view(&self) -> TemplateSpecView {
        self@
    }
}

impl Clone for TemplateSpec {
    fn clone(&self) -> (r: Self)
        ensures
            r@ == self@,
    {
        TemplateSpec {
            init_containers: self.init_containers.clone(),
            containers: self.containers.clone(),
            volumes: self.volumes.clone(),
        }
    }
}

/// The model of a [`Template`]: texts as character sequences, lists as sequences.
pub struct TemplateView {
    pub spec: TemplateSpecView,
    pub metadata: Option<MetadataTemplateView>,
}

/// The pod template of a Deployment.
#[derive(Debug, PartialEq, Eq)]
pub struct Template {
    pub spec: TemplateSpec,
    pub metadata: Option<MetadataTemplate>,
}

impl View for Template {
    type V = TemplateView;

    open spec fn view(&self) -> TemplateView {
        TemplateView {
            spec: self.spec.deep_view(),
            metadata: self.metadata.deep_view(),
        }
    }
}

impl DeepView for Template {
    type V = TemplateView;

    open spec fn deep_view(&self) -> TemplateView {
        self@
    }
}

impl Clone for Template {
    fn clone(&self) -> (r: Self)
        ensures
            r@ == self@,
    {
        Template {
            spec: self.spec.clone(),
            metadata: self.metadata.clone(),
        }
    }
}

/// The model of a [`Selector`]: texts as character sequences, lists as sequences.
pub struct SelectorView {
    pub service: Option<Seq<char>>,
    pub match_labels: Option<LabelsView>,
    pub app: Option<Seq<char>>,
}

/// The selector of a Service: its `app` or `service` label names the workload
/// that the Service fronts.
#[derive(Debug, PartialEq, Eq)]
pub struct Selector {
    pub service: Option<String>,
    pub match_labels: Option<Labels>,
    pub app: Option<String>,
}

impl View for Selector {
    type V = SelectorView;

    open spec fn view(&self) -> SelectorView {
        SelectorView {
            service: self.service.deep_view(),
            match_labels: self.match_labels.deep_view(),
            app: self.app.deep_view(),
        }
    }
}

impl DeepView for Selector {
    type V = SelectorView;

    open spec fn deep_view(&self) -> SelectorView {
        self@
    }
}

impl Clone for Selector {
    fn clone(&self) -> (r: Self)
        ensures
            r@ == self@,
    {
        Selector {
            service: self.service.clone(),
            match_labels: self.match_labels.clone(),
            app: self.app.clone(),
        }
    }
}

/// The model of a [`OutlierDetection`]: texts as character sequences, lists as sequences.
pub struct OutlierDetectionView {
    pub consecutive_errors: Option<i32>,
    pub interval: Option<Seq<char>>,
}

/// The circuit-breaker settings of a DestinationRule.
#[derive(Debug, PartialEq, Eq)]
pub struct OutlierDetection {
    pub consecutive_errors: Option<i32>,
    pub interval: Option<String>,
}

impl View for OutlierDetection {
    type V = OutlierDetectionView;

    open spec fn view(&self) -> OutlierDetectionView {
        OutlierDetectionView {
            consecutive_errors: self.consecutive_errors,
            interval: self.interval.deep_view(),
        }
    }
}

impl DeepView for OutlierDetection {
    type V = OutlierDetectionView;

    open spec fn deep_view(&self) -> OutlierDetectionView {
        self@
    }
}

impl Clone for OutlierDetection {
    fn clone(&self) -> (r: Self)
        ensures
            r@ == self@,
    {
        OutlierDetection {
            consecutive_errors: self.consecutive_errors,
            interval: self.interval.clone(),
        }
    }
}

/// The model of a [`TrafficPolicy`]: texts as character sequences, lists as sequences.
pub struct TrafficPolicyView {
    pub outlier_detection: Option<OutlierDetectionView>,
}

/// The traffic policy of a DestinationRule.
#[derive(Debug, PartialEq, Eq)]
pub struct TrafficPolicy {
    pub outlier_detection: Option<OutlierDetection>,
}

impl View for TrafficPolicy {
    type V = TrafficPolicyView;

    open spec fn view(&self) -> TrafficPolicyView {
        TrafficPolicyView {
            outlier_detection: self.outlier_detection.deep_view(),
        }
    }
}

impl DeepView for TrafficPolicy {
    type V = TrafficPolicyView;

    open spec fn deep_view(&self) -> TrafficPolicyView {
        self@
    }
}

impl Clone for TrafficPolicy {
    fn clone(&self) -> (r: Self)
        ensures
            r@ == self@,
    {
        TrafficPolicy {
            outlier_detection: self.outlier_detection.clone(),
        }
    }
}

/// The model of a [`Destination`]: texts as character sequences, lists as sequences.
pub struct DestinationView {
    pub host: Seq<char>,
}

/// Where a route of a VirtualService leads.
#[derive(Debug, PartialEq, Eq)]
pub struct Destination {
    pub host: String,
}

impl View for Destination {
    type V = DestinationView;

    open spec fn view(&self) -> DestinationView {
        DestinationView {
            host: self.host@,
        }
    }
}

impl DeepView for Destination {
    type V = DestinationView;

    open spec fn deep_view(&self) -> DestinationView {
        self@
    }
}

impl Clone for Destination {
    fn clone(&self) -> (r: Self)
        ensures
            r@ == self@,
    {
        Destination {
            host: self.host.clone(),
        }
    }
}

/// The model of a [`RouteSpec`]: texts as character sequences, lists as sequences.
pub struct RouteSpecView {
    pub destinations: DestinationView,
}

/// One route of a VirtualService.
#[derive(Debug, PartialEq, Eq)]
pub struct RouteSpec {
    pub destinations: Destination,
}

impl View for RouteSpec {
    type V = RouteSpecView;

    open spec fn view(&self) -> RouteSpecView {
        RouteSpecView {
            destinations: self.destinations.deep_view(),
        }
    }
}

impl DeepView for RouteSpec {
    type V = RouteSpecView;

    open spec fn deep_view(&self) -> RouteSpecView {
        self@
    }
}

impl Clone for RouteSpec {
    fn clone(&self) -> (r: Self)
        ensures
            r@ == self@,
    {
        RouteSpec {
            destinations: self.destinations.clone(),
        }
    }
}

/// The model of a [`HttpSpec`]: texts as character sequences, lists as sequences.
pub struct HttpSpecView {
    pub route: Seq<RouteSpecView>,
    pub timeout: Seq<char>,
}

/// The HTTP routes of a VirtualService and their timeout.
#[derive(Debug, PartialEq, Eq)]
pub struct HttpSpec {
    pub route: Vec<RouteSpec>,
    pub timeout: String,
}

impl View for HttpSpec {
    type V = HttpSpecView;

    open spec fn view(&self) -> HttpSpecView {
        HttpSpecView {
            route: self.route.deep_view(),
            timeout: self.timeout@,
        }
    }
}

impl DeepView for HttpSpec {
    type V = HttpSpecView;

    open spec fn deep_view(&self) -> HttpSpecView {
        self@
    }
}

impl Clone for HttpSpec {
    fn clone(&self) -> (r: Self)
        ensures
            r@ == self@,
    {
        HttpSpec {
            route: self.route.clone(),
            timeout: self.timeout.clone(),
        }
    }
}

/// The model of a [`Spec`]: texts as character sequences, lists as sequences.
pub struct SpecView {
    pub service_account_name: Option<Seq<char>>,
    pub termination_grace_period_seconds: Option<i32>,
    pub security_context: Option<SecurityContext>,
    pub init_containers: Option<Seq<ContainerView>>,
    pub containers: Option<Seq<ContainerView>>,
    pub volumes: Option<Seq<VolumeView>>,
    pub template: Option<TemplateView>,
    pub host_network: Option<bool>,
    pub selector: Option<SelectorView>,
    pub hosts: Option<Seq<Seq<char>>>,
    pub http: Option<Seq<HttpSpecView>>,
    pub host: Option<Seq<char>>,
    pub traffic_policy: Option<TrafficPolicyView>,
    pub replicas: Option<i32>,
    pub restart_policy: Option<Seq<char>>,
}

/// The body of a descriptor. Which fields are set depends on its kind:
/// a Pod has `containers`, a Deployment a `template`, a Service a `selector`,
/// a VirtualService `hosts`, a DestinationRule `host` and `traffic_policy`.
#[derive(Debug, PartialEq, Eq)]
pub struct Spec {
    pub service_account_name: Option<String>,
    pub termination_grace_period_seconds: Option<i32>,
    pub security_context: Option<SecurityContext>,
    pub init_containers: Option<Vec<Container>>,
    pub containers: Option<Vec<Container>>,
    pub volumes: Option<Vec<Volume>>,
    pub template: Option<Template>,
    pub host_network: Option<bool>,
    pub selector: Option<Selector>,
    pub hosts: Option<Vec<String>>,
    pub http: Option<Vec<HttpSpec>>,
    pub host: Option<String>,
    pub traffic_policy: Option<TrafficPolicy>,
    pub replicas: Option<i32>,
    pub restart_policy: Option<String>,
}

impl View for Spec {
    type V = SpecView;

    open spec fn view(&self) -> SpecView {
        SpecView {
            service_account_name: self.service_account_name.deep_view(),
            termination_grace_period_seconds: self.termination_grace_period_seconds,
            security_context: self.security_context,
            init_containers: self.init_containers.deep_view(),
            containers: self.containers.deep_view(),
            volumes: self.volumes.deep_view(),
            template: self.template.deep_view(),
            host_network: self.host_network,
            selector: self.selector.deep_view(),
            hosts: self.hosts.deep_view(),
            http: self.http.deep_view(),
            host: self.host.deep_view(),
            traffic_policy: self.traffic_policy.deep_view(),
            replicas: self.replicas,
            restart_policy: self.restart_policy.deep_view(),
        }
    }
}

impl DeepView for Spec {
    type V = SpecView;

    open spec fn deep_view(&self) -> SpecView {
        self@
    }
}

impl Clone for Spec {
    fn clone(&self) -> (r: Self)
        ensures
            r@ == self@,
    {
        Spec {
            service_account_name: self.service_account_name.clone(),
            termination_grace_period_seconds: self.termination_grace_period_seconds,
            security_context: self.security_context,
            init_containers: self.init_containers.clone(),
            containers: self.containers.clone(),
            volumes: self.volumes.clone(),
            template: self.template.clone(),
            host_network: self.host_network,
            selector: self.selector.clone(),
            hosts: self.hosts.clone(),
            http: self.http.clone(),
            host: self.host.clone(),
            traffic_policy: self.traffic_policy.clone(),
            replicas: self.replicas,
            restart_policy: self.restart_policy.clone(),
        }
    }
}

/// The model of a [`Metadata`]: texts as character sequences, lists as sequences.
pub struct MetadataView {
    pub name: Seq<char>,
    pub labels: Option<LabelsView>,
}

/// The name of a descriptor and its labels.
#[derive(Debug, PartialEq, Eq)]
pub struct Metadata {
    pub name: String,
    pub labels: Option<Labels>,
}

impl View for Metadata {
    type V = MetadataView;

    open spec fn view(&self) -> MetadataView {
        MetadataView {
            name: self.name@,
            labels: self.labels.deep_view(),
        }
    }
}

impl DeepView for Metadata {
    type V = MetadataView;

    open spec fn deep_view(&self) -> MetadataView {
        self@
    }
}

impl Clone for Metadata {
    fn clone(&self) -> (r: Self)
        ensures
            r@ == self@,
    {
        Metadata {
            name: self.name.clone(),
            labels: self.labels.clone(),
        }
    }
}

/// The model of a [`K8SManifest`]: texts as character sequences, lists as sequences.
pub struct K8SManifestView {
    pub api_version: Seq<char>,
    pub kind: Seq<char>,
    pub metadata: MetadataView,
    pub spec: SpecView,
}

/// One descriptor: a workload (Pod, Deployment) or a networking object
/// (Service, VirtualService, DestinationRule). Its name is the key of every
/// report and the stem of the file it is kept in.
#[derive(Debug, PartialEq, Eq)]
pub struct K8SManifest {
    pub api_version: String,
    pub kind: String,
    pub metadata: Metadata,
    pub spec: Spec,
}

impl View for K8SManifest {
    type V = K8SManifestView;

    open spec fn view(&self) -> K8SManifestView {
        K8SManifestView {
            api_version: self.api_version@,
            kind: self.kind@,
            metadata: self.metadata.deep_view(),
            spec: self.spec.deep_view(),
        }
    }
}

impl DeepView for K8SManifest {
    type V = K8SManifestView;

    open spec fn deep_view(&self) -> K8SManifestView {
        self@
    }
}

impl Clone for K8SManifest {
    fn clone(&self) -> (r: Self)
        ensures
            r@ == self@,
    {
        K8SManifest {
            api_version: self.api_version.clone(),
            kind: self.kind.clone(),
            metadata: self.metadata.clone(),
            spec: self.spec.clone(),
        }
    }
}


/// A body with no field set.
pub open spec fn empty_spec() -> SpecView {
    SpecView {
        service_account_name: None,
        termination_grace_period_seconds: None,
        security_context: None,
        init_containers: None,
        containers: None,
        volumes: None,
        template: None,
        host_network: None,
        selector: None,
        hosts: None,
        http: None,
        host: None,
        traffic_policy: None,
        replicas: None,
        restart_policy: None,
    }
}

impl Default for Spec {
    /// A body with no field set.
    fn default() -> (r: Spec)
        ensures
            r@ == empty_spec(),
    {
        Spec {
            service_account_name: None,
            termination_grace_period_seconds: None,
            security_context: None,
            init_containers: None,
            containers: None,
            volumes: None,
            template: None,
            host_network: None,
            selector: None,
            hosts: None,
            http: None,
            host: None,
            traffic_policy: None,
            replicas: None,
            restart_policy: None,
        }
    }
}

/// The words that, in the name or the image of a container, mark it as an
/// auxiliary one.
pub open spec fn patterns() -> Seq<Seq<char>> {
    seq!["sidecar"@, "ambassador"@, "adapter"@]
}

/// The words that, in the name or the image of a container, mark it as an
/// auxiliary one.
pub fn get_patterns() -> (r: Vec<String>)
    ensures
        r.deep_view() == patterns(),
{
    let mut r: Vec<String> = Vec::new();
    r.push("sidecar".to_owned());
    r.push("ambassador".to_owned());
    r.push("adapter".to_owned());
    assert(r.deep_view() =~= patterns());
    r
}

} // verus!
