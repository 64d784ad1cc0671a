//! Container service configuration: resource validation, public port
//! grouping and registry credential handling.

use vstd::prelude::*;

verus! {

broadcast use vstd::seq_lib::group_seq_properties, Seq::lemma_filter_push;

/// Configuration errors of a container service, raised before any external
/// call.
#[derive(Clone, Debug, PartialEq, Eq)]
pub enum ContainerError {
    InvalidConfig(String),
}

impl ContainerError {
    /// The error's message.
    pub fn message(&self) -> (r: &String)
        ensures
            *self matches ContainerError::InvalidConfig(m) && r@ == m@,
    {
        match self {
            ContainerError::InvalidConfig(m) => m,
        }
    }
}

/// The protocol a service port speaks.
#[derive(Clone, Copy, Debug, PartialEq, Eq, Structural)]
pub enum Protocol {
    HTTP,
    GRPC,
    TCP,
    UDP,
}

/// One service port as the caller declares it.
#[derive(Clone, Debug, PartialEq, Eq)]
pub struct Port {
    pub name: String,
    pub port: i32,
    pub is_default: bool,
    pub publicly_accessible: bool,
    pub protocol: Protocol,
}

/// Mathematical image of a port.
pub ghost struct PortView {
    pub name: Seq<char>,
    pub port: i32,
    pub is_default: bool,
    pub publicly_accessible: bool,
    pub protocol: Protocol,
}

impl View for Port {
    type V = PortView;

    open spec fn view(&self) -> PortView {
        PortView {
            name: self.name@,
            port: self.port,
            is_default: self.is_default,
            publicly_accessible: self.publicly_accessible,
            protocol: self.protocol,
        }
    }
}

/// The views of a port list.
pub open spec fn ports_view(ports: Seq<Port>) -> Seq<PortView> {
    ports.map_values(|p: Port| p@)
}

/// A port belongs to the public group of a protocol when it is publicly
/// accessible and speaks that protocol.
pub open spec fn is_public_for(protocol: Protocol) -> spec_fn(PortView) -> bool {
    |p: PortView| p.publicly_accessible && p.protocol == protocol
}

/// The hostname a public port is served under: its name, a dash, the
/// service's public domain.
pub open spec fn hostname_of(p: PortView, public_domain: Seq<char>) -> Seq<char> {
    p.name + "-"@ + public_domain
}

/// The hostname mapping as a first-class function.
pub open spec fn hostname_fn(public_domain: Seq<char>) -> spec_fn(PortView) -> Seq<char> {
    |p: PortView| hostname_of(p, public_domain)
}

impl Port {
    /// Rebuilds this port value.
    fn duplicate(&self) -> (r: Self)
        ensures
            r@ == self@,
    {
        Port {
            name: self.name.clone(),
            port: self.port,
            is_default: self.is_default,
            publicly_accessible: self.publicly_accessible,
            protocol: self.protocol,
        }
    }
}

/// The publicly reachable layer-4 ports of one protocol, with the
/// hostnames they are served under.
pub struct PublicL4Ports {
    pub protocol: Protocol,
    pub ports: Vec<Port>,
    pub hostnames: Vec<String>,
}

/// Groups the public ports of one protocol, with their hostnames, in
/// declaration order; a protocol with no public port yields nothing.
pub fn to_public_l4_ports(ports: &Vec<Port>, protocol: Protocol, public_domain: &str) -> (r:
    Option<PublicL4Ports>)
    ensures
        ({
            let selected = ports_view(ports@).filter(is_public_for(protocol));
            if selected.len() == 0 {
                r is None
            } else {
                r matches Some(l) && l.protocol == protocol && ports_view(l.ports@) == selected
                    && l.hostnames.deep_view() == selected.map_values(hostname_fn(public_domain@))
            }
        }),
{
    let ghost s = ports_view(ports@);
    let ghost selected = s.filter(is_public_for(protocol));
    let mut out: Vec<Port> = Vec::new();
    let mut hostnames: Vec<String> = Vec::new();
    let mut i: usize = 0;
    while i < ports.len()
        invariant
            0 <= i <= ports@.len(),
            s == ports_view(ports@),
            s.len() == ports@.len(),
            ports_view(out@) == s.take(i as int).filter(is_public_for(protocol)),
            hostnames@.len() == out@.len(),
            forall|k: int|
                0 <= k < out@.len() ==> #[trigger] hostnames@[k]@ == hostname_of(
                    out@[k]@,
                    public_domain@,
                ),
        decreases ports@.len() - i,
    {
        proof {
            assert(s[i as int] == ports@[i as int]@);
            assert(s.take(i + 1) =~= s.take(i as int).push(s[i as int]));
        }
        let p = &ports[i];
        if p.publicly_accessible && p.protocol == protocol {
            proof {
                assert(is_public_for(protocol)(s[i as int]));
            }
            let ghost prev = out@;
            let dup = p.duplicate();
            let mut hostname = dup.name.clone();
            hostname.append("-");
            hostname.append(public_domain);
            proof {
                assert(hostname@ =~= hostname_of(s[i as int], public_domain@));
            }
            out.push(dup);
            hostnames.push(hostname);
            proof {
                assert(ports_view(out@) =~= ports_view(prev).push(s[i as int]));
            }
        } else {
            proof {
                assert(!is_public_for(protocol)(s[i as int]));
            }
        }
        i += 1;
    }
    proof {
        assert(s.take(s.len() as int) =~= s);
    }
    if out.len() == 0 {
        None
    } else {
        proof {
            assert(hostnames.deep_view() =~= selected.map_values(hostname_fn(public_domain@)));
        }
        Some(PublicL4Ports { protocol, ports: out, hostnames })
    }
}

/// The default port of a service: the first port marked default, or the
/// first port of the list, or nothing for a service without ports.
pub open spec fn default_port_spec(s: Seq<PortView>) -> Option<PortView> {
    if exists|i: int| 0 <= i < s.len() && s[i].is_default {
        let i = choose|i: int| 0 <= i < s.len() && s[i].is_default && (forall|j: int|
            0 <= j < i ==> !(#[trigger] s[j].is_default));
        Some(s[i])
    } else if s.len() > 0 {
        Some(s[0])
    } else {
        None
    }
}

/// Picks the service's default port: the first port marked default, else
/// the first port declared.
pub fn default_port(ports: &Vec<Port>) -> (r: Option<Port>)
    ensures
        ({
            let s = ports_view(ports@);
            match r {
                Some(p) => default_port_spec(s) == Some(p@),
                None => s.len() == 0,
            }
        }),
{
    let ghost s = ports_view(ports@);
    let mut i: usize = 0;
    while i < ports.len()
        invariant
            0 <= i <= ports@.len(),
            s == ports_view(ports@),
            s.len() == ports@.len(),
            forall|j: int| 0 <= j < i ==> !(#[trigger] s[j].is_default),
        decreases ports@.len() - i,
    {
        proof {
            assert(s[i as int] == ports@[i as int]@);
        }
        if ports[i].is_default {
            let r = ports[i].duplicate();
            proof {
                let w = i as int;
                assert(s[w].is_default);
                let c = choose|c: int|
                    0 <= c < s.len() && s[c].is_default && (forall|j: int|
                        0 <= j < c ==> !(#[trigger] s[j].is_default));
                assert(c == w);
            }
            return Some(r);
        }
        i += 1;
    }
    if ports.len() > 0 {
        proof {
            assert(s[0] == ports@[0]@);
        }
        Some(ports[0].duplicate())
    } else {
        None
    }
}

/// The resource bounds a container must satisfy before anything is
/// provisioned: at least one instance, requests positive and not above
/// their limits.
pub open spec fn valid_container_resources(
    min_instances: u32,
    max_instances: u32,
    cpu_request_in_mili: u32,
    cpu_limit_in_mili: u32,
    ram_request_in_mib: u32,
    ram_limit_in_mib: u32,
) -> bool {
    &&& min_instances <= max_instances
    &&& min_instances > 0
    &&& cpu_request_in_mili <= cpu_limit_in_mili
    &&& cpu_request_in_mili > 0
    &&& ram_request_in_mib <= ram_limit_in_mib
    &&& ram_request_in_mib > 0
}

/// Checks a container's resource bounds, failing fast — before any
/// external call — on the first violated rule.
pub fn validate_container_resources(
    min_instances: u32,
    max_instances: u32,
    cpu_request_in_mili: u32,
    cpu_limit_in_mili: u32,
    ram_request_in_mib: u32,
    ram_limit_in_mib: u32,
) -> (r: Result<(), ContainerError>)
    ensures
        r is Ok <==> valid_container_resources(
            min_instances,
            max_instances,
            cpu_request_in_mili,
            cpu_limit_in_mili,
            ram_request_in_mib,
            ram_limit_in_mib,
        ),
        min_instances > max_instances ==> (r matches Err(ContainerError::InvalidConfig(m))
            && m@ == "min_instances must be less or equal to max_instances"@),
        min_instances <= max_instances && min_instances == 0 ==> (r matches Err(
            ContainerError::InvalidConfig(m),
        ) && m@ == "min_instances must be greater than 0"@),
        0 < min_instances <= max_instances && cpu_request_in_mili > cpu_limit_in_mili ==> (r
            matches Err(ContainerError::InvalidConfig(m)) && m@
            == "cpu_request_in_mili must be less or equal to cpu_limit_in_mili"@),
        0 < min_instances <= max_instances && cpu_request_in_mili == 0 ==> (r matches Err(
            ContainerError::InvalidConfig(m),
        ) && m@ == "cpu_request_in_mili must be greater than 0"@),
        0 < min_instances <= max_instances && 0 < cpu_request_in_mili <= cpu_limit_in_mili
            && ram_request_in_mib > ram_limit_in_mib ==> (r matches Err(
            ContainerError::InvalidConfig(m),
        ) && m@ == "ram_request_in_mib must be less or equal to ram_limit_in_mib"@),
        0 < min_instances <= max_instances && 0 < cpu_request_in_mili <= cpu_limit_in_mili
            && ram_request_in_mib == 0 ==> (r matches Err(ContainerError::InvalidConfig(m)) && m@
            == "ram_request_in_mib must be greater than 0"@),
{
    if min_instances > max_instances {
        return Err(ContainerError::InvalidConfig(
            String::from_str("min_instances must be less or equal to max_instances"),
        ));
    }
    if min_instances == 0 {
        return Err(ContainerError::InvalidConfig(
            String::from_str("min_instances must be greater than 0"),
        ));
    }
    if cpu_request_in_mili > cpu_limit_in_mili {
        return Err(ContainerError::InvalidConfig(
            String::from_str("cpu_request_in_mili must be less or equal to cpu_limit_in_mili"),
        ));
    }
    if cpu_request_in_mili == 0 {
        return Err(ContainerError::InvalidConfig(
            String::from_str("cpu_request_in_mili must be greater than 0"),
        ));
    }
    if ram_request_in_mib > ram_limit_in_mib {
        return Err(ContainerError::InvalidConfig(
            String::from_str("ram_request_in_mib must be less or equal to ram_limit_in_mib"),
        ));
    }
    if ram_request_in_mib == 0 {
        return Err(ContainerError::InvalidConfig(
            String::from_str("ram_request_in_mib must be greater than 0"),
        ));
    }
    Ok(())
}

/// A liveness or readiness probe's timing parameters, in seconds.
#[derive(Clone, Copy, Debug, PartialEq, Eq, Structural)]
pub struct Probe {
    pub initial_delay_seconds: u32,
    pub period_seconds: u32,
    pub timeout_seconds: u32,
    pub failure_threshold: u32,
}

/// The seconds a probe may take before its workload counts as failed:
/// the initial delay plus one timeout-and-period window per allowed
/// failure.
pub open spec fn probe_timeout_secs(p: Probe) -> int {
    p.initial_delay_seconds + (p.timeout_seconds + p.period_seconds) * p.failure_threshold
}

/// A probe's timeout, or the five-minute default when none is set.
pub open spec fn probe_timeout_or_default(p: Option<Probe>) -> int {
    match p {
        Some(probe) => probe_timeout_secs(probe),
        None => 300,
    }
}

/// How long to wait for a container to start: the larger of the two probe
/// timeouts, but no less than ten minutes.
pub open spec fn startup_timeout_spec(readiness: Option<Probe>, liveness: Option<Probe>) -> int {
    let probe_timeout = if probe_timeout_or_default(readiness) >= probe_timeout_or_default(
        liveness,
    ) {
        probe_timeout_or_default(readiness)
    } else {
        probe_timeout_or_default(liveness)
    };
    if probe_timeout >= 600 {
        probe_timeout
    } else {
        600
    }
}

/// A probe's timeout, when present, fits the machine word the computation
/// runs in.
pub open spec fn probe_timeout_fits(p: Option<Probe>) -> bool {
    match p {
        Some(probe) => probe_timeout_secs(probe) <= u64::MAX,
        None => true,
    }
}

/// Computes the startup timeout, in seconds, a deployment grants the
/// container before giving up.
pub fn startup_timeout(readiness_probe: &Option<Probe>, liveness_probe: &Option<Probe>) -> (r:
    u64)
    requires
        probe_timeout_fits(*readiness_probe),
        probe_timeout_fits(*liveness_probe),
    ensures
        r == startup_timeout_spec(*readiness_probe, *liveness_probe),
{
    let readiness_timeout: u64 = match readiness_probe {
        Some(p) => p.initial_delay_seconds as u64 + ((p.timeout_seconds as u64
            + p.period_seconds as u64) * p.failure_threshold as u64),
        None => 300,
    };
    let liveness_timeout: u64 = match liveness_probe {
        Some(p) => p.initial_delay_seconds as u64 + ((p.timeout_seconds as u64
            + p.period_seconds as u64) * p.failure_threshold as u64),
        None => 300,
    };
    let probe_timeout: u64 = if readiness_timeout >= liveness_timeout {
        readiness_timeout
    } else {
        liveness_timeout
    };
    if probe_timeout >= 600 {
        probe_timeout
    } else {
        600
    }
}

/// What a storage size comparison calls for, once the effective volume
/// size is known.
#[derive(Clone, Copy, Debug, PartialEq, Eq, Structural)]
pub enum StorageSizeCheck {
    /// The request matches what is provisioned.
    NoChange,
    /// The request grew: the volume claim must be enlarged.
    NeedsResize,
    /// The request shrank below what is provisioned; a volume is never
    /// shrunk, the request is invalid.
    ShrinkRefused,
}

/// Compares a service's requested storage size with the size actually
/// provisioned: growth calls for a resize, shrinking is refused, equality
/// needs nothing.
pub fn check_storage_size(requested_size_in_gib: u32, actual_size_in_gib: u32) -> (r:
    StorageSizeCheck)
    ensures
        requested_size_in_gib > actual_size_in_gib <==> r is NeedsResize,
        requested_size_in_gib < actual_size_in_gib <==> r is ShrinkRefused,
        requested_size_in_gib == actual_size_in_gib <==> r is NoChange,
{
    if requested_size_in_gib > actual_size_in_gib {
        StorageSizeCheck::NeedsResize
    } else if requested_size_in_gib < actual_size_in_gib {
        StorageSizeCheck::ShrinkRefused
    } else {
        StorageSizeCheck::NoChange
    }
}

/// Names the result of urlencoding::decode: percent-decoding a string
/// depends on its characters alone. Nothing comes back for a string whose
/// escapes decode to invalid text.
pub uninterp spec fn url_decoded_of(s: Seq<char>) -> Option<Seq<char>>;

/// Relies on urlencoding::decode for percent-decoding; its source returns
/// the input unchanged when no '%' occurs in it.
#[verifier::external_body]
fn url_decode(s: &str) -> (r: Option<String>)
    ensures
        r matches Some(d) ==> url_decoded_of(s@) == Some(d@),
        r is None ==> url_decoded_of(s@) is None,
        r is None ==> exists|i: int| 0 <= i < s@.len() && s@[i] == '%',
        r matches Some(d) ==> ((forall|i: int| 0 <= i < s@.len() ==> s@[i] != '%') ==> d@ == s@),
{
    urlencoding::decode(s).ok().map(|c| c.into_owned())
}

/// The passwords under which a registry credential may be presented: the
/// password as given and, when it percent-decodes, its decoded form too.
pub fn get_passwords(registry_password: &str) -> (r: Vec<String>)
    ensures
        url_decoded_of(registry_password@) matches Some(d) ==> r.deep_view() == seq![
            registry_password@,
            d,
        ],
        url_decoded_of(registry_password@) is None ==> r.deep_view() == seq![registry_password@],
        (forall|i: int| 0 <= i < registry_password@.len() ==> registry_password@[i] != '%')
            ==> r.deep_view() == seq![registry_password@, registry_password@],
{
    let mut out: Vec<String> = Vec::new();
    out.push(registry_password.to_owned());
    match url_decode(registry_password) {
        Some(decoded) => {
            out.push(decoded);
            proof {
                let d = choose|d: Seq<char>| url_decoded_of(registry_password@) == Some(d);
                assert(out.deep_view() =~= seq![registry_password@, d]);
            }
        },
        None => {
            proof {
                assert(out.deep_view() =~= seq![registry_password@]);
            }
        },
    }
    out
}

} // verus!
