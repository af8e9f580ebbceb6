//! The configuration model: the typed in-memory form of the parsed workload
//! descriptor.  Pure data, created once by the parser and read-only
//! thereafter; the defaulting of optional check fields is a concern of this
//! model, not of the translation engine.

use vstd::prelude::*;

verus! {

/// Identity and placement scope of the workload.
#[derive(Debug, Clone, PartialEq)]
pub struct General {
    pub name: String,
    pub count: u16,
    pub datacenters: Vec<String>,
}

/// A named network port and the container port it maps to.
#[derive(Debug, Clone, PartialEq)]
pub struct Port {
    pub name: String,
    pub to: u16,
}

/// Health-check settings of a service.
#[derive(Debug, Clone, PartialEq)]
pub struct ServiceCheck {
    pub check_type: String,
    pub interval: String,
    pub timeout: String,
    pub path: String,
}

/// A service exposed on a named port.
#[derive(Debug, Clone, PartialEq)]
pub struct Service {
    pub name: String,
    pub port: String,
    pub tags: Vec<String>,
    pub check: ServiceCheck,
}

/// A volume mounted into a container at a mountpoint.
#[derive(Debug, Clone, PartialEq)]
pub struct ContainerMount {
    pub volume: String,
    pub mountpoint: String,
}

/// A dynamically-typed environment value, decided once at parse time:
/// an integer, a string, or some other scalar kind the translation drops.
#[derive(Debug, Clone, PartialEq)]
pub enum EnvValue {
    Int(i64),
    Str(String),
    Other,
}

/// One environment entry of a container.
#[derive(Debug, Clone, PartialEq)]
pub struct EnvEntry {
    pub name: String,
    pub val: EnvValue,
}

/// A container task: image, port references, mounts and environment.
#[derive(Debug, Clone, PartialEq)]
pub struct Container {
    pub name: String,
    pub image: String,
    pub ports: Vec<String>,
    pub mounts: Vec<ContainerMount>,
    pub env: Vec<EnvEntry>,
}

/// A persistent volume with its sharing policy.
#[derive(Debug, Clone, PartialEq)]
pub struct Volume {
    pub name: String,
    pub access_mode: String,
    pub read_only: bool,
}

/// The root aggregate of the parsed descriptor.
#[derive(Debug, Clone, PartialEq)]
pub struct JobConfig {
    pub general: General,
    pub ports: Vec<Port>,
    pub services: Vec<Service>,
    pub containers: Vec<Container>,
    pub volumes: Vec<Volume>,
}

/// Model of [`General`].
#[verifier::ext_equal]
pub struct GeneralModel {
    pub name: Seq<char>,
    pub count: u16,
    pub datacenters: Seq<Seq<char>>,
}

/// Model of [`Port`].
#[verifier::ext_equal]
pub struct PortModel {
    pub name: Seq<char>,
    pub to: u16,
}

/// Model of [`ServiceCheck`].
#[verifier::ext_equal]
pub struct ServiceCheckModel {
    pub check_type: Seq<char>,
    pub interval: Seq<char>,
    pub timeout: Seq<char>,
    pub path: Seq<char>,
}

/// Model of [`Service`].
#[verifier::ext_equal]
pub struct ServiceModel {
    pub name: Seq<char>,
    pub port: Seq<char>,
    pub tags: Seq<Seq<char>>,
    pub check: ServiceCheckModel,
}

/// Model of [`ContainerMount`].
#[verifier::ext_equal]
pub struct ContainerMountModel {
    pub volume: Seq<char>,
    pub mountpoint: Seq<char>,
}

/// Model of [`EnvValue`].
#[verifier::ext_equal]
pub enum EnvValueModel {
    Int(i64),
    Str(Seq<char>),
    Other,
}

/// Model of [`EnvEntry`].
#[verifier::ext_equal]
pub struct EnvEntryModel {
    pub name: Seq<char>,
    pub val: EnvValueModel,
}

/// Model of [`Container`].
#[verifier::ext_equal]
pub struct ContainerModel {
    pub name: Seq<char>,
    pub image: Seq<char>,
    pub ports: Seq<Seq<char>>,
    pub mounts: Seq<ContainerMountModel>,
    pub env: Seq<EnvEntryModel>,
}

/// Model of [`Volume`].
#[verifier::ext_equal]
pub struct VolumeModel {
    pub name: Seq<char>,
    pub access_mode: Seq<char>,
    pub read_only: bool,
}

/// Model of [`JobConfig`].
#[verifier::ext_equal]
pub struct JobConfigModel {
    pub general: GeneralModel,
    pub ports: Seq<PortModel>,
    pub services: Seq<ServiceModel>,
    pub containers: Seq<ContainerModel>,
    pub volumes: Seq<VolumeModel>,
}

impl View for General {
    type V = GeneralModel;

    open spec fn view(&self) -> GeneralModel {
        GeneralModel {
            name: self.name@,
            count: self.count,
            datacenters: self.datacenters@.map_values(|s: String| s@),
        }
    }
}

impl View for Port {
    type V = PortModel;

    open spec fn view(&self) -> PortModel {
        PortModel { name: self.name@, to: self.to }
    }
}

impl View for ServiceCheck {
    type V = ServiceCheckModel;

    open spec fn view(&self) -> ServiceCheckModel {
        ServiceCheckModel {
            check_type: self.check_type@,
            interval: self.interval@,
            timeout: self.timeout@,
            path: self.path@,
        }
    }
}

impl View for Service {
    type V = ServiceModel;

    open spec fn view(&self) -> ServiceModel {
        ServiceModel {
            name: self.name@,
            port: self.port@,
            tags: self.tags@.map_values(|s: String| s@),
            check: self.check@,
        }
    }
}

impl View for ContainerMount {
    type V = ContainerMountModel;

    open spec fn view(&self) -> ContainerMountModel {
        ContainerMountModel { volume: self.volume@, mountpoint: self.mountpoint@ }
    }
}

impl View for EnvValue {
    type V = EnvValueModel;

    open spec fn view(&self) -> EnvValueModel {
        match self {
            EnvValue::Int(n) => EnvValueModel::Int(*n),
            EnvValue::Str(s) => EnvValueModel::Str(s@),
            EnvValue::Other => EnvValueModel::Other,
        }
    }
}

impl View for EnvEntry {
    type V = EnvEntryModel;

    open spec fn view(&self) -> EnvEntryModel {
        EnvEntryModel { name: self.name@, val: self.val@ }
    }
}

impl View for Container {
    type V = ContainerModel;

    open spec fn view(&self) -> ContainerModel {
        ContainerModel {
            name: self.name@,
            image: self.image@,
            ports: self.ports@.map_values(|s: String| s@),
            mounts: self.mounts@.map_values(|m: ContainerMount| m@),
            env: self.env@.map_values(|e: EnvEntry| e@),
        }
    }
}

impl View for Volume {
    type V = VolumeModel;

    open spec fn view(&self) -> VolumeModel {
        VolumeModel {
            name: self.name@,
            access_mode: self.access_mode@,
            read_only: self.read_only,
        }
    }
}

impl View for JobConfig {
    type V = JobConfigModel;

    open spec fn view(&self) -> JobConfigModel {
        JobConfigModel {
            general: self.general@,
            ports: self.ports@.map_values(|p: Port| p@),
            services: self.services@.map_values(|s: Service| s@),
            containers: self.containers@.map_values(|c: Container| c@),
            volumes: self.volumes@.map_values(|v: Volume| v@),
        }
    }
}

/// The default health-check interval substituted when the descriptor omits
/// `interval`.
pub fn default_interval() -> (r: String)
    ensures
        r@ == "15s"@,
{
    "15s".to_owned()
}

/// The default health-check timeout substituted when the descriptor omits
/// `timeout`.
pub fn default_timeout() -> (r: String)
    ensures
        r@ == "3s"@,
{
    "3s".to_owned()
}

/// The default for boolean descriptor fields that are off unless given
/// (a volume's `read_only`).
pub fn default_false() -> (r: bool)
    ensures
        r == false,
{
    false
}

/// The default for boolean descriptor fields that are on unless given.
pub fn default_true() -> (r: bool)
    ensures
        r == true,
{
    true
}

impl ServiceCheck {
    /// Builds a check from the descriptor's fields, substituting the
    /// documented defaults for an omitted `interval` or `timeout`.
    pub fn from_parts(
        check_type: String,
        path: String,
        interval: Option<String>,
        timeout: Option<String>,
    ) -> (r: ServiceCheck)
        ensures
            r.check_type == check_type,
            r.path == path,
            r.interval@ == (match interval {
                Option::Some(s) => s@,
                Option::None => "15s"@,
            }),
            r.timeout@ == (match timeout {
                Option::Some(s) => s@,
                Option::None => "3s"@,
            }),
    {
        let interval = match interval {
            Option::Some(s) => s,
            Option::None => default_interval(),
        };
        let timeout = match timeout {
            Option::Some(s) => s,
            Option::None => default_timeout(),
        };
        ServiceCheck { check_type, interval, timeout, path }
    }
}

} // verus!
