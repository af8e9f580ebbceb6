//! The translation engine: deterministically maps a [`JobConfig`] onto a
//! single "job" block tree.  The only fatal condition is an unrecognised
//! volume access-mode code; every other shape passes through unvalidated
//! (a service may reference a port name that no port declares).

use vstd::prelude::*;

use crate::block::{AttrValue, AttrValueModel, Attribute, AttributeModel, Block, BlockModel};
use crate::config::{
    Container, ContainerModel, ContainerMount, ContainerMountModel, EnvEntry, EnvEntryModel,
    EnvValue, EnvValueModel, JobConfig, JobConfigModel, Port, PortModel, Service, ServiceCheck,
    ServiceCheckModel, ServiceModel, Volume, VolumeModel,
};

verus! {

/// The engine's fatal error: an access-mode code that is neither
/// `"mnmw"` nor `"mnsw"`, carrying the offending code.
#[derive(Debug, Clone, PartialEq)]
pub enum TranslationError {
    UnknownAccessMode(String),
}

/// Whether an access-mode code is one of the two recognised ones.
pub open spec fn is_valid_access_mode(s: Seq<char>) -> bool {
    s == "mnmw"@ || s == "mnsw"@
}

/// The normalised form of a recognised access-mode code.
pub open spec fn spec_access_mode(s: Seq<char>) -> Seq<char> {
    if s == "mnmw"@ {
        "multi-node-multi-writer"@
    } else {
        "multi-node-single-writer"@
    }
}

/// Relies on `<str as PartialEq>::eq` of std: string slices are equal
/// exactly when their character sequences are.
#[verifier::external_body]
fn str_eq(a: &str, b: &str) -> (r: bool)
    ensures
        r == (a@ == b@),
{
    a == b
}

/// Normalises a volume access-mode code, the engine's only fallible rule:
/// `"mnmw"` and `"mnsw"` map to their long forms, anything else is a
/// [`TranslationError`] carrying the code.
pub fn get_vol_access_mode(s: &str) -> (r: Result<String, TranslationError>)
    ensures
        r is Ok <==> is_valid_access_mode(s@),
        r is Ok ==> r->Ok_0@ == spec_access_mode(s@),
        r is Err ==> (r->Err_0 matches TranslationError::UnknownAccessMode(c) && c@ == s@),
{
    if str_eq(s, "mnmw") {
        Ok("multi-node-multi-writer".to_owned())
    } else if str_eq(s, "mnsw") {
        Ok("multi-node-single-writer".to_owned())
    } else {
        Err(TranslationError::UnknownAccessMode(s.to_owned()))
    }
}

/// The "port" block of one port: labeled with the port's name, one
/// attribute `to`.
pub open spec fn spec_port_block(p: PortModel) -> BlockModel {
    BlockModel {
        tag: "port"@,
        labels: seq![p.name],
        attrs: seq![AttributeModel { key: "to"@, value: AttrValueModel::Int(p.to as i64) }],
        children: Seq::empty(),
    }
}

/// The "network" block: all port blocks as children, in input order.
pub open spec fn spec_network_block(ports: Seq<PortModel>) -> BlockModel {
    BlockModel {
        tag: "network"@,
        labels: Seq::empty(),
        attrs: Seq::empty(),
        children: ports.map_values(|p: PortModel| spec_port_block(p)),
    }
}

/// The "check" block of a service: attributes `type`, `path`, `name`
/// (the fixed convention `"app_health"`), `interval`, `timeout`, in order.
pub open spec fn spec_check_block(c: ServiceCheckModel) -> BlockModel {
    BlockModel {
        tag: "check"@,
        labels: Seq::empty(),
        attrs: seq![
            AttributeModel { key: "type"@, value: AttrValueModel::Str(c.check_type) },
            AttributeModel { key: "path"@, value: AttrValueModel::Str(c.path) },
            AttributeModel { key: "name"@, value: AttrValueModel::Str("app_health"@) },
            AttributeModel { key: "interval"@, value: AttrValueModel::Str(c.interval) },
            AttributeModel { key: "timeout"@, value: AttrValueModel::Str(c.timeout) },
        ],
        children: Seq::empty(),
    }
}

/// The "service" block: attributes `name`, `port`, `tags`, one "check" child.
pub open spec fn spec_service_block(s: ServiceModel) -> BlockModel {
    BlockModel {
        tag: "service"@,
        labels: Seq::empty(),
        attrs: seq![
            AttributeModel { key: "name"@, value: AttrValueModel::Str(s.name) },
            AttributeModel { key: "port"@, value: AttrValueModel::Str(s.port) },
            AttributeModel { key: "tags"@, value: AttrValueModel::StrList(s.tags) },
        ],
        children: seq![spec_check_block(s.check)],
    }
}

/// The "volume" block of a volume whose access mode is recognised:
/// labeled with its name, fixed attribute order `type` (`"csi"`), `source`,
/// `access_mode` (normalised), `read_only`, `attachment_mode`
/// (`"filesystem"`).
pub open spec fn spec_volume_block(v: VolumeModel) -> BlockModel {
    BlockModel {
        tag: "volume"@,
        labels: seq![v.name],
        attrs: seq![
            AttributeModel { key: "type"@, value: AttrValueModel::Str("csi"@) },
            AttributeModel { key: "source"@, value: AttrValueModel::Str(v.name) },
            AttributeModel {
                key: "access_mode"@,
                value: AttrValueModel::Str(spec_access_mode(v.access_mode)),
            },
            AttributeModel { key: "read_only"@, value: AttrValueModel::Bool(v.read_only) },
            AttributeModel { key: "attachment_mode"@, value: AttrValueModel::Str("filesystem"@) },
        ],
        children: Seq::empty(),
    }
}

/// The "config" block of a task: attributes `image` and `ports`.
pub open spec fn spec_config_block(c: ContainerModel) -> BlockModel {
    BlockModel {
        tag: "config"@,
        labels: Seq::empty(),
        attrs: seq![
            AttributeModel { key: "image"@, value: AttrValueModel::Str(c.image) },
            AttributeModel { key: "ports"@, value: AttrValueModel::StrList(c.ports) },
        ],
        children: Seq::empty(),
    }
}

/// The "volume_mount" block of one mount: attributes `volume`, `destination`.
pub open spec fn spec_mount_block(m: ContainerMountModel) -> BlockModel {
    BlockModel {
        tag: "volume_mount"@,
        labels: Seq::empty(),
        attrs: seq![
            AttributeModel { key: "volume"@, value: AttrValueModel::Str(m.volume) },
            AttributeModel { key: "destination"@, value: AttrValueModel::Str(m.mountpoint) },
        ],
        children: Seq::empty(),
    }
}

/// The fixed "restart" block: policy constants `attempts = 3`,
/// `delay = "20s"`, not derived from input.
pub open spec fn spec_restart_block() -> BlockModel {
    BlockModel {
        tag: "restart"@,
        labels: Seq::empty(),
        attrs: seq![
            AttributeModel { key: "attempts"@, value: AttrValueModel::Int(3) },
            AttributeModel { key: "delay"@, value: AttrValueModel::Str("20s"@) },
        ],
        children: Seq::empty(),
    }
}

/// The attributes one env entry contributes: an integer value becomes an
/// integer-typed attribute, a string value a string-typed one, and any
/// other scalar kind contributes nothing (the silent-drop behaviour).
pub open spec fn spec_env_attr(e: EnvEntryModel) -> Seq<AttributeModel> {
    match e.val {
        EnvValueModel::Int(n) => seq![AttributeModel { key: e.name, value: AttrValueModel::Int(n) }],
        EnvValueModel::Str(s) => seq![AttributeModel { key: e.name, value: AttrValueModel::Str(s) }],
        EnvValueModel::Other => Seq::empty(),
    }
}

/// The attribute list of an "env" block: each entry's contribution,
/// concatenated in input order.
pub open spec fn spec_env_attrs(env: Seq<EnvEntryModel>) -> Seq<AttributeModel>
    decreases env.len(),
{
    if env.len() == 0 {
        Seq::empty()
    } else {
        spec_env_attrs(env.drop_last()) + spec_env_attr(env.last())
    }
}

/// The "env" block of a task.
pub open spec fn spec_env_block(env: Seq<EnvEntryModel>) -> BlockModel {
    BlockModel {
        tag: "env"@,
        labels: Seq::empty(),
        attrs: spec_env_attrs(env),
        children: Seq::empty(),
    }
}

/// The "task" block of a container: labeled with its name, attribute
/// `driver = "docker"`, children "config", one "volume_mount" per mount,
/// "restart", "env", in that order.
pub open spec fn spec_task_block(c: ContainerModel) -> BlockModel {
    BlockModel {
        tag: "task"@,
        labels: seq![c.name],
        attrs: seq![AttributeModel { key: "driver"@, value: AttrValueModel::Str("docker"@) }],
        children: seq![spec_config_block(c)]
            + c.mounts.map_values(|m: ContainerMountModel| spec_mount_block(m))
            + seq![spec_restart_block(), spec_env_block(c.env)],
    }
}

/// The "group" block: labeled with the workload name, attribute `count`,
/// children the "network" block, then all services, volumes and tasks.
pub open spec fn spec_group_block(c: JobConfigModel) -> BlockModel {
    BlockModel {
        tag: "group"@,
        labels: seq![c.general.name],
        attrs: seq![
            AttributeModel { key: "count"@, value: AttrValueModel::Int(c.general.count as i64) },
        ],
        children: seq![spec_network_block(c.ports)]
            + c.services.map_values(|s: ServiceModel| spec_service_block(s))
            + c.volumes.map_values(|v: VolumeModel| spec_volume_block(v))
            + c.containers.map_values(|t: ContainerModel| spec_task_block(t)),
    }
}

/// The whole tree: a single "job" block labeled with the workload name,
/// attribute `datacenters`, one "group" child.
pub open spec fn spec_translate(c: JobConfigModel) -> BlockModel {
    BlockModel {
        tag: "job"@,
        labels: seq![c.general.name],
        attrs: seq![
            AttributeModel {
                key: "datacenters"@,
                value: AttrValueModel::StrList(c.general.datacenters),
            },
        ],
        children: seq![spec_group_block(c)],
    }
}

/// Whether every volume of a configuration carries a recognised access
/// mode; exactly then does translation succeed.
pub open spec fn config_translatable(c: JobConfigModel) -> bool {
    forall|i: int|
        0 <= i < c.volumes.len() ==> is_valid_access_mode(#[trigger] c.volumes[i].access_mode)
}

/// Clones a vector of strings, preserving its character sequences.
fn clone_strings(v: &Vec<String>) -> (r: Vec<String>)
    ensures
        r@.map_values(|s: String| s@) == v@.map_values(|s: String| s@),
{
    let mut r: Vec<String> = Vec::new();
    let mut i: usize = 0;
    while i < v.len()
        invariant
            i <= v.len(),
            r@.len() == i,
            forall|j: int| 0 <= j < i ==> r@[j]@ == v@[j]@,
        decreases v.len() - i,
    {
        r.push(v[i].clone());
        i = i + 1;
    }
    proof {
        assert(r@.map_values(|s: String| s@) =~= v@.map_values(|s: String| s@));
    }
    r
}

/// Builds the "port" block of one port.
pub fn port_block(p: &Port) -> (r: Block)
    ensures
        r@ == spec_port_block(p@),
{
    let r = Block {
        tag: "port".to_owned(),
        labels: vec![p.name.clone()],
        attrs: vec![Attribute { key: "to".to_owned(), value: AttrValue::Int(p.to as i64) }],
        children: Vec::new(),
    };
    proof {
        assert(r@.labels =~= spec_port_block(p@).labels);
        assert(r@.attrs =~= spec_port_block(p@).attrs);
        assert(r@.children =~= spec_port_block(p@).children);
        assert(r@ =~= spec_port_block(p@));
    }
    r
}

/// Builds the "network" block holding every port block, in input order.
pub fn network_block(ports: &Vec<Port>) -> (r: Block)
    ensures
        r@ == spec_network_block(ports@.map_values(|p: Port| p@)),
{
    let mut children: Vec<Block> = Vec::new();
    let mut i: usize = 0;
    while i < ports.len()
        invariant
            i <= ports.len(),
            children@.len() == i,
            forall|j: int| 0 <= j < i ==> children@[j]@ == spec_port_block(ports@[j]@),
        decreases ports.len() - i,
    {
        children.push(port_block(&ports[i]));
        i = i + 1;
    }
    let r = Block {
        tag: "network".to_owned(),
        labels: Vec::new(),
        attrs: Vec::new(),
        children,
    };
    proof {
        let m = spec_network_block(ports@.map_values(|p: Port| p@));
        assert(r@.labels =~= m.labels);
        assert(r@.attrs =~= m.attrs);
        assert(r@.children =~= m.children);
        assert(r@ =~= m);
    }
    r
}

/// Builds the "check" block of a service's health check.
pub fn check_block(c: &ServiceCheck) -> (r: Block)
    ensures
        r@ == spec_check_block(c@),
{
    let r = Block {
        tag: "check".to_owned(),
        labels: Vec::new(),
        attrs: vec![
            Attribute { key: "type".to_owned(), value: AttrValue::Str(c.check_type.clone()) },
            Attribute { key: "path".to_owned(), value: AttrValue::Str(c.path.clone()) },
            Attribute { key: "name".to_owned(), value: AttrValue::Str("app_health".to_owned()) },
            Attribute { key: "interval".to_owned(), value: AttrValue::Str(c.interval.clone()) },
            Attribute { key: "timeout".to_owned(), value: AttrValue::Str(c.timeout.clone()) },
        ],
        children: Vec::new(),
    };
    proof {
        let m = spec_check_block(c@);
        assert(r@.labels =~= m.labels);
        assert(r@.attrs =~= m.attrs);
        assert(r@.children =~= m.children);
        assert(r@ =~= m);
    }
    r
}

/// Builds the "service" block of one service, with its "check" child.
pub fn service_block(s: &Service) -> (r: Block)
    ensures
        r@ == spec_service_block(s@),
{
    let r = Block {
        tag: "service".to_owned(),
        labels: Vec::new(),
        attrs: vec![
            Attribute { key: "name".to_owned(), value: AttrValue::Str(s.name.clone()) },
            Attribute { key: "port".to_owned(), value: AttrValue::Str(s.port.clone()) },
            Attribute { key: "tags".to_owned(), value: AttrValue::StrList(clone_strings(&s.tags)) },
        ],
        children: vec![check_block(&s.check)],
    };
    proof {
        let m = spec_service_block(s@);
        assert(r@.labels =~= m.labels);
        assert(r@.attrs =~= m.attrs);
        assert(r@.children =~= m.children);
        assert(r@ =~= m);
    }
    r
}

/// Builds the "volume" block of one volume, normalising its access mode;
/// an unrecognised code is the translation's one fatal error.
pub fn volume_block(v: &Volume) -> (r: Result<Block, TranslationError>)
    ensures
        r is Ok <==> is_valid_access_mode(v@.access_mode),
        r is Ok ==> r->Ok_0@ == spec_volume_block(v@),
        r is Err ==> (r->Err_0 matches TranslationError::UnknownAccessMode(c)
            && c@ == v@.access_mode),
{
    let mode = match get_vol_access_mode(v.access_mode.as_str()) {
        Ok(m) => m,
        Err(e) => {
            return Err(e);
        },
    };
    let r = Block {
        tag: "volume".to_owned(),
        labels: vec![v.name.clone()],
        attrs: vec![
            Attribute { key: "type".to_owned(), value: AttrValue::Str("csi".to_owned()) },
            Attribute { key: "source".to_owned(), value: AttrValue::Str(v.name.clone()) },
            Attribute { key: "access_mode".to_owned(), value: AttrValue::Str(mode) },
            Attribute { key: "read_only".to_owned(), value: AttrValue::Bool(v.read_only) },
            Attribute {
                key: "attachment_mode".to_owned(),
                value: AttrValue::Str("filesystem".to_owned()),
            },
        ],
        children: Vec::new(),
    };
    proof {
        let m = spec_volume_block(v@);
        assert(r@.labels =~= m.labels);
        assert(r@.attrs =~= m.attrs);
        assert(r@.children =~= m.children);
        assert(r@ =~= m);
    }
    Ok(r)
}

/// Builds the "volume_mount" block of one mount.
pub fn mount_block(m: &ContainerMount) -> (r: Block)
    ensures
        r@ == spec_mount_block(m@),
{
    let r = Block {
        tag: "volume_mount".to_owned(),
        labels: Vec::new(),
        attrs: vec![
            Attribute { key: "volume".to_owned(), value: AttrValue::Str(m.volume.clone()) },
            Attribute {
                key: "destination".to_owned(),
                value: AttrValue::Str(m.mountpoint.clone()),
            },
        ],
        children: Vec::new(),
    };
    proof {
        let s = spec_mount_block(m@);
        assert(r@.labels =~= s.labels);
        assert(r@.attrs =~= s.attrs);
        assert(r@.children =~= s.children);
        assert(r@ =~= s);
    }
    r
}

/// Builds the fixed "restart" block.
pub fn restart_block() -> (r: Block)
    ensures
        r@ == spec_restart_block(),
{
    let r = Block {
        tag: "restart".to_owned(),
        labels: Vec::new(),
        attrs: vec![
            Attribute { key: "attempts".to_owned(), value: AttrValue::Int(3) },
            Attribute { key: "delay".to_owned(), value: AttrValue::Str("20s".to_owned()) },
        ],
        children: Vec::new(),
    };
    proof {
        let m = spec_restart_block();
        assert(r@.labels =~= m.labels);
        assert(r@.attrs =~= m.attrs);
        assert(r@.children =~= m.children);
        assert(r@ =~= m);
    }
    r
}

/// Encodes a container's env entries value-by-value: integers keep integer
/// type, strings keep string type, other kinds are dropped without error.
pub fn env_attributes(env: &Vec<EnvEntry>) -> (r: Vec<Attribute>)
    ensures
        r@.map_values(|a: Attribute| a@) == spec_env_attrs(env@.map_values(|e: EnvEntry| e@)),
{
    let ghost env_m = env@.map_values(|e: EnvEntry| e@);
    let mut r: Vec<Attribute> = Vec::new();
    let mut i: usize = 0;
    while i < env.len()
        invariant
            i <= env.len(),
            env_m == env@.map_values(|e: EnvEntry| e@),
            r@.map_values(|a: Attribute| a@) == spec_env_attrs(env_m.take(i as int)),
        decreases env.len() - i,
    {
        let ghost prefix = env_m.take(i as int);
        let ghost old_r = r@;
        match &env[i].val {
            EnvValue::Int(n) => {
                r.push(Attribute { key: env[i].name.clone(), value: AttrValue::Int(*n) });
            },
            EnvValue::Str(s) => {
                r.push(Attribute { key: env[i].name.clone(), value: AttrValue::Str(s.clone()) });
            },
            EnvValue::Other => {},
        }
        proof {
            let next = env_m.take(i + 1 as int);
            assert(next.drop_last() =~= prefix);
            assert(next.last() == env_m[i as int]);
            assert(r@.map_values(|a: Attribute| a@) =~= old_r.map_values(|a: Attribute| a@)
                + spec_env_attr(env_m[i as int]));
            assert(r@.map_values(|a: Attribute| a@) =~= spec_env_attrs(next));
        }
        i = i + 1;
    }
    proof {
        assert(env_m.take(env@.len() as int) =~= env_m);
    }
    r
}

/// Builds the "task" block of one container: driver attribute, "config"
/// child, one "volume_mount" child per mount, "restart" and "env" children.
pub fn task_block(c: &Container) -> (r: Block)
    ensures
        r@ == spec_task_block(c@),
{
    let config = Block {
        tag: "config".to_owned(),
        labels: Vec::new(),
        attrs: vec![
            Attribute { key: "image".to_owned(), value: AttrValue::Str(c.image.clone()) },
            Attribute { key: "ports".to_owned(), value: AttrValue::StrList(clone_strings(&c.ports)) },
        ],
        children: Vec::new(),
    };
    proof {
        let m = spec_config_block(c@);
        assert(config@.labels =~= m.labels);
        assert(config@.attrs =~= m.attrs);
        assert(config@.children =~= m.children);
        assert(config@ =~= m);
    }
    let mut children: Vec<Block> = Vec::new();
    children.push(config);
    let mut i: usize = 0;
    while i < c.mounts.len()
        invariant
            i <= c.mounts.len(),
            children@.len() == 1 + i,
            children@[0]@ == spec_config_block(c@),
            forall|j: int| 0 <= j < i ==> children@[j + 1]@ == spec_mount_block(c.mounts@[j]@),
        decreases c.mounts.len() - i,
    {
        children.push(mount_block(&c.mounts[i]));
        i = i + 1;
    }
    children.push(restart_block());
    let env = Block {
        tag: "env".to_owned(),
        labels: Vec::new(),
        attrs: env_attributes(&c.env),
        children: Vec::new(),
    };
    proof {
        let m = spec_env_block(c@.env);
        assert(env@.labels =~= m.labels);
        assert(env@.children =~= m.children);
        assert(env@ =~= m);
    }
    children.push(env);
    let r = Block {
        tag: "task".to_owned(),
        labels: vec![c.name.clone()],
        attrs: vec![
            Attribute { key: "driver".to_owned(), value: AttrValue::Str("docker".to_owned()) },
        ],
        children,
    };
    proof {
        let m = spec_task_block(c@);
        assert(r@.labels =~= m.labels);
        assert(r@.attrs =~= m.attrs);
        assert(r@.children =~= m.children);
        assert(r@ =~= m);
    }
    r
}

/// Translates a configuration into its "job" block tree.  Succeeds exactly
/// when every volume's access mode is recognised, and then produces the
/// tree `spec_translate` describes — the output is a function of the input
/// alone, so two calls on the same input build structurally identical
/// trees.  On failure no partial tree is produced, and — translation
/// failing fast — the error carries the code of the first volume whose
/// access mode is not recognised.
pub fn translate(c: &JobConfig) -> (r: Result<Block, TranslationError>)
    ensures
        r is Ok <==> config_translatable(c@),
        r is Ok ==> r->Ok_0@ == spec_translate(c@),
        r is Err ==> (r->Err_0 matches TranslationError::UnknownAccessMode(code)
            && exists|i: int|
                0 <= i < c@.volumes.len()
                && !is_valid_access_mode(#[trigger] c@.volumes[i].access_mode)
                && (forall|j: int|
                    0 <= j < i ==> is_valid_access_mode(#[trigger] c@.volumes[j].access_mode))
                && code@ == c@.volumes[i].access_mode),
{
    let network = network_block(&c.ports);

    let mut service_blocks: Vec<Block> = Vec::new();
    let mut i: usize = 0;
    while i < c.services.len()
        invariant
            i <= c.services.len(),
            service_blocks@.len() == i,
            forall|j: int|
                0 <= j < i ==> service_blocks@[j]@ == spec_service_block(c.services@[j]@),
        decreases c.services.len() - i,
    {
        service_blocks.push(service_block(&c.services[i]));
        i = i + 1;
    }

    let mut volume_blocks: Vec<Block> = Vec::new();
    let mut i: usize = 0;
    while i < c.volumes.len()
        invariant
            i <= c.volumes.len(),
            volume_blocks@.len() == i,
            forall|j: int| 0 <= j < i ==> is_valid_access_mode(#[trigger] c.volumes@[j]@.access_mode),
            forall|j: int| 0 <= j < i ==> volume_blocks@[j]@ == spec_volume_block(c.volumes@[j]@),
        decreases c.volumes.len() - i,
    {
        match volume_block(&c.volumes[i]) {
            Ok(b) => volume_blocks.push(b),
            Err(e) => {
                proof {
                    assert(c@.volumes[i as int] == c.volumes@[i as int]@);
                    assert(!is_valid_access_mode(c@.volumes[i as int].access_mode));
                    assert forall|j: int| 0 <= j < i implies is_valid_access_mode(
                        #[trigger] c@.volumes[j].access_mode,
                    ) by {
                        assert(c@.volumes[j] == c.volumes@[j]@);
                    }
                }
                return Err(e);
            },
        }
        i = i + 1;
    }

    let mut task_blocks: Vec<Block> = Vec::new();
    let mut i: usize = 0;
    while i < c.containers.len()
        invariant
            i <= c.containers.len(),
            task_blocks@.len() == i,
            forall|j: int| 0 <= j < i ==> task_blocks@[j]@ == spec_task_block(c.containers@[j]@),
        decreases c.containers.len() - i,
    {
        task_blocks.push(task_block(&c.containers[i]));
        i = i + 1;
    }

    let ghost n_services = c.services@.len();
    let ghost n_volumes = c.volumes@.len();

    let mut group_children: Vec<Block> = Vec::new();
    group_children.push(network);
    group_children.append(&mut service_blocks);
    group_children.append(&mut volume_blocks);
    group_children.append(&mut task_blocks);

    let group = Block {
        tag: "group".to_owned(),
        labels: vec![c.general.name.clone()],
        attrs: vec![
            Attribute { key: "count".to_owned(), value: AttrValue::Int(c.general.count as i64) },
        ],
        children: group_children,
    };
    proof {
        let m = spec_group_block(c@);
        assert(group@.labels =~= m.labels);
        assert(group@.attrs =~= m.attrs);
        assert forall|j: int| 0 <= j < group@.children.len() implies group@.children[j]
            == m.children[j] by {
            if j == 0 {
            } else if j < 1 + n_services {
            } else if j < 1 + n_services + n_volumes {
                assert(group@.children[j] == spec_volume_block(c.volumes@[j - 1 - n_services]@));
            } else {
                assert(group@.children[j] == spec_task_block(
                    c.containers@[j - 1 - n_services - n_volumes]@,
                ));
            }
        }
        assert(group@.children =~= m.children);
        assert(group@ =~= m);
    }

    let r = Block {
        tag: "job".to_owned(),
        labels: vec![c.general.name.clone()],
        attrs: vec![
            Attribute {
                key: "datacenters".to_owned(),
                value: AttrValue::StrList(clone_strings(&c.general.datacenters)),
            },
        ],
        children: vec![group],
    };
    proof {
        let m = spec_translate(c@);
        assert(r@.labels =~= m.labels);
        assert(r@.attrs =~= m.attrs);
        assert(r@.children =~= m.children);
        assert(r@ =~= m);
    }
    Ok(r)
}

} // verus!
