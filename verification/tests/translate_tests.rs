use nodock::block::{AttrValue, Attribute, Block};
use nodock::config::{
    default_false, default_interval, default_timeout, default_true, Container, ContainerMount,
    EnvEntry, EnvValue, General, JobConfig, Port, Service, ServiceCheck, Volume,
};
use nodock::translate::{
    check_block, env_attributes, get_vol_access_mode, port_block, service_block, task_block,
    translate, volume_block, TranslationError,
};

fn sample_check() -> ServiceCheck {
    ServiceCheck {
        check_type: "http".to_owned(),
        interval: "30s".to_owned(),
        timeout: "5s".to_owned(),
        path: "/health".to_owned(),
    }
}

fn sample_service() -> Service {
    Service {
        name: "web-svc".to_owned(),
        port: "http".to_owned(),
        tags: vec!["urlprefix-/".to_owned()],
        check: sample_check(),
    }
}

fn sample_container() -> Container {
    Container {
        name: "app".to_owned(),
        image: "registry.local/app:1".to_owned(),
        ports: vec!["http".to_owned()],
        mounts: vec![ContainerMount {
            volume: "data".to_owned(),
            mountpoint: "/var/lib/app".to_owned(),
        }],
        env: vec![
            EnvEntry { name: "PORT".to_owned(), val: EnvValue::Int(8080) },
            EnvEntry { name: "MODE".to_owned(), val: EnvValue::Str("prod".to_owned()) },
        ],
    }
}

fn sample_volume() -> Volume {
    Volume { name: "data".to_owned(), access_mode: "mnmw".to_owned(), read_only: false }
}

fn sample_config() -> JobConfig {
    JobConfig {
        general: General {
            name: "web".to_owned(),
            count: 2,
            datacenters: vec!["dc1".to_owned()],
        },
        ports: vec![
            Port { name: "http".to_owned(), to: 8080 },
            Port { name: "metrics".to_owned(), to: 9100 },
        ],
        services: vec![sample_service()],
        containers: vec![sample_container(), sample_container()],
        volumes: vec![sample_volume()],
    }
}

fn str_attr(key: &str, value: &str) -> Attribute {
    Attribute { key: key.to_owned(), value: AttrValue::Str(value.to_owned()) }
}

#[test]
fn default_interval_is_15s() {
    assert_eq!(default_interval(), "15s".to_owned());
}

#[test]
fn default_timeout_is_3s() {
    assert_eq!(default_timeout(), "3s".to_owned());
}

#[test]
fn default_flags() {
    assert!(!default_false());
    assert!(default_true());
}

#[test]
fn access_mode_mnmw_normalises() {
    assert_eq!(get_vol_access_mode("mnmw"), Ok("multi-node-multi-writer".to_owned()));
}

#[test]
fn access_mode_mnsw_normalises() {
    assert_eq!(get_vol_access_mode("mnsw"), Ok("multi-node-single-writer".to_owned()));
}

#[test]
fn access_mode_unknown_is_error() {
    assert_eq!(
        get_vol_access_mode("rwo"),
        Err(TranslationError::UnknownAccessMode("rwo".to_owned()))
    );
}

#[test]
fn translate_fails_on_unknown_access_mode() {
    let mut config = sample_config();
    config.volumes.push(Volume {
        name: "bad".to_owned(),
        access_mode: "xyz".to_owned(),
        read_only: true,
    });
    let r = translate(&config);
    assert_eq!(r, Err(TranslationError::UnknownAccessMode("xyz".to_owned())));
}

#[test]
fn translate_reports_first_unknown_access_mode() {
    let mut config = sample_config();
    config.volumes = vec![
        Volume { name: "a".to_owned(), access_mode: "first-bad".to_owned(), read_only: false },
        Volume { name: "b".to_owned(), access_mode: "second-bad".to_owned(), read_only: false },
    ];
    let r = translate(&config);
    assert_eq!(r, Err(TranslationError::UnknownAccessMode("first-bad".to_owned())));
}

#[test]
fn end_to_end_example() {
    let config = JobConfig {
        general: General {
            name: "web".to_owned(),
            count: 2,
            datacenters: vec!["dc1".to_owned()],
        },
        ports: vec![Port { name: "http".to_owned(), to: 8080 }],
        services: vec![],
        containers: vec![],
        volumes: vec![],
    };
    let job = translate(&config).unwrap();
    assert_eq!(job.tag, "job");
    assert_eq!(job.labels, vec!["web".to_owned()]);
    assert_eq!(
        job.attrs,
        vec![Attribute {
            key: "datacenters".to_owned(),
            value: AttrValue::StrList(vec!["dc1".to_owned()]),
        }]
    );
    assert_eq!(job.children.len(), 1);

    let group = &job.children[0];
    assert_eq!(group.tag, "group");
    assert_eq!(group.labels, vec!["web".to_owned()]);
    assert_eq!(
        group.attrs,
        vec![Attribute { key: "count".to_owned(), value: AttrValue::Int(2) }]
    );
    assert_eq!(group.children.len(), 1);

    let network = &group.children[0];
    assert_eq!(network.tag, "network");
    assert!(network.labels.is_empty());
    assert!(network.attrs.is_empty());
    assert_eq!(network.children.len(), 1);

    let port = &network.children[0];
    assert_eq!(port.tag, "port");
    assert_eq!(port.labels, vec!["http".to_owned()]);
    assert_eq!(
        port.attrs,
        vec![Attribute { key: "to".to_owned(), value: AttrValue::Int(8080) }]
    );
    assert!(port.children.is_empty());
}

#[test]
fn translate_is_deterministic() {
    let config = sample_config();
    let first = translate(&config).unwrap();
    let second = translate(&config).unwrap();
    assert_eq!(first, second);
}

#[test]
fn group_children_cardinality() {
    let config = sample_config();
    let job = translate(&config).unwrap();
    let group = &job.children[0];
    // network + 1 service + 1 volume + 2 tasks
    assert_eq!(group.children.len(), 5);
    assert_eq!(group.children[0].children.len(), config.ports.len());
    let count = |tag: &str| group.children.iter().filter(|b| b.tag == tag).count();
    assert_eq!(count("service"), config.services.len());
    assert_eq!(count("volume"), config.volumes.len());
    assert_eq!(count("task"), config.containers.len());
}

#[test]
fn env_encoding_preserves_types_and_order() {
    let env = vec![
        EnvEntry { name: "PORT".to_owned(), val: EnvValue::Int(8080) },
        EnvEntry { name: "MODE".to_owned(), val: EnvValue::Str("prod".to_owned()) },
    ];
    let attrs = env_attributes(&env);
    assert_eq!(
        attrs,
        vec![
            Attribute { key: "PORT".to_owned(), value: AttrValue::Int(8080) },
            Attribute { key: "MODE".to_owned(), value: AttrValue::Str("prod".to_owned()) },
        ]
    );
}

#[test]
fn env_encoding_drops_unsupported_kinds() {
    let env = vec![
        EnvEntry { name: "RATIO".to_owned(), val: EnvValue::Other },
        EnvEntry { name: "PORT".to_owned(), val: EnvValue::Int(8080) },
    ];
    let attrs = env_attributes(&env);
    assert_eq!(
        attrs,
        vec![Attribute { key: "PORT".to_owned(), value: AttrValue::Int(8080) }]
    );
}

#[test]
fn check_defaults_substituted_when_omitted() {
    let check = ServiceCheck::from_parts("http".to_owned(), "/health".to_owned(), None, None);
    assert_eq!(check.interval, "15s");
    assert_eq!(check.timeout, "3s");
    let block = check_block(&check);
    assert_eq!(block.attrs[3], str_attr("interval", "15s"));
    assert_eq!(block.attrs[4], str_attr("timeout", "3s"));
}

#[test]
fn check_given_values_kept() {
    let check = ServiceCheck::from_parts(
        "http".to_owned(),
        "/status".to_owned(),
        Some("1m".to_owned()),
        Some("10s".to_owned()),
    );
    assert_eq!(check.interval, "1m");
    assert_eq!(check.timeout, "10s");
}

#[test]
fn service_block_shape() {
    let block = service_block(&sample_service());
    assert_eq!(block.tag, "service");
    assert!(block.labels.is_empty());
    assert_eq!(
        block.attrs,
        vec![
            str_attr("name", "web-svc"),
            str_attr("port", "http"),
            Attribute {
                key: "tags".to_owned(),
                value: AttrValue::StrList(vec!["urlprefix-/".to_owned()]),
            },
        ]
    );
    assert_eq!(block.children.len(), 1);
    let check = &block.children[0];
    assert_eq!(check.tag, "check");
    assert_eq!(
        check.attrs,
        vec![
            str_attr("type", "http"),
            str_attr("path", "/health"),
            str_attr("name", "app_health"),
            str_attr("interval", "30s"),
            str_attr("timeout", "5s"),
        ]
    );
}

#[test]
fn volume_block_fixed_literals() {
    let block = volume_block(&sample_volume()).unwrap();
    assert_eq!(block.tag, "volume");
    assert_eq!(block.labels, vec!["data".to_owned()]);
    assert_eq!(
        block.attrs,
        vec![
            str_attr("type", "csi"),
            str_attr("source", "data"),
            str_attr("access_mode", "multi-node-multi-writer"),
            Attribute { key: "read_only".to_owned(), value: AttrValue::Bool(false) },
            str_attr("attachment_mode", "filesystem"),
        ]
    );
    assert!(block.children.is_empty());
}

#[test]
fn volume_block_read_only_kept() {
    let vol = Volume { name: "data".to_owned(), access_mode: "mnsw".to_owned(), read_only: true };
    let block = volume_block(&vol).unwrap();
    assert_eq!(
        block.attrs[3],
        Attribute { key: "read_only".to_owned(), value: AttrValue::Bool(true) }
    );
    assert_eq!(block.attrs[2], str_attr("access_mode", "multi-node-single-writer"));
}

#[test]
fn task_block_shape() {
    let block = task_block(&sample_container());
    assert_eq!(block.tag, "task");
    assert_eq!(block.labels, vec!["app".to_owned()]);
    assert_eq!(block.attrs, vec![str_attr("driver", "docker")]);
    // config, one volume_mount, restart, env
    assert_eq!(block.children.len(), 4);

    let config = &block.children[0];
    assert_eq!(config.tag, "config");
    assert_eq!(
        config.attrs,
        vec![
            str_attr("image", "registry.local/app:1"),
            Attribute {
                key: "ports".to_owned(),
                value: AttrValue::StrList(vec!["http".to_owned()]),
            },
        ]
    );

    let mount = &block.children[1];
    assert_eq!(mount.tag, "volume_mount");
    assert_eq!(
        mount.attrs,
        vec![str_attr("volume", "data"), str_attr("destination", "/var/lib/app")]
    );

    let restart = &block.children[2];
    assert_eq!(restart.tag, "restart");
    assert_eq!(
        restart.attrs,
        vec![
            Attribute { key: "attempts".to_owned(), value: AttrValue::Int(3) },
            str_attr("delay", "20s"),
        ]
    );

    let env = &block.children[3];
    assert_eq!(env.tag, "env");
    assert_eq!(
        env.attrs,
        vec![
            Attribute { key: "PORT".to_owned(), value: AttrValue::Int(8080) },
            Attribute { key: "MODE".to_owned(), value: AttrValue::Str("prod".to_owned()) },
        ]
    );
}

#[test]
fn port_block_shape() {
    let block = port_block(&Port { name: "metrics".to_owned(), to: 9100 });
    assert_eq!(block.tag, "port");
    assert_eq!(block.labels, vec!["metrics".to_owned()]);
    assert_eq!(
        block.attrs,
        vec![Attribute { key: "to".to_owned(), value: AttrValue::Int(9100) }]
    );
}

#[test]
fn group_child_order_is_network_services_volumes_tasks() {
    let config = sample_config();
    let job = translate(&config).unwrap();
    let group = &job.children[0];
    let tags: Vec<&str> = group.children.iter().map(|b| b.tag.as_str()).collect();
    assert_eq!(tags, vec!["network", "service", "volume", "task", "task"]);
}

#[test]
fn blocks_compare_structurally() {
    let a = Block {
        tag: "env".to_owned(),
        labels: vec![],
        attrs: vec![],
        children: vec![],
    };
    let b = Block {
        tag: "env".to_owned(),
        labels: vec![],
        attrs: vec![],
        children: vec![],
    };
    assert_eq!(a, b);
}
