//! The laws of the translation: properties that hold of every tree the
//! engine can produce, stated over the mathematical model and proved once
//! for all inputs.

use vstd::prelude::*;

use crate::block::{AttrValueModel, AttributeModel, BlockModel};
use crate::config::{ContainerModel, EnvEntryModel, JobConfigModel};
use crate::translate::{
    spec_check_block, spec_config_block, spec_env_attr, spec_env_attrs, spec_env_block,
    spec_group_block, spec_mount_block, spec_network_block, spec_port_block, spec_restart_block,
    spec_service_block, spec_task_block, spec_translate, spec_volume_block,
};

verus! {

/// Determinism: the tree admitted by `translate`'s contract is a function
/// of the input configuration alone, so any two trees it admits for the
/// same input are structurally identical.
pub proof fn lemma_translate_deterministic(c: JobConfigModel, r1: BlockModel, r2: BlockModel)
    requires
        r1 == spec_translate(c),
        r2 == spec_translate(c),
    ensures
        r1 == r2,
{
}

/// How many blocks of a list carry a given type tag.
pub open spec fn count_tag(blocks: Seq<BlockModel>, tag: Seq<char>) -> int
    decreases blocks.len(),
{
    if blocks.len() == 0 {
        0
    } else {
        count_tag(blocks.drop_last(), tag) + if blocks.last().tag == tag {
            1int
        } else {
            0int
        }
    }
}

proof fn lemma_count_tag_concat(a: Seq<BlockModel>, b: Seq<BlockModel>, tag: Seq<char>)
    ensures
        count_tag(a + b, tag) == count_tag(a, tag) + count_tag(b, tag),
    decreases b.len(),
{
    if b.len() == 0 {
        assert(a + b =~= a);
    } else {
        lemma_count_tag_concat(a, b.drop_last(), tag);
        assert((a + b).drop_last() =~= a + b.drop_last());
        assert((a + b).last() == b.last());
    }
}

proof fn lemma_count_tag_uniform(blocks: Seq<BlockModel>, tag: Seq<char>)
    requires
        forall|i: int| 0 <= i < blocks.len() ==> (#[trigger] blocks[i]).tag == tag,
    ensures
        count_tag(blocks, tag) == blocks.len(),
    decreases blocks.len(),
{
    if blocks.len() > 0 {
        lemma_count_tag_uniform(blocks.drop_last(), tag);
    }
}

proof fn lemma_count_tag_none(blocks: Seq<BlockModel>, tag: Seq<char>)
    requires
        forall|i: int| 0 <= i < blocks.len() ==> (#[trigger] blocks[i]).tag != tag,
    ensures
        count_tag(blocks, tag) == 0,
    decreases blocks.len(),
{
    if blocks.len() > 0 {
        lemma_count_tag_none(blocks.drop_last(), tag);
    }
}

/// Cardinality preservation: in the translated tree, the "network" block
/// (the group's first child) has exactly one "port" child per input port,
/// and the "group" block exactly one "service", "volume" and "task" child
/// per input service, volume and container.
pub proof fn lemma_cardinality_preservation(c: JobConfigModel)
    ensures
        spec_translate(c).children[0] == spec_group_block(c),
        spec_group_block(c).children[0] == spec_network_block(c.ports),
        count_tag(spec_network_block(c.ports).children, "port"@) == c.ports.len(),
        count_tag(spec_group_block(c).children, "service"@) == c.services.len(),
        count_tag(spec_group_block(c).children, "volume"@) == c.volumes.len(),
        count_tag(spec_group_block(c).children, "task"@) == c.containers.len(),
{
    reveal_strlit("port");
    reveal_strlit("network");
    reveal_strlit("service");
    reveal_strlit("volume");
    reveal_strlit("task");

    let ports = c.ports.map_values(|p| spec_port_block(p));
    assert forall|i: int| 0 <= i < ports.len() implies (#[trigger] ports[i]).tag == "port"@ by {}
    lemma_count_tag_uniform(ports, "port"@);
    assert(count_tag(spec_network_block(c.ports).children, "port"@) == c.ports.len());

    let net = seq![spec_network_block(c.ports)];
    let svcs = c.services.map_values(|s| spec_service_block(s));
    let vols = c.volumes.map_values(|v| spec_volume_block(v));
    let tasks = c.containers.map_values(|t| spec_task_block(t));
    assert(spec_group_block(c).children =~= net + svcs + vols + tasks);

    assert("port"@.len() == 4 && "task"@.len() == 4);
    assert("network"@.len() == 7 && "service"@.len() == 7);
    assert("volume"@.len() == 6);
    assert("network"@[0] == 'n' && "service"@[0] == 's');
    assert("port"@[0] == 'p' && "task"@[0] == 't');
    assert("network"@ != "service"@);
    assert("network"@ != "volume"@ && "network"@ != "task"@);
    assert("service"@ != "volume"@ && "service"@ != "task"@);
    assert("volume"@ != "task"@);

    assert forall|i: int| 0 <= i < svcs.len() implies (#[trigger] svcs[i]).tag == "service"@ by {}
    assert forall|i: int| 0 <= i < vols.len() implies (#[trigger] vols[i]).tag == "volume"@ by {}
    assert forall|i: int| 0 <= i < tasks.len() implies (#[trigger] tasks[i]).tag == "task"@ by {}

    let tags = seq!["service"@, "volume"@, "task"@];
    assert forall|t: Seq<char>| tags.contains(t) implies count_tag(net + svcs + vols + tasks, t)
        == count_tag(svcs, t) + count_tag(vols, t) + count_tag(tasks, t) by {
        lemma_count_tag_concat(net + svcs + vols, tasks, t);
        lemma_count_tag_concat(net + svcs, vols, t);
        lemma_count_tag_concat(net, svcs, t);
        lemma_count_tag_none(net, t);
    }
    assert(tags.contains("service"@) && tags.contains("volume"@) && tags.contains("task"@));

    lemma_count_tag_uniform(svcs, "service"@);
    lemma_count_tag_none(vols, "service"@);
    lemma_count_tag_none(tasks, "service"@);

    lemma_count_tag_none(svcs, "volume"@);
    lemma_count_tag_uniform(vols, "volume"@);
    lemma_count_tag_none(tasks, "volume"@);

    lemma_count_tag_none(svcs, "task"@);
    lemma_count_tag_none(vols, "task"@);
    lemma_count_tag_uniform(tasks, "task"@);
}

/// The fixed-literal conditions of one block: a "task" block opens with
/// `driver = "docker"`, a "restart" block carries exactly `attempts = 3`
/// and `delay = "20s"`, and a "volume" block has `type = "csi"` first and
/// `attachment_mode = "filesystem"` last.
pub open spec fn block_fixed_literals_ok(b: BlockModel) -> bool {
    &&& (b.tag == "task"@ ==> b.attrs.len() >= 1 && b.attrs[0] == (AttributeModel {
        key: "driver"@,
        value: AttrValueModel::Str("docker"@),
    }))
    &&& (b.tag == "restart"@ ==> b.attrs == seq![
        AttributeModel { key: "attempts"@, value: AttrValueModel::Int(3) },
        AttributeModel { key: "delay"@, value: AttrValueModel::Str("20s"@) },
    ])
    &&& (b.tag == "volume"@ ==> b.attrs.len() == 5 && b.attrs[0] == (AttributeModel {
        key: "type"@,
        value: AttrValueModel::Str("csi"@),
    }) && b.attrs[4] == (AttributeModel {
        key: "attachment_mode"@,
        value: AttrValueModel::Str("filesystem"@),
    }))
}

/// Whether every block of a tree meets the fixed-literal conditions.
pub open spec fn tree_fixed_literals_ok(b: BlockModel) -> bool
    decreases b,
{
    &&& block_fixed_literals_ok(b)
    &&& forall|i: int|
        0 <= i < b.children.len() ==> tree_fixed_literals_ok(#[trigger] b.children[i])
}

proof fn lemma_distinct_tags()
    ensures
        "port"@ != "task"@ && "port"@ != "restart"@ && "port"@ != "volume"@,
        "network"@ != "task"@ && "network"@ != "restart"@ && "network"@ != "volume"@,
        "check"@ != "task"@ && "check"@ != "restart"@ && "check"@ != "volume"@,
        "service"@ != "task"@ && "service"@ != "restart"@ && "service"@ != "volume"@,
        "config"@ != "task"@ && "config"@ != "restart"@ && "config"@ != "volume"@,
        "volume_mount"@ != "task"@ && "volume_mount"@ != "restart"@ && "volume_mount"@
            != "volume"@,
        "env"@ != "task"@ && "env"@ != "restart"@ && "env"@ != "volume"@,
        "job"@ != "task"@ && "job"@ != "restart"@ && "job"@ != "volume"@,
        "group"@ != "task"@ && "group"@ != "restart"@ && "group"@ != "volume"@,
        "task"@ != "restart"@ && "task"@ != "volume"@ && "restart"@ != "volume"@,
{
    reveal_strlit("port");
    reveal_strlit("network");
    reveal_strlit("check");
    reveal_strlit("service");
    reveal_strlit("config");
    reveal_strlit("volume_mount");
    reveal_strlit("env");
    reveal_strlit("job");
    reveal_strlit("group");
    reveal_strlit("task");
    reveal_strlit("restart");
    reveal_strlit("volume");
    assert("job"@.len() == 3 && "env"@.len() == 3);
    assert("port"@.len() == 4 && "task"@.len() == 4);
    assert("check"@.len() == 5 && "group"@.len() == 5);
    assert("config"@.len() == 6 && "volume"@.len() == 6);
    assert("network"@.len() == 7 && "service"@.len() == 7 && "restart"@.len() == 7);
    assert("volume_mount"@.len() == 12);
    assert("port"@[0] == 'p' && "task"@[0] == 't');
    assert("network"@[0] == 'n' && "service"@[0] == 's' && "restart"@[0] == 'r');
    assert("config"@[0] == 'c' && "volume"@[0] == 'v');
}

proof fn lemma_task_tree_ok(t: ContainerModel)
    ensures
        tree_fixed_literals_ok(spec_task_block(t)),
{
    lemma_distinct_tags();
    let b = spec_task_block(t);
    let mounts = t.mounts.map_values(|m| spec_mount_block(m));
    assert(b.children =~= seq![spec_config_block(t)] + mounts + seq![
        spec_restart_block(),
        spec_env_block(t.env),
    ]);
    assert(block_fixed_literals_ok(spec_config_block(t)));
    assert(block_fixed_literals_ok(spec_restart_block())) by {
        assert(spec_restart_block().attrs =~= seq![
            AttributeModel { key: "attempts"@, value: AttrValueModel::Int(3) },
            AttributeModel { key: "delay"@, value: AttrValueModel::Str("20s"@) },
        ]);
    }
    assert(block_fixed_literals_ok(spec_env_block(t.env)));
    assert forall|i: int| 0 <= i < b.children.len() implies tree_fixed_literals_ok(
        #[trigger] b.children[i],
    ) by {
        if 1 <= i < 1 + mounts.len() {
            assert(b.children[i] == spec_mount_block(t.mounts[i - 1]));
        }
    }
}

/// Fixed-literal invariants: in every tree the engine can produce, every
/// "task" block opens with `driver = "docker"`, every "restart" block
/// carries `attempts = 3` and `delay = "20s"`, and every "volume" block
/// has `type = "csi"` and `attachment_mode = "filesystem"`.
pub proof fn lemma_fixed_literals(c: JobConfigModel)
    ensures
        tree_fixed_literals_ok(spec_translate(c)),
{
    lemma_distinct_tags();
    let job = spec_translate(c);
    let group = spec_group_block(c);
    let net = seq![spec_network_block(c.ports)];
    let svcs = c.services.map_values(|s| spec_service_block(s));
    let vols = c.volumes.map_values(|v| spec_volume_block(v));
    let tasks = c.containers.map_values(|t| spec_task_block(t));
    assert(group.children =~= net + svcs + vols + tasks);

    assert(tree_fixed_literals_ok(spec_network_block(c.ports))) by {
        let ports = c.ports.map_values(|p| spec_port_block(p));
        assert forall|i: int| 0 <= i < ports.len() implies tree_fixed_literals_ok(
            #[trigger] ports[i],
        ) by {
            assert(ports[i] == spec_port_block(c.ports[i]));
        }
    }
    assert forall|i: int| 0 <= i < svcs.len() implies tree_fixed_literals_ok(
        #[trigger] svcs[i],
    ) by {
        assert(svcs[i] == spec_service_block(c.services[i]));
        let chk = spec_check_block(c.services[i].check);
        assert(tree_fixed_literals_ok(chk));
        assert forall|j: int| 0 <= j < svcs[i].children.len() implies tree_fixed_literals_ok(
            #[trigger] svcs[i].children[j],
        ) by {
            assert(svcs[i].children[j] == chk);
        }
    }
    assert forall|i: int| 0 <= i < vols.len() implies tree_fixed_literals_ok(
        #[trigger] vols[i],
    ) by {
        assert(vols[i] == spec_volume_block(c.volumes[i]));
    }
    assert forall|i: int| 0 <= i < tasks.len() implies tree_fixed_literals_ok(
        #[trigger] tasks[i],
    ) by {
        assert(tasks[i] == spec_task_block(c.containers[i]));
        lemma_task_tree_ok(c.containers[i]);
    }
    assert forall|i: int| 0 <= i < group.children.len() implies tree_fixed_literals_ok(
        #[trigger] group.children[i],
    ) by {
        if i == 0 {
            assert(group.children[i] == spec_network_block(c.ports));
        } else if i < 1 + svcs.len() {
            assert(group.children[i] == svcs[i - 1]);
        } else if i < 1 + svcs.len() + vols.len() {
            assert(group.children[i] == vols[i - 1 - svcs.len()]);
        } else {
            assert(group.children[i] == tasks[i - 1 - svcs.len() - vols.len()]);
        }
    }
    assert(tree_fixed_literals_ok(group));
    assert(job.children =~= seq![group]);
}

/// Type-preserving env encoding: when every entry holds a supported kind
/// (integer or string), the encoded attribute list has exactly one
/// attribute per entry, in input order, keyed by the entry's name, whose
/// value keeps the entry's type.
pub proof fn lemma_env_typing(env: Seq<EnvEntryModel>)
    requires
        forall|i: int| 0 <= i < env.len() ==> !((#[trigger] env[i]).val is Other),
    ensures
        spec_env_attrs(env).len() == env.len(),
        forall|i: int|
            0 <= i < env.len() ==> #[trigger] spec_env_attrs(env)[i] == spec_env_attr(env[i])[0],
    decreases env.len(),
{
    if env.len() > 0 {
        lemma_env_typing(env.drop_last());
        assert(env.last() == env[env.len() - 1]);
        assert forall|i: int| 0 <= i < env.len() implies #[trigger] spec_env_attrs(env)[i]
            == spec_env_attr(env[i])[0] by {
            if i < env.len() - 1 {
                assert(env.drop_last()[i] == env[i]);
                assert(spec_env_attrs(env)[i] == spec_env_attrs(env.drop_last())[i]);
            }
        }
    }
}

} // verus!
