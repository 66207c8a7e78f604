//! Listing-wide guarantees, stated over the models that the exec
//! contracts use.

use vstd::prelude::*;
use crate::container::ContainerModel;
use crate::container::RawModel;
use crate::container::default_name;
use crate::container::entries;
use crate::container::entry_model;
use crate::container::normalize_model;

verus! {

/// A raw record that arrives with every optional field absent
/// normalizes to the documented defaults: zero uptime, memory,
/// maximum memory, cpu usage and disk counters, one cpu, a synthesized
/// name, and no address.
pub proof fn lemma_normalize_defaults(r: RawModel)
    requires
        r.name is None,
        r.uptime is None,
        r.mem is None,
        r.maxmem is None,
        r.cpu_bits is None,
        r.cpus is None,
        r.diskread is None,
        r.diskwrite is None,
    ensures
        normalize_model(r).vmid == r.vmid,
        normalize_model(r).name == default_name(r.vmid),
        normalize_model(r).status == r.status,
        normalize_model(r).uptime == 0,
        normalize_model(r).memory == 0,
        normalize_model(r).max_memory == 0,
        normalize_model(r).cpu_bits == 0,
        normalize_model(r).cpus == 1,
        normalize_model(r).disk_read == 0,
        normalize_model(r).disk_write == 0,
        normalize_model(r).ip_address is None,
{
}

/// A container whose status is not "running" ends up with no address,
/// whatever address its enrichment lookup would have contributed.
pub proof fn lemma_non_running_takes_no_ip(r: RawModel, ip: Option<Seq<char>>)
    requires
        r.status != "running"@,
    ensures
        entry_model(r, ip).ip_address is None,
{
}

/// Everything of a listing entry except its address.
pub open spec fn same_except_ip(a: ContainerModel, b: ContainerModel) -> bool {
    &&& a.vmid == b.vmid
    &&& a.name == b.name
    &&& a.status == b.status
    &&& a.uptime == b.uptime
    &&& a.memory == b.memory
    &&& a.max_memory == b.max_memory
    &&& a.cpu_bits == b.cpu_bits
    &&& a.cpus == b.cpus
    &&& a.disk_read == b.disk_read
    &&& a.disk_write == b.disk_write
}

/// Changing the enrichment lookup of one record — in particular,
/// replacing a found address by a failure — never removes or alters
/// any other entry, and touches nothing of that record's own entry but
/// its address.
pub proof fn lemma_enrichment_failure_isolated(
    raws: Seq<RawModel>,
    ips1: Seq<Option<Seq<char>>>,
    ips2: Seq<Option<Seq<char>>>,
    k: int,
)
    requires
        ips1.len() == raws.len(),
        ips2.len() == raws.len(),
        forall|i: int| 0 <= i < raws.len() && i != k ==> ips1[i] == ips2[i],
    ensures
        entries(raws, ips1).len() == raws.len(),
        entries(raws, ips2).len() == raws.len(),
        forall|i: int|
            0 <= i < raws.len() && i != k ==> entries(raws, ips1)[i] == entries(raws, ips2)[i],
        forall|i: int|
            0 <= i < raws.len() ==> same_except_ip(entries(raws, ips1)[i], entries(raws, ips2)[i]),
{
}

} // verus!
