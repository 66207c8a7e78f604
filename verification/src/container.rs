//! The domain model: raw wire records, the strict `Container` returned
//! to callers, network interfaces, and the normalization and enrichment
//! rules that connect them.

use vstd::prelude::*;
use crate::digits::dec_seq;
use crate::digits::u64_to_string;
use crate::error::ApiError;

verus! {

/// A raw container record as it appears on the wire: every field but
/// `vmid` and `status` is optional.
///
/// The wire carries the cpu fraction as a float; this client never
/// inspects that number, so it is held as its IEEE 754 bit pattern and
/// converted back at the process edge.
#[derive(Debug, Clone, PartialEq, Eq)]
pub struct RawContainer {
    pub vmid: u32,
    pub name: Option<String>,
    pub status: String,
    pub uptime: Option<u64>,
    pub mem: Option<u64>,
    pub maxmem: Option<u64>,
    pub cpu_bits: Option<u64>,
    pub cpus: Option<u32>,
    pub diskread: Option<u64>,
    pub diskwrite: Option<u64>,
}

/// The strict domain record returned to callers.
///
/// `cpu_bits` carries the cpu-usage fraction as its IEEE 754 bit
/// pattern (the pattern for 0.0 is 0); the process edge converts it to
/// and from a float.
#[derive(Debug, Clone, PartialEq, Eq)]
pub struct Container {
    pub vmid: u32,
    pub name: String,
    pub status: String,
    pub uptime: u64,
    pub memory: u64,
    pub max_memory: u64,
    pub cpu_bits: u64,
    pub cpus: u32,
    pub disk_read: u64,
    pub disk_write: u64,
    pub ip_address: Option<String>,
}

/// A network interface record from the interfaces endpoint; consumed
/// only during IP enrichment.
#[derive(Debug, Clone, PartialEq, Eq)]
pub struct NetworkInterface {
    pub name: String,
    pub inet: Option<String>,
}

/// Mathematical model of a raw wire record.
pub ghost struct RawModel {
    pub vmid: u32,
    pub name: Option<Seq<char>>,
    pub status: Seq<char>,
    pub uptime: Option<u64>,
    pub mem: Option<u64>,
    pub maxmem: Option<u64>,
    pub cpu_bits: Option<u64>,
    pub cpus: Option<u32>,
    pub diskread: Option<u64>,
    pub diskwrite: Option<u64>,
}

/// Mathematical model of a domain container.
pub ghost struct ContainerModel {
    pub vmid: u32,
    pub name: Seq<char>,
    pub status: Seq<char>,
    pub uptime: u64,
    pub memory: u64,
    pub max_memory: u64,
    pub cpu_bits: u64,
    pub cpus: u32,
    pub disk_read: u64,
    pub disk_write: u64,
    pub ip_address: Option<Seq<char>>,
}

/// Mathematical model of a network interface record.
pub ghost struct NetIfModel {
    pub name: Seq<char>,
    pub inet: Option<Seq<char>>,
}

impl View for RawContainer {
    type V = RawModel;

    open spec fn view(&self) -> RawModel {
        RawModel {
            vmid: self.vmid,
            name: self.name.deep_view(),
            status: self.status@,
            uptime: self.uptime,
            mem: self.mem,
            maxmem: self.maxmem,
            cpu_bits: self.cpu_bits,
            cpus: self.cpus,
            diskread: self.diskread,
            diskwrite: self.diskwrite,
        }
    }
}

impl View for Container {
    type V = ContainerModel;

    open spec fn view(&self) -> ContainerModel {
        ContainerModel {
            vmid: self.vmid,
            name: self.name@,
            status: self.status@,
            uptime: self.uptime,
            memory: self.memory,
            max_memory: self.max_memory,
            cpu_bits: self.cpu_bits,
            cpus: self.cpus,
            disk_read: self.disk_read,
            disk_write: self.disk_write,
            ip_address: self.ip_address.deep_view(),
        }
    }
}

impl View for NetworkInterface {
    type V = NetIfModel;

    open spec fn view(&self) -> NetIfModel {
        NetIfModel { name: self.name@, inet: self.inet.deep_view() }
    }
}

/// The models of a sequence of containers.
pub open spec fn models(s: Seq<Container>) -> Seq<ContainerModel> {
    s.map_values(|c: Container| c@)
}

/// The models of a sequence of raw records.
pub open spec fn raw_models(s: Seq<RawContainer>) -> Seq<RawModel> {
    s.map_values(|r: RawContainer| r@)
}

/// The name synthesized for a record that arrives without one.
pub open spec fn default_name(vmid: u32) -> Seq<char> {
    "CT-"@ + dec_seq(vmid as nat)
}

/// Normalization of one raw record: absent optional fields take their
/// documented defaults, and the address starts out absent.
pub open spec fn normalize_model(r: RawModel) -> ContainerModel {
    ContainerModel {
        vmid: r.vmid,
        name: match r.name {
            Some(n) => n,
            None => default_name(r.vmid),
        },
        status: r.status,
        uptime: match r.uptime {
            Some(u) => u,
            None => 0,
        },
        memory: match r.mem {
            Some(m) => m,
            None => 0,
        },
        max_memory: match r.maxmem {
            Some(m) => m,
            None => 0,
        },
        cpu_bits: match r.cpu_bits {
            Some(b) => b,
            None => 0,
        },
        cpus: match r.cpus {
            Some(c) => c,
            None => 1,
        },
        disk_read: match r.diskread {
            Some(d) => d,
            None => 0,
        },
        disk_write: match r.diskwrite {
            Some(d) => d,
            None => 0,
        },
        ip_address: None,
    }
}

/// Normalizes one raw record into a domain container.
pub fn normalize(raw: RawContainer) -> (c: Container)
    ensures
        c@ == normalize_model(raw@),
{
    let name = match raw.name {
        Some(n) => n,
        None => {
            let mut n = String::from_str("CT-");
            let digits = u64_to_string(raw.vmid as u64);
            n.append(digits.as_str());
            n
        },
    };
    Container {
        vmid: raw.vmid,
        name,
        status: raw.status,
        uptime: match raw.uptime {
            Some(u) => u,
            None => 0,
        },
        memory: match raw.mem {
            Some(m) => m,
            None => 0,
        },
        max_memory: match raw.maxmem {
            Some(m) => m,
            None => 0,
        },
        cpu_bits: match raw.cpu_bits {
            Some(b) => b,
            None => 0,
        },
        cpus: match raw.cpus {
            Some(c) => c,
            None => 1,
        },
        disk_read: match raw.diskread {
            Some(d) => d,
            None => 0,
        },
        disk_write: match raw.diskwrite {
            Some(d) => d,
            None => 0,
        },
        ip_address: None,
    }
}

/// The address an enrichment lookup contributes: the found address on
/// success, nothing on any failure.
pub open spec fn lookup_ip(r: Result<String, ApiError>) -> Option<Seq<char>> {
    match r {
        Ok(ip) => Some(ip@),
        Err(_) => None,
    }
}

/// Enrichment of one container: only a running container ever takes an
/// address; for every other status the address stays absent whatever
/// the lookup produced.
pub open spec fn enrich_model(c: ContainerModel, ip: Option<Seq<char>>) -> ContainerModel {
    ContainerModel { ip_address: if c.status == "running"@ { ip } else { None }, ..c }
}

/// One fully processed listing entry: normalization then enrichment.
pub open spec fn entry_model(r: RawModel, ip: Option<Seq<char>>) -> ContainerModel {
    enrich_model(normalize_model(r), ip)
}

/// The addresses a sequence of enrichment lookups contributes.
pub open spec fn lookup_models(s: Seq<Result<String, ApiError>>) -> Seq<Option<Seq<char>>> {
    s.map_values(|r: Result<String, ApiError>| lookup_ip(r))
}

/// The fully processed entries of one listing, in wire order: each raw
/// record normalized and then enriched with its lookup's address.
pub open spec fn entries(raws: Seq<RawModel>, ips: Seq<Option<Seq<char>>>) -> Seq<ContainerModel>
    recommends
        ips.len() == raws.len(),
{
    Seq::new(raws.len(), |i: int| entry_model(raws[i], ips[i]))
}

/// Applies an enrichment lookup result to a container.  The lookup is
/// downgraded to an optional address here: a failed lookup leaves the
/// address absent and is otherwise invisible, and a container that is
/// not running never takes an address at all.
pub fn apply_enrichment(c: &mut Container, lookup: Result<String, ApiError>)
    ensures
        final(c)@ == enrich_model(old(c)@, lookup_ip(lookup)),
{
    let running = is_running(c);
    if running {
        c.ip_address = match lookup {
            Ok(ip) => Some(ip),
            Err(_) => None,
        };
    } else {
        c.ip_address = None;
    }
}

/// Whether a container reports the running status, the condition under
/// which the listing attempts IP enrichment.
pub fn is_running(c: &Container) -> (r: bool)
    ensures
        r == (c@.status == "running"@),
{
    let running = String::from_str("running");
    c.status == running
}

} // verus!
