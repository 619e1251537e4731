//! Normalization of host audit-log records into the agent's events.
//!
//! Record acquisition is platform plumbing in the surrounding binary; it hands
//! each record's event id and its name/value pairs here, and the core turns
//! them into `Event`s. Record ids 1, 3 and 11 are process start, network
//! connect and file create respectively.

use vstd::prelude::*;
use crate::text::{parse_u16_spec, parse_u32_spec, parse_u16_dec, parse_u32_dec, str_eq};
use crate::types::{Event, EventM, FileAccessType};

verus! {

/// The value of the first pair whose name equals the key.
pub open spec fn lookup(data: Seq<(Seq<char>, Seq<char>)>, key: Seq<char>) -> Option<Seq<char>>
    decreases data.len(),
{
    if data.len() == 0 {
        None
    } else if data[0].0 == key {
        Some(data[0].1)
    } else {
        lookup(data.drop_first(), key)
    }
}

pub open spec fn pairs_view(data: Seq<(String, String)>) -> Seq<(Seq<char>, Seq<char>)> {
    data.map_values(|p: (String, String)| (p.0@, p.1@))
}

proof fn lemma_lookup_skip(data: Seq<(Seq<char>, Seq<char>)>, key: Seq<char>, i: int)
    requires
        0 <= i <= data.len(),
        forall|j: int| 0 <= j < i ==> (#[trigger] data[j]).0 != key,
    ensures
        lookup(data, key) == lookup(data.skip(i), key),
    decreases i,
{
    if i == 0 {
        assert(data.skip(0) =~= data);
    } else {
        assert(data[0].0 != key);
        lemma_lookup_skip(data.drop_first(), key, i - 1);
        assert(data.drop_first().skip(i - 1) =~= data.skip(i));
    }
}

/// The first value recorded under the key.
pub fn find_value(data: &Vec<(String, String)>, key: &str) -> (r: Option<String>)
    ensures
        crate::types::view_opt_str(r) == lookup(pairs_view(data@), key@),
{
    let ghost dv = pairs_view(data@);
    let mut i: usize = 0;
    while i < data.len()
        invariant
            dv == pairs_view(data@),
            i <= data@.len(),
            forall|j: int| 0 <= j < i ==> (#[trigger] dv[j]).0 != key@,
        decreases data@.len() - i,
    {
        let hit = str_eq(data[i].0.as_str(), key);
        assert(dv[i as int] == (data@[i as int].0@, data@[i as int].1@));
        if hit {
            proof {
                lemma_lookup_skip(dv, key@, i as int);
                assert(dv.skip(i as int)[0] == dv[i as int]);
            }
            return Some(data[i].1.clone());
        }
        i += 1;
    }
    proof {
        lemma_lookup_skip(dv, key@, i as int);
        assert(dv.skip(i as int).len() == 0);
    }
    None
}

pub open spec fn parsed_u32(o: Option<Seq<char>>) -> Option<u32> {
    match o {
        Some(s) => parse_u32_spec(s),
        None => None,
    }
}

/// What one audit record normalizes to. A process start needs a pid and an
/// image; a connect needs a pid and a destination address; a file create
/// needs a pid and a target file; everything else is dropped.
pub open spec fn normalize_spec(
    event_id: u32,
    data: Seq<(Seq<char>, Seq<char>)>,
    ts: u64,
) -> Option<EventM> {
    if event_id == 1 {
        match (parsed_u32(lookup(data, "ProcessId"@)), lookup(data, "Image"@)) {
            (Some(pid), Some(image)) => Some(
                EventM::ProcessStart {
                    pid,
                    ppid: match parsed_u32(lookup(data, "ParentProcessId"@)) {
                        Some(p) => p,
                        None => 0,
                    },
                    image_path: image,
                    signer_publisher: lookup(data, "Company"@),
                    timestamp_unix_ms: ts,
                },
            ),
            _ => None,
        }
    } else if event_id == 3 {
        match (parsed_u32(lookup(data, "ProcessId"@)), lookup(data, "DestinationIp"@)) {
            (Some(pid), Some(ip)) => Some(
                EventM::NetConnect {
                    pid,
                    image_path: lookup(data, "Image"@),
                    dest_ip: ip,
                    dest_port: match lookup(data, "DestinationPort"@) {
                        Some(s) => match parse_u16_spec(s) {
                            Some(p) => p,
                            None => 0,
                        },
                        None => 0,
                    },
                    dest_host: lookup(data, "DestinationHostname"@),
                    protocol: match lookup(data, "Protocol"@) {
                        Some(p) => p,
                        None => "unknown"@,
                    },
                    timestamp_unix_ms: ts,
                },
            ),
            _ => None,
        }
    } else if event_id == 11 {
        match (parsed_u32(lookup(data, "ProcessId"@)), lookup(data, "TargetFilename"@)) {
            (Some(pid), Some(file)) => Some(
                EventM::FileAccess {
                    pid,
                    image_path: lookup(data, "Image"@),
                    file_path: file,
                    access: FileAccessType::Write,
                    timestamp_unix_ms: ts,
                },
            ),
            _ => None,
        }
    } else {
        None
    }
}

/// Normalizes one audit record into an event, exactly as `normalize_spec`
/// says.
pub fn normalize_sysmon(event_id: u32, data: &Vec<(String, String)>, ts: u64) -> (r: Option<Event>)
    ensures
        (match r {
            Some(ev) => normalize_spec(event_id, pairs_view(data@), ts) == Some(ev@),
            None => normalize_spec(event_id, pairs_view(data@), ts) is None,
        }),
{
    if event_id == 1 {
        let pid = match find_value(data, "ProcessId") {
            Some(s) => match parse_u32_dec(s.as_str()) {
                Some(p) => p,
                None => {
                    return None;
                },
            },
            None => {
                return None;
            },
        };
        let image = match find_value(data, "Image") {
            Some(s) => s,
            None => {
                return None;
            },
        };
        let ppid = match find_value(data, "ParentProcessId") {
            Some(s) => match parse_u32_dec(s.as_str()) {
                Some(p) => p,
                None => 0,
            },
            None => 0,
        };
        let publisher = find_value(data, "Company");
        Some(
            Event::ProcessStart {
                pid,
                ppid,
                image_path: image,
                signer_publisher: publisher,
                timestamp_unix_ms: ts,
            },
        )
    } else if event_id == 3 {
        let pid = match find_value(data, "ProcessId") {
            Some(s) => match parse_u32_dec(s.as_str()) {
                Some(p) => p,
                None => {
                    return None;
                },
            },
            None => {
                return None;
            },
        };
        let ip = match find_value(data, "DestinationIp") {
            Some(s) => s,
            None => {
                return None;
            },
        };
        let port = match find_value(data, "DestinationPort") {
            Some(s) => match parse_u16_dec(s.as_str()) {
                Some(p) => p,
                None => 0,
            },
            None => 0,
        };
        let host = find_value(data, "DestinationHostname");
        let protocol = match find_value(data, "Protocol") {
            Some(p) => p,
            None => <String as vstd::string::StringExecFns>::from_str("unknown"),
        };
        Some(
            Event::NetConnect {
                pid,
                image_path: find_value(data, "Image"),
                dest_ip: ip,
                dest_port: port,
                dest_host: host,
                protocol,
                timestamp_unix_ms: ts,
            },
        )
    } else if event_id == 11 {
        let pid = match find_value(data, "ProcessId") {
            Some(s) => match parse_u32_dec(s.as_str()) {
                Some(p) => p,
                None => {
                    return None;
                },
            },
            None => {
                return None;
            },
        };
        let file = match find_value(data, "TargetFilename") {
            Some(s) => s,
            None => {
                return None;
            },
        };
        Some(
            Event::FileAccess {
                pid,
                image_path: find_value(data, "Image"),
                file_path: file,
                access: FileAccessType::Write,
                timestamp_unix_ms: ts,
            },
        )
    } else {
        None
    }
}

} // verus!
