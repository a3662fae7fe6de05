//! Which attached Razer devices the registry supports, picking the one to
//! talk to when no PID is given, and the text that lists PIDs.
use vstd::prelude::*;

use crate::registry::{first_with_pid, Capabilities, DeviceDef, Registry};
use crate::text::{hex_char, push_hex_digit, string_from_chars};
use crate::transport::{HidInfo, RAZER_VID};

verus! {

/// Supported product ids among the enumerated interfaces, each once, in
/// the order first seen.
pub open spec fn supported_pids(infos: Seq<HidInfo>, defs: Seq<DeviceDef>) -> Seq<u16>
    decreases infos.len(),
{
    if infos.len() == 0 {
        Seq::empty()
    } else {
        let prev = supported_pids(infos.drop_last(), defs);
        let info = infos.last();
        if info.vendor_id == RAZER_VID && first_with_pid(defs, info.product_id) is Some
            && !prev.contains(info.product_id) {
            prev.push(info.product_id)
        } else {
            prev
        }
    }
}

/// Product id of the last Razer interface enumerated, supported or not.
pub open spec fn last_razer_pid(infos: Seq<HidInfo>) -> Option<u16>
    decreases infos.len(),
{
    if infos.len() == 0 {
        None
    } else if infos.last().vendor_id == RAZER_VID {
        Some(infos.last().product_id)
    } else {
        last_razer_pid(infos.drop_last())
    }
}

/// Whether some enumerated Razer interface has product id `p` and the
/// registry defines `p`.
pub open spec fn seen_supported(infos: Seq<HidInfo>, defs: Seq<DeviceDef>, p: u16) -> bool {
    &&& first_with_pid(defs, p) is Some
    &&& exists|i: int|
        #![trigger infos[i]]
        0 <= i < infos.len() && infos[i].vendor_id == RAZER_VID && infos[i].product_id == p
}

/// The supported PIDs hold no duplicate, and hold exactly the product ids
/// of Razer interfaces that the registry defines.
pub proof fn lemma_supported_pids(infos: Seq<HidInfo>, defs: Seq<DeviceDef>)
    ensures
        supported_pids(infos, defs).no_duplicates(),
        forall|p: u16|
            #[trigger] supported_pids(infos, defs).contains(p) <==> seen_supported(infos, defs, p),
    decreases infos.len(),
{
    if infos.len() > 0 {
        let init = infos.drop_last();
        lemma_supported_pids(init, defs);
        let prev = supported_pids(init, defs);
        let info = infos.last();
        let last = infos.len() - 1;
        assert(infos[last] == info);
        assert forall|p: u16|
            #[trigger] supported_pids(infos, defs).contains(p) <==> seen_supported(
                infos,
                defs,
                p,
            ) by {
            if prev.contains(p) {
                assert(seen_supported(init, defs, p));
                let i = choose|i: int|
                    #![trigger init[i]]
                    0 <= i < init.len() && init[i].vendor_id == RAZER_VID && init[i].product_id == p;
                assert(infos[i] == init[i]);
                let k = choose|k: int| 0 <= k < prev.len() && prev[k] == p;
                let cur = supported_pids(infos, defs);
                assert(cur == prev || cur == prev.push(info.product_id));
                assert(cur[k] == p);
                assert(cur.contains(p));
            }
            if supported_pids(infos, defs).contains(p) && !prev.contains(p) {
                assert(supported_pids(infos, defs) == prev.push(info.product_id));
                assert(p == info.product_id);
            }
            if seen_supported(infos, defs, p) {
                let i = choose|i: int|
                    #![trigger infos[i]]
                    0 <= i < infos.len() && infos[i].vendor_id == RAZER_VID && infos[i].product_id == p;
                if i < last {
                    assert(init[i] == infos[i]);
                    assert(seen_supported(init, defs, p));
                } else {
                    if !prev.contains(p) {
                        assert(supported_pids(infos, defs) == prev.push(p));
                        assert(prev.push(p)[prev.len() as int] == p);
                    }
                }
            }
        }
    }
}

/// Supported product ids of the attached Razer devices (each once, in the
/// order first seen), and the product id of the last Razer interface
/// enumerated, which may be unsupported.
pub fn unique_razer_pids(infos: &[HidInfo], registry: &Registry) -> (r: (Vec<u16>, Option<u16>))
    ensures
        r.0@ == supported_pids(infos@, registry@),
        r.1 == last_razer_pid(infos@),
{
    let mut razer_pid: Option<u16> = None;
    let mut pids: Vec<u16> = Vec::new();
    let n = infos.len();
    let mut i: usize = 0;
    while i < n
        invariant
            n == infos@.len(),
            i <= n,
            pids@ == supported_pids(infos@.take(i as int), registry@),
            razer_pid == last_razer_pid(infos@.take(i as int)),
        decreases n - i,
    {
        assert(infos@.take(i + 1).drop_last() =~= infos@.take(i as int));
        let info = infos[i];
        if info.vendor_id == RAZER_VID {
            razer_pid = Some(info.product_id);
            if registry.find_by_pid(info.product_id).is_some() && !contains_pid(&pids, info.product_id) {
                pids.push(info.product_id);
            }
        }
        i = i + 1;
    }
    assert(infos@.take(n as int) =~= infos@);
    (pids, razer_pid)
}

fn contains_pid(pids: &Vec<u16>, pid: u16) -> (r: bool)
    ensures
        r == pids@.contains(pid),
{
    let mut i: usize = 0;
    while i < pids.len()
        invariant
            i <= pids@.len(),
            forall|k: int| 0 <= k < i ==> pids@[k] != pid,
        decreases pids@.len() - i,
    {
        if pids[i] == pid {
            return true;
        }
        i = i + 1;
    }
    false
}

/// Why no single device could be picked.
#[derive(Debug, Clone, PartialEq, Eq)]
pub enum DetectError {
    /// A Razer device is attached, but its PID is not in the registry.
    Unsupported { pid: u16 },
    /// No Razer device is attached.
    NoDevice,
    /// Several supported devices are attached; `--pid` must pick one.
    Multiple { pids: Vec<u16> },
}

/// Pick the single attached, supported Razer device.
pub fn auto_detect_pid(infos: &[HidInfo], registry: &Registry) -> (r: Result<u16, DetectError>)
    ensures
        supported_pids(infos@, registry@).len() == 1 ==> r == Ok::<u16, DetectError>(
            supported_pids(infos@, registry@)[0],
        ),
        supported_pids(infos@, registry@).len() == 0 ==> r == Err::<u16, DetectError>(
            match last_razer_pid(infos@) {
                Some(pid) => DetectError::Unsupported { pid },
                None => DetectError::NoDevice,
            },
        ),
        supported_pids(infos@, registry@).len() > 1 ==> (r matches Err(DetectError::Multiple { pids })
            && pids@ == supported_pids(infos@, registry@)),
{
    let (pids, razer_pid) = unique_razer_pids(infos, registry);
    if pids.len() == 0 {
        match razer_pid {
            Some(pid) => Err(DetectError::Unsupported { pid }),
            None => Err(DetectError::NoDevice),
        }
    } else if pids.len() == 1 {
        Ok(pids[0])
    } else {
        Err(DetectError::Multiple { pids })
    }
}

/// `pid` as `0x` and four lowercase hex digits.
pub open spec fn pid_text(pid: u16) -> Seq<char> {
    seq![
        '0',
        'x',
        hex_char(pid as int / 4096),
        hex_char((pid as int / 256) % 16),
        hex_char((pid as int / 16) % 16),
        hex_char(pid as int % 16),
    ]
}

/// The texts of `pids` joined by `, `.
pub open spec fn pid_list_text(pids: Seq<u16>) -> Seq<char>
    decreases pids.len(),
{
    if pids.len() == 0 {
        Seq::empty()
    } else if pids.len() == 1 {
        pid_text(pids[0])
    } else {
        pid_list_text(pids.drop_last()) + seq![',', ' '] + pid_text(pids.last())
    }
}

pub(crate) fn push_pid(out: &mut Vec<char>, pid: u16)
    ensures
        final(out)@ == old(out)@ + pid_text(pid),
{
    out.push('0');
    out.push('x');
    push_hex_digit(out, pid / 4096);
    push_hex_digit(out, (pid / 256) % 16);
    push_hex_digit(out, (pid / 16) % 16);
    push_hex_digit(out, pid % 16);
    assert(final(out)@ =~= old(out)@ + pid_text(pid));
}

/// The PIDs as `0x`-prefixed four-digit lowercase hex, joined by `, `.
pub fn format_pid_list(pids: &Vec<u16>) -> (s: String)
    ensures
        s@ == pid_list_text(pids@),
{
    let mut list: Vec<char> = Vec::new();
    let mut i: usize = 0;
    while i < pids.len()
        invariant
            i <= pids@.len(),
            list@ == pid_list_text(pids@.take(i as int)),
        decreases pids@.len() - i,
    {
        assert(pids@.take(i + 1).drop_last() =~= pids@.take(i as int));
        if i > 0 {
            list.push(',');
            list.push(' ');
        }
        push_pid(&mut list, pids[i]);
        proof {
            if i == 0 {
                assert(list@ =~= pid_list_text(pids@.take(1)));
            }
        }
        i = i + 1;
    }
    assert(pids@.take(pids@.len() as int) =~= pids@);
    string_from_chars(&list)
}

/// Names of the capabilities a device has, in the order lighting, dpi,
/// polling, battery, onboard.
pub open spec fn capability_names(c: Capabilities) -> Seq<Seq<char>> {
    (if c.lighting {
        seq!["lighting"@]
    } else {
        Seq::empty()
    }) + (if c.dpi {
        seq!["dpi"@]
    } else {
        Seq::empty()
    }) + (if c.polling_rate {
        seq!["polling"@]
    } else {
        Seq::empty()
    }) + (if c.battery {
        seq!["battery"@]
    } else {
        Seq::empty()
    }) + (if c.onboard {
        seq!["onboard"@]
    } else {
        Seq::empty()
    })
}

/// Names of the capabilities of a device definition.
pub fn get_capabilities(def: &DeviceDef) -> (caps: Vec<&'static str>)
    ensures
        caps@.map_values(|s: &str| s@) == capability_names(def.capabilities),
{
    let mut caps: Vec<&'static str> = Vec::new();
    let ghost c = def.capabilities;
    if def.capabilities.lighting {
        caps.push("lighting");
    }
    let ghost after_lighting = caps@;
    if def.capabilities.dpi {
        caps.push("dpi");
    }
    if def.capabilities.polling_rate {
        caps.push("polling");
    }
    if def.capabilities.battery {
        caps.push("battery");
    }
    if def.capabilities.onboard {
        caps.push("onboard");
    }
    assert(caps@.map_values(|s: &str| s@) =~= capability_names(c));
    caps
}

} // verus!
