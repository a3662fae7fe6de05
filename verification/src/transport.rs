//! The feature-report transport's computations: the 91-byte HID frame
//! around a report, reading a frame back, choosing which HID interfaces to
//! try, and what each device response means for a pending command (retry on
//! busy, accept, or fail). The HID calls themselves are made by the
//! application, which hands the results to these functions.
use vstd::prelude::*;

use crate::report::{status, RazerReport, REPORT_SIZE};

verus! {

/// Razer USB vendor id.
pub const RAZER_VID: u16 = 0x1532;

/// HID buffers carry a leading report-id byte, so the wire buffer is 91
/// bytes.
pub const HID_BUF_SIZE: usize = 91;

/// Most busy-retries before giving up.
pub const MAX_BUSY_RETRIES: u32 = 5;

/// Transport-layer errors.
#[derive(Debug, Clone, PartialEq, Eq)]
pub enum TransportError {
    /// The HID layer failed; the message is its description.
    Hid(String),
    /// No interface of the device accepted a probe report.
    NoInterface { pid: u16 },
    /// No Razer device with this PID is attached.
    DeviceNotFound { pid: u16 },
    /// A feature-report read returned fewer bytes than a frame.
    ShortRead { expected: usize, got: usize },
    /// The device answered with a failure status.
    CommandFailed { status: u8, class: u8, id: u8 },
    /// The device stayed busy through every retry.
    BusyExhausted(u32),
    /// The response names another command than the one sent.
    EchoMismatch { sent_class: u8, sent_id: u8, got_class: u8, got_id: u8 },
}

/// The frame sent as a feature report: report id 0, then the wire form.
pub open spec fn frame_of(report: RazerReport) -> Seq<u8> {
    seq![0u8] + report.wire()
}

/// The 91-byte feature report that carries `report` (leading report id 0).
pub fn feature_frame(report: &RazerReport) -> (buf: [u8; HID_BUF_SIZE])
    ensures
        buf@ == frame_of(*report),
{
    let bytes = report.to_bytes();
    let mut buf = [0u8; 91];
    let mut i: usize = 0;
    while i < REPORT_SIZE
        invariant
            i <= REPORT_SIZE,
            bytes@ == report.wire(),
            bytes@.len() == REPORT_SIZE,
            buf@.len() == HID_BUF_SIZE,
            buf@[0] == 0u8,
            forall|k: int| 0 <= k < i ==> buf@[1 + k] == bytes@[k],
        decreases REPORT_SIZE - i,
    {
        buf[1 + i] = bytes[i];
        i = i + 1;
    }
    assert(buf@ =~= frame_of(*report));
    buf
}

/// Read the report out of a feature-report buffer of which the HID layer
/// filled `read` bytes (report id included): a short read is an error,
/// otherwise the report is bytes 1..=90.
pub fn parse_feature_frame(buf: &[u8; HID_BUF_SIZE], read: usize) -> (r: Result<
    RazerReport,
    TransportError,
>)
    ensures
        read < HID_BUF_SIZE <==> (r is Err),
        r matches Err(e) ==> e == (TransportError::ShortRead { expected: HID_BUF_SIZE, got: read }),
        r matches Ok(rep) ==> rep.wire() == buf@.subrange(1, HID_BUF_SIZE as int),
{
    if read < HID_BUF_SIZE {
        return Err(TransportError::ShortRead { expected: HID_BUF_SIZE, got: read });
    }
    let mut payload = [0u8; 90];
    let mut i: usize = 0;
    while i < REPORT_SIZE
        invariant
            i <= REPORT_SIZE,
            payload@.len() == REPORT_SIZE,
            buf@.len() == HID_BUF_SIZE,
            forall|k: int| 0 <= k < i ==> payload@[k] == buf@[1 + k],
        decreases REPORT_SIZE - i,
    {
        payload[i] = buf[1 + i];
        i = i + 1;
    }
    assert(payload@ =~= buf@.subrange(1, HID_BUF_SIZE as int));
    Ok(RazerReport::from_bytes(&payload))
}

/// What to do after a response to a pending command.
#[derive(Debug, PartialEq, Eq)]
pub enum PayloadAction {
    /// The device is busy: wait briefly, send the request again, read again.
    RetryAfterBusy,
    /// The command is over, with this outcome.
    Finish(Result<RazerReport, TransportError>),
}

/// The action that a response calls for when it answers attempt `attempt`
/// (0-based) of command `command_class`/`command_id`: busy is retried while
/// attempts remain, success must echo the command's class and id, and any
/// other status is a failure.
pub open spec fn payload_action(
    attempt: u32,
    command_class: u8,
    command_id: u8,
    response: RazerReport,
) -> PayloadAction {
    if response.status == status::BUSY {
        if attempt < MAX_BUSY_RETRIES {
            PayloadAction::RetryAfterBusy
        } else {
            PayloadAction::Finish(Err(TransportError::BusyExhausted(MAX_BUSY_RETRIES)))
        }
    } else if response.status == status::SUCCESSFUL {
        if response.command_class != command_class || response.command_id != command_id {
            PayloadAction::Finish(
                Err(
                    TransportError::EchoMismatch {
                        sent_class: command_class,
                        sent_id: command_id,
                        got_class: response.command_class,
                        got_id: response.command_id,
                    },
                ),
            )
        } else {
            PayloadAction::Finish(Ok(response))
        }
    } else {
        PayloadAction::Finish(
            Err(
                TransportError::CommandFailed {
                    status: response.status,
                    class: command_class,
                    id: command_id,
                },
            ),
        )
    }
}

/// Decide what a response to attempt `attempt` of a command means: retry on
/// busy (at most `MAX_BUSY_RETRIES` retries), accept a successful response
/// that echoes the command's class and id, fail otherwise.
pub fn payload_step(attempt: u32, command_class: u8, command_id: u8, response: RazerReport) -> (a:
    PayloadAction)
    requires
        attempt <= MAX_BUSY_RETRIES,
    ensures
        a == payload_action(attempt, command_class, command_id, response),
{
    if response.status == status::BUSY {
        if attempt < MAX_BUSY_RETRIES {
            PayloadAction::RetryAfterBusy
        } else {
            PayloadAction::Finish(Err(TransportError::BusyExhausted(MAX_BUSY_RETRIES)))
        }
    } else if response.status == status::SUCCESSFUL {
        if response.command_class != command_class || response.command_id != command_id {
            PayloadAction::Finish(
                Err(
                    TransportError::EchoMismatch {
                        sent_class: command_class,
                        sent_id: command_id,
                        got_class: response.command_class,
                        got_id: response.command_id,
                    },
                ),
            )
        } else {
            PayloadAction::Finish(Ok(response))
        }
    } else {
        let failed = response.status;
        PayloadAction::Finish(
            Err(TransportError::CommandFailed { status: failed, class: command_class, id: command_id }),
        )
    }
}

/// A command is accepted only with a successful status echoing its class
/// and id, and the last allowed attempt never asks for another retry: a run
/// of `MAX_BUSY_RETRIES + 1` busy responses ends in `BusyExhausted`.
pub proof fn lemma_payload_action(
    attempt: u32,
    command_class: u8,
    command_id: u8,
    response: RazerReport,
)
    requires
        attempt <= MAX_BUSY_RETRIES,
    ensures
        payload_action(attempt, command_class, command_id, response) matches PayloadAction::Finish(
            Ok(r),
        ) ==> r == response && r.status == status::SUCCESSFUL && r.command_class == command_class
            && r.command_id == command_id,
        payload_action(attempt, command_class, command_id, response)
            == PayloadAction::RetryAfterBusy ==> response.status == status::BUSY && attempt
            < MAX_BUSY_RETRIES,
        attempt == MAX_BUSY_RETRIES && response.status == status::BUSY ==> payload_action(
            attempt,
            command_class,
            command_id,
            response,
        ) == PayloadAction::Finish(Err(TransportError::BusyExhausted(MAX_BUSY_RETRIES))),
{
}

/// What each response means, on every attempt: a successful response
/// (status 0x02) that echoes the command's class and id is the command's
/// result; a successful one that echoes another command is an echo
/// mismatch; a busy one (status 0x01) asks for a retry while retries are
/// left; any other status is the command's failure with that status.
pub proof fn lemma_payload_outcomes(
    attempt: u32,
    command_class: u8,
    command_id: u8,
    response: RazerReport,
)
    requires
        attempt <= MAX_BUSY_RETRIES,
    ensures
        response.status == 0x02 && response.command_class == command_class && response.command_id
            == command_id ==> payload_action(attempt, command_class, command_id, response)
            == PayloadAction::Finish(Ok(response)),
        response.status == 0x02 && (response.command_class != command_class || response.command_id
            != command_id) ==> payload_action(attempt, command_class, command_id, response)
            == PayloadAction::Finish(
            Err(
                TransportError::EchoMismatch {
                    sent_class: command_class,
                    sent_id: command_id,
                    got_class: response.command_class,
                    got_id: response.command_id,
                },
            ),
        ),
        response.status == 0x01 && attempt < MAX_BUSY_RETRIES ==> payload_action(
            attempt,
            command_class,
            command_id,
            response,
        ) == PayloadAction::RetryAfterBusy,
        response.status != 0x01 && response.status != 0x02 ==> payload_action(
            attempt,
            command_class,
            command_id,
            response,
        ) == PayloadAction::Finish(
            Err(
                TransportError::CommandFailed {
                    status: response.status,
                    class: command_class,
                    id: command_id,
                },
            ),
        ),
{
}

/// What the interface chooser reads of one enumerated HID interface.
#[derive(Debug, Clone, Copy, PartialEq, Eq, Structural)]
pub struct HidInfo {
    pub vendor_id: u16,
    pub product_id: u16,
    pub usage_page: u16,
}

/// Whether an interface belongs to the Razer device with product id `pid`.
pub open spec fn is_candidate(info: HidInfo, pid: u16) -> bool {
    info.vendor_id == RAZER_VID && info.product_id == pid
}

/// Whether a usage page is vendor-defined (0xFF00..=0xFFFF).
pub open spec fn is_vendor_page(usage_page: u16) -> bool {
    0xFF00 <= usage_page
}

/// Indices, in enumeration order, of the interfaces of device `pid` whose
/// usage page is vendor-defined (`vendor`) or not (`!vendor`).
pub open spec fn candidates(infos: Seq<HidInfo>, pid: u16, vendor: bool) -> Seq<usize>
    decreases infos.len(),
{
    if infos.len() == 0 {
        Seq::empty()
    } else {
        let prev = candidates(infos.drop_last(), pid, vendor);
        let last = infos.last();
        if is_candidate(last, pid) && is_vendor_page(last.usage_page) == vendor {
            prev.push((infos.len() - 1) as usize)
        } else {
            prev
        }
    }
}

/// The interfaces of device `pid` on a vendor-defined usage page
/// (`vendor`), or on another page (`!vendor`), are listed each once, in
/// enumeration order: every listed index is an interface with Razer's
/// vendor id 0x1532, product id `pid` and a usage page at or above 0xFF00
/// exactly when `vendor`, the indices increase, and no such interface is
/// left out.
pub proof fn lemma_candidates(infos: Seq<HidInfo>, pid: u16, vendor: bool)
    requires
        infos.len() <= usize::MAX,
    ensures
        forall|j: int|
            0 <= j < candidates(infos, pid, vendor).len() ==> {
                let k = #[trigger] candidates(infos, pid, vendor)[j] as int;
                &&& 0 <= k < infos.len()
                &&& infos[k].vendor_id == 0x1532
                &&& infos[k].product_id == pid
                &&& (infos[k].usage_page >= 0xFF00) == vendor
            },
        forall|j1: int, j2: int|
            0 <= j1 < j2 < candidates(infos, pid, vendor).len() ==> #[trigger] candidates(
                infos,
                pid,
                vendor,
            )[j1] < #[trigger] candidates(infos, pid, vendor)[j2],
        forall|k: int|
            0 <= k < infos.len() && #[trigger] infos[k].vendor_id == 0x1532 && infos[k].product_id == pid
                && (infos[k].usage_page >= 0xFF00) == vendor ==> candidates(infos, pid, vendor).contains(
                k as usize,
            ),
    decreases infos.len(),
{
    if infos.len() > 0 {
        let prev = infos.drop_last();
        lemma_candidates(prev, pid, vendor);
        let c = candidates(infos, pid, vendor);
        let pc = candidates(prev, pid, vendor);
        let n = infos.len() - 1;
        let last = infos.last();
        let added = is_candidate(last, pid) && is_vendor_page(last.usage_page) == vendor;
        if added {
            assert(c == pc.push(n as usize));
        } else {
            assert(c == pc);
        }
        assert forall|j: int| 0 <= j < pc.len() implies #[trigger] pc[j] < n && c[j] == pc[j] && ({
            let k = pc[j] as int;
            infos[k] == prev[k]
        }) by {
            assert(0 <= pc[j] < prev.len());
        }
        assert forall|j: int|
            0 <= j < c.len() implies ({
                let k = #[trigger] c[j] as int;
                &&& 0 <= k < infos.len()
                &&& infos[k].vendor_id == 0x1532
                &&& infos[k].product_id == pid
                &&& (infos[k].usage_page >= 0xFF00) == vendor
            }) by {
            if j < pc.len() {
                assert(c[j] == pc[j]);
            } else {
                assert(c[j] == n as usize);
            }
        }
        assert forall|j1: int, j2: int| 0 <= j1 < j2 < c.len() implies #[trigger] c[j1] < #[trigger] c[j2] by {
            if j2 < pc.len() {
                assert(c[j1] == pc[j1] && c[j2] == pc[j2]);
            } else {
                assert(c[j1] == pc[j1]);
                assert(pc[j1] < n);
                assert(c[j2] == n as usize);
            }
        }
        assert forall|k: int|
            0 <= k < infos.len() && #[trigger] infos[k].vendor_id == 0x1532 && infos[k].product_id
                == pid && (infos[k].usage_page >= 0xFF00) == vendor implies c.contains(k as usize) by {
            if k < n {
                assert(prev[k] == infos[k]);
                assert(pc.contains(k as usize));
                let w = choose|w: int| 0 <= w < pc.len() && pc[w] == k as usize;
                assert(c[w] == pc[w]);
            } else {
                assert(c[c.len() - 1] == k as usize);
            }
        }
    }
}

/// The order in which to try the interfaces of device `pid`: the
/// vendor-defined collections first, then the others, each in enumeration
/// order; `DeviceNotFound` when the device has no interface at all.
pub fn candidate_order(infos: &[HidInfo], pid: u16) -> (r: Result<Vec<usize>, TransportError>)
    ensures
        r matches Ok(order) ==> order@ == candidates(infos@, pid, true) + candidates(
            infos@,
            pid,
            false,
        ) && order@.len() > 0,
        r matches Err(e) ==> e == (TransportError::DeviceNotFound { pid }) && candidates(
            infos@,
            pid,
            true,
        ).len() == 0 && candidates(infos@, pid, false).len() == 0,
        (r is Err) <==> (forall|i: int| 0 <= i < infos@.len() ==> !is_candidate(infos@[i], pid)),
{
    let mut vendor_paths: Vec<usize> = Vec::new();
    let mut other_paths: Vec<usize> = Vec::new();
    let n = infos.len();
    let mut i: usize = 0;
    while i < n
        invariant
            n == infos@.len(),
            i <= n,
            vendor_paths@ == candidates(infos@.take(i as int), pid, true),
            other_paths@ == candidates(infos@.take(i as int), pid, false),
            (vendor_paths@.len() == 0 && other_paths@.len() == 0) <==> (forall|k: int|
                0 <= k < i ==> !is_candidate(infos@[k], pid)),
        decreases n - i,
    {
        assert(infos@.take(i + 1).drop_last() =~= infos@.take(i as int));
        let info = infos[i];
        if info.vendor_id == RAZER_VID && info.product_id == pid {
            if 0xFF00 <= info.usage_page {
                vendor_paths.push(i);
            } else {
                other_paths.push(i);
            }
        }
        i = i + 1;
    }
    assert(infos@.take(n as int) =~= infos@);
    if vendor_paths.len() == 0 && other_paths.len() == 0 {
        return Err(TransportError::DeviceNotFound { pid });
    }
    let mut order = vendor_paths;
    let mut j: usize = 0;
    let ghost first = order@;
    while j < other_paths.len()
        invariant
            j <= other_paths@.len(),
            order@ == first + other_paths@.take(j as int),
        decreases other_paths@.len() - j,
    {
        assert(other_paths@.take(j + 1) =~= other_paths@.take(j as int).push(other_paths@[j as int]));
        order.push(other_paths[j]);
        j = j + 1;
    }
    assert(other_paths@.take(other_paths@.len() as int) =~= other_paths@);
    Ok(order)
}

} // verus!
