//! DPI commands (class `0x04`): direct X/Y DPI and up-to-5-stage DPI presets.
use vstd::prelude::*;

use crate::commands::{be_value, hi_byte, join_be, lo_byte, split_be};
use crate::report::RazerReport;

verus! {

/// DPI command class.
pub const CLASS: u8 = 0x04;

/// Set direct X/Y DPI.
pub const CMD_SET_XY: u8 = 0x05;

/// Get direct X/Y DPI.
pub const CMD_GET_XY: u8 = 0x85;

/// Set the DPI stage table.
pub const CMD_SET_STAGES: u8 = 0x06;

/// Get the DPI stage table.
pub const CMD_GET_STAGES: u8 = 0x86;

/// Data size (bytes) of the DPI-stages payload: a 3-byte header and up to 5
/// stages of 7 bytes each.
pub const STAGES_DATA_SIZE: usize = 0x26;

/// Maximum number of DPI stages a device can hold.
pub const MAX_STAGES: usize = 5;

/// Lowest DPI that any DPI command sends.
pub const DPI_MIN: u16 = 100;

/// Highest DPI that any DPI command sends.
pub const DPI_MAX: u16 = 45000;

/// Errors building a DPI-stages command.
#[derive(Debug, PartialEq, Eq, Structural)]
pub enum DpiError {
    /// More stages than a device holds.
    TooManyStages { count: usize, max: usize },
}

/// `v` clamped to `DPI_MIN..=DPI_MAX`.
pub open spec fn clamped_dpi(v: u16) -> u16 {
    if v < DPI_MIN {
        DPI_MIN
    } else if v > DPI_MAX {
        DPI_MAX
    } else {
        v
    }
}

fn clamp_dpi(v: u16) -> (r: u16)
    ensures
        r == clamped_dpi(v),
{
    if v < DPI_MIN {
        DPI_MIN
    } else if v > DPI_MAX {
        DPI_MAX
    } else {
        v
    }
}

/// Argument bytes of a set-DPI request: varstore, X and Y (clamped,
/// big-endian), two zero bytes.
pub open spec fn set_xy_args(varstore: u8, dpi_x: u16, dpi_y: u16) -> Seq<u8> {
    let x = clamped_dpi(dpi_x);
    let y = clamped_dpi(dpi_y);
    seq![varstore, hi_byte(x), lo_byte(x), hi_byte(y), lo_byte(y), 0u8, 0u8]
}

fn args_set_xy(varstore: u8, dpi_x: u16, dpi_y: u16) -> (a: [u8; 7])
    ensures
        a@ == set_xy_args(varstore, dpi_x, dpi_y),
{
    let (xh, xl) = split_be(clamp_dpi(dpi_x));
    let (yh, yl) = split_be(clamp_dpi(dpi_y));
    let a = [varstore, xh, xl, yh, yl, 0, 0];
    assert(a@ =~= set_xy_args(varstore, dpi_x, dpi_y));
    a
}

/// Build a set-DPI request. `dpi_x`/`dpi_y` are clamped to `100..=45000`.
pub fn build_set_dpi_xy(transaction_id: u8, varstore: u8, dpi_x: u16, dpi_y: u16) -> (r: RazerReport)
    ensures
        r.is_request(transaction_id, CLASS, CMD_SET_XY, set_xy_args(varstore, dpi_x, dpi_y)),
{
    RazerReport::new(transaction_id, CLASS, CMD_SET_XY, &args_set_xy(varstore, dpi_x, dpi_y))
}

/// Argument bytes of a get-DPI request.
pub open spec fn get_xy_args(varstore: u8) -> Seq<u8> {
    seq![varstore, 0u8, 0u8, 0u8, 0u8, 0u8, 0u8]
}

fn args_get_xy(varstore: u8) -> (a: [u8; 7])
    ensures
        a@ == get_xy_args(varstore),
{
    let a = [varstore, 0, 0, 0, 0, 0, 0];
    assert(a@ =~= get_xy_args(varstore));
    a
}

/// Build a get-DPI request.
pub fn build_get_dpi_xy(transaction_id: u8, varstore: u8) -> (r: RazerReport)
    ensures
        r.is_request(transaction_id, CLASS, CMD_GET_XY, get_xy_args(varstore)),
{
    RazerReport::new(transaction_id, CLASS, CMD_GET_XY, &args_get_xy(varstore))
}

/// The `(dpi_x, dpi_y)` pair that a get-DPI response carries: X in argument
/// bytes 1..=2, Y in bytes 3..=4, both big-endian.
pub open spec fn parsed_xy(args: Seq<u8>) -> (u16, u16) {
    (be_value(args[1], args[2]), be_value(args[3], args[4]))
}

/// Parse `(dpi_x, dpi_y)` out of a get-DPI response.
pub fn parse_dpi_xy(report: &RazerReport) -> (r: (u16, u16))
    ensures
        r == parsed_xy(report.arguments@),
{
    let x = join_be(report.arguments[1], report.arguments[2]);
    let y = join_be(report.arguments[3], report.arguments[4]);
    (x, y)
}

/// A set-DPI request read back as a get-DPI response yields the clamped
/// values that were sent.
pub proof fn lemma_dpi_xy_round_trip(
    r: RazerReport,
    transaction_id: u8,
    varstore: u8,
    dpi_x: u16,
    dpi_y: u16,
)
    requires
        r.is_request(transaction_id, CLASS, CMD_SET_XY, set_xy_args(varstore, dpi_x, dpi_y)),
    ensures
        parsed_xy(r.arguments@) == (clamped_dpi(dpi_x), clamped_dpi(dpi_y)),
{
    let args = set_xy_args(varstore, dpi_x, dpi_y);
    assert(r.arguments@[1] == args[1] && r.arguments@[2] == args[2]);
    assert(r.arguments@[3] == args[3] && r.arguments@[4] == args[4]);
}

/// One DPI stage: index (0-based), X, Y.
#[derive(Debug, Clone, Copy, PartialEq, Eq, Structural)]
pub struct DpiStage {
    pub index: u8,
    pub dpi_x: u16,
    pub dpi_y: u16,
}

/// A stage with both axes clamped to `DPI_MIN..=DPI_MAX`.
pub open spec fn clamped_stage(s: DpiStage) -> DpiStage {
    DpiStage { index: s.index, dpi_x: clamped_dpi(s.dpi_x), dpi_y: clamped_dpi(s.dpi_y) }
}

/// The 7 bytes that encode one stage: index, X (big-endian), Y
/// (big-endian), two zero bytes; X and Y are clamped.
pub open spec fn stage_bytes(s: DpiStage) -> Seq<u8> {
    let x = clamped_dpi(s.dpi_x);
    let y = clamped_dpi(s.dpi_y);
    seq![s.index, hi_byte(x), lo_byte(x), hi_byte(y), lo_byte(y), 0u8, 0u8]
}

/// Byte `i` of a set-DPI-stages payload: varstore, active stage and stage
/// count, then the stages' bytes one after another, then zeros.
pub open spec fn set_stages_byte(varstore: u8, active_stage: u8, stages: Seq<DpiStage>, i: int) -> u8 {
    if i == 0 {
        varstore
    } else if i == 1 {
        active_stage
    } else if i == 2 {
        stages.len() as u8
    } else if i < 3 + 7 * stages.len() {
        stage_bytes(stages[(i - 3) / 7])[(i - 3) % 7]
    } else {
        0u8
    }
}

/// Argument bytes of a set-DPI-stages request.
pub open spec fn set_stages_args(varstore: u8, active_stage: u8, stages: Seq<DpiStage>) -> Seq<u8> {
    Seq::new(
        STAGES_DATA_SIZE as nat,
        |i: int| set_stages_byte(varstore, active_stage, stages, i),
    )
}

proof fn lemma_stage_offset(k: int, j: int)
    requires
        0 <= k,
        0 <= j < 7,
    ensures
        (3 + 7 * k + j - 3) / 7 == k,
        (3 + 7 * k + j - 3) % 7 == j,
{
    assert((7 * k + j) / 7 == k && (7 * k + j) % 7 == j) by (nonlinear_arith)
        requires
            0 <= k,
            0 <= j < 7,
    ;
}

fn args_set_stages(varstore: u8, active_stage: u8, stages: &[DpiStage]) -> (a: [u8; STAGES_DATA_SIZE])
    requires
        stages@.len() <= MAX_STAGES,
    ensures
        a@ == set_stages_args(varstore, active_stage, stages@),
{
    let mut args = [0u8; 38];
    args[0] = varstore;
    args[1] = active_stage;
    args[2] = stages.len() as u8;
    let n = stages.len();
    let mut offset: usize = 3;
    let mut k: usize = 0;
    while k < n
        invariant
            n == stages@.len(),
            n <= MAX_STAGES,
            k <= n,
            offset == 3 + 7 * k,
            args@.len() == STAGES_DATA_SIZE,
            forall|i: int|
                0 <= i < offset ==> args@[i] == set_stages_byte(varstore, active_stage, stages@, i),
            forall|i: int| offset <= i < STAGES_DATA_SIZE ==> args@[i] == 0u8,
        decreases n - k,
    {
        let stage = stages[k];
        let (xh, xl) = split_be(clamp_dpi(stage.dpi_x));
        let (yh, yl) = split_be(clamp_dpi(stage.dpi_y));
        args[offset] = stage.index;
        args[offset + 1] = xh;
        args[offset + 2] = xl;
        args[offset + 3] = yh;
        args[offset + 4] = yl;
        args[offset + 5] = 0;
        args[offset + 6] = 0;
        proof {
            assert forall|i: int|
                0 <= i < offset + 7 implies args@[i] == set_stages_byte(
                varstore,
                active_stage,
                stages@,
                i,
            ) by {
                if i >= offset {
                    lemma_stage_offset(k as int, i - offset);
                }
            }
        }
        offset = offset + 7;
        k = k + 1;
    }
    assert(args@ =~= set_stages_args(varstore, active_stage, stages@));
    args
}

/// Build a set-DPI-stages request. `stages` must hold at most `MAX_STAGES`
/// entries; each stage's X and Y are clamped to `100..=45000`.
pub fn build_set_dpi_stages(
    transaction_id: u8,
    varstore: u8,
    active_stage: u8,
    stages: &[DpiStage],
) -> (r: Result<RazerReport, DpiError>)
    ensures
        stages@.len() > MAX_STAGES <==> r is Err,
        r matches Err(e) ==> e == (DpiError::TooManyStages {
            count: stages@.len() as usize,
            max: MAX_STAGES,
        }),
        r matches Ok(rep) ==> rep.is_request(
            transaction_id,
            CLASS,
            CMD_SET_STAGES,
            set_stages_args(varstore, active_stage, stages@),
        ),
{
    if stages.len() > MAX_STAGES {
        return Err(DpiError::TooManyStages { count: stages.len(), max: MAX_STAGES });
    }
    Ok(
        RazerReport::new(
            transaction_id,
            CLASS,
            CMD_SET_STAGES,
            &args_set_stages(varstore, active_stage, stages),
        ),
    )
}

/// Argument bytes of a get-DPI-stages request: varstore, then zeros.
pub open spec fn get_stages_args(varstore: u8) -> Seq<u8> {
    Seq::new(STAGES_DATA_SIZE as nat, |i: int| if i == 0 { varstore } else { 0u8 })
}

fn args_get_stages(varstore: u8) -> (a: [u8; STAGES_DATA_SIZE])
    ensures
        a@ == get_stages_args(varstore),
{
    let mut args = [0u8; 38];
    args[0] = varstore;
    assert(args@ =~= get_stages_args(varstore));
    args
}

/// Build a get-DPI-stages request.
pub fn build_get_dpi_stages(transaction_id: u8, varstore: u8) -> (r: RazerReport)
    ensures
        r.is_request(transaction_id, CLASS, CMD_GET_STAGES, get_stages_args(varstore)),
{
    RazerReport::new(transaction_id, CLASS, CMD_GET_STAGES, &args_get_stages(varstore))
}

/// Stage `k` as a get-DPI-stages response carries it, at argument offset
/// `3 + 7 * k`.
pub open spec fn stage_at(args: Seq<u8>, k: int) -> DpiStage {
    let o = 3 + 7 * k;
    DpiStage {
        index: args[o],
        dpi_x: be_value(args[o + 1], args[o + 2]),
        dpi_y: be_value(args[o + 3], args[o + 4]),
    }
}

/// The number of stages that a get-DPI-stages response announces, capped at
/// `MAX_STAGES`.
pub open spec fn stage_count(args: Seq<u8>) -> int {
    if args[2] > MAX_STAGES {
        MAX_STAGES as int
    } else {
        args[2] as int
    }
}

/// The stages that a get-DPI-stages response carries.
pub open spec fn parsed_stages(args: Seq<u8>) -> Seq<DpiStage> {
    Seq::new(stage_count(args) as nat, |k: int| stage_at(args, k))
}

/// Parse `(active_stage, stages)` out of a get-DPI-stages response.
pub fn parse_dpi_stages(report: &RazerReport) -> (r: (u8, Vec<DpiStage>))
    ensures
        r.0 == report.arguments@[1],
        r.1@ == parsed_stages(report.arguments@),
{
    let active_stage = report.arguments[1];
    let announced = report.arguments[2] as usize;
    let count = if announced > MAX_STAGES { MAX_STAGES } else { announced };
    let mut stages: Vec<DpiStage> = Vec::with_capacity(count);
    let mut offset: usize = 3;
    let mut k: usize = 0;
    while k < count
        invariant
            count == stage_count(report.arguments@),
            count <= MAX_STAGES,
            k <= count,
            offset == 3 + 7 * k,
            stages@ =~= Seq::new(k as nat, |j: int| stage_at(report.arguments@, j)),
        decreases count - k,
    {
        let index = report.arguments[offset];
        let x = join_be(report.arguments[offset + 1], report.arguments[offset + 2]);
        let y = join_be(report.arguments[offset + 3], report.arguments[offset + 4]);
        stages.push(DpiStage { index, dpi_x: x, dpi_y: y });
        offset = offset + 7;
        k = k + 1;
    }
    (active_stage, stages)
}

/// A set-DPI-stages request (at most `MAX_STAGES` stages) read back as a
/// get-DPI-stages response yields the active stage and the stages that were
/// sent, each clamped.
pub proof fn lemma_dpi_stages_round_trip(
    r: RazerReport,
    transaction_id: u8,
    varstore: u8,
    active_stage: u8,
    stages: Seq<DpiStage>,
)
    requires
        stages.len() <= MAX_STAGES,
        r.is_request(
            transaction_id,
            CLASS,
            CMD_SET_STAGES,
            set_stages_args(varstore, active_stage, stages),
        ),
    ensures
        r.arguments@[1] == active_stage,
        parsed_stages(r.arguments@) == stages.map_values(|s: DpiStage| clamped_stage(s)),
{
    let args = r.arguments@;
    let sent = set_stages_args(varstore, active_stage, stages);
    assert(args[1] == sent[1]);
    assert(args[2] == sent[2]);
    assert forall|k: int| 0 <= k < stages.len() implies stage_at(args, k) == clamped_stage(
        stages[k],
    ) by {
        let o = 3 + 7 * k;
        lemma_stage_offset(k, 0);
        lemma_stage_offset(k, 1);
        lemma_stage_offset(k, 2);
        lemma_stage_offset(k, 3);
        lemma_stage_offset(k, 4);
        assert(args[o] == sent[o]);
        assert(args[o + 1] == sent[o + 1]);
        assert(args[o + 2] == sent[o + 2]);
        assert(args[o + 3] == sent[o + 3]);
        assert(args[o + 4] == sent[o + 4]);
    }
    assert(parsed_stages(args) =~= stages.map_values(|s: DpiStage| clamped_stage(s)));
}

} // verus!
