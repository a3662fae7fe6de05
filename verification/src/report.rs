//! The 90-byte report codec: field layout, wire packing and unpacking, and
//! the XOR checksum over bytes 2..=87.
use vstd::prelude::*;

pub mod status;

verus! {

broadcast use vstd::array::group_array_axioms;

/// Total wire size of a report.
pub const REPORT_SIZE: usize = 90;

/// Maximum payload length that fits in the arguments field.
pub const MAX_ARGS: usize = 80;

/// XOR of every byte of `s`, folded from the left.
pub open spec fn xor_all(s: Seq<u8>) -> u8
    decreases s.len(),
{
    if s.len() == 0 {
        0u8
    } else {
        xor_all(s.drop_last()) ^ s.last()
    }
}

/// `args` followed by zero bytes up to `MAX_ARGS` bytes in all.
pub open spec fn zero_padded(args: Seq<u8>) -> Seq<u8> {
    args + Seq::new((MAX_ARGS - args.len()) as nat, |i: int| 0u8)
}

/// An in-memory report. On the wire the fields are laid out in declaration
/// order: status @0, transaction id @1, remaining packets @2..=3 (big-endian),
/// protocol type @4, data size @5, command class @6, command id @7,
/// arguments @8..=87, crc @88, reserved @89.
#[derive(Debug, Clone, PartialEq, Eq)]
pub struct RazerReport {
    /// Status byte (@0).
    pub status: u8,
    /// Per-device transaction id (@1).
    pub transaction_id: u8,
    /// Remaining packets (@2..=3), kept as the raw big-endian bytes.
    pub remaining_packets: [u8; 2],
    /// Protocol type (@4), always 0x00.
    pub protocol_type: u8,
    /// Payload length (@5).
    pub data_size: u8,
    /// Command class (@6).
    pub command_class: u8,
    /// Command id (@7); bit 7 selects direction (0 = set, 1 = get).
    pub command_id: u8,
    /// Argument payload (@8..=87).
    pub arguments: [u8; MAX_ARGS],
    /// Checksum (@88): XOR of bytes 2..=87.
    pub crc: u8,
    /// Reserved (@89), always 0x00.
    pub reserved: u8,
}

impl RazerReport {
    /// The bytes that the checksum covers: wire bytes 2..=87.
    pub open spec fn crc_region(self) -> Seq<u8> {
        seq![
            self.remaining_packets[0],
            self.remaining_packets[1],
            self.protocol_type,
            self.data_size,
            self.command_class,
            self.command_id,
        ] + self.arguments@
    }

    /// The 90-byte wire form of the report.
    pub open spec fn wire(self) -> Seq<u8> {
        seq![self.status, self.transaction_id] + self.crc_region() + seq![self.crc, self.reserved]
    }

    /// The checksum that the report's own fields call for.
    pub open spec fn spec_crc(self) -> u8 {
        xor_all(self.crc_region())
    }

    /// A fresh request: send-time defaults, the given header bytes and
    /// argument block, and a checksum that matches.
    pub open spec fn is_built(
        self,
        transaction_id: u8,
        command_class: u8,
        command_id: u8,
        data_size: u8,
        arguments: Seq<u8>,
    ) -> bool {
        &&& self.status == status::NEW_COMMAND
        &&& self.transaction_id == transaction_id
        &&& self.remaining_packets@ == seq![0u8, 0u8]
        &&& self.protocol_type == 0
        &&& self.data_size == data_size
        &&& self.command_class == command_class
        &&& self.command_id == command_id
        &&& self.arguments@ == arguments
        &&& self.crc == self.spec_crc()
        &&& self.reserved == 0
    }

    /// What `RazerReport::new(transaction_id, command_class, command_id, args)`
    /// builds: `data_size` is the payload length and the payload is
    /// zero-padded to the full argument block.
    pub open spec fn is_request(
        self,
        transaction_id: u8,
        command_class: u8,
        command_id: u8,
        args: Seq<u8>,
    ) -> bool {
        &&& args.len() <= MAX_ARGS
        &&& self.is_built(
            transaction_id,
            command_class,
            command_id,
            args.len() as u8,
            zero_padded(args),
        )
    }

    /// Build a fresh request report and compute its checksum.
    ///
    /// `data_size` is set to `args.len()` and the first `args.len()` bytes of
    /// the argument block hold `args`; the rest are zero.
    pub fn new(transaction_id: u8, command_class: u8, command_id: u8, args: &[u8]) -> (r: Self)
        requires
            args@.len() <= MAX_ARGS,
        ensures
            r.is_request(transaction_id, command_class, command_id, args@),
    {
        let mut arguments = [0u8; 80];
        let n = args.len();
        let mut i: usize = 0;
        while i < n
            invariant
                n == args@.len(),
                n <= MAX_ARGS,
                i <= n,
                arguments@.len() == MAX_ARGS,
                forall|k: int| 0 <= k < i ==> arguments@[k] == args@[k],
                forall|k: int| i <= k < MAX_ARGS ==> arguments@[k] == 0u8,
            decreases n - i,
        {
            arguments[i] = args[i];
            i = i + 1;
        }
        assert(arguments@ =~= zero_padded(args@));
        let mut report = RazerReport {
            status: status::NEW_COMMAND,
            transaction_id,
            remaining_packets: [0u8, 0u8],
            protocol_type: 0x00,
            data_size: n as u8,
            command_class,
            command_id,
            arguments,
            crc: 0,
            reserved: 0,
        };
        assert(report.remaining_packets@ =~= seq![0u8, 0u8]);
        let crc = report.compute_crc();
        report.crc = crc;
        report
    }

    /// Compute the checksum: XOR of bytes 2..=87 of the wire form.
    pub fn compute_crc(&self) -> (c: u8)
        ensures
            c == self.spec_crc(),
    {
        let bytes = self.to_bytes();
        let mut crc: u8 = 0;
        let mut i: usize = 2;
        while i < 88
            invariant
                2 <= i <= 88,
                bytes@ == self.wire(),
                bytes@.len() == REPORT_SIZE,
                crc == xor_all(bytes@.subrange(2, i as int)),
            decreases 88 - i,
        {
            assert(bytes@.subrange(2, i + 1).drop_last() =~= bytes@.subrange(2, i as int));
            crc = crc ^ bytes[i];
            i = i + 1;
        }
        assert(bytes@.subrange(2, 88) =~= self.crc_region());
        crc
    }

    /// Serialize to the 90-byte wire representation.
    pub fn to_bytes(&self) -> (buf: [u8; REPORT_SIZE])
        ensures
            buf@ == self.wire(),
    {
        let mut buf = [0u8; 90];
        buf[0] = self.status;
        buf[1] = self.transaction_id;
        buf[2] = self.remaining_packets[0];
        buf[3] = self.remaining_packets[1];
        buf[4] = self.protocol_type;
        buf[5] = self.data_size;
        buf[6] = self.command_class;
        buf[7] = self.command_id;
        let mut i: usize = 0;
        while i < MAX_ARGS
            invariant
                i <= MAX_ARGS,
                buf@.len() == REPORT_SIZE,
                forall|k: int| 0 <= k < 8 ==> buf@[k] == self.wire()[k],
                forall|k: int| 0 <= k < i ==> buf@[8 + k] == self.arguments@[k],
            decreases MAX_ARGS - i,
        {
            buf[8 + i] = self.arguments[i];
            i = i + 1;
        }
        buf[88] = self.crc;
        buf[89] = self.reserved;
        assert(buf@ =~= self.wire());
        buf
    }

    /// Parse from the 90-byte wire representation.
    pub fn from_bytes(buf: &[u8; REPORT_SIZE]) -> (r: Self)
        ensures
            r.wire() == buf@,
    {
        let mut arguments = [0u8; 80];
        let mut i: usize = 0;
        while i < MAX_ARGS
            invariant
                i <= MAX_ARGS,
                arguments@.len() == MAX_ARGS,
                buf@.len() == REPORT_SIZE,
                forall|k: int| 0 <= k < i ==> arguments@[k] == buf@[8 + k],
            decreases MAX_ARGS - i,
        {
            arguments[i] = buf[8 + i];
            i = i + 1;
        }
        let r = RazerReport {
            status: buf[0],
            transaction_id: buf[1],
            remaining_packets: [buf[2], buf[3]],
            protocol_type: buf[4],
            data_size: buf[5],
            command_class: buf[6],
            command_id: buf[7],
            arguments,
            crc: buf[88],
            reserved: buf[89],
        };
        assert(r.wire() =~= buf@);
        r
    }

    /// True when the stored checksum matches a freshly computed one.
    pub fn crc_valid(&self) -> (b: bool)
        ensures
            b == (self.crc == self.spec_crc()),
    {
        self.crc == self.compute_crc()
    }
}

impl Default for RazerReport {
    /// An all-zero report with the fallback transaction id 0xFF.
    fn default() -> (r: Self)
        ensures
            r.status == status::NEW_COMMAND,
            r.transaction_id == 0xFF,
            r.remaining_packets@ == seq![0u8, 0u8],
            r.protocol_type == 0,
            r.data_size == 0,
            r.command_class == 0,
            r.command_id == 0,
            r.arguments@ == Seq::new(MAX_ARGS as nat, |i: int| 0u8),
            r.crc == 0,
            r.reserved == 0,
    {
        let r = RazerReport {
            status: status::NEW_COMMAND,
            transaction_id: 0xFF,
            remaining_packets: [0u8, 0u8],
            protocol_type: 0x00,
            data_size: 0,
            command_class: 0,
            command_id: 0,
            arguments: [0u8; 80],
            crc: 0,
            reserved: 0,
        };
        assert(r.remaining_packets@ =~= seq![0u8, 0u8]);
        assert(r.arguments@ =~= Seq::new(MAX_ARGS as nat, |i: int| 0u8));
        r
    }
}

/// The wire form of every report is exactly `REPORT_SIZE` bytes long.
pub proof fn lemma_wire_len(r: RazerReport)
    ensures
        r.wire().len() == REPORT_SIZE,
{
}

/// Packing then unpacking gives the report back: two reports with the same
/// wire form are the same report, so the report that `from_bytes` reads from
/// `to_bytes(r)` is `r` itself.
pub proof fn lemma_wire_injective(a: RazerReport, b: RazerReport)
    requires
        a.wire() == b.wire(),
    ensures
        a == b,
{
    assert(a.wire().subrange(2, 88) =~= a.crc_region());
    assert(b.wire().subrange(2, 88) =~= b.crc_region());
    assert(a.crc_region().subrange(6, 86) =~= a.arguments@);
    assert(b.crc_region().subrange(6, 86) =~= b.arguments@);
    assert(a.arguments@ == b.arguments@);
    assert(a.arguments =~= b.arguments);
    assert(a.crc_region()[0] == b.crc_region()[0]);
    assert(a.crc_region()[1] == b.crc_region()[1]);
    assert(a.remaining_packets =~= b.remaining_packets);
    assert(a.crc_region()[2] == b.crc_region()[2]);
    assert(a.crc_region()[3] == b.crc_region()[3]);
    assert(a.crc_region()[4] == b.crc_region()[4]);
    assert(a.crc_region()[5] == b.crc_region()[5]);
    assert(a.wire().subrange(0, 2) =~= seq![a.status, a.transaction_id]);
    assert(b.wire().subrange(0, 2) =~= seq![b.status, b.transaction_id]);
    assert(a.wire().subrange(0, 2)[0] == b.wire().subrange(0, 2)[0]);
    assert(a.wire().subrange(0, 2)[1] == b.wire().subrange(0, 2)[1]);
    assert(a.wire().subrange(88, 90) =~= seq![a.crc, a.reserved]);
    assert(b.wire().subrange(88, 90) =~= seq![b.crc, b.reserved]);
    assert(a.wire().subrange(88, 90)[0] == b.wire().subrange(88, 90)[0]);
    assert(a.wire().subrange(88, 90)[1] == b.wire().subrange(88, 90)[1]);
}

/// The checksum is the XOR of wire bytes 2..=87: status, transaction id and
/// the crc/reserved trailer do not enter it.
pub proof fn lemma_crc_covers_wire_bytes(r: RazerReport)
    ensures
        r.spec_crc() == xor_all(r.wire().subrange(2, 88)),
{
    assert(r.wire().subrange(2, 88) =~= r.crc_region());
}

} // verus!
