//! Firmware images: ingesting Intel HEX uploads, page padding, the MODBUS
//! checksum, and handing out the 16-byte blocks served over the air.

use vstd::prelude::*;

use crate::wire;

verus! {

/// Size of one over-the-air firmware block, in bytes.
pub const FIRMWARE_BLOCK_SIZE: i32 = 16;

/// The CRC-16/MODBUS checksum of a byte sequence. Its value is fixed by the
/// published polynomial 0x8005 (reflected, initial value 0xFFFF); this
/// library relies on the `crc16` crate to compute it.
pub uninterp spec fn crc16_modbus(data: Seq<u8>) -> u16;

/// A stored firmware image, keyed by `(firmware_type, firmware_version)`.
#[derive(Debug, Clone)]
pub struct Firmware {
    pub firmware_type: i32,
    pub firmware_version: i32,
    pub name: String,
    pub blocks: i32,
    pub crc: i32,
    pub data: Vec<u8>,
}

/// The mathematical shape of a firmware record.
pub struct FirmwareView {
    pub firmware_type: i32,
    pub firmware_version: i32,
    pub name: Seq<char>,
    pub blocks: i32,
    pub crc: i32,
    pub data: Seq<u8>,
}

impl View for Firmware {
    type V = FirmwareView;

    open spec fn view(&self) -> FirmwareView {
        FirmwareView {
            firmware_type: self.firmware_type,
            firmware_version: self.firmware_version,
            name: self.name@,
            blocks: self.blocks,
            crc: self.crc,
            data: self.data@,
        }
    }
}

/// The integrity invariant of a stored firmware: page-padded data, the block
/// count derived from it, the checksum of exactly that data, and a key that
/// fits the 16-bit fields of the wire protocol.
pub open spec fn firmware_wf(v: FirmwareView) -> bool {
    &&& v.data.len() % 128 == 0
    &&& v.blocks == v.data.len() / 16
    &&& 0 <= v.blocks <= 0xFFFF
    &&& v.crc == crc16_modbus(v.data)
    &&& 0 <= v.firmware_type <= 0xFFFF
    &&& 0 <= v.firmware_version <= 0xFFFF
}

/// A key naming one firmware image.
#[derive(Debug, Clone, Copy, PartialEq, Eq, Hash, Structural)]
pub struct FirmwareKey {
    pub _type: u16,
    pub version: u16,
}

/// The sixteen data bytes served for block `b`: the slice at offset
/// `16 * b`, or zero filler where the image has no such slice.
pub open spec fn block_of(data: Seq<u8>, b: int) -> Seq<u8> {
    if 0 <= b && 16 * b + 16 <= data.len() {
        data.subrange(16 * b, 16 * b + 16)
    } else {
        Seq::new(16, |i: int| 0u8)
    }
}

impl Firmware {
    /// Relies on the `crc16` crate's MODBUS parameters: the checksum is a
    /// function of the data bytes alone.
    #[verifier::external_body]
    pub fn compute_crc(data: &[u8]) -> (r: u16)
        ensures
            r == crc16_modbus(data@),
    {
        crc16::State::<crc16::MODBUS>::calculate(data)
    }

    /// Assemble a firmware record, computing its checksum from the data.
    pub fn new(
        firmware_type: i32,
        firmware_version: i32,
        blocks: i32,
        data: Vec<u8>,
        name: String,
    ) -> (r: Firmware)
        ensures
            r@ == (FirmwareView {
                firmware_type,
                firmware_version,
                name: name@,
                blocks,
                crc: crc16_modbus(data@) as i32,
                data: data@,
            }),
    {
        let crc = Firmware::compute_crc(data.as_slice()) as i32;
        Firmware { firmware_type, firmware_version, name, blocks, crc, data }
    }

    /// The sixteen data bytes served for one block request.
    pub fn get_block(&self, block: u16) -> (r: [u8; 16])
        ensures
            r@ == block_of(self.data@, block as int),
    {
        let start: usize = (block as usize) * 16;
        let mut out = [0u8; 16];
        if start + 16 <= self.data.len() {
            let mut i: usize = 0;
            while i < 16
                invariant
                    0 <= i <= 16,
                    start + 16 <= self.data@.len(),
                    start == 16 * (block as int),
                    out@.len() == 16,
                    forall|k: int| 0 <= k < i ==> out@[k] == self.data@[start + k],
                decreases 16 - i,
            {
                out[i] = self.data[start + i];
                i = i + 1;
            }
            proof {
                assert(out@ =~= block_of(self.data@, block as int));
            }
        } else {
            proof {
                assert(out@ =~= Seq::new(16, |i: int| 0u8));
            }
        }
        out
    }
}

/// Sum of a byte sequence, for record checksums.
pub open spec fn seq_u8_sum(b: Seq<u8>) -> int
    decreases b.len(),
{
    if b.len() == 0 {
        0
    } else {
        seq_u8_sum(b.drop_last()) + b.last()
    }
}

/// What one Intel HEX record line carries once its hex text is decoded:
/// a start code `:`, then byte count, 16-bit address, record type, the data
/// bytes, and a checksum that makes the byte sum a multiple of 256.
pub open spec fn ihex_record_bytes(s: Seq<char>) -> Option<Seq<u8>> {
    if s.len() < 1 || s[0] != ':' {
        None
    } else {
        match wire::hex_decode_spec(s.skip(1)) {
            None => None,
            Some(b) => if b.len() >= 5 && b.len() == b[0] + 5 && seq_u8_sum(b) % 256 == 0 {
                Some(b)
            } else {
                None
            },
        }
    }
}

/// The firmware bytes one record contributes: the payload of a Data record
/// (type 0), and nothing for any other record type.
pub open spec fn ihex_record_data(s: Seq<char>) -> Option<Seq<u8>> {
    match ihex_record_bytes(s) {
        None => None,
        Some(b) => if b[3] == 0 {
            Some(b.subrange(4, b.len() - 1))
        } else {
            Some(Seq::<u8>::empty())
        },
    }
}

impl Firmware {
    /// The data bytes of one Intel HEX record line, or nothing when the line
    /// is not a well-formed record.
    pub fn ihex_to_bin(record: &str) -> (r: Option<Vec<u8>>)
        ensures
            (match r {
                Some(v) => ihex_record_data(record@) == Some(v@),
                None => ihex_record_data(record@) is None,
            }),
    {
        let n = record.unicode_len();
        if n < 1 || record.get_char(0) != ':' {
            return None;
        }
        let hex_part = record.substring_char(1, n);
        proof {
            assert(hex_part@ =~= record@.skip(1));
        }
        let b = match wire::hex_decode(hex_part) {
            Ok(b) => b,
            Err(_) => {
                return None;
            },
        };
        let len = b.len();
        if len < 5 || len > 260 || len != (b[0] as usize) + 5 {
            return None;
        }
        let mut sum: u32 = 0;
        let mut i: usize = 0;
        while i < len
            invariant
                0 <= i <= len == b@.len() <= 260,
                sum == seq_u8_sum(b@.take(i as int)),
                sum <= 255 * i,
            decreases len - i,
        {
            proof {
                assert(b@.take(i + 1).drop_last() =~= b@.take(i as int));
                assert(b@.take(i + 1).last() == b@[i as int]);
            }
            sum = sum + (b[i] as u32);
            i = i + 1;
        }
        proof {
            assert(b@.take(len as int) =~= b@);
        }
        if sum % 256 != 0 {
            return None;
        }
        if b[3] != 0 {
            return Some(Vec::new());
        }
        let mut data: Vec<u8> = Vec::new();
        let mut i: usize = 4;
        while i < len - 1
            invariant
                4 <= i <= len - 1,
                5 <= len == b@.len(),
                data@ == b@.subrange(4, i as int),
            decreases len - i,
        {
            let x = b[i];
            data.push(x);
            proof {
                assert(b@.subrange(4, i + 1) =~= b@.subrange(4, i as int).push(x));
            }
            i = i + 1;
        }
        Some(data)
    }
}

/// How many 0xFF filler bytes bring a length up to a multiple of the
/// 128-byte flash page.
pub open spec fn pad_len(n: int) -> int {
    (128 - n % 128) % 128
}

/// An image padded with 0xFF until its length is a multiple of 128.
pub open spec fn pad_fw(data: Seq<u8>) -> Seq<u8> {
    data + Seq::new(pad_len(data.len() as int) as nat, |i: int| 0xFFu8)
}

/// Pad an image with 0xFF until its length is a multiple of 128.
fn pad_to_page(data: &mut Vec<u8>)
    requires
        old(data)@.len() + 127 <= usize::MAX,
    ensures
        final(data)@ == pad_fw(old(data)@),
{
    let ghost orig = data@;
    let n = data.len();
    let target: usize = n + (128 - n % 128) % 128;
    while data.len() < target
        invariant
            n <= data@.len() <= target,
            target == n + pad_len(n as int),
            data@ == orig + Seq::new((data@.len() - n) as nat, |i: int| 0xFFu8),
            orig.len() == n,
        decreases target - data@.len(),
    {
        data.push(0xFFu8);
        proof {
            assert(data@ =~= orig + Seq::new((data@.len() - n) as nat, |i: int| 0xFFu8));
        }
    }
    proof {
        assert(data@ =~= pad_fw(orig));
    }
}

/// An uploaded firmware image, page-padded, with its derived block count and
/// checksum.
#[derive(Debug)]
pub struct NewFirmware {
    pub firmware_type: i32,
    pub firmware_version: i32,
    pub name: String,
    pub blocks: i32,
    pub crc: i32,
    pub data: Vec<u8>,
}

/// The mathematical shape of an upload.
pub struct NewFirmwareView {
    pub firmware_type: i32,
    pub firmware_version: i32,
    pub name: Seq<char>,
    pub blocks: i32,
    pub crc: i32,
    pub data: Seq<u8>,
}

impl View for NewFirmware {
    type V = NewFirmwareView;

    open spec fn view(&self) -> NewFirmwareView {
        NewFirmwareView {
            firmware_type: self.firmware_type,
            firmware_version: self.firmware_version,
            name: self.name@,
            blocks: self.blocks,
            crc: self.crc,
            data: self.data@,
        }
    }
}

impl NewFirmware {
    /// Page-pad uploaded bytes and derive the block count and checksum.
    pub fn build(firmware_type: i32, version: i32, name: String, binary_data: Vec<u8>) -> (r:
        NewFirmware)
        requires
            binary_data@.len() + 127 <= i32::MAX,
        ensures
            r@ == (NewFirmwareView {
                firmware_type,
                firmware_version: version,
                name: name@,
                blocks: (pad_fw(binary_data@).len() / 16) as i32,
                crc: crc16_modbus(pad_fw(binary_data@)) as i32,
                data: pad_fw(binary_data@),
            }),
            r@.data.len() % 128 == 0,
    {
        let mut data = binary_data;
        pad_to_page(&mut data);
        let blocks: i32 = (data.len() / 16) as i32;
        let crc: i32 = Firmware::compute_crc(data.as_slice()) as i32;
        NewFirmware { firmware_type, firmware_version: version, name, blocks, crc, data }
    }
}

/// The firmware bytes a sequence of record lines assembles to: each line is
/// trimmed, blank lines are skipped, and every other line must be a
/// well-formed record.
pub open spec fn records_data(lines: Seq<Seq<char>>) -> Option<Seq<u8>>
    decreases lines.len(),
{
    if lines.len() == 0 {
        Some(Seq::<u8>::empty())
    } else {
        let t = wire::trim_spec(lines[0]);
        let rest = records_data(lines.drop_first());
        if t.len() == 0 {
            rest
        } else {
            match ihex_record_data(t) {
                None => None,
                Some(d) => match rest {
                    None => None,
                    Some(r) => Some(d + r),
                },
            }
        }
    }
}

impl Firmware {
    /// Assemble a firmware image from the record lines of an Intel HEX upload:
    /// data records are concatenated, the image is page-padded, and the block
    /// count and checksum are derived. Nothing is returned when a non-blank
    /// line is not a well-formed record, or when the image would overflow the
    /// record's 32-bit fields.
    pub fn prepare_fw(_type: i32, version: i32, name: String, records: &Vec<String>) -> (r: Option<
        Firmware,
    >)
        ensures
            (match r {
                Some(fw) => records_data(records.deep_view()) matches Some(d) && d.len() + 127
                    <= i32::MAX && fw@ == (FirmwareView {
                    firmware_type: _type,
                    firmware_version: version,
                    name: name@,
                    blocks: (pad_fw(d).len() / 16) as i32,
                    crc: crc16_modbus(pad_fw(d)) as i32,
                    data: pad_fw(d),
                }),
                None => records_data(records.deep_view()) is None || (records_data(
                    records.deep_view(),
                ) matches Some(d) && d.len() + 127 > i32::MAX),
            }),
    {
        let mut data: Vec<u8> = Vec::new();
        let n = records.len();
        let mut i: usize = 0;
        proof {
            assert(records.deep_view().skip(0) =~= records.deep_view());
        }
        while i < n
            invariant
                0 <= i <= n == records@.len(),
                records.deep_view().len() == n,
                (match records_data(records.deep_view()) {
                    Some(d) => records_data(records.deep_view().skip(i as int)) matches Some(rest)
                        && d == data@ + rest,
                    None => records_data(records.deep_view().skip(i as int)) is None,
                }),
            decreases n - i,
        {
            proof {
                assert(records.deep_view()[i as int] == records@[i as int]@);
                assert(records.deep_view().skip(i as int).drop_first() =~= records.deep_view().skip(
                    i + 1,
                ));
                assert(records.deep_view().skip(i as int)[0] == records.deep_view()[i as int]);
            }
            let line = wire::trim_ws(records[i].as_str());
            if line.unicode_len() > 0 {
                match Firmware::ihex_to_bin(line) {
                    Some(mut d) => {
                        let ghost before = data@;
                        let ghost dv = d@;
                        data.append(&mut d);
                        proof {
                            if records_data(records.deep_view()) is Some {
                                let rest = records_data(
                                    records.deep_view().skip(i as int),
                                ).unwrap();
                                let tail = records_data(records.deep_view().skip(i + 1)).unwrap();
                                assert(rest == dv + tail);
                                assert(before + (dv + tail) =~= (before + dv) + tail);
                            }
                        }
                    },
                    None => {
                        return None;
                    },
                }
            }
            i = i + 1;
        }
        proof {
            assert(records.deep_view().skip(n as int) =~= Seq::<Seq<char>>::empty());
            if let Some(d) = records_data(records.deep_view()) {
                assert(d =~= data@);
            }
        }
        if data.len() > (i32::MAX - 127) as usize {
            return None;
        }
        let mut image = data;
        let ghost raw = image@;
        pad_to_page(&mut image);
        let blocks: i32 = (image.len() / 16) as i32;
        Some(Firmware::new(_type, version, blocks, image, name))
    }
}

} // verus!
