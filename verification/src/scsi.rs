//! The SCSI command layer: building CDBs for `READ TOC` and `READ CD`,
//! submitting them through a platform adapter, and decoding status and
//! sense data into the structured error type.
//!
//! This layer never retries; retries happen exclusively in the retry and
//! chunk engine.

use vstd::prelude::*;

use crate::device::DeviceAdapter;
use crate::device::TransferDirection;
use crate::errors::CdReaderError;
use crate::errors::ScsiError;
use crate::errors::ScsiOp;

verus! {

/// Bytes of raw PCM in one CD-DA sector.
pub const SECTOR_BYTES: usize = 2352;

/// Allocation length for the `READ TOC` response buffer; a format-0 TOC
/// needs at most 4 + 99 * 8 bytes, so 2 KiB is safe.
pub const READ_TOC_ALLOC_LEN: u16 = 2048;

/// Per-command timeout for `READ TOC`, in milliseconds.
pub const READ_TOC_TIMEOUT_MS: u32 = 10000;

/// Per-command timeout for `READ CD`, in milliseconds.
pub const READ_CD_TIMEOUT_MS: u32 = 30000;

/// The 10-byte `READ TOC/PMA/ATIP` CDB: opcode `0x43`, LBA form, format 0
/// (TOC), starting track 0, big-endian allocation length in bytes 7..9.
pub open spec fn spec_read_toc_cdb(alloc_len: u16) -> Seq<u8> {
    seq![
        0x43u8,
        0u8,
        0u8,
        0u8,
        0u8,
        0u8,
        0u8,
        (alloc_len / 256) as u8,
        (alloc_len % 256) as u8,
        0u8,
    ]
}

/// The 12-byte `READ CD` CDB: opcode `0xBE`, big-endian starting LBA in
/// bytes 2..6, big-endian 24-bit transfer length in sectors in bytes
/// 6..9, byte 9 = `0x10` (user data only: 2352 bytes per sector).
pub open spec fn spec_read_cd_cdb(lba: u32, sectors: u32) -> Seq<u8> {
    seq![
        0xBEu8,
        0u8,
        (lba / 16777216) as u8,
        (lba / 65536 % 256) as u8,
        (lba / 256 % 256) as u8,
        (lba % 256) as u8,
        (sectors / 65536 % 256) as u8,
        (sectors / 256 % 256) as u8,
        (sectors % 256) as u8,
        0x10u8,
        0u8,
        0u8,
    ]
}

/// Build the `READ TOC` CDB.
pub fn build_read_toc_cdb(alloc_len: u16) -> (r: Vec<u8>)
    ensures
        r@ == spec_read_toc_cdb(alloc_len),
        r@.len() == 10,
{
    let mut cdb: Vec<u8> = Vec::with_capacity(10);
    cdb.push(0x43);
    cdb.push(0);
    cdb.push(0);
    cdb.push(0);
    cdb.push(0);
    cdb.push(0);
    cdb.push(0);
    cdb.push((alloc_len / 256) as u8);
    cdb.push((alloc_len % 256) as u8);
    cdb.push(0);
    proof {
        assert(cdb@ =~= spec_read_toc_cdb(alloc_len));
    }
    cdb
}

/// Build the `READ CD` CDB for `sectors` sectors starting at `lba`.
pub fn build_read_cd_cdb(lba: u32, sectors: u32) -> (r: Vec<u8>)
    ensures
        r@ == spec_read_cd_cdb(lba, sectors),
        r@.len() == 12,
{
    let mut cdb: Vec<u8> = Vec::with_capacity(12);
    cdb.push(0xBE);
    cdb.push(0);
    cdb.push((lba / 16777216) as u8);
    cdb.push((lba / 65536 % 256) as u8);
    cdb.push((lba / 256 % 256) as u8);
    cdb.push((lba % 256) as u8);
    cdb.push((sectors / 65536 % 256) as u8);
    cdb.push((sectors / 256 % 256) as u8);
    cdb.push((sectors % 256) as u8);
    cdb.push(0x10);
    cdb.push(0);
    cdb.push(0);
    proof {
        assert(cdb@ =~= spec_read_cd_cdb(lba, sectors));
    }
    cdb
}

/// The sense triple extracted from fixed-format sense data: at least 14
/// bytes with response code `0x70` or `0x71`. Descriptor-format sense is
/// reported as absent, never guessed at.
pub open spec fn spec_sense_triple(sense: Seq<u8>) -> Option<(u8, u8, u8)> {
    if sense.len() >= 14 && (sense[0] & 0x7F == 0x70 || sense[0] & 0x7F == 0x71) {
        Some(((sense[2] & 0x0F), sense[12], sense[13]))
    } else {
        None
    }
}

/// Decode `(sense_key, asc, ascq)` from returned sense bytes.
pub fn decode_sense(sense: &Vec<u8>) -> (r: Option<(u8, u8, u8)>)
    ensures
        r == spec_sense_triple(sense@),
{
    if sense.len() >= 14 && (sense[0] & 0x7F == 0x70 || sense[0] & 0x7F == 0x71) {
        Some((sense[2] & 0x0F, sense[12], sense[13]))
    } else {
        None
    }
}

/// Package a failed command as a structured SCSI error, decoding the
/// sense triple when fixed-format sense data is present.
pub fn make_scsi_error(
    op: ScsiOp,
    lba: Option<u32>,
    sectors: Option<u32>,
    status: u8,
    sense: &Vec<u8>,
) -> (r: ScsiError)
    ensures
        r.op == op,
        r.lba == lba,
        r.sectors == sectors,
        r.scsi_status == status,
        spec_sense_triple(sense@) matches Some(t) ==> (r.sense_key == Some(t.0) && r.asc == Some(
            t.1,
        ) && r.ascq == Some(t.2)),
        spec_sense_triple(sense@) is None ==> (r.sense_key is None && r.asc is None
            && r.ascq is None),
{
    match decode_sense(sense) {
        Some(triple) => ScsiError {
            op,
            lba,
            sectors,
            scsi_status: status,
            sense_key: Some(triple.0),
            asc: Some(triple.1),
            ascq: Some(triple.2),
        },
        None => ScsiError {
            op,
            lba,
            sectors,
            scsi_status: status,
            sense_key: None,
            asc: None,
            ascq: None,
        },
    }
}

/// Issue one `READ TOC` and return the payload, truncated to the
/// transferred prefix when the transport reports a residual.
pub fn read_toc_payload<D: DeviceAdapter>(dev: &D) -> (r: Result<Vec<u8>, CdReaderError>)
    ensures
        r matches Ok(v) ==> v@.len() <= READ_TOC_ALLOC_LEN,
        r matches Err(e) ==> (e matches CdReaderError::Io(_) || (e matches CdReaderError::Scsi(se)
            && se.op == ScsiOp::ReadToc && se.lba is None && se.sectors is None
            && se.scsi_status != 0)),
{
    let alloc_len: usize = READ_TOC_ALLOC_LEN as usize;
    let cdb = build_read_toc_cdb(READ_TOC_ALLOC_LEN);
    let outcome = match dev.submit(&cdb, alloc_len, READ_TOC_TIMEOUT_MS,
        TransferDirection::FromDevice) {
        Ok(o) => o,
        Err(e) => {
            return Err(CdReaderError::Io(e));
        },
    };
    if outcome.status != 0 {
        return Err(CdReaderError::Scsi(make_scsi_error(ScsiOp::ReadToc, None, None, outcome.status,
            &outcome.sense)));
    }
    let mut data = outcome.data;
    let got: usize = if outcome.residual <= alloc_len {
        alloc_len - outcome.residual
    } else {
        0
    };
    data.truncate(got);
    Ok(data)
}

/// Issue one `READ CD` for `sectors` sectors at `lba` and return the raw
/// PCM payload, truncated to the transferred prefix when the transport
/// reports a residual.
pub fn read_cd<D: DeviceAdapter>(dev: &D, lba: u32, sectors: u32) -> (r: Result<
    Vec<u8>,
    CdReaderError,
>)
    requires
        sectors * SECTOR_BYTES <= u32::MAX,
    ensures
        r matches Ok(v) ==> v@.len() <= sectors * SECTOR_BYTES,
        r matches Err(e) ==> (e matches CdReaderError::Io(_) || (e matches CdReaderError::Scsi(se)
            && se.op == ScsiOp::ReadCd && se.lba == Some(lba) && se.sectors == Some(sectors)
            && se.scsi_status != 0)),
{
    let byte_len: usize = (sectors as usize) * SECTOR_BYTES;
    let cdb = build_read_cd_cdb(lba, sectors);
    let outcome = match dev.submit(&cdb, byte_len, READ_CD_TIMEOUT_MS,
        TransferDirection::FromDevice) {
        Ok(o) => o,
        Err(e) => {
            return Err(CdReaderError::Io(e));
        },
    };
    if outcome.status != 0 {
        return Err(CdReaderError::Scsi(make_scsi_error(ScsiOp::ReadCd, Some(lba), Some(sectors),
            outcome.status, &outcome.sense)));
    }
    let mut data = outcome.data;
    let got: usize = if outcome.residual <= byte_len {
        byte_len - outcome.residual
    } else {
        0
    };
    data.truncate(got);
    Ok(data)
}

} // verus!
