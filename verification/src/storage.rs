//! The flash records the device persists: a version record with an
//! initialization tag, and the Wi-Fi credentials written by the
//! provisioning form.
//!
//! The records are fixed-layout byte images at fixed offsets inside one
//! small storage area.  This module owns the layout — encoding, decoding
//! and the first-boot decision; reading and writing the physical flash is
//! the surrounding code's job, which hands the area in as plain bytes.

use vstd::prelude::*;

verus! {

/// Tag that marks the storage area as initialized; any other value means
/// first boot or corruption, and the area is rewritten with defaults.
pub const STORAGE_INIT_TAG: u32 = 0x1234abcd;

/// Longest SSID and longest password the credential record stores.
pub const CREDENTIAL_MAX_LEN: usize = 32;

/// Offset and length of the version record inside the area.
pub const VERSION_RECORD_OFFSET: usize = 0;

/// Length of the encoded version record: two little-endian words.
pub const VERSION_RECORD_LEN: usize = 8;

/// Offset of the credential record inside the area.
pub const WIFI_RECORD_OFFSET: usize = 8;

/// Length of the encoded credential record: two length-prefixed 32-byte
/// fields and the provisioned flag.
pub const WIFI_RECORD_LEN: usize = 67;

/// Total length of the storage area this module lays out.
pub const STORAGE_AREA_LEN: usize = 75;

/// The version record: a layout version and the initialization tag.
#[derive(Eq, PartialEq, Copy, Clone, Debug, Structural)]
pub struct VersionStorage {
    pub version: u32,
    pub init_tag: u32,
}

/// The credential record: SSID and password bytes (at most 32 each) and
/// whether provisioning has completed.
#[derive(Debug)]
pub struct WifiStorage {
    pub wifi_ssid: Vec<u8>,
    pub wifi_password: Vec<u8>,
    pub wifi_finish: bool,
}

impl WifiStorage {
    /// Both credential fields fit their fixed slots.
    pub open spec fn wf(&self) -> bool {
        self.wifi_ssid@.len() <= CREDENTIAL_MAX_LEN && self.wifi_password@.len()
            <= CREDENTIAL_MAX_LEN
    }

    /// The unprovisioned default: empty credentials, flag clear.
    pub fn unprovisioned() -> (w: WifiStorage)
        ensures
            w.wf(),
            w.wifi_ssid@.len() == 0,
            w.wifi_password@.len() == 0,
            !w.wifi_finish,
    {
        WifiStorage { wifi_ssid: Vec::new(), wifi_password: Vec::new(), wifi_finish: false }
    }
}

/// A word as its four little-endian bytes.
pub open spec fn spec_u32_le(x: u32) -> Seq<u8> {
    seq![
        (x % 256) as u8,
        ((x / 256) % 256) as u8,
        ((x / 65536) % 256) as u8,
        ((x / 16777216) % 256) as u8,
    ]
}

/// The word four little-endian bytes hold.
pub open spec fn spec_u32_from_le(b: Seq<u8>) -> int {
    b[0] + 256 * b[1] + 65536 * b[2] + 16777216 * b[3]
}

/// Append a word's little-endian bytes.
pub fn push_u32_le(dst: &mut Vec<u8>, x: u32)
    ensures
        final(dst)@ == old(dst)@ + spec_u32_le(x),
{
    dst.push((x % 256) as u8);
    dst.push(((x / 256) % 256) as u8);
    dst.push(((x / 65536) % 256) as u8);
    dst.push(((x / 16777216) % 256) as u8);
    proof {
        assert(dst@ =~= old(dst)@ + spec_u32_le(x));
    }
}

/// Read a word from four little-endian bytes.
pub fn u32_from_le(b: &[u8]) -> (x: u32)
    requires
        b@.len() == 4,
    ensures
        x == spec_u32_from_le(b@),
{
    (b[0] as u32) + 256 * (b[1] as u32) + 65536 * (b[2] as u32) + 16777216 * (b[3] as u32)
}

/// Encoding and decoding a word are inverse.
pub proof fn lemma_u32_le_round_trip(x: u32)
    ensures
        spec_u32_from_le(spec_u32_le(x)) == x,
{
    assert(x == (x % 256) + 256 * ((x / 256) % 256) + 65536 * ((x / 65536) % 256) + 16777216 * ((x
        / 16777216) % 256)) by (nonlinear_arith);
}

/// The version record's byte image.
pub open spec fn spec_encode_version(v: VersionStorage) -> Seq<u8> {
    spec_u32_le(v.version) + spec_u32_le(v.init_tag)
}

/// Encode the version record.
pub fn encode_version(v: &VersionStorage) -> (b: Vec<u8>)
    ensures
        b@ == spec_encode_version(*v),
        b@.len() == VERSION_RECORD_LEN,
{
    let mut b: Vec<u8> = Vec::new();
    push_u32_le(&mut b, v.version);
    push_u32_le(&mut b, v.init_tag);
    proof {
        assert(b@ =~= spec_encode_version(*v));
    }
    b
}

/// Decode the version record; every byte pattern is a record.
pub fn decode_version(b: &[u8]) -> (v: VersionStorage)
    requires
        b@.len() >= VERSION_RECORD_LEN,
    ensures
        v.version == spec_u32_from_le(b@.subrange(0, 4)),
        v.init_tag == spec_u32_from_le(b@.subrange(4, 8)),
{
    let mut w0: Vec<u8> = Vec::new();
    crate::bytes::push_slice_range(&mut w0, b, 0, 4);
    let mut w1: Vec<u8> = Vec::new();
    crate::bytes::push_slice_range(&mut w1, b, 4, 8);
    proof {
        assert(w0@ =~= b@.subrange(0, 4));
        assert(w1@ =~= b@.subrange(4, 8));
    }
    let version = u32_from_le(w0.as_slice());
    let init_tag = u32_from_le(w1.as_slice());
    VersionStorage { version, init_tag }
}

/// The version record survives its own encoding.
pub proof fn lemma_version_round_trip(v: VersionStorage)
    ensures
        spec_u32_from_le(spec_encode_version(v).subrange(0, 4)) == v.version,
        spec_u32_from_le(spec_encode_version(v).subrange(4, 8)) == v.init_tag,
{
    assert(spec_encode_version(v).subrange(0, 4) =~= spec_u32_le(v.version));
    assert(spec_encode_version(v).subrange(4, 8) =~= spec_u32_le(v.init_tag));
    lemma_u32_le_round_trip(v.version);
    lemma_u32_le_round_trip(v.init_tag);
}

/// A credential field in its fixed slot: one length byte, the bytes, and
/// zero padding up to the slot size.
pub open spec fn spec_encode_field(f: Seq<u8>) -> Seq<u8> {
    seq![f.len() as u8] + f + Seq::new((CREDENTIAL_MAX_LEN - f.len()) as nat, |k: int| 0u8)
}

/// The credential record's byte image.
pub open spec fn spec_encode_wifi(w: WifiStorage) -> Seq<u8> {
    spec_encode_field(w.wifi_ssid@) + spec_encode_field(w.wifi_password@) + seq![
        if w.wifi_finish {
            1u8
        } else {
            0u8
        },
    ]
}

/// Append one credential field in its fixed slot.
fn push_field(dst: &mut Vec<u8>, f: &Vec<u8>)
    requires
        f@.len() <= CREDENTIAL_MAX_LEN,
    ensures
        final(dst)@ == old(dst)@ + spec_encode_field(f@),
{
    let n = f.len();
    dst.push(n as u8);
    crate::bytes::push_slice_range(dst, f.as_slice(), 0, n);
    crate::bytes::push_repeat(dst, 0, CREDENTIAL_MAX_LEN - n);
    proof {
        assert(f@.subrange(0, n as int) =~= f@);
        assert(dst@ =~= old(dst)@ + spec_encode_field(f@));
    }
}

/// Encode the credential record.
pub fn encode_wifi(w: &WifiStorage) -> (b: Vec<u8>)
    requires
        w.wf(),
    ensures
        b@ == spec_encode_wifi(*w),
        b@.len() == WIFI_RECORD_LEN,
{
    let mut b: Vec<u8> = Vec::new();
    push_field(&mut b, &w.wifi_ssid);
    push_field(&mut b, &w.wifi_password);
    b.push(if w.wifi_finish {
        1
    } else {
        0
    });
    proof {
        assert(b@ =~= spec_encode_wifi(*w));
    }
    b
}

/// Decode the credential record.  `None` exactly when the image is
/// corrupt: a length byte beyond the slot, or a flag byte that is
/// neither 0 nor 1.
pub fn decode_wifi(b: &[u8]) -> (r: Option<WifiStorage>)
    requires
        b@.len() >= WIFI_RECORD_LEN,
    ensures
        (r is Some) == (b@[0] <= CREDENTIAL_MAX_LEN && b@[33] <= CREDENTIAL_MAX_LEN && (b@[66]
            == 0 || b@[66] == 1)),
        (match r {
            Some(w) => w.wf() && w.wifi_ssid@ == b@.subrange(1, 1 + b@[0]) && w.wifi_password@
                == b@.subrange(34, 34 + b@[33]) && w.wifi_finish == (b@[66] == 1),
            None => true,
        }),
{
    let ssid_len = b[0] as usize;
    let pw_len = b[33] as usize;
    let flag = b[66];
    if ssid_len > CREDENTIAL_MAX_LEN || pw_len > CREDENTIAL_MAX_LEN || flag > 1 {
        return None;
    }
    let mut ssid: Vec<u8> = Vec::new();
    crate::bytes::push_slice_range(&mut ssid, b, 1, 1 + ssid_len);
    let mut password: Vec<u8> = Vec::new();
    crate::bytes::push_slice_range(&mut password, b, 34, 34 + pw_len);
    proof {
        assert(ssid@ =~= b@.subrange(1, 1 + b@[0]));
        assert(password@ =~= b@.subrange(34, 34 + b@[33]));
    }
    Some(WifiStorage { wifi_ssid: ssid, wifi_password: password, wifi_finish: flag == 1 })
}

/// The credential record survives its own encoding.
pub proof fn lemma_wifi_round_trip(w: WifiStorage)
    requires
        w.wf(),
    ensures
        spec_encode_wifi(w).len() == WIFI_RECORD_LEN,
        spec_encode_wifi(w)[0] == w.wifi_ssid@.len(),
        spec_encode_wifi(w).subrange(1, 1 + w.wifi_ssid@.len() as int) == w.wifi_ssid@,
        spec_encode_wifi(w)[33] == w.wifi_password@.len(),
        spec_encode_wifi(w).subrange(34, 34 + w.wifi_password@.len() as int) == w.wifi_password@,
        spec_encode_wifi(w)[66] == (if w.wifi_finish {
            1u8
        } else {
            0u8
        }),
{
    let e = spec_encode_wifi(w);
    assert(e.subrange(1, 1 + w.wifi_ssid@.len() as int) =~= w.wifi_ssid@);
    assert(e.subrange(34, 34 + w.wifi_password@.len() as int) =~= w.wifi_password@);
}

/// The byte image of the unprovisioned credential record.
pub open spec fn spec_default_wifi_image() -> Seq<u8> {
    spec_encode_field(Seq::empty()) + spec_encode_field(Seq::empty()) + seq![0u8]
}

/// Whether the area must be rewritten with defaults: the version record
/// does not carry the initialization tag (first boot, or corruption).
pub fn storage_needs_init(v: &VersionStorage) -> (r: bool)
    ensures
        r == (v.init_tag != STORAGE_INIT_TAG),
{
    v.init_tag != STORAGE_INIT_TAG
}

/// Overwrite `dst[off .. off + src.len()]` with `src`.
pub fn write_at(dst: &mut Vec<u8>, off: usize, src: &[u8])
    requires
        off + src@.len() <= old(dst)@.len(),
    ensures
        final(dst)@.len() == old(dst)@.len(),
        final(dst)@.subrange(off as int, off + src@.len()) == src@,
        forall|k: int|
            0 <= k < old(dst)@.len() && !(off <= k < off + src@.len()) ==> final(dst)@[k] == old(
                dst,
            )@[k],
{
    let n = src.len();
    let dlen = dst.len();
    let mut i: usize = 0;
    while i < n
        invariant
            dlen == dst@.len(),
            off + n <= dst@.len(),
            n == src@.len(),
            i <= n,
            dst@.len() == old(dst)@.len(),
            forall|k: int| off <= k < off + i ==> dst@[k] == src@[k - off],
            forall|k: int|
                0 <= k < old(dst)@.len() && !(off <= k < off + i) ==> dst@[k] == old(dst)@[k],
        decreases n - i,
    {
        let b = src[i];
        dst.set(off + i, b);
        i += 1;
    }
    proof {
        assert(dst@.subrange(off as int, off + src@.len()) =~= src@);
    }
}

/// Rewrite the whole area with its defaults: layout version 1 with the
/// initialization tag, and unprovisioned credentials.  Everything beyond
/// the laid-out records is untouched.
pub fn init_storage_area(flash: &mut Vec<u8>)
    requires
        old(flash)@.len() >= STORAGE_AREA_LEN,
    ensures
        final(flash)@.len() == old(flash)@.len(),
        final(flash)@.subrange(
            VERSION_RECORD_OFFSET as int,
            VERSION_RECORD_OFFSET + VERSION_RECORD_LEN,
        ) == spec_encode_version(VersionStorage { version: 1, init_tag: STORAGE_INIT_TAG }),
        final(flash)@.subrange(WIFI_RECORD_OFFSET as int, WIFI_RECORD_OFFSET + WIFI_RECORD_LEN)
            == spec_default_wifi_image(),
        forall|k: int|
            STORAGE_AREA_LEN <= k < old(flash)@.len() ==> final(flash)@[k] == old(flash)@[k],
{
    let version = VersionStorage { version: 1, init_tag: STORAGE_INIT_TAG };
    let vbytes = encode_version(&version);
    write_at(flash, VERSION_RECORD_OFFSET, vbytes.as_slice());
    let wifi = WifiStorage::unprovisioned();
    let wbytes = encode_wifi(&wifi);
    write_at(flash, WIFI_RECORD_OFFSET, wbytes.as_slice());
    proof {
        assert(flash@.subrange(
            VERSION_RECORD_OFFSET as int,
            VERSION_RECORD_OFFSET + VERSION_RECORD_LEN,
        ) =~= vbytes@);
        assert(spec_encode_wifi(wifi) =~= spec_default_wifi_image());
    }
}

} // verus!
