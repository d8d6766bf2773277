//! The `TDREPORT` structure of Intel TDX 1.5 and its sub-structures.
//!
//! A `TDREPORT` is a 1024-byte structure made of a `ReportMacStruct`, a
//! `TeeTcbInfo`, 17 reserved bytes and a `TdInfo`. Every structure here is a
//! fixed sequence of fixed-size byte fields; its view is its binary image, the
//! fields' bytes one after the other.

use vstd::prelude::*;
use vstd::string::*;
use vstd::slice::slice_subrange;
use crate::error::Error;
use crate::tdx::{TDX_MR_REG_LEN, TDX_REPORT_DATA_LEN};

verus! {

/// The length of a `ReportMacStruct`.
pub const REPORT_MAC_STRUCT_LEN: usize = 256;

/// The length of a `TeeTcbInfo`.
pub const TEE_TCB_INFO_LEN: usize = 239;

/// The length of the reserved bytes between `TeeTcbInfo` and `TdInfo`.
pub const TDREPORT_RESERVED_LEN: usize = 17;

/// The length of a `TdInfo`.
pub const TD_INFO_LEN: usize = 512;

/// The length of a `TDREPORT`.
pub const TDREPORT_LEN: usize = REPORT_MAC_STRUCT_LEN + TEE_TCB_INFO_LEN + TDREPORT_RESERVED_LEN
    + TD_INFO_LEN;

/// The length of a `TDREPORT` request: the report data, then room for the report.
pub const TDREPORT_REQ_LEN: usize = TDX_REPORT_DATA_LEN + TDREPORT_LEN;

/// Where the `TdInfo` starts in a `TDREPORT`.
pub const TD_INFO_OFFSET: usize = REPORT_MAC_STRUCT_LEN + TEE_TCB_INFO_LEN + TDREPORT_RESERVED_LEN;

/// Where the `MRTD` field starts in a `TdInfo`.
pub const MRTD_OFFSET: usize = 16;

/// A structure that is filled from its binary image.
pub trait BinaryBlob: View<V = Seq<u8>> + Sized {
    /// The exact number of bytes of the structure's binary image.
    spec fn blob_len() -> nat;

    /// The structure's name, as error messages give it.
    spec fn blob_name() -> Seq<char>;

    /// Fills the structure from `raw_bytes`. A slice of any other length than
    /// the structure's is refused and leaves the structure as it was.
    fn from_bytes(&mut self, raw_bytes: &[u8]) -> (res: Result<(), Error>)
        ensures
            raw_bytes@.len() == Self::blob_len() ==> res is Ok && final(self)@ == raw_bytes@,
            raw_bytes@.len() != Self::blob_len() ==> *final(self) == *old(self) && (res matches Err(
                Error::ParseError(text),
            ) && text@ == Self::blob_name() + " length is wrong"@),
    ;
}

/// `n` zero bytes.
pub open spec fn zeros(n: nat) -> Seq<u8> {
    Seq::new(n, |i: int| 0u8)
}

/// The error for a slice whose length is not that of the structure `name`.
fn length_error(name: &str) -> (e: Error)
    ensures
        e matches Error::ParseError(text) && text@ == name@ + " length is wrong"@,
{
    Error::ParseError(String::from_str(name).concat(" length is wrong"))
}

/// Copies the `N` bytes that start at `offset` out of `raw`.
pub fn copy_field<const N: usize>(raw: &[u8], offset: usize) -> (field: [u8; N])
    requires
        offset + N <= raw@.len(),
    ensures
        field@ == raw@.subrange(offset as int, offset + N),
{
    let len: usize = raw.len();
    let mut field: [u8; N] = [0u8; N];
    let mut i: usize = 0;
    while i < N
        invariant
            i <= N,
            offset + N <= len,
            len == raw@.len(),
            forall|j: int| 0 <= j < i ==> field@[j] == raw@[offset + j],
        decreases N - i,
    {
        field[i] = raw[offset + i];
        i += 1;
    }
    field
}

/// The measurements and attributes of the trust domain.
#[derive(Copy, Clone, Debug)]
pub struct TdInfo {
    attributes: [u8; 8],
    xfam: [u8; 8],
    mrtd: [u8; 48],
    mrconfigid: [u8; 48],
    mrowner: [u8; 48],
    mrownerconfig: [u8; 48],
    rtmr0: [u8; 48],
    rtmr1: [u8; 48],
    rtmr2: [u8; 48],
    rtmr3: [u8; 48],
    servtd_hash: [u8; 48],
    reserved: [u8; 64],
}

impl View for TdInfo {
    type V = Seq<u8>;

    closed spec fn view(&self) -> Seq<u8> {
        self.attributes@ + self.xfam@ + self.mrtd@ + self.mrconfigid@ + self.mrowner@
            + self.mrownerconfig@ + self.rtmr0@ + self.rtmr1@ + self.rtmr2@ + self.rtmr3@
            + self.servtd_hash@ + self.reserved@
    }
}

impl TdInfo {
    /// A `TdInfo` whose bytes are all zero.
    pub fn new() -> (info: TdInfo)
        ensures
            info@ == zeros(TD_INFO_LEN as nat),
    {
        let info = TdInfo {
            attributes: [0; 8],
            xfam: [0; 8],
            mrtd: [0; 48],
            mrconfigid: [0; 48],
            mrowner: [0; 48],
            mrownerconfig: [0; 48],
            rtmr0: [0; 48],
            rtmr1: [0; 48],
            rtmr2: [0; 48],
            rtmr3: [0; 48],
            servtd_hash: [0; 48],
            reserved: [0; 64],
        };
        assert(info@ =~= zeros(TD_INFO_LEN as nat));
        info
    }
}

impl TdInfo {
    /// The `MRTD` field.
    pub closed spec fn spec_mrtd(&self) -> [u8; 48] {
        self.mrtd
    }

    /// The binary image of a `TdInfo` has 512 bytes, and `MRTD` is the 48
    /// bytes from offset 16 on.
    pub proof fn lemma_layout(&self)
        ensures
            self@.len() == TD_INFO_LEN,
            self.spec_mrtd()@ == self@.subrange(
                MRTD_OFFSET as int,
                MRTD_OFFSET + TDX_MR_REG_LEN,
            ),
    {
        assert(self.mrtd@ =~= self@.subrange(16, 64));
    }

    /// Two `TdInfo` values with the same binary image are equal.
    pub proof fn lemma_image_determines(&self, other: &TdInfo)
        requires
            self@ == other@,
        ensures
            *self == *other,
    {
        let a = self@;
        let b = other@;
        assert(self.attributes@ =~= a.subrange(0, 8));
        assert(other.attributes@ =~= b.subrange(0, 8));
        assert(self.attributes =~= other.attributes);
        assert(self.xfam@ =~= a.subrange(8, 16));
        assert(other.xfam@ =~= b.subrange(8, 16));
        assert(self.xfam =~= other.xfam);
        assert(self.mrtd@ =~= a.subrange(16, 64));
        assert(other.mrtd@ =~= b.subrange(16, 64));
        assert(self.mrtd =~= other.mrtd);
        assert(self.mrconfigid@ =~= a.subrange(64, 112));
        assert(other.mrconfigid@ =~= b.subrange(64, 112));
        assert(self.mrconfigid =~= other.mrconfigid);
        assert(self.mrowner@ =~= a.subrange(112, 160));
        assert(other.mrowner@ =~= b.subrange(112, 160));
        assert(self.mrowner =~= other.mrowner);
        assert(self.mrownerconfig@ =~= a.subrange(160, 208));
        assert(other.mrownerconfig@ =~= b.subrange(160, 208));
        assert(self.mrownerconfig =~= other.mrownerconfig);
        assert(self.rtmr0@ =~= a.subrange(208, 256));
        assert(other.rtmr0@ =~= b.subrange(208, 256));
        assert(self.rtmr0 =~= other.rtmr0);
        assert(self.rtmr1@ =~= a.subrange(256, 304));
        assert(other.rtmr1@ =~= b.subrange(256, 304));
        assert(self.rtmr1 =~= other.rtmr1);
        assert(self.rtmr2@ =~= a.subrange(304, 352));
        assert(other.rtmr2@ =~= b.subrange(304, 352));
        assert(self.rtmr2 =~= other.rtmr2);
        assert(self.rtmr3@ =~= a.subrange(352, 400));
        assert(other.rtmr3@ =~= b.subrange(352, 400));
        assert(self.rtmr3 =~= other.rtmr3);
        assert(self.servtd_hash@ =~= a.subrange(400, 448));
        assert(other.servtd_hash@ =~= b.subrange(400, 448));
        assert(self.servtd_hash =~= other.servtd_hash);
        assert(self.reserved@ =~= a.subrange(448, 512));
        assert(other.reserved@ =~= b.subrange(448, 512));
        assert(self.reserved =~= other.reserved);
    }
}

impl BinaryBlob for TdInfo {
    open spec fn blob_len() -> nat {
        TD_INFO_LEN as nat
    }

    open spec fn blob_name() -> Seq<char> {
        "TdInfo"@
    }

    fn from_bytes(&mut self, raw_bytes: &[u8]) -> (res: Result<(), Error>)
    {
        if raw_bytes.len() != TD_INFO_LEN {
            return Err(length_error("TdInfo"));
        }
        self.attributes = copy_field::<8>(raw_bytes, 0);
        self.xfam = copy_field::<8>(raw_bytes, 8);
        self.mrtd = copy_field::<48>(raw_bytes, 16);
        self.mrconfigid = copy_field::<48>(raw_bytes, 64);
        self.mrowner = copy_field::<48>(raw_bytes, 112);
        self.mrownerconfig = copy_field::<48>(raw_bytes, 160);
        self.rtmr0 = copy_field::<48>(raw_bytes, 208);
        self.rtmr1 = copy_field::<48>(raw_bytes, 256);
        self.rtmr2 = copy_field::<48>(raw_bytes, 304);
        self.rtmr3 = copy_field::<48>(raw_bytes, 352);
        self.servtd_hash = copy_field::<48>(raw_bytes, 400);
        self.reserved = copy_field::<64>(raw_bytes, 448);
        assert(self@ =~= raw_bytes@);
        Ok(())
    }
}

/// The part of the report that the CPU authenticates with a MAC.
#[derive(Copy, Clone, Debug)]
pub struct ReportMacStruct {
    report_type: [u8; 8],
    reserved1: [u8; 8],
    cpusvn: [u8; 16],
    tee_tcb_info_hash: [u8; 48],
    tee_info_hash: [u8; 48],
    report_data: [u8; 64],
    reserved2: [u8; 32],
    mac: [u8; 32],
}

impl View for ReportMacStruct {
    type V = Seq<u8>;

    closed spec fn view(&self) -> Seq<u8> {
        self.report_type@ + self.reserved1@ + self.cpusvn@ + self.tee_tcb_info_hash@
            + self.tee_info_hash@ + self.report_data@ + self.reserved2@ + self.mac@
    }
}

impl ReportMacStruct {
    /// A `ReportMacStruct` whose bytes are all zero.
    pub fn new() -> (mac_struct: ReportMacStruct)
        ensures
            mac_struct@ == zeros(REPORT_MAC_STRUCT_LEN as nat),
    {
        let mac_struct = ReportMacStruct {
            report_type: [0; 8],
            reserved1: [0; 8],
            cpusvn: [0; 16],
            tee_tcb_info_hash: [0; 48],
            tee_info_hash: [0; 48],
            report_data: [0; 64],
            reserved2: [0; 32],
            mac: [0; 32],
        };
        assert(mac_struct@ =~= zeros(REPORT_MAC_STRUCT_LEN as nat));
        mac_struct
    }
}

impl ReportMacStruct {
    /// The binary image of a `ReportMacStruct` has 256 bytes.
    pub proof fn lemma_layout(&self)
        ensures
            self@.len() == REPORT_MAC_STRUCT_LEN,
    {
    }

    /// Two `ReportMacStruct` values with the same binary image are equal.
    pub proof fn lemma_image_determines(&self, other: &ReportMacStruct)
        requires
            self@ == other@,
        ensures
            *self == *other,
    {
        let a = self@;
        let b = other@;
        assert(self.report_type@ =~= a.subrange(0, 8));
        assert(other.report_type@ =~= b.subrange(0, 8));
        assert(self.report_type =~= other.report_type);
        assert(self.reserved1@ =~= a.subrange(8, 16));
        assert(other.reserved1@ =~= b.subrange(8, 16));
        assert(self.reserved1 =~= other.reserved1);
        assert(self.cpusvn@ =~= a.subrange(16, 32));
        assert(other.cpusvn@ =~= b.subrange(16, 32));
        assert(self.cpusvn =~= other.cpusvn);
        assert(self.tee_tcb_info_hash@ =~= a.subrange(32, 80));
        assert(other.tee_tcb_info_hash@ =~= b.subrange(32, 80));
        assert(self.tee_tcb_info_hash =~= other.tee_tcb_info_hash);
        assert(self.tee_info_hash@ =~= a.subrange(80, 128));
        assert(other.tee_info_hash@ =~= b.subrange(80, 128));
        assert(self.tee_info_hash =~= other.tee_info_hash);
        assert(self.report_data@ =~= a.subrange(128, 192));
        assert(other.report_data@ =~= b.subrange(128, 192));
        assert(self.report_data =~= other.report_data);
        assert(self.reserved2@ =~= a.subrange(192, 224));
        assert(other.reserved2@ =~= b.subrange(192, 224));
        assert(self.reserved2 =~= other.reserved2);
        assert(self.mac@ =~= a.subrange(224, 256));
        assert(other.mac@ =~= b.subrange(224, 256));
        assert(self.mac =~= other.mac);
    }
}

impl BinaryBlob for ReportMacStruct {
    open spec fn blob_len() -> nat {
        REPORT_MAC_STRUCT_LEN as nat
    }

    open spec fn blob_name() -> Seq<char> {
        "ReportMacStruct"@
    }

    fn from_bytes(&mut self, raw_bytes: &[u8]) -> (res: Result<(), Error>) {
        if raw_bytes.len() != REPORT_MAC_STRUCT_LEN {
            return Err(length_error("ReportMacStruct"));
        }
        self.report_type = copy_field::<8>(raw_bytes, 0);
        self.reserved1 = copy_field::<8>(raw_bytes, 8);
        self.cpusvn = copy_field::<16>(raw_bytes, 16);
        self.tee_tcb_info_hash = copy_field::<48>(raw_bytes, 32);
        self.tee_info_hash = copy_field::<48>(raw_bytes, 80);
        self.report_data = copy_field::<64>(raw_bytes, 128);
        self.reserved2 = copy_field::<32>(raw_bytes, 192);
        self.mac = copy_field::<32>(raw_bytes, 224);
        assert(self@ =~= raw_bytes@);
        Ok(())
    }
}

/// The security versions and measurements of the TDX module.
#[derive(Copy, Clone, Debug)]
pub struct TeeTcbInfo {
    valid: [u8; 8],
    tee_tcb_svn: [u8; 16],
    mrseam: [u8; 48],
    mrsignerseam: [u8; 48],
    attributes: [u8; 8],
    tee_tcb_svn2: [u8; 16],
    reserved: [u8; 95],
}

impl View for TeeTcbInfo {
    type V = Seq<u8>;

    closed spec fn view(&self) -> Seq<u8> {
        self.valid@ + self.tee_tcb_svn@ + self.mrseam@ + self.mrsignerseam@ + self.attributes@
            + self.tee_tcb_svn2@ + self.reserved@
    }
}

impl TeeTcbInfo {
    /// A `TeeTcbInfo` whose bytes are all zero.
    pub fn new() -> (info: TeeTcbInfo)
        ensures
            info@ == zeros(TEE_TCB_INFO_LEN as nat),
    {
        let info = TeeTcbInfo {
            valid: [0; 8],
            tee_tcb_svn: [0; 16],
            mrseam: [0; 48],
            mrsignerseam: [0; 48],
            attributes: [0; 8],
            tee_tcb_svn2: [0; 16],
            reserved: [0; 95],
        };
        assert(info@ =~= zeros(TEE_TCB_INFO_LEN as nat));
        info
    }
}

impl TeeTcbInfo {
    /// The binary image of a `TeeTcbInfo` has 239 bytes.
    pub proof fn lemma_layout(&self)
        ensures
            self@.len() == TEE_TCB_INFO_LEN,
    {
    }

    /// Two `TeeTcbInfo` values with the same binary image are equal.
    pub proof fn lemma_image_determines(&self, other: &TeeTcbInfo)
        requires
            self@ == other@,
        ensures
            *self == *other,
    {
        let a = self@;
        let b = other@;
        assert(self.valid@ =~= a.subrange(0, 8));
        assert(other.valid@ =~= b.subrange(0, 8));
        assert(self.valid =~= other.valid);
        assert(self.tee_tcb_svn@ =~= a.subrange(8, 24));
        assert(other.tee_tcb_svn@ =~= b.subrange(8, 24));
        assert(self.tee_tcb_svn =~= other.tee_tcb_svn);
        assert(self.mrseam@ =~= a.subrange(24, 72));
        assert(other.mrseam@ =~= b.subrange(24, 72));
        assert(self.mrseam =~= other.mrseam);
        assert(self.mrsignerseam@ =~= a.subrange(72, 120));
        assert(other.mrsignerseam@ =~= b.subrange(72, 120));
        assert(self.mrsignerseam =~= other.mrsignerseam);
        assert(self.attributes@ =~= a.subrange(120, 128));
        assert(other.attributes@ =~= b.subrange(120, 128));
        assert(self.attributes =~= other.attributes);
        assert(self.tee_tcb_svn2@ =~= a.subrange(128, 144));
        assert(other.tee_tcb_svn2@ =~= b.subrange(128, 144));
        assert(self.tee_tcb_svn2 =~= other.tee_tcb_svn2);
        assert(self.reserved@ =~= a.subrange(144, 239));
        assert(other.reserved@ =~= b.subrange(144, 239));
        assert(self.reserved =~= other.reserved);
    }
}

impl BinaryBlob for TeeTcbInfo {
    open spec fn blob_len() -> nat {
        TEE_TCB_INFO_LEN as nat
    }

    open spec fn blob_name() -> Seq<char> {
        "TeeTcbInfo"@
    }

    fn from_bytes(&mut self, raw_bytes: &[u8]) -> (res: Result<(), Error>) {
        if raw_bytes.len() != TEE_TCB_INFO_LEN {
            return Err(length_error("TeeTcbInfo"));
        }
        self.valid = copy_field::<8>(raw_bytes, 0);
        self.tee_tcb_svn = copy_field::<16>(raw_bytes, 8);
        self.mrseam = copy_field::<48>(raw_bytes, 24);
        self.mrsignerseam = copy_field::<48>(raw_bytes, 72);
        self.attributes = copy_field::<8>(raw_bytes, 120);
        self.tee_tcb_svn2 = copy_field::<16>(raw_bytes, 128);
        self.reserved = copy_field::<95>(raw_bytes, 144);
        assert(self@ =~= raw_bytes@);
        Ok(())
    }
}

/// The full `TDREPORT`: `ReportMacStruct`, `TeeTcbInfo`, reserved bytes, `TdInfo`.
#[derive(Copy, Clone, Debug)]
pub struct TdReportV15 {
    report_mac_struct: ReportMacStruct,
    tee_tcb_info: TeeTcbInfo,
    reserved: [u8; 17],
    td_info: TdInfo,
}

impl View for TdReportV15 {
    type V = Seq<u8>;

    closed spec fn view(&self) -> Seq<u8> {
        self.report_mac_struct@ + self.tee_tcb_info@ + self.reserved@ + self.td_info@
    }
}

impl BinaryBlob for TdReportV15 {
    open spec fn blob_len() -> nat {
        TDREPORT_LEN as nat
    }

    open spec fn blob_name() -> Seq<char> {
        "TdReport"@
    }

    fn from_bytes(&mut self, raw_bytes: &[u8]) -> (res: Result<(), Error>) {
        if raw_bytes.len() != TDREPORT_LEN {
            return Err(length_error("TdReport"));
        }
        let mut report_mac_struct = self.report_mac_struct;
        let mut tee_tcb_info = self.tee_tcb_info;
        let mut td_info = self.td_info;
        match report_mac_struct.from_bytes(slice_subrange(raw_bytes, 0, 256)) {
            Ok(()) => {},
            Err(e) => {
                return Err(e);
            },
        }
        match tee_tcb_info.from_bytes(slice_subrange(raw_bytes, 256, 495)) {
            Ok(()) => {},
            Err(e) => {
                return Err(e);
            },
        }
        match td_info.from_bytes(slice_subrange(raw_bytes, 512, 1024)) {
            Ok(()) => {},
            Err(e) => {
                return Err(e);
            },
        }
        self.report_mac_struct = report_mac_struct;
        self.tee_tcb_info = tee_tcb_info;
        self.reserved = copy_field::<17>(raw_bytes, 495);
        self.td_info = td_info;
        assert(self@ =~= raw_bytes@);
        Ok(())
    }
}

impl TdReportV15 {
    /// A report whose bytes are all zero.
    pub fn new() -> (report: TdReportV15)
        ensures
            report@ == zeros(TDREPORT_LEN as nat),
    {
        let report = TdReportV15 {
            report_mac_struct: ReportMacStruct::new(),
            tee_tcb_info: TeeTcbInfo::new(),
            reserved: [0; 17],
            td_info: TdInfo::new(),
        };
        assert(report@ =~= zeros(TDREPORT_LEN as nat));
        report
    }

    /// The request that asks the CPU for a report: `report_data`, followed by
    /// 1024 zero bytes for the device to fill.
    pub fn create_request(report_data: &[u8; 64]) -> (req: [u8; 1088])
        ensures
            req@ == report_data@ + zeros(TDREPORT_LEN as nat),
    {
        let mut req: [u8; 1088] = [0; 1088];
        let mut i: usize = 0;
        while i < 64
            invariant
                i <= 64,
                forall|j: int| 0 <= j < i ==> req@[j] == report_data@[j],
                forall|j: int| i <= j < 1088 ==> req@[j] == 0u8,
            decreases 64 - i,
        {
            req[i] = report_data[i];
            i += 1;
        }
        assert(req@ =~= report_data@ + zeros(TDREPORT_LEN as nat));
        req
    }

    /// The report that a filled request holds behind its 64 bytes of report data.
    pub fn get_tdreport_from_bytes(raw_bytes: &[u8; 1088]) -> (res: Result<TdReportV15, Error>)
        ensures
            res matches Ok(report) && report@ == raw_bytes@.subrange(
                TDX_REPORT_DATA_LEN as int,
                TDREPORT_REQ_LEN as int,
            ) && report.spec_mrtd()@ == raw_bytes@.subrange(
                TDX_REPORT_DATA_LEN + TD_INFO_OFFSET + MRTD_OFFSET,
                TDX_REPORT_DATA_LEN + TD_INFO_OFFSET + MRTD_OFFSET + TDX_MR_REG_LEN,
            ),
    {
        let mut tdreport = TdReportV15::new();
        let report_bytes = slice_subrange(raw_bytes.as_slice(), 64, 1088);
        match tdreport.from_bytes(report_bytes) {
            Ok(()) => {
                proof {
                    TdReportV15::lemma_mrtd_of_request(&tdreport, raw_bytes@);
                }
                Ok(tdreport)
            },
            Err(e) => Err(e),
        }
    }

    /// The `MRTD` field: the measurement of the trust domain at launch.
    pub closed spec fn spec_mrtd(&self) -> [u8; 48] {
        self.td_info.spec_mrtd()
    }

    /// The binary image of a report is made of the images of its parts, each
    /// at its offset.
    proof fn lemma_parts(&self)
        ensures
            self@.len() == TDREPORT_LEN,
            self.report_mac_struct@ == self@.subrange(0, 256),
            self.tee_tcb_info@ == self@.subrange(256, 495),
            self.reserved@ == self@.subrange(495, 512),
            self.td_info@ == self@.subrange(512, 1024),
    {
        self.report_mac_struct.lemma_layout();
        self.tee_tcb_info.lemma_layout();
        self.td_info.lemma_layout();
        assert(self.report_mac_struct@ =~= self@.subrange(0, 256));
        assert(self.tee_tcb_info@ =~= self@.subrange(256, 495));
        assert(self.reserved@ =~= self@.subrange(495, 512));
        assert(self.td_info@ =~= self@.subrange(512, 1024));
    }

    /// The binary image of a report has 1024 bytes, and `MRTD` is the 48 bytes
    /// from offset 16 of the `TdInfo` on, which starts at offset 512.
    pub proof fn lemma_layout(&self)
        ensures
            self@.len() == TDREPORT_LEN,
            self.spec_mrtd()@ == self@.subrange(
                TD_INFO_OFFSET + MRTD_OFFSET,
                TD_INFO_OFFSET + MRTD_OFFSET + TDX_MR_REG_LEN,
            ),
    {
        self.lemma_parts();
        self.td_info.lemma_layout();
        assert(self@.subrange(512, 1024).subrange(16, 64) =~= self@.subrange(528, 576));
    }

    /// Two reports with the same binary image are equal.
    pub proof fn lemma_image_determines(&self, other: &TdReportV15)
        requires
            self@ == other@,
        ensures
            *self == *other,
    {
        self.lemma_parts();
        other.lemma_parts();
        assert(self.reserved =~= other.reserved);
        self.report_mac_struct.lemma_image_determines(&other.report_mac_struct);
        self.tee_tcb_info.lemma_image_determines(&other.tee_tcb_info);
        self.td_info.lemma_image_determines(&other.td_info);
    }

    /// Whatever 1088 bytes a request buffer holds, the report that is its
    /// last 1024 bytes has as `MRTD` the 48 bytes at offset 592 of the buffer;
    /// for a fresh request these are zero.
    pub proof fn lemma_mrtd_of_request(report: &TdReportV15, request: Seq<u8>)
        requires
            request.len() == TDREPORT_REQ_LEN,
            report@ == request.subrange(TDX_REPORT_DATA_LEN as int, TDREPORT_REQ_LEN as int),
        ensures
            report.spec_mrtd()@ == request.subrange(
                TDX_REPORT_DATA_LEN + TD_INFO_OFFSET + MRTD_OFFSET,
                TDX_REPORT_DATA_LEN + TD_INFO_OFFSET + MRTD_OFFSET + TDX_MR_REG_LEN,
            ),
            forall|report_data: Seq<u8>|
                report_data.len() == TDX_REPORT_DATA_LEN && request == report_data + zeros(
                    TDREPORT_LEN as nat,
                ) ==> report.spec_mrtd()@ == zeros(TDX_MR_REG_LEN as nat),
    {
        report.lemma_layout();
        assert(request.subrange(64, 1088).subrange(528, 576) =~= request.subrange(592, 640));
        assert forall|report_data: Seq<u8>|
            report_data.len() == TDX_REPORT_DATA_LEN && request == report_data + zeros(
                TDREPORT_LEN as nat,
            ) implies report.spec_mrtd()@ == zeros(TDX_MR_REG_LEN as nat) by {
            assert(request.subrange(592, 640) =~= zeros(48));
        }
    }

    /// Returns the `MRTD` field, the 48-byte measurement of the trust domain
    /// at launch.
    pub fn get_mrtd(&self) -> (mrtd: [u8; 48])
        ensures
            mrtd == self.spec_mrtd(),
    {
        self.td_info.mrtd
    }
}

/// The digit `d` in base 10.
pub open spec fn decimal_digit(d: int) -> char {
    seq!['0', '1', '2', '3', '4', '5', '6', '7', '8', '9'][d]
}

/// A byte as a number in base 10, without leading zeros.
pub open spec fn decimal(byte: u8) -> Seq<char> {
    if byte < 10 {
        seq![decimal_digit(byte as int)]
    } else if byte < 100 {
        seq![decimal_digit(byte as int / 10), decimal_digit(byte as int % 10)]
    } else {
        seq![
            decimal_digit(byte as int / 100),
            decimal_digit(byte as int / 10 % 10),
            decimal_digit(byte as int % 10),
        ]
    }
}

/// Bytes as numbers in base 10, with a comma between one and the next.
pub open spec fn decimal_list(bytes: Seq<u8>) -> Seq<char>
    decreases bytes.len(),
{
    if bytes.len() == 0 {
        Seq::empty()
    } else if bytes.len() == 1 {
        decimal(bytes[0])
    } else {
        decimal_list(bytes.drop_last()) + seq![','] + decimal(bytes.last())
    }
}

/// Bytes as a JSON array of numbers, without white space.
pub open spec fn json_array(bytes: Seq<u8>) -> Seq<char> {
    seq!['['] + decimal_list(bytes) + seq![']']
}

/// A member of a JSON object: the name in quotes, a colon, and the bytes as
/// an array.
pub open spec fn json_member(name: Seq<char>, bytes: Seq<u8>) -> Seq<char> {
    "\""@ + name + "\":"@ + json_array(bytes)
}

/// `serde_json::to_string` on a slice of bytes: the JSON array of the bytes
/// as numbers in base 10, in compact form. On a slice of bytes it writes into
/// memory only and has no way to fail.
#[verifier::external_body]
fn json_of_bytes(bytes: &[u8]) -> (res: Result<String, String>)
    ensures
        res is Ok,
        res matches Ok(text) ==> text@ == json_array(bytes@),
{
    match serde_json::to_string(bytes) {
        Ok(text) => Ok(text),
        Err(e) => Err(e.to_string()),
    }
}

/// Appends to `out` the member `name` with the value `bytes`, and after it a
/// comma, or the closing brace behind the last member.
fn push_member(out: &mut String, name: &str, bytes: &[u8], last: bool) -> (res: Result<(), Error>)
    ensures
        res is Ok,
        final(out)@ == old(out)@ + json_member(name@, bytes@) + (if last {
            "}"@
        } else {
            ","@
        }),
{
    let value = match json_of_bytes(bytes) {
        Ok(value) => value,
        Err(e) => {
            return Err(Error::SerializationError(e));
        },
    };
    out.append("\"");
    out.append(name);
    out.append("\":");
    out.append(value.as_str());
    if last {
        out.append("}");
    } else {
        out.append(",");
    }
    assert(out@ =~= old(out)@ + json_member(name@, bytes@) + (if last {
        "}"@
    } else {
        ","@
    }));
    Ok(())
}

/// The members of a JSON object from `members` on: for each its name and
/// its bytes as an array, with a comma behind it, or the closing brace behind
/// the last.
pub open spec fn members_text(members: Seq<(Seq<char>, Seq<u8>)>) -> Seq<char>
    decreases members.len(),
{
    if members.len() == 0 {
        Seq::empty()
    } else {
        json_member(members[0].0, members[0].1) + (if members.len() == 1 {
            "}"@
        } else {
            ","@
        }) + members_text(members.drop_first())
    }
}

/// A JSON object whose members are arrays of bytes: the opening brace, then
/// the members.
pub open spec fn json_object(members: Seq<(Seq<char>, Seq<u8>)>) -> Seq<char> {
    "{"@ + members_text(members)
}

/// A text that lacks the members from the `k`th on still lacks those behind
/// the `k`th once that one and what follows it are appended.
proof fn lemma_member_pushed(text: Seq<char>, members: Seq<(Seq<char>, Seq<u8>)>, k: int)
    requires
        0 <= k < members.len(),
        text + members_text(members.skip(k)) == json_object(members),
    ensures
        text + json_member(members[k].0, members[k].1) + (if k == members.len() - 1 {
            "}"@
        } else {
            ","@
        }) + members_text(members.skip(k + 1)) == json_object(members),
{
    let rest = members.skip(k);
    assert(rest[0] == members[k]);
    assert(rest.drop_first() =~= members.skip(k + 1));
    let member = json_member(members[k].0, members[k].1);
    let mark = if k == members.len() - 1 {
        "}"@
    } else {
        ","@
    };
    assert(members_text(rest) == member + mark + members_text(members.skip(k + 1)));
    assert(text + member + mark + members_text(members.skip(k + 1)) =~= text + (member + mark
        + members_text(members.skip(k + 1))));
}

/// Appends to `out`, a text that lacks the members of an object from the
/// `k`th on, the `k`th member, whose name is `name` and whose value is
/// `bytes`.
fn push_kth(
    out: &mut String,
    name: &str,
    bytes: &[u8],
    Ghost(members): Ghost<Seq<(Seq<char>, Seq<u8>)>>,
    Ghost(k): Ghost<int>,
    last: bool,
) -> (res: Result<(), Error>)
    requires
        0 <= k < members.len(),
        members[k] == (name@, bytes@),
        last == (k == members.len() - 1),
        old(out)@ + members_text(members.skip(k)) == json_object(members),
    ensures
        res is Ok,
        final(out)@ + members_text(members.skip(k + 1)) == json_object(members),
{
    proof {
        lemma_member_pushed(out@, members, k);
    }
    push_member(out, name, bytes, last)
}

/// The members of a `TdInfo` as a JSON object, for its binary image: each
/// field's name with the bytes at the field's place, in the fields' order.
pub open spec fn td_info_members(image: Seq<u8>) -> Seq<(Seq<char>, Seq<u8>)> {
    seq![
        ("attributes"@, image.subrange(0, 8)),
        ("xfam"@, image.subrange(8, 16)),
        ("mrtd"@, image.subrange(16, 64)),
        ("mrconfigid"@, image.subrange(64, 112)),
        ("mrowner"@, image.subrange(112, 160)),
        ("mrownerconfig"@, image.subrange(160, 208)),
        ("rtmr0"@, image.subrange(208, 256)),
        ("rtmr1"@, image.subrange(256, 304)),
        ("rtmr2"@, image.subrange(304, 352)),
        ("rtmr3"@, image.subrange(352, 400)),
        ("servtd_hash"@, image.subrange(400, 448)),
        ("reserved"@, image.subrange(448, 512)),
    ]
}

/// A `TdInfo` as JSON text, for its binary image.
pub open spec fn td_info_json(image: Seq<u8>) -> Seq<char> {
    json_object(td_info_members(image))
}

/// The members of a `ReportMacStruct` as a JSON object, for its binary image: each
/// field's name with the bytes at the field's place, in the fields' order.
pub open spec fn report_mac_struct_members(image: Seq<u8>) -> Seq<(Seq<char>, Seq<u8>)> {
    seq![
        ("report_type"@, image.subrange(0, 8)),
        ("reserved1"@, image.subrange(8, 16)),
        ("cpusvn"@, image.subrange(16, 32)),
        ("tee_tcb_info_hash"@, image.subrange(32, 80)),
        ("tee_info_hash"@, image.subrange(80, 128)),
        ("report_data"@, image.subrange(128, 192)),
        ("reserved2"@, image.subrange(192, 224)),
        ("mac"@, image.subrange(224, 256)),
    ]
}

/// A `ReportMacStruct` as JSON text, for its binary image.
pub open spec fn report_mac_struct_json(image: Seq<u8>) -> Seq<char> {
    json_object(report_mac_struct_members(image))
}

/// The members of a `TeeTcbInfo` as a JSON object, for its binary image: each
/// field's name with the bytes at the field's place, in the fields' order.
pub open spec fn tee_tcb_info_members(image: Seq<u8>) -> Seq<(Seq<char>, Seq<u8>)> {
    seq![
        ("valid"@, image.subrange(0, 8)),
        ("tee_tcb_svn"@, image.subrange(8, 24)),
        ("mrseam"@, image.subrange(24, 72)),
        ("mrsignerseam"@, image.subrange(72, 120)),
        ("attributes"@, image.subrange(120, 128)),
        ("tee_tcb_svn2"@, image.subrange(128, 144)),
        ("reserved"@, image.subrange(144, 239)),
    ]
}

/// A `TeeTcbInfo` as JSON text, for its binary image.
pub open spec fn tee_tcb_info_json(image: Seq<u8>) -> Seq<char> {
    json_object(tee_tcb_info_members(image))
}

/// A `TDREPORT` as JSON text, for its binary image: an object whose members
/// are the three structures and the reserved bytes between them.
pub open spec fn tdreport_json(image: Seq<u8>) -> Seq<char> {
    "{\"report_mac_struct\":"@ + report_mac_struct_json(image.subrange(0, 256))
        + ",\"tee_tcb_info\":"@ + tee_tcb_info_json(image.subrange(256, 495)) + ","@ + json_member(
        "reserved"@,
        image.subrange(495, 512),
    ) + ","@ + "\"td_info\":"@ + td_info_json(image.subrange(512, 1024)) + "}"@
}

impl TdInfo {
    /// The members of the structure are its fields: each field holds the bytes
    /// at its place in the binary image.
    proof fn lemma_members(&self)
        ensures
            td_info_members(self@)[0] == ("attributes"@, self.attributes@),
            td_info_members(self@)[1] == ("xfam"@, self.xfam@),
            td_info_members(self@)[2] == ("mrtd"@, self.mrtd@),
            td_info_members(self@)[3] == ("mrconfigid"@, self.mrconfigid@),
            td_info_members(self@)[4] == ("mrowner"@, self.mrowner@),
            td_info_members(self@)[5] == ("mrownerconfig"@, self.mrownerconfig@),
            td_info_members(self@)[6] == ("rtmr0"@, self.rtmr0@),
            td_info_members(self@)[7] == ("rtmr1"@, self.rtmr1@),
            td_info_members(self@)[8] == ("rtmr2"@, self.rtmr2@),
            td_info_members(self@)[9] == ("rtmr3"@, self.rtmr3@),
            td_info_members(self@)[10] == ("servtd_hash"@, self.servtd_hash@),
            td_info_members(self@)[11] == ("reserved"@, self.reserved@),
    {
        assert(self.attributes@ =~= self@.subrange(0, 8));
        assert(self.xfam@ =~= self@.subrange(8, 16));
        assert(self.mrtd@ =~= self@.subrange(16, 64));
        assert(self.mrconfigid@ =~= self@.subrange(64, 112));
        assert(self.mrowner@ =~= self@.subrange(112, 160));
        assert(self.mrownerconfig@ =~= self@.subrange(160, 208));
        assert(self.rtmr0@ =~= self@.subrange(208, 256));
        assert(self.rtmr1@ =~= self@.subrange(256, 304));
        assert(self.rtmr2@ =~= self@.subrange(304, 352));
        assert(self.rtmr3@ =~= self@.subrange(352, 400));
        assert(self.servtd_hash@ =~= self@.subrange(400, 448));
        assert(self.reserved@ =~= self@.subrange(448, 512));
    }

    /// The structure as JSON text: an object with one member for each field, in
    /// the fields' order, each an array of the field's bytes as numbers.
    pub fn to_json(&self) -> (res: Result<String, Error>)
        ensures
            res matches Ok(text) && text@ == td_info_json(self@),
    {
        let ghost members = td_info_members(self@);
        proof {
            self.lemma_members();
            assert(members.skip(0) =~= members);
        }
        let mut out = String::from_str("{");
        push_kth(&mut out, "attributes", self.attributes.as_slice(), Ghost(members), Ghost(0), false)?;
        push_kth(&mut out, "xfam", self.xfam.as_slice(), Ghost(members), Ghost(1), false)?;
        push_kth(&mut out, "mrtd", self.mrtd.as_slice(), Ghost(members), Ghost(2), false)?;
        push_kth(&mut out, "mrconfigid", self.mrconfigid.as_slice(), Ghost(members), Ghost(3), false)?;
        push_kth(&mut out, "mrowner", self.mrowner.as_slice(), Ghost(members), Ghost(4), false)?;
        push_kth(&mut out, "mrownerconfig", self.mrownerconfig.as_slice(), Ghost(members), Ghost(5), false)?;
        push_kth(&mut out, "rtmr0", self.rtmr0.as_slice(), Ghost(members), Ghost(6), false)?;
        push_kth(&mut out, "rtmr1", self.rtmr1.as_slice(), Ghost(members), Ghost(7), false)?;
        push_kth(&mut out, "rtmr2", self.rtmr2.as_slice(), Ghost(members), Ghost(8), false)?;
        push_kth(&mut out, "rtmr3", self.rtmr3.as_slice(), Ghost(members), Ghost(9), false)?;
        push_kth(&mut out, "servtd_hash", self.servtd_hash.as_slice(), Ghost(members), Ghost(10), false)?;
        push_kth(&mut out, "reserved", self.reserved.as_slice(), Ghost(members), Ghost(11), true)?;
        assert(members.skip(12).len() == 0);
        assert(out@ =~= out@ + members_text(members.skip(12)));
        Ok(out)
    }
}

impl ReportMacStruct {
    /// The members of the structure are its fields: each field holds the bytes
    /// at its place in the binary image.
    proof fn lemma_members(&self)
        ensures
            report_mac_struct_members(self@)[0] == ("report_type"@, self.report_type@),
            report_mac_struct_members(self@)[1] == ("reserved1"@, self.reserved1@),
            report_mac_struct_members(self@)[2] == ("cpusvn"@, self.cpusvn@),
            report_mac_struct_members(self@)[3] == ("tee_tcb_info_hash"@, self.tee_tcb_info_hash@),
            report_mac_struct_members(self@)[4] == ("tee_info_hash"@, self.tee_info_hash@),
            report_mac_struct_members(self@)[5] == ("report_data"@, self.report_data@),
            report_mac_struct_members(self@)[6] == ("reserved2"@, self.reserved2@),
            report_mac_struct_members(self@)[7] == ("mac"@, self.mac@),
    {
        assert(self.report_type@ =~= self@.subrange(0, 8));
        assert(self.reserved1@ =~= self@.subrange(8, 16));
        assert(self.cpusvn@ =~= self@.subrange(16, 32));
        assert(self.tee_tcb_info_hash@ =~= self@.subrange(32, 80));
        assert(self.tee_info_hash@ =~= self@.subrange(80, 128));
        assert(self.report_data@ =~= self@.subrange(128, 192));
        assert(self.reserved2@ =~= self@.subrange(192, 224));
        assert(self.mac@ =~= self@.subrange(224, 256));
    }

    /// The structure as JSON text: an object with one member for each field, in
    /// the fields' order, each an array of the field's bytes as numbers.
    pub fn to_json(&self) -> (res: Result<String, Error>)
        ensures
            res matches Ok(text) && text@ == report_mac_struct_json(self@),
    {
        let ghost members = report_mac_struct_members(self@);
        proof {
            self.lemma_members();
            assert(members.skip(0) =~= members);
        }
        let mut out = String::from_str("{");
        push_kth(&mut out, "report_type", self.report_type.as_slice(), Ghost(members), Ghost(0), false)?;
        push_kth(&mut out, "reserved1", self.reserved1.as_slice(), Ghost(members), Ghost(1), false)?;
        push_kth(&mut out, "cpusvn", self.cpusvn.as_slice(), Ghost(members), Ghost(2), false)?;
        push_kth(&mut out, "tee_tcb_info_hash", self.tee_tcb_info_hash.as_slice(), Ghost(members), Ghost(3), false)?;
        push_kth(&mut out, "tee_info_hash", self.tee_info_hash.as_slice(), Ghost(members), Ghost(4), false)?;
        push_kth(&mut out, "report_data", self.report_data.as_slice(), Ghost(members), Ghost(5), false)?;
        push_kth(&mut out, "reserved2", self.reserved2.as_slice(), Ghost(members), Ghost(6), false)?;
        push_kth(&mut out, "mac", self.mac.as_slice(), Ghost(members), Ghost(7), true)?;
        assert(members.skip(8).len() == 0);
        assert(out@ =~= out@ + members_text(members.skip(8)));
        Ok(out)
    }
}

impl TeeTcbInfo {
    /// The members of the structure are its fields: each field holds the bytes
    /// at its place in the binary image.
    proof fn lemma_members(&self)
        ensures
            tee_tcb_info_members(self@)[0] == ("valid"@, self.valid@),
            tee_tcb_info_members(self@)[1] == ("tee_tcb_svn"@, self.tee_tcb_svn@),
            tee_tcb_info_members(self@)[2] == ("mrseam"@, self.mrseam@),
            tee_tcb_info_members(self@)[3] == ("mrsignerseam"@, self.mrsignerseam@),
            tee_tcb_info_members(self@)[4] == ("attributes"@, self.attributes@),
            tee_tcb_info_members(self@)[5] == ("tee_tcb_svn2"@, self.tee_tcb_svn2@),
            tee_tcb_info_members(self@)[6] == ("reserved"@, self.reserved@),
    {
        assert(self.valid@ =~= self@.subrange(0, 8));
        assert(self.tee_tcb_svn@ =~= self@.subrange(8, 24));
        assert(self.mrseam@ =~= self@.subrange(24, 72));
        assert(self.mrsignerseam@ =~= self@.subrange(72, 120));
        assert(self.attributes@ =~= self@.subrange(120, 128));
        assert(self.tee_tcb_svn2@ =~= self@.subrange(128, 144));
        assert(self.reserved@ =~= self@.subrange(144, 239));
    }

    /// The structure as JSON text: an object with one member for each field, in
    /// the fields' order, each an array of the field's bytes as numbers.
    pub fn to_json(&self) -> (res: Result<String, Error>)
        ensures
            res matches Ok(text) && text@ == tee_tcb_info_json(self@),
    {
        let ghost members = tee_tcb_info_members(self@);
        proof {
            self.lemma_members();
            assert(members.skip(0) =~= members);
        }
        let mut out = String::from_str("{");
        push_kth(&mut out, "valid", self.valid.as_slice(), Ghost(members), Ghost(0), false)?;
        push_kth(&mut out, "tee_tcb_svn", self.tee_tcb_svn.as_slice(), Ghost(members), Ghost(1), false)?;
        push_kth(&mut out, "mrseam", self.mrseam.as_slice(), Ghost(members), Ghost(2), false)?;
        push_kth(&mut out, "mrsignerseam", self.mrsignerseam.as_slice(), Ghost(members), Ghost(3), false)?;
        push_kth(&mut out, "attributes", self.attributes.as_slice(), Ghost(members), Ghost(4), false)?;
        push_kth(&mut out, "tee_tcb_svn2", self.tee_tcb_svn2.as_slice(), Ghost(members), Ghost(5), false)?;
        push_kth(&mut out, "reserved", self.reserved.as_slice(), Ghost(members), Ghost(6), true)?;
        assert(members.skip(7).len() == 0);
        assert(out@ =~= out@ + members_text(members.skip(7)));
        Ok(out)
    }
}

impl TdReportV15 {
    /// The report as JSON text: an object with the members
    /// `report_mac_struct`, `tee_tcb_info`, `reserved` and `td_info`, in this
    /// order and without white space.
    pub fn to_json(&self) -> (res: Result<String, Error>)
        ensures
            res matches Ok(text) && text@ == tdreport_json(self@),
    {
        proof {
            self.lemma_parts();
        }
        let report_mac_struct = self.report_mac_struct.to_json()?;
        let tee_tcb_info = self.tee_tcb_info.to_json()?;
        let td_info = self.td_info.to_json()?;
        let mut out = String::from_str("{\"report_mac_struct\":");
        out.append(report_mac_struct.as_str());
        out.append(",\"tee_tcb_info\":");
        out.append(tee_tcb_info.as_str());
        out.append(",");
        push_member(&mut out, "reserved", self.reserved.as_slice(), false)?;
        out.append("\"td_info\":");
        out.append(td_info.as_str());
        out.append("}");
        Ok(out)
    }
}

} // verus!
